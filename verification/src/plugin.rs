//! Plugin descriptors and the dispatch table that binds them to syscalls.
//!
//! The table maps a syscall number to its chain: the plugins bound to that
//! syscall, in the order of the configuration. Plugin entries are paired
//! with the built-in handlers by position: the first entry gets the first
//! handler, the second entry the second, whatever the entries are called.

use vstd::prelude::*;
use std::collections::HashMap;
use crate::conf::{PlugConfig, PlugConfigView};

pub mod default_io;
pub mod read_default;
pub mod record;
pub mod remote;
pub mod write_default;

verus! {

broadcast use vstd::std_specs::hash::group_hash_axioms;

/// What a handler reports back to the supervisor for one trace-stop.
#[derive(Clone, Copy, Debug, PartialEq, Eq, Structural)]
pub enum PluginStatus {
    /// The handler is done; the next handler of the chain runs.
    StatusOk,
    /// The handler is done; the rest of the chain is skipped for this stop.
    StatusPass,
    /// The handler hit an unrecoverable error; the supervisor must abort.
    StatusError,
    /// The handler failed for this stop only; the next handler still runs.
    StatusFailed,
}

/// The built-in handlers a plugin entry can be bound to.
#[derive(Clone, Copy, Debug, PartialEq, Eq, Structural)]
pub enum HandlerKind {
    /// Logs the buffer of a `read` call.
    ReadDefault,
    /// Logs the buffer of a `write` call.
    WriteDefault,
}

/// One plugin, ready to run: its name, its arguments and its handler.
#[derive(Debug, Clone)]
pub struct PluginInterface {
    pub plug_name: String,
    pub argvs: Option<Vec<String>>,
    pub function: HandlerKind,
}

/// A `PluginInterface` with its strings as sequences.
pub struct PluginInterfaceView {
    pub plug_name: Seq<char>,
    pub argvs: Option<Seq<Seq<char>>>,
    pub function: HandlerKind,
}

impl View for PluginInterface {
    type V = PluginInterfaceView;

    open spec fn view(&self) -> PluginInterfaceView {
        PluginInterfaceView {
            plug_name: self.plug_name@,
            argvs: self.argvs.deep_view(),
            function: self.function,
        }
    }
}

impl DeepView for PluginInterface {
    type V = PluginInterfaceView;

    open spec fn deep_view(&self) -> PluginInterfaceView {
        self@
    }
}

impl PluginInterface {
    /// A plugin with the given name and arguments, run by `func`.
    pub fn new(name: String, argvs: Option<Vec<String>>, func: HandlerKind) -> (plugin: Self)
        ensures
            plugin@ == (PluginInterfaceView {
                plug_name: name@,
                argvs: argvs.deep_view(),
                function: func,
            }),
    {
        PluginInterface { plug_name: name, argvs, function: func }
    }
}

/// The table the supervisor looks a syscall number up in.
pub type DispatchTable = HashMap<u64, Vec<PluginInterface>>;

/// A dispatch table as a map from syscall number to chain.
pub open spec fn table_view(table: DispatchTable) -> Map<u64, Seq<PluginInterfaceView>> {
    Map::new(|id: u64| table@.contains_key(id), |id: u64| table@[id].deep_view())
}

/// The plugin that a configuration entry and the handler paired with it make.
pub open spec fn bound_plugin(entry: PlugConfigView, handler: HandlerKind) -> PluginInterfaceView {
    PluginInterfaceView { plug_name: entry.name, argvs: entry.argvs(), function: handler }
}

/// Every configuration entry paired with the handler at its own position,
/// each with the syscall number it is bound to, in configuration order.
pub open spec fn bindings(builtins: Seq<HandlerKind>, config: Seq<PlugConfigView>) -> Seq<
    (u64, PluginInterfaceView),
> {
    Seq::new(
        config.len(),
        |i: int| (config[i].syscall_number, bound_plugin(config[i], builtins[i])),
    )
}

/// The test that picks the bindings of syscall `id`.
pub open spec fn bound_to(id: u64) -> spec_fn((u64, PluginInterfaceView)) -> bool {
    |b: (u64, PluginInterfaceView)| b.0 == id
}

/// The plugin of a binding.
pub open spec fn plugin_of() -> spec_fn((u64, PluginInterfaceView)) -> PluginInterfaceView {
    |b: (u64, PluginInterfaceView)| b.1
}

/// The chain of syscall `id`: the plugins bound to it, in configuration order.
pub open spec fn chain_of(builtins: Seq<HandlerKind>, config: Seq<PlugConfigView>, id: u64) -> Seq<
    PluginInterfaceView,
> {
    bindings(builtins, config).filter(bound_to(id)).map_values(plugin_of())
}

/// The table a configuration describes: a chain for every syscall that some
/// entry is bound to, and for no other.
pub open spec fn dispatch_table(builtins: Seq<HandlerKind>, config: Seq<PlugConfigView>) -> Map<
    u64,
    Seq<PluginInterfaceView>,
> {
    Map::new(
        |id: u64| chain_of(builtins, config, id).len() > 0,
        |id: u64| chain_of(builtins, config, id),
    )
}

/// The plugin entries of a configuration, none if it has no plugin section.
pub open spec fn configured_plugins(plug_conf: Option<Vec<PlugConfig>>) -> Seq<PlugConfigView> {
    match plug_conf {
        Some(config) => config.deep_view(),
        None => Seq::empty(),
    }
}

/// Whether a table can be built: there is a handler left for every entry, and
/// the arguments that each entry declares are there.
pub open spec fn bindable(handlers: nat, config: Seq<PlugConfigView>) -> bool {
    &&& config.len() <= handlers
    &&& forall|i: int| 0 <= i < config.len() ==> (#[trigger] config[i]).args_present()
}

/// The built-in handlers, in the order in which plugin entries are paired
/// with them.
pub open spec fn spec_builtin_handlers() -> Seq<HandlerKind> {
    seq![HandlerKind::ReadDefault]
}

/// The built-in handlers, in the order in which plugin entries are paired
/// with them.
pub fn builtin_handlers() -> (handlers: Vec<HandlerKind>)
    ensures
        handlers@ == spec_builtin_handlers(),
{
    let mut handlers: Vec<HandlerKind> = Vec::new();
    handlers.push(HandlerKind::ReadDefault);
    handlers
}

/// Tells whether a table can be built from `plug_conf` with `handlers`
/// built-in handlers at hand.
pub fn can_bind(handlers: usize, plug_conf: &Option<Vec<PlugConfig>>) -> (ok: bool)
    ensures
        ok == bindable(handlers as nat, configured_plugins(*plug_conf)),
{
    let config = match plug_conf {
        Some(config) => config,
        None => return true,
    };
    let ghost entries = config.deep_view();
    if config.len() > handlers {
        return false;
    }
    let mut i: usize = 0;
    while i < config.len()
        invariant
            i <= config.len(),
            config.len() <= handlers,
            entries == config.deep_view(),
            entries == configured_plugins(*plug_conf),
            forall|j: int| 0 <= j < i ==> (#[trigger] entries[j]).args_present(),
        decreases config.len() - i,
    {
        if !config[i].has_declared_argvs() {
            assert(!entries[i as int].args_present());
            return false;
        }
        i = i + 1;
    }
    true
}

/// How `bindings` grows when one more entry is bound.
proof fn bindings_of_prefix(builtins: Seq<HandlerKind>, config: Seq<PlugConfigView>, n: int)
    requires
        0 <= n < config.len(),
    ensures
        bindings(builtins, config.take(n + 1)) == bindings(builtins, config.take(n)).push(
            (config[n].syscall_number, bound_plugin(config[n], builtins[n])),
        ),
        forall|id: u64|
            #[trigger] chain_of(builtins, config.take(n + 1), id) == if id
                == config[n].syscall_number {
                chain_of(builtins, config.take(n), id).push(bound_plugin(config[n], builtins[n]))
            } else {
                chain_of(builtins, config.take(n), id)
            },
{
    let before = bindings(builtins, config.take(n));
    let bound = (config[n].syscall_number, bound_plugin(config[n], builtins[n]));
    assert(bindings(builtins, config.take(n + 1)) =~= before.push(bound));
    assert forall|id: u64|
        #[trigger] chain_of(builtins, config.take(n + 1), id) == if id
            == config[n].syscall_number {
            chain_of(builtins, config.take(n), id).push(bound.1)
        } else {
            chain_of(builtins, config.take(n), id)
        } by {
        before.lemma_filter_push(bound, bound_to(id));
    }
}

/// Builds the dispatch table of a configuration over the given built-in
/// handlers. Entry `i` is bound to handler `i`; the plugin it makes is put at
/// the end of the chain of its syscall. A configuration without a plugin
/// section gives the empty table.
///
/// There has to be a handler for every entry, and each entry has to hold the
/// arguments it declares (see `can_bind`).
pub fn build_table(builtins: &Vec<HandlerKind>, plug_conf: Option<Vec<PlugConfig>>) -> (table:
    DispatchTable)
    requires
        bindable(builtins@.len(), configured_plugins(plug_conf)),
    ensures
        table_view(table) == dispatch_table(builtins@, configured_plugins(plug_conf)),
{
    let mut table: DispatchTable = HashMap::new();
    let config = match plug_conf {
        None => return table,
        Some(config) => config,
    };
    let ghost entries = config.deep_view();
    let mut idx: usize = 0;
    while idx < config.len()
        invariant
            idx <= config.len(),
            entries == config.deep_view(),
            bindable(builtins@.len(), entries),
            table_view(table) == dispatch_table(builtins@, entries.take(idx as int)),
        decreases config.len() - idx,
    {
        let ghost before = table@;
        let ghost before_view = table_view(table);
        let ghost bound = entries.take(idx as int);
        let entry = &config[idx];
        assert(entry@ == entries[idx as int]);
        let syscall_num = entry.syscall_id();
        let pl_interface = PluginInterface::new(
            entry.plugin_name(),
            entry.get_argvs(),
            builtins[idx],
        );
        assert(table_view(table).contains_key(syscall_num) == before.contains_key(syscall_num));
        assert(before.contains_key(syscall_num) ==> table_view(table)[syscall_num]
            == before[syscall_num].deep_view());
        let mut chain: Vec<PluginInterface> = match table.remove(&syscall_num) {
            Some(chain) => chain,
            None => Vec::new(),
        };
        let ghost old_chain = chain.deep_view();
        chain.push(pl_interface);
        table.insert(syscall_num, chain);
        proof {
            bindings_of_prefix(builtins@, entries, idx as int);
            assert forall|id: u64|
                table_view(table).contains_key(id) == dispatch_table(
                    builtins@,
                    entries.take(idx + 1),
                ).contains_key(id) by {
                assert(before_view.contains_key(id) == (chain_of(builtins@, bound, id).len()
                    > 0));
            }
            assert forall|id: u64| table_view(table).contains_key(id) implies table_view(table)[id]
                == dispatch_table(builtins@, entries.take(idx + 1))[id] by {
                if id != syscall_num {
                    assert(before_view[id] == before[id].deep_view());
                }
            }
        }
        idx = idx + 1;
    }
    assert(entries.take(config.len() as int) =~= entries);
    table
}

/// Builds the dispatch table of a configuration over the built-in handlers
/// of this library (see `build_table`).
pub fn get_plugininterface_vec(plug_conf: Option<Vec<PlugConfig>>) -> (table: DispatchTable)
    requires
        bindable(spec_builtin_handlers().len(), configured_plugins(plug_conf)),
    ensures
        table_view(table) == dispatch_table(spec_builtin_handlers(), configured_plugins(plug_conf)),
{
    let plugin_interface_array = builtin_handlers();
    build_table(&plugin_interface_array, plug_conf)
}

/// A configuration without plugin entries gives the empty table.
pub proof fn no_entries_no_chains(builtins: Seq<HandlerKind>)
    ensures
        dispatch_table(builtins, Seq::empty()) == Map::<u64, Seq<PluginInterfaceView>>::empty(),
{
}

/// What one more entry at the end of the configuration does to the table: the
/// plugin it makes with the handler at its position goes to the end of the
/// chain of its syscall, which is created if it was not there, and every
/// other chain stays as it was.
pub proof fn one_more_entry_extends_one_chain(
    builtins: Seq<HandlerKind>,
    config: Seq<PlugConfigView>,
    entry: PlugConfigView,
)
    ensures
        dispatch_table(builtins, config.push(entry)) == dispatch_table(builtins, config).insert(
            entry.syscall_number,
            chain_of(builtins, config, entry.syscall_number).push(
                bound_plugin(entry, builtins[config.len() as int]),
            ),
        ),
{
    let longer = config.push(entry);
    assert(longer.take(config.len() as int) =~= config);
    assert(longer.take(config.len() as int + 1) =~= longer);
    bindings_of_prefix(builtins, longer, config.len() as int);
}

/// A syscall has a chain exactly if some entry of the configuration is bound
/// to it, and every chain holds at least one plugin.
pub proof fn chains_are_those_of_bound_syscalls(
    builtins: Seq<HandlerKind>,
    config: Seq<PlugConfigView>,
    id: u64,
)
    ensures
        dispatch_table(builtins, config).contains_key(id) <==> exists|i: int|
            0 <= i < config.len() && (#[trigger] config[i]).syscall_number == id,
        dispatch_table(builtins, config).contains_key(id) ==> dispatch_table(
            builtins,
            config,
        )[id].len() > 0,
    decreases config.len(),
{
    if config.len() > 0 {
        let front = config.drop_last();
        let entry = config.last();
        assert(front.push(entry) =~= config);
        chains_are_those_of_bound_syscalls(builtins, front, id);
        one_more_entry_extends_one_chain(builtins, front, entry);
    }
}

/// Entries are paired with handlers by position, whatever their names: the
/// plugin made of entry `i` and handler `i` is in the chain of the syscall
/// that entry `i` is bound to.
pub proof fn entry_is_bound_by_position(
    builtins: Seq<HandlerKind>,
    config: Seq<PlugConfigView>,
    i: int,
)
    requires
        0 <= i < config.len(),
    ensures
        dispatch_table(builtins, config).contains_key(config[i].syscall_number),
        dispatch_table(builtins, config)[config[i].syscall_number].contains(
            bound_plugin(config[i], builtins[i]),
        ),
{
    let id = config[i].syscall_number;
    let all = bindings(builtins, config);
    all.lemma_filter_contains(bound_to(id), i);
    let chosen = all.filter(bound_to(id));
    let at = choose|at: int| 0 <= at < chosen.len() && chosen[at] == all[i];
    assert(chain_of(builtins, config, id)[at] == bound_plugin(config[i], builtins[i]));
}

} // verus!
