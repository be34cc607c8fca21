//! The configuration of a trace: the program to run and the plugins to bind.
//!
//! The values are plain data. Reading them from a file is up to the caller.

use vstd::prelude::*;

verus! {

/// The program to trace.
#[derive(Debug, Clone)]
pub struct Config {
    file_path: Option<String>,
    argv: Option<String>,
    /// The architecture of the program, as configured; not interpreted.
    pub arch: Option<String>,
}

/// A `Config` with its strings as sequences.
pub struct ConfigView {
    /// The path of the executable.
    pub file_path: Option<Seq<char>>,
    /// The one argument the executable is started with.
    pub argv: Option<Seq<char>>,
    pub arch: Option<Seq<char>>,
}

impl View for Config {
    type V = ConfigView;

    closed spec fn view(&self) -> ConfigView {
        ConfigView {
            file_path: self.file_path.deep_view(),
            argv: self.argv.deep_view(),
            arch: self.arch.deep_view(),
        }
    }
}

impl DeepView for Config {
    type V = ConfigView;

    open spec fn deep_view(&self) -> ConfigView {
        self@
    }
}

impl Config {
    /// A configuration with the given entries; `None` stands for an entry
    /// that was left out.
    pub fn new(file_path: Option<String>, argv: Option<String>, arch: Option<String>) -> (config:
        Self)
        ensures
            config@ == (ConfigView {
                file_path: file_path.deep_view(),
                argv: argv.deep_view(),
                arch: arch.deep_view(),
            }),
    {
        Config { file_path, argv, arch }
    }

    /// Whether the path of the executable is configured.
    pub fn has_file(&self) -> (present: bool)
        ensures
            present == self@.file_path is Some,
    {
        self.file_path.is_some()
    }

    /// Whether the argument of the executable is configured.
    pub fn has_argv(&self) -> (present: bool)
        ensures
            present == self@.argv is Some,
    {
        self.argv.is_some()
    }

    /// The path of the executable. It has to be configured.
    pub fn get_file(&self) -> (file: String)
        requires
            self@.file_path is Some,
        ensures
            Some(file@) == self@.file_path,
    {
        match &self.file_path {
            Some(file) => file.clone(),
            None => String::new(),
        }
    }

    /// The argument of the executable. It has to be configured.
    pub fn get_argv(&self) -> (argv: String)
        requires
            self@.argv is Some,
        ensures
            Some(argv@) == self@.argv,
    {
        match &self.argv {
            Some(argv) => argv.clone(),
            None => String::new(),
        }
    }
}

/// The largest number of arguments a plugin entry can declare.
pub const MAX_PLUGIN_ARGS: u8 = 4;

/// One plugin entry of the configuration: the syscall it is bound to, its
/// display name, and up to four string arguments in numbered slots, of which
/// the first `argv_num` are in use.
#[derive(Debug, Clone)]
pub struct PlugConfig {
    /// The display name of the plugin.
    pub name: String,
    /// The number of the syscall the plugin is bound to.
    pub syscall_number: u64,
    argv_num: Option<u8>,
    argv1: Option<String>,
    argv2: Option<String>,
    argv3: Option<String>,
    argv4: Option<String>,
}

/// A `PlugConfig` with its strings as sequences and its four slots in order.
pub struct PlugConfigView {
    pub name: Seq<char>,
    pub syscall_number: u64,
    /// The declared number of arguments, if any was declared.
    pub argv_num: Option<u8>,
    /// The four argument slots, first slot first; `None` for an empty slot.
    pub slots: Seq<Option<Seq<char>>>,
}

impl PlugConfigView {
    /// Whether the declaration of the arguments can be met: at most four are
    /// declared and each declared slot is filled.
    pub open spec fn args_present(self) -> bool {
        self.argv_num matches Some(n) ==> {
            &&& n <= MAX_PLUGIN_ARGS
            &&& forall|i: int| 0 <= i < n ==> (#[trigger] self.slots[i]) is Some
        }
    }

    /// The arguments of the plugin: none if none is declared, else the
    /// declared number of slots, first slot first.
    pub open spec fn argvs(self) -> Option<Seq<Seq<char>>> {
        match self.argv_num {
            None => None,
            Some(n) => if n == 0 {
                None
            } else {
                Some(Seq::new(n as nat, |i: int| self.slots[i]->0))
            },
        }
    }
}

impl View for PlugConfig {
    type V = PlugConfigView;

    closed spec fn view(&self) -> PlugConfigView {
        PlugConfigView {
            name: self.name@,
            syscall_number: self.syscall_number,
            argv_num: self.argv_num,
            slots: seq![
                self.argv1.deep_view(),
                self.argv2.deep_view(),
                self.argv3.deep_view(),
                self.argv4.deep_view(),
            ],
        }
    }
}

impl DeepView for PlugConfig {
    type V = PlugConfigView;

    open spec fn deep_view(&self) -> PlugConfigView {
        self@
    }
}

impl PlugConfig {
    /// A plugin entry with the given values; `None` stands for an entry that
    /// was left out.
    pub fn new(
        name: String,
        syscall_number: u64,
        argv_num: Option<u8>,
        argv1: Option<String>,
        argv2: Option<String>,
        argv3: Option<String>,
        argv4: Option<String>,
    ) -> (entry: Self)
        ensures
            entry@ == (PlugConfigView {
                name: name@,
                syscall_number,
                argv_num,
                slots: seq![
                    argv1.deep_view(),
                    argv2.deep_view(),
                    argv3.deep_view(),
                    argv4.deep_view(),
                ],
            }),
    {
        PlugConfig { name, syscall_number, argv_num, argv1, argv2, argv3, argv4 }
    }

    /// The display name of the plugin.
    pub fn plugin_name(&self) -> (name: String)
        ensures
            name@ == self@.name,
    {
        self.name.clone()
    }

    /// The number of the syscall the plugin is bound to.
    pub fn syscall_id(&self) -> (id: u64)
        ensures
            id == self@.syscall_number,
    {
        self.syscall_number
    }

    /// The number of arguments the entry declares, if it declares one.
    pub fn declared_count(&self) -> (count: Option<u8>)
        ensures
            count == self@.argv_num,
    {
        self.argv_num
    }

    /// What the argument slot `index` holds, counted from zero: `None` for an
    /// empty slot and for an index beyond the fourth slot.
    pub fn slot(&self, index: usize) -> (arg: Option<String>)
        ensures
            arg.deep_view() == if index < 4 {
                self@.slots[index as int]
            } else {
                None
            },
    {
        let slot = match index {
            0 => &self.argv1,
            1 => &self.argv2,
            2 => &self.argv3,
            3 => &self.argv4,
            _ => return None,
        };
        match slot {
            Some(arg) => Some(arg.clone()),
            None => None,
        }
    }

    /// Tells whether `get_argvs` can be called: at most four arguments are
    /// declared and none of the declared slots is empty.
    pub fn has_declared_argvs(&self) -> (present: bool)
        ensures
            present == self@.args_present(),
    {
        let n: u8 = match self.argv_num {
            Some(n) => n,
            None => return true,
        };
        n <= MAX_PLUGIN_ARGS && (n < 1 || self.argv1.is_some()) && (n < 2 || self.argv2.is_some())
            && (n < 3 || self.argv3.is_some()) && (n < 4 || self.argv4.is_some())
    }

    /// The arguments of the plugin. `None` if no number of arguments is
    /// declared or the number is zero; otherwise as many strings as declared,
    /// taken from the slots in order. The declaration has to be one that can
    /// be met (see `has_declared_argvs`).
    pub fn get_argvs(&self) -> (argvs: Option<Vec<String>>)
        requires
            self@.args_present(),
        ensures
            argvs.deep_view() == self@.argvs(),
    {
        let argv_num: u8 = match self.argv_num {
            Some(argv_num) => argv_num,
            None => return None,
        };
        if argv_num == 0 {
            return None;
        }
        let mut r: Vec<String> = Vec::new();
        if argv_num >= 1 {
            match &self.argv1 {
                Some(arg) => r.push(arg.clone()),
                None => {},
            }
        }
        if argv_num >= 2 {
            match &self.argv2 {
                Some(arg) => r.push(arg.clone()),
                None => {},
            }
        }
        if argv_num >= 3 {
            match &self.argv3 {
                Some(arg) => r.push(arg.clone()),
                None => {},
            }
        }
        if argv_num >= 4 {
            match &self.argv4 {
                Some(arg) => r.push(arg.clone()),
                None => {},
            }
        }
        Some(r)
    }
}

/// The whole configuration: the program to trace and, if any are configured,
/// the plugin entries in the order in which they were written.
#[derive(Debug)]
pub struct Conf {
    pub config: Config,
    pub plugin: Option<Vec<PlugConfig>>,
}

} // verus!
