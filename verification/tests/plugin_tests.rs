use monitor_process_io::conf::PlugConfig;
use monitor_process_io::plugin::{
    build_table, builtin_handlers, can_bind, get_plugininterface_vec, HandlerKind,
    PluginInterface, PluginStatus,
};

fn plug(name: &str, syscall: u64, args: &[&str]) -> PlugConfig {
    let slot = |i: usize| args.get(i).map(|a| String::from(*a));
    let count = if args.is_empty() { None } else { Some(args.len() as u8) };
    PlugConfig::new(String::from(name), syscall, count, slot(0), slot(1), slot(2), slot(3))
}

#[test]
fn plugin_status_has_four_outcomes() {
    let all = [
        PluginStatus::StatusOk,
        PluginStatus::StatusPass,
        PluginStatus::StatusError,
        PluginStatus::StatusFailed,
    ];
    for (i, a) in all.iter().enumerate() {
        for (j, b) in all.iter().enumerate() {
            assert_eq!(a == b, i == j);
        }
    }
}

#[test]
fn new_plugin_keeps_what_it_is_given() {
    let plugin = PluginInterface::new(
        String::from("logger"),
        Some(vec![String::from("/tmp/log.out")]),
        HandlerKind::WriteDefault,
    );
    assert_eq!(plugin.plug_name, "logger");
    assert_eq!(plugin.argvs, Some(vec![String::from("/tmp/log.out")]));
    assert_eq!(plugin.function, HandlerKind::WriteDefault);
    let bare = PluginInterface::new(String::new(), None, HandlerKind::ReadDefault);
    assert_eq!(bare.plug_name, "");
    assert_eq!(bare.argvs, None);
    assert_eq!(bare.function, HandlerKind::ReadDefault);
}

#[test]
fn built_in_handlers_start_with_the_read_logger() {
    assert_eq!(builtin_handlers(), vec![HandlerKind::ReadDefault]);
}

#[test]
fn no_plugin_section_gives_empty_table() {
    assert!(can_bind(0, &None));
    let table = get_plugininterface_vec(None);
    assert!(table.is_empty());
}

#[test]
fn empty_plugin_section_gives_empty_table() {
    assert!(can_bind(0, &Some(vec![])));
    let table = get_plugininterface_vec(Some(vec![]));
    assert!(table.is_empty());
}

#[test]
fn one_entry_is_bound_to_the_read_logger() {
    let conf = Some(vec![plug("read watcher", 0, &["/tmp/log.out"])]);
    assert!(can_bind(builtin_handlers().len(), &conf));
    let table = get_plugininterface_vec(conf);
    assert_eq!(table.len(), 1);
    let chain = table.get(&0).expect("a chain for syscall 0");
    assert_eq!(chain.len(), 1);
    assert_eq!(chain[0].plug_name, "read watcher");
    assert_eq!(chain[0].argvs, Some(vec![String::from("/tmp/log.out")]));
    assert_eq!(chain[0].function, HandlerKind::ReadDefault);
    assert!(table.get(&1).is_none());
}

#[test]
fn entry_without_arguments_gets_none() {
    let table = get_plugininterface_vec(Some(vec![plug("quiet", 17, &[])]));
    let chain = table.get(&17).expect("a chain for syscall 17");
    assert_eq!(chain[0].argvs, None);
}

#[test]
fn too_many_entries_cannot_be_bound() {
    let conf = Some(vec![plug("a", 0, &["x"]), plug("b", 1, &["y"])]);
    assert!(!can_bind(builtin_handlers().len(), &conf));
    assert!(can_bind(2, &conf));
    assert!(!can_bind(0, &Some(vec![plug("a", 0, &[])])));
}

#[test]
fn entry_with_missing_argument_cannot_be_bound() {
    let broken = PlugConfig::new(String::from("broken"), 0, Some(2), Some(String::from("only")), None, None, None);
    assert!(!can_bind(1, &Some(vec![broken])));
    let too_many = PlugConfig::new(
        String::from("five"),
        0,
        Some(5),
        Some(String::from("a")),
        Some(String::from("b")),
        Some(String::from("c")),
        Some(String::from("d")),
    );
    assert!(!can_bind(1, &Some(vec![too_many])));
}

#[test]
fn entries_are_paired_with_handlers_by_position() {
    let builtins = vec![HandlerKind::ReadDefault, HandlerKind::WriteDefault];
    let conf = Some(vec![plug("write by name", 0, &["/tmp/a"]), plug("read by name", 1, &["/tmp/b"])]);
    assert!(can_bind(builtins.len(), &conf));
    let table = build_table(&builtins, conf);
    assert_eq!(table.len(), 2);
    assert_eq!(table[&0].len(), 1);
    assert_eq!(table[&0][0].plug_name, "write by name");
    assert_eq!(table[&0][0].function, HandlerKind::ReadDefault);
    assert_eq!(table[&1].len(), 1);
    assert_eq!(table[&1][0].plug_name, "read by name");
    assert_eq!(table[&1][0].function, HandlerKind::WriteDefault);
}

#[test]
fn entries_of_one_syscall_form_a_chain_in_order() {
    let builtins = vec![
        HandlerKind::WriteDefault,
        HandlerKind::ReadDefault,
        HandlerKind::ReadDefault,
        HandlerKind::WriteDefault,
    ];
    let conf = Some(vec![
        plug("first", 1, &["/tmp/1"]),
        plug("other", 0, &[]),
        plug("second", 1, &["/tmp/2", "extra"]),
    ]);
    assert!(can_bind(builtins.len(), &conf));
    let table = build_table(&builtins, conf);
    assert_eq!(table.len(), 2);
    let chain = &table[&1];
    assert_eq!(chain.len(), 2);
    assert_eq!(chain[0].plug_name, "first");
    assert_eq!(chain[0].function, HandlerKind::WriteDefault);
    assert_eq!(chain[0].argvs, Some(vec![String::from("/tmp/1")]));
    assert_eq!(chain[1].plug_name, "second");
    assert_eq!(chain[1].function, HandlerKind::ReadDefault);
    assert_eq!(chain[1].argvs, Some(vec![String::from("/tmp/2"), String::from("extra")]));
    assert_eq!(table[&0].len(), 1);
    assert_eq!(table[&0][0].plug_name, "other");
    assert_eq!(table[&0][0].function, HandlerKind::ReadDefault);
}

#[test]
fn unknown_syscall_numbers_are_taken_as_they_are() {
    let table = get_plugininterface_vec(Some(vec![plug("far out", u64::MAX, &["/tmp/x"])]));
    assert_eq!(table.len(), 1);
    assert!(table.contains_key(&u64::MAX));
}

#[test]
fn build_table_without_plugin_section_is_empty() {
    let table = build_table(&vec![HandlerKind::ReadDefault, HandlerKind::WriteDefault], None);
    assert!(table.is_empty());
}
