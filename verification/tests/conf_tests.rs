use monitor_process_io::conf::{Conf, Config, PlugConfig};

fn s(text: &str) -> Option<String> {
    Some(String::from(text))
}

fn entry(argv_num: Option<u8>, slots: [Option<String>; 4]) -> PlugConfig {
    let [a1, a2, a3, a4] = slots;
    PlugConfig::new(String::from("plug"), 1, argv_num, a1, a2, a3, a4)
}

#[test]
fn config_hands_out_file_and_argv() {
    let config = Config::new(s("/bin/cat"), s("notes.txt"), s("64"));
    assert!(config.has_file());
    assert!(config.has_argv());
    assert_eq!(config.get_file(), "/bin/cat");
    assert_eq!(config.get_argv(), "notes.txt");
    assert_eq!(config.arch, s("64"));
}

#[test]
fn config_tells_what_is_missing() {
    let no_file = Config::new(None, s("x"), None);
    assert!(!no_file.has_file());
    assert!(no_file.has_argv());
    let no_argv = Config::new(s("/bin/true"), None, None);
    assert!(no_argv.has_file());
    assert!(!no_argv.has_argv());
}

#[test]
fn config_getters_return_fresh_copies() {
    let config = Config::new(s("/bin/cat"), s(""), None);
    let mut file = config.get_file();
    file.push_str("changed");
    assert_eq!(config.get_file(), "/bin/cat");
    assert_eq!(config.get_argv(), "");
}

#[test]
fn plug_config_keeps_name_and_syscall() {
    let plug = PlugConfig::new(String::from("read logger"), 0, None, None, None, None, None);
    assert_eq!(plug.name, "read logger");
    assert_eq!(plug.syscall_number, 0);
    assert_eq!(plug.plugin_name(), "read logger");
    assert_eq!(plug.syscall_id(), 0);
    let other = PlugConfig::new(String::from("w"), u64::MAX, Some(0), None, None, None, None);
    assert_eq!(other.syscall_id(), u64::MAX);
}

#[test]
fn get_argvs_without_count_is_none() {
    let plug = entry(None, [s("a"), s("b"), s("c"), s("d")]);
    assert!(plug.has_declared_argvs());
    assert_eq!(plug.get_argvs(), None);
}

#[test]
fn get_argvs_with_zero_count_is_none() {
    let plug = entry(Some(0), [s("a"), None, None, None]);
    assert!(plug.has_declared_argvs());
    assert_eq!(plug.get_argvs(), None);
    let bare = entry(Some(0), [None, None, None, None]);
    assert!(bare.has_declared_argvs());
    assert_eq!(bare.get_argvs(), None);
}

#[test]
fn get_argvs_takes_one_slot() {
    let plug = entry(Some(1), [s("/tmp/log.out"), s("unused"), None, None]);
    assert!(plug.has_declared_argvs());
    assert_eq!(plug.get_argvs(), Some(vec![String::from("/tmp/log.out")]));
}

#[test]
fn get_argvs_takes_two_slots_in_order() {
    let plug = entry(Some(2), [s("first"), s("second"), s("third"), None]);
    assert_eq!(plug.get_argvs(), Some(vec![String::from("first"), String::from("second")]));
}

#[test]
fn get_argvs_takes_three_slots_in_order() {
    let plug = entry(Some(3), [s("a"), s("b"), s("c"), None]);
    assert_eq!(
        plug.get_argvs(),
        Some(vec![String::from("a"), String::from("b"), String::from("c")])
    );
}

#[test]
fn get_argvs_takes_all_four_slots() {
    let plug = entry(Some(4), [s("a"), s("b"), s("c"), s("d")]);
    assert!(plug.has_declared_argvs());
    assert_eq!(
        plug.get_argvs(),
        Some(vec![String::from("a"), String::from("b"), String::from("c"), String::from("d")])
    );
}

#[test]
fn get_argvs_keeps_empty_strings() {
    let plug = entry(Some(2), [s(""), s("x"), None, None]);
    assert_eq!(plug.get_argvs(), Some(vec![String::new(), String::from("x")]));
}

#[test]
fn declared_count_beyond_filled_slots_is_detected() {
    assert!(!entry(Some(1), [None, None, None, None]).has_declared_argvs());
    assert!(!entry(Some(2), [s("a"), None, None, None]).has_declared_argvs());
    assert!(!entry(Some(3), [s("a"), s("b"), None, s("d")]).has_declared_argvs());
    assert!(!entry(Some(4), [s("a"), s("b"), s("c"), None]).has_declared_argvs());
    assert!(!entry(Some(1), [None, s("b"), None, None]).has_declared_argvs());
}

#[test]
fn declared_count_beyond_four_is_detected() {
    assert!(!entry(Some(5), [s("a"), s("b"), s("c"), s("d")]).has_declared_argvs());
    assert!(!entry(Some(255), [s("a"), s("b"), s("c"), s("d")]).has_declared_argvs());
}

#[test]
fn conf_holds_program_and_plugins() {
    let conf = Conf {
        config: Config::new(s("/bin/ls"), s("-l"), None),
        plugin: Some(vec![entry(Some(1), [s("/tmp/log.out"), None, None, None])]),
    };
    assert_eq!(conf.config.get_file(), "/bin/ls");
    assert_eq!(conf.plugin.as_ref().map(|p| p.len()), Some(1));
    let bare = Conf { config: Config::new(None, None, None), plugin: None };
    assert!(bare.plugin.is_none());
}

#[test]
fn declared_count_and_slots_can_be_read_back() {
    let plug = entry(Some(2), [s("a"), None, s("c"), s("d")]);
    assert_eq!(plug.declared_count(), Some(2));
    assert_eq!(plug.slot(0), s("a"));
    assert_eq!(plug.slot(1), None);
    assert_eq!(plug.slot(2), s("c"));
    assert_eq!(plug.slot(3), s("d"));
    assert_eq!(plug.slot(4), None);
    assert_eq!(plug.slot(usize::MAX), None);
    assert_eq!(entry(None, [None, None, None, None]).declared_count(), None);
}
