use monitor_process_io::plugin::default_io::{
    handle_io_stop, is_standard_io, plan_after_read, EntryExitToggle, HandlerOutcome,
};
use monitor_process_io::plugin::read_default::syscall_read_default;
use monitor_process_io::plugin::remote::{
    read_remote_words, word_address, word_count, WORD_BYTES,
};
use monitor_process_io::plugin::write_default::syscall_write_default;
use monitor_process_io::plugin::{HandlerKind, PluginStatus};
use monitor_process_io::regs::{IoCall, SyscallEvent};
use nix::unistd::Pid;

fn stop(syscall: u64, descriptor: u64, address: u64, size: u64) -> SyscallEvent {
    SyscallEvent {
        r15: 0,
        r14: 0,
        r13: 0,
        r12: 0,
        rbp: 0,
        rbx: 0,
        r11: 0,
        r10: 0,
        r9: 0,
        r8: 0,
        rax: 0,
        rcx: 0,
        rdx: size,
        rsi: address,
        rdi: descriptor,
        orig_rax: syscall,
        rip: 0,
        cs: 0,
        eflags: 0,
        rsp: 0,
        ss: 0,
        fs_base: 0,
        gs_base: 0,
        ds: 0,
        es: 0,
        fs: 0,
        gs: 0,
    }
}

fn nobody() -> Pid {
    Pid::from_raw(i32::MAX)
}

fn log_args() -> Option<Vec<String>> {
    Some(vec![String::from("/tmp/log.out")])
}

fn is_done(outcome: &HandlerOutcome, status: PluginStatus) -> bool {
    matches!(outcome, HandlerOutcome::Done(s) if *s == status)
}

fn is_append(outcome: &HandlerOutcome, path: &str, record: &[u8]) -> bool {
    matches!(outcome, HandlerOutcome::Append { path: p, record: r } if p == path && r == record)
}

#[test]
fn standard_streams_are_zero_one_two() {
    assert!(is_standard_io(0));
    assert!(is_standard_io(1));
    assert!(is_standard_io(2));
    assert!(!is_standard_io(3));
    assert!(!is_standard_io(4));
    assert!(!is_standard_io(255));
    assert!(!is_standard_io(u64::MAX));
}

#[test]
fn registers_decode_to_io_arguments() {
    let regs = stop(1, 7, 0x7ffc_0000_1000, 42);
    assert_eq!(regs.syscall_id(), 1);
    assert_eq!(regs.io_call(), IoCall { descriptor: 7, address: 0x7ffc_0000_1000, size: 42 });
}

#[test]
fn new_toggle_expects_entry() {
    assert!(EntryExitToggle::new().entry_expected);
}

#[test]
fn status_of_finished_handler_ignores_the_write() {
    for status in [
        PluginStatus::StatusOk,
        PluginStatus::StatusPass,
        PluginStatus::StatusError,
        PluginStatus::StatusFailed,
    ] {
        assert_eq!(HandlerOutcome::Done(status).status(true), status);
        assert_eq!(HandlerOutcome::Done(status).status(false), status);
    }
}

#[test]
fn status_after_append_follows_the_write() {
    let outcome = HandlerOutcome::Append { path: String::from("/tmp/log.out"), record: vec![0x0a] };
    assert_eq!(outcome.status(true), PluginStatus::StatusOk);
    assert_eq!(outcome.status(false), PluginStatus::StatusError);
}

#[test]
fn failed_read_is_a_non_fatal_failure() {
    let outcome = plan_after_read(HandlerKind::ReadDefault, &log_args(), None);
    assert!(is_done(&outcome, PluginStatus::StatusFailed));
    let outcome = plan_after_read(HandlerKind::WriteDefault, &None, None);
    assert!(is_done(&outcome, PluginStatus::StatusFailed));
}

#[test]
fn missing_log_path_is_a_non_fatal_failure() {
    let words = Some(vec![u64::from_le_bytes(*b"payload!")]);
    let outcome = plan_after_read(HandlerKind::ReadDefault, &None, words.clone());
    assert!(is_done(&outcome, PluginStatus::StatusFailed));
    let outcome = plan_after_read(HandlerKind::ReadDefault, &Some(vec![]), words);
    assert!(is_done(&outcome, PluginStatus::StatusFailed));
}

#[test]
fn read_buffer_becomes_a_record_for_the_first_argument() {
    let args = Some(vec![String::from("/tmp/log.out"), String::from("/tmp/other")]);
    let words = Some(vec![u64::from_le_bytes(*b"ABCDEFGH"), u64::from_le_bytes(*b"IJKLMNOP")]);
    let outcome = plan_after_read(HandlerKind::ReadDefault, &args, words);
    assert!(is_append(
        &outcome,
        "/tmp/log.out",
        b"##### read default #####\nABCDEFGHIJKLMNOP\n"
    ));
}

#[test]
fn write_buffer_becomes_a_write_record() {
    let words = Some(vec![u64::from_le_bytes(*b"hello\0\0\0"), 0]);
    let outcome = plan_after_read(HandlerKind::WriteDefault, &log_args(), words);
    assert!(is_append(&outcome, "/tmp/log.out", b"##### write default #####\nhello\n"));
}

#[test]
fn empty_buffer_still_gives_a_record() {
    let outcome = plan_after_read(HandlerKind::ReadDefault, &log_args(), Some(vec![]));
    assert!(is_append(&outcome, "/tmp/log.out", b"##### read default #####\n\n"));
}

#[test]
fn entry_stop_does_nothing_but_flip_the_toggle() {
    let mut toggle = EntryExitToggle::new();
    let outcome = syscall_read_default(stop(0, 5, 0x1000, 0), nobody(), &log_args(), &mut toggle);
    assert!(is_done(&outcome, PluginStatus::StatusOk));
    assert!(!toggle.entry_expected);
}

#[test]
fn exit_stop_logs_and_flips_back() {
    let mut toggle = EntryExitToggle { entry_expected: false };
    let outcome = syscall_read_default(stop(0, 5, 0x1000, 0), nobody(), &log_args(), &mut toggle);
    assert!(is_append(&outcome, "/tmp/log.out", b"##### read default #####\n\n"));
    assert!(toggle.entry_expected);
}

#[test]
fn four_stops_alternate_between_nothing_and_one_record() {
    let mut toggle = EntryExitToggle::new();
    let regs = stop(1, 9, 0x2000, 0);
    let record: &[u8] = b"##### write default #####\n\n";
    let first = syscall_write_default(regs, nobody(), &log_args(), &mut toggle);
    assert!(is_done(&first, PluginStatus::StatusOk));
    assert!(!toggle.entry_expected);
    let second = syscall_write_default(regs, nobody(), &log_args(), &mut toggle);
    assert!(is_append(&second, "/tmp/log.out", record));
    assert!(toggle.entry_expected);
    let third = syscall_write_default(regs, nobody(), &log_args(), &mut toggle);
    assert!(is_done(&third, PluginStatus::StatusOk));
    assert!(!toggle.entry_expected);
    let fourth = syscall_write_default(regs, nobody(), &log_args(), &mut toggle);
    assert!(is_append(&fourth, "/tmp/log.out", record));
    assert!(toggle.entry_expected);
}

#[test]
fn standard_streams_are_never_logged() {
    for descriptor in [0u64, 1, 2] {
        for entry_expected in [true, false] {
            let mut toggle = EntryExitToggle { entry_expected };
            let regs = stop(0, descriptor, 0x1000, 0);
            let outcome = syscall_read_default(regs, nobody(), &log_args(), &mut toggle);
            assert!(is_done(&outcome, PluginStatus::StatusOk));
            assert_eq!(toggle.entry_expected, !entry_expected);
            let mut toggle = EntryExitToggle { entry_expected };
            let regs = stop(1, descriptor, 0x1000, 64);
            let outcome = syscall_write_default(regs, nobody(), &log_args(), &mut toggle);
            assert!(is_done(&outcome, PluginStatus::StatusOk));
            assert_eq!(toggle.entry_expected, !entry_expected);
        }
    }
}

#[test]
fn exit_stop_without_log_path_fails_softly() {
    let mut toggle = EntryExitToggle { entry_expected: false };
    let outcome = syscall_read_default(stop(0, 5, 0x1000, 0), nobody(), &None, &mut toggle);
    assert!(is_done(&outcome, PluginStatus::StatusFailed));
    assert!(toggle.entry_expected);
}

#[test]
fn unreadable_memory_fails_softly() {
    let mut toggle = EntryExitToggle { entry_expected: false };
    let outcome = syscall_read_default(stop(0, 5, 0x1000, 8), nobody(), &log_args(), &mut toggle);
    assert!(is_done(&outcome, PluginStatus::StatusFailed));
    assert!(toggle.entry_expected);
    let mut toggle = EntryExitToggle { entry_expected: false };
    let outcome = handle_io_stop(
        HandlerKind::WriteDefault,
        stop(1, 5, 0x1000, 17),
        nobody(),
        &log_args(),
        &mut toggle,
    );
    assert!(is_done(&outcome, PluginStatus::StatusFailed));
    assert!(toggle.entry_expected);
}

#[test]
fn reading_nothing_succeeds_with_no_words() {
    assert_eq!(read_remote_words(nobody(), 0x1000, 0), Some(vec![]));
    assert_eq!(read_remote_words(nobody(), u64::MAX, 0), Some(vec![]));
}

#[test]
fn reading_from_a_process_that_is_not_traced_fails() {
    assert_eq!(read_remote_words(nobody(), 0x1000, 1), None);
    assert_eq!(read_remote_words(nobody(), 0x1000, 8), None);
    assert_eq!(read_remote_words(nobody(), 0x1000, 4096), None);
}

#[test]
fn reading_past_the_end_of_the_address_space_fails() {
    assert_eq!(read_remote_words(nobody(), u64::MAX - 3, 16), None);
    assert_eq!(read_remote_words(nobody(), u64::MAX, u64::MAX), None);
}

#[test]
fn words_are_eight_bytes_wide() {
    assert_eq!(WORD_BYTES, 8);
}

#[test]
fn word_count_rounds_up_to_whole_words() {
    assert_eq!(word_count(0), 0);
    assert_eq!(word_count(1), 1);
    assert_eq!(word_count(7), 1);
    assert_eq!(word_count(8), 1);
    assert_eq!(word_count(9), 2);
    assert_eq!(word_count(16), 2);
    assert_eq!(word_count(17), 3);
    assert_eq!(word_count(4096), 512);
    assert_eq!(word_count(u64::MAX - 7), (1u64 << 61) - 1);
    assert_eq!(word_count(u64::MAX), 1u64 << 61);
}

#[test]
fn word_addresses_step_by_eight() {
    assert_eq!(word_address(0x1000, 0), Some(0x1000));
    assert_eq!(word_address(0x1000, 1), Some(0x1008));
    assert_eq!(word_address(0x1000, 2), Some(0x1010));
    assert_eq!(word_address(0x1003, 3), Some(0x101b));
    assert_eq!(word_address(0, (1u64 << 61) - 1), Some(u64::MAX - 7));
}

#[test]
fn word_addresses_end_with_the_address_space() {
    assert_eq!(word_address(u64::MAX, 0), Some(u64::MAX));
    assert_eq!(word_address(u64::MAX - 8, 1), Some(u64::MAX));
    assert_eq!(word_address(u64::MAX - 7, 1), None);
    assert_eq!(word_address(u64::MAX, 1), None);
    assert_eq!(word_address(0, 1u64 << 61), None);
    assert_eq!(word_address(1, u64::MAX), None);
}

#[test]
fn read_of_three_letters_is_logged_behind_the_delimiter_line() {
    let outcome = plan_after_read(HandlerKind::ReadDefault, &log_args(), Some(vec![0x0000_0000_0043_4241]));
    assert!(is_append(&outcome, "/tmp/log.out", b"##### read default #####\nABC\n"));
    assert_eq!(outcome.status(true), PluginStatus::StatusOk);
}

#[test]
fn write_keeps_the_newline_of_the_data() {
    let outcome = plan_after_read(HandlerKind::WriteDefault, &log_args(), Some(vec![0x0000_0a6f_6c6c_6548]));
    assert!(is_append(&outcome, "/tmp/log.out", b"##### write default #####\nHello\n\n"));
}

#[test]
fn two_words_are_logged_in_address_order() {
    let words = Some(vec![0x4847_4645_4443_4241, 0x0000_0000_0000_4a49]);
    let outcome = plan_after_read(HandlerKind::ReadDefault, &log_args(), words);
    assert!(is_append(&outcome, "/tmp/log.out", b"##### read default #####\nABCDEFGHIJ\n"));
}

#[test]
fn zero_word_in_front_adds_nothing() {
    let words = Some(vec![0, 0x0000_0000_4443_4241]);
    let outcome = plan_after_read(HandlerKind::ReadDefault, &log_args(), words);
    assert!(is_append(&outcome, "/tmp/log.out", b"##### read default #####\nABCD\n"));
}

#[test]
fn zero_word_behind_adds_nothing() {
    let words = Some(vec![0x0000_0000_0000_6968, 0]);
    let outcome = plan_after_read(HandlerKind::WriteDefault, &log_args(), words);
    assert!(is_append(&outcome, "/tmp/log.out", b"##### write default #####\nhi\n"));
}

#[test]
fn call_of_no_bytes_is_logged_without_reading() {
    let mut toggle = EntryExitToggle { entry_expected: false };
    let outcome = syscall_read_default(stop(0, 3, 0x1000, 0), nobody(), &log_args(), &mut toggle);
    assert!(is_append(&outcome, "/tmp/log.out", b"##### read default #####\n\n"));
    if let HandlerOutcome::Append { record, .. } = &outcome {
        assert_eq!(record.len(), 26);
    }
    assert_eq!(outcome.status(true), PluginStatus::StatusOk);
    assert!(toggle.entry_expected);
    let mut toggle = EntryExitToggle { entry_expected: false };
    let outcome = syscall_write_default(stop(1, 4, u64::MAX, 0), nobody(), &log_args(), &mut toggle);
    assert!(is_append(&outcome, "/tmp/log.out", b"##### write default #####\n\n"));
}

#[test]
fn buffer_beyond_the_last_address_fails_softly() {
    let mut toggle = EntryExitToggle { entry_expected: false };
    let regs = stop(0, 3, u64::MAX - 3, 16);
    let outcome = syscall_read_default(regs, nobody(), &log_args(), &mut toggle);
    assert!(is_done(&outcome, PluginStatus::StatusFailed));
    assert!(toggle.entry_expected);
}
