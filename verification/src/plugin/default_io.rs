//! What the built-in `read` and `write` loggers share.
//!
//! A system call stops the traced process twice, once on entry and once on
//! exit, and nothing in the registers tells the two apart. Each logger
//! therefore keeps a toggle: the stop it sees while the toggle says "entry" is
//! passed over, the next one is the exit, at which the buffer is read and the
//! record is built.
//!
//! Appending the record to the log file is left to the caller, which reports
//! back whether the write went through.

use vstd::prelude::*;
use nix::unistd::Pid;
use crate::plugin::{HandlerKind, PluginStatus};
use crate::plugin::record::{encode_record, log_record};
use crate::plugin::remote::{buffer_addressable, read_remote_words, spec_word_count};
use crate::regs::SyscallEvent;

verus! {

/// Tells a logger whether the next stop it sees is the entry into a call or
/// the exit from it.
#[derive(Clone, Copy, Debug, PartialEq, Eq)]
pub struct EntryExitToggle {
    /// `true` while the next stop is the entry into a call.
    pub entry_expected: bool,
}

impl EntryExitToggle {
    /// The toggle after one more stop: every stop turns it over.
    pub open spec fn flipped(self) -> EntryExitToggle {
        EntryExitToggle { entry_expected: !self.entry_expected }
    }

    /// The toggle of a logger that has seen no stop yet: an entry comes first.
    pub fn new() -> (toggle: Self)
        ensures
            toggle.entry_expected,
    {
        EntryExitToggle { entry_expected: true }
    }
}

/// What a logger asks of its caller after one stop.
#[derive(Debug, Clone, PartialEq, Eq)]
pub enum HandlerOutcome {
    /// Nothing is to be written; the status is final.
    Done(PluginStatus),
    /// `record` is to be appended to the file at `path`, which is created if
    /// it does not exist. The status follows from how the write went.
    Append { path: String, record: Vec<u8> },
}

/// A `HandlerOutcome` with its strings and bytes as sequences.
pub enum HandlerOutcomeView {
    Done(PluginStatus),
    Append { path: Seq<char>, record: Seq<u8> },
}

impl View for HandlerOutcome {
    type V = HandlerOutcomeView;

    open spec fn view(&self) -> HandlerOutcomeView {
        match self {
            HandlerOutcome::Done(status) => HandlerOutcomeView::Done(*status),
            HandlerOutcome::Append { path, record } => HandlerOutcomeView::Append {
                path: path@,
                record: record@,
            },
        }
    }
}

/// The status a logger ends a stop with, once the caller knows whether the
/// record it was asked to append reached the file.
pub open spec fn final_status(outcome: HandlerOutcomeView, appended: bool) -> PluginStatus {
    match outcome {
        HandlerOutcomeView::Done(status) => status,
        HandlerOutcomeView::Append { .. } => if appended {
            PluginStatus::StatusOk
        } else {
            PluginStatus::StatusError
        },
    }
}

impl HandlerOutcome {
    /// The status to report to the supervisor. `appended` says whether the
    /// record was written in full; it is not looked at when nothing was to be
    /// written. A record that could not be written is an unrecoverable error.
    pub fn status(&self, appended: bool) -> (status: PluginStatus)
        ensures
            status == final_status(self@, appended),
    {
        match self {
            HandlerOutcome::Done(status) => *status,
            HandlerOutcome::Append { .. } => if appended {
                PluginStatus::StatusOk
            } else {
                PluginStatus::StatusError
            },
        }
    }
}

/// Whether `fd` names one of the three standard streams.
pub open spec fn spec_is_standard_io(fd: u64) -> bool {
    fd == 0 || fd == 1 || fd == 2
}

/// The log file a logger writes to: the first of its configured arguments.
pub open spec fn log_path(argvs: Option<Seq<Seq<char>>>) -> Option<Seq<char>> {
    match argvs {
        Some(list) => if list.len() > 0 {
            Some(list[0])
        } else {
            None
        },
        None => None,
    }
}

/// What a logger does once the buffer of the call has been read, or could
/// not be read (`words` is `None`): a failed read and a missing log path are
/// failures of this stop only; otherwise the record is to be appended.
pub open spec fn outcome_after_read(
    kind: HandlerKind,
    argvs: Option<Seq<Seq<char>>>,
    words: Option<Seq<u64>>,
) -> HandlerOutcomeView {
    match words {
        None => HandlerOutcomeView::Done(PluginStatus::StatusFailed),
        Some(buffer) => match log_path(argvs) {
            None => HandlerOutcomeView::Done(PluginStatus::StatusFailed),
            Some(path) => HandlerOutcomeView::Append { path, record: log_record(kind, buffer) },
        },
    }
}

/// What a logger does at one stop, given the state of its toggle before the
/// stop and what reading the buffer gives. The stop that enters a call and
/// any stop on a standard stream produce nothing.
pub open spec fn stop_outcome(
    kind: HandlerKind,
    regs: SyscallEvent,
    argvs: Option<Seq<Seq<char>>>,
    entry_expected: bool,
    words: Option<Seq<u64>>,
) -> HandlerOutcomeView {
    if entry_expected || spec_is_standard_io(regs.spec_io_call().descriptor) {
        HandlerOutcomeView::Done(PluginStatus::StatusOk)
    } else {
        outcome_after_read(kind, argvs, words)
    }
}

/// What can come back from reading the buffer of the call in `regs`. A read
/// that succeeds gives one word for every started eight bytes of a buffer
/// all of whose words have an address. A read of no bytes cannot fail, since
/// it asks nothing of the traced process.
pub open spec fn read_fits_call(regs: SyscallEvent, words: Option<Seq<u64>>) -> bool {
    &&& words matches Some(buffer) ==> {
        &&& buffer.len() == spec_word_count(regs.spec_io_call().size)
        &&& buffer_addressable(regs.spec_io_call().address, regs.spec_io_call().size)
    }
    &&& regs.spec_io_call().size == 0 ==> words is Some
}

/// Whether a stop is one at which a logger reads the buffer: the exit of a
/// call that is not on a standard stream.
pub open spec fn buffer_is_read(regs: SyscallEvent, entry_expected: bool) -> bool {
    !entry_expected && !spec_is_standard_io(regs.spec_io_call().descriptor)
}

/// What reading a buffer gave, with the words as a sequence.
pub open spec fn read_view(words: Option<Vec<u64>>) -> Option<Seq<u64>> {
    match words {
        Some(buffer) => Some(buffer@),
        None => None,
    }
}

/// Tells whether a descriptor is standard input, output or error, whose
/// traffic is never logged.
pub fn is_standard_io(reg: u64) -> (standard: bool)
    ensures
        standard == spec_is_standard_io(reg),
{
    match reg {
        0 => true,
        1 => true,
        2 => true,
        _ => false,
    }
}

/// Decides what to do with the buffer of a call once it has been read.
/// `words` is `None` if the read failed. A failed read, and a logger that
/// was configured without a log path, end in `StatusFailed`; otherwise the
/// record of the call is built and handed out to be appended to the log.
pub fn plan_after_read(
    kind: HandlerKind,
    argvs: &Option<Vec<String>>,
    words: Option<Vec<u64>>,
) -> (outcome: HandlerOutcome)
    ensures
        outcome@ == outcome_after_read(kind, argvs.deep_view(), read_view(words)),
{
    let buffer = match words {
        Some(buffer) => buffer,
        None => return HandlerOutcome::Done(PluginStatus::StatusFailed),
    };
    let path: String = match argvs {
        Some(list) => if list.len() > 0 {
            list[0].clone()
        } else {
            return HandlerOutcome::Done(PluginStatus::StatusFailed)
        },
        None => return HandlerOutcome::Done(PluginStatus::StatusFailed),
    };
    let record = encode_record(kind, &buffer);
    HandlerOutcome::Append { path, record }
}

/// Handles one stop of a `read` or `write` call for the logger of the given
/// kind.
///
/// Every stop flips the toggle. At the stop that enters a call nothing else
/// happens. At the stop that leaves it, a call on a standard stream is passed
/// over; for any other descriptor the buffer is read from the traced process
/// and the outcome is that of `plan_after_read`. What the read gives is up to
/// the traced process, so the outcome is stated for whatever came back.
///
/// Two reads are settled without the traced process. A call of no bytes
/// reads nothing and cannot fail: its outcome is that of an empty buffer. A
/// buffer that reaches beyond the last address cannot be read: the stop ends
/// in `StatusFailed`.
pub fn handle_io_stop(
    kind: HandlerKind,
    regs: SyscallEvent,
    pid: Pid,
    argvs: &Option<Vec<String>>,
    toggle: &mut EntryExitToggle,
) -> (outcome: HandlerOutcome)
    ensures
        *final(toggle) == old(toggle).flipped(),
        !buffer_is_read(regs, old(toggle).entry_expected) ==> outcome@ == HandlerOutcomeView::Done(
            PluginStatus::StatusOk,
        ),
        (buffer_is_read(regs, old(toggle).entry_expected) && regs.spec_io_call().size == 0)
            ==> outcome@ == outcome_after_read(
            kind,
            argvs.deep_view(),
            Some(Seq::<u64>::empty()),
        ),
        (buffer_is_read(regs, old(toggle).entry_expected) && !buffer_addressable(
            regs.spec_io_call().address,
            regs.spec_io_call().size,
        )) ==> outcome@ == HandlerOutcomeView::Done(PluginStatus::StatusFailed),
        exists|words: Option<Seq<u64>>| #[trigger]
            read_fits_call(regs, words) && outcome@ == stop_outcome(
                kind,
                regs,
                argvs.deep_view(),
                old(toggle).entry_expected,
                words,
            ),
{
    let call = regs.io_call();
    let ghost nothing_read: Option<Seq<u64>> = if call.size == 0 {
        Some(Seq::empty())
    } else {
        None
    };
    if toggle.entry_expected {
        toggle.entry_expected = false;
        assert(read_fits_call(regs, nothing_read));
        return HandlerOutcome::Done(PluginStatus::StatusOk);
    }
    toggle.entry_expected = true;
    if is_standard_io(call.descriptor) {
        assert(read_fits_call(regs, nothing_read));
        return HandlerOutcome::Done(PluginStatus::StatusOk);
    }
    let words = read_remote_words(pid, call.address, call.size);
    assert(read_fits_call(regs, read_view(words)));
    assert(call.size == 0 ==> read_view(words) == Some(Seq::<u64>::empty()));
    plan_after_read(kind, argvs, words)
}

/// A logger never cuts the chain short: whatever happens at a stop, its
/// status is `StatusOk`, `StatusFailed` or, if the record could not be
/// written, `StatusError`, and never `StatusPass`. It reports an error only
/// after a write that failed.
pub proof fn logger_never_skips_the_chain(
    kind: HandlerKind,
    regs: SyscallEvent,
    argvs: Option<Seq<Seq<char>>>,
    entry_expected: bool,
    words: Option<Seq<u64>>,
    appended: bool,
)
    ensures
        final_status(stop_outcome(kind, regs, argvs, entry_expected, words), appended)
            != PluginStatus::StatusPass,
        final_status(stop_outcome(kind, regs, argvs, entry_expected, words), appended)
            == PluginStatus::StatusError ==> !appended && stop_outcome(
            kind,
            regs,
            argvs,
            entry_expected,
            words,
        ) is Append,
{
}

/// A call on a standard stream is never logged, whichever of its two stops
/// the logger is at and whatever the buffer holds.
pub proof fn standard_stream_is_never_logged(
    kind: HandlerKind,
    regs: SyscallEvent,
    argvs: Option<Seq<Seq<char>>>,
    entry_expected: bool,
    words: Option<Seq<u64>>,
)
    requires
        spec_is_standard_io(regs.spec_io_call().descriptor),
    ensures
        stop_outcome(kind, regs, argvs, entry_expected, words) == HandlerOutcomeView::Done(
            PluginStatus::StatusOk,
        ),
{
}

/// Entry and exit are paired. Of two stops in a row, seen by a logger that
/// expects an entry, the first produces nothing. The second, for a call that
/// is not on a standard stream, whose buffer could be read, with a log path
/// configured, produces exactly the record of the buffer read at that stop.
/// After the two stops the toggle is where it was, so the next two stops go
/// the same way.
pub proof fn entry_exit_pairing(
    kind: HandlerKind,
    toggle: EntryExitToggle,
    entry_regs: SyscallEvent,
    exit_regs: SyscallEvent,
    argvs: Option<Seq<Seq<char>>>,
    entry_words: Option<Seq<u64>>,
    exit_words: Option<Seq<u64>>,
)
    requires
        toggle.entry_expected,
    ensures
        stop_outcome(kind, entry_regs, argvs, toggle.entry_expected, entry_words)
            == HandlerOutcomeView::Done(PluginStatus::StatusOk),
        !spec_is_standard_io(exit_regs.spec_io_call().descriptor) ==> stop_outcome(
            kind,
            exit_regs,
            argvs,
            toggle.flipped().entry_expected,
            exit_words,
        ) == outcome_after_read(kind, argvs, exit_words),
        (!spec_is_standard_io(exit_regs.spec_io_call().descriptor) && exit_words is Some
            && log_path(argvs) is Some) ==> stop_outcome(
            kind,
            exit_regs,
            argvs,
            toggle.flipped().entry_expected,
            exit_words,
        ) == (HandlerOutcomeView::Append {
            path: log_path(argvs)->0,
            record: log_record(kind, exit_words->0),
        }),
        toggle.flipped().flipped() == toggle,
{
}

/// The toggle of a logger after `stops` stops.
pub open spec fn toggle_after(start: EntryExitToggle, stops: nat) -> EntryExitToggle
    decreases stops,
{
    if stops == 0 {
        start
    } else {
        toggle_after(start, (stops - 1) as nat).flipped()
    }
}

/// The toggle alternates strictly. A logger that starts out expecting an
/// entry expects one before every stop with an even number, counted from
/// zero, and an exit before every odd one. So every even stop produces
/// nothing, and every odd stop is handled as the exit of the call: if the
/// descriptor is not a standard stream, the outcome is that of the buffer
/// read at that stop.
pub proof fn stops_alternate(
    kind: HandlerKind,
    start: EntryExitToggle,
    stops: nat,
    regs: SyscallEvent,
    argvs: Option<Seq<Seq<char>>>,
    words: Option<Seq<u64>>,
)
    requires
        start.entry_expected,
    ensures
        toggle_after(start, stops).entry_expected == (stops % 2 == 0),
        toggle_after(start, stops + 2) == toggle_after(start, stops),
        stops % 2 == 0 ==> stop_outcome(
            kind,
            regs,
            argvs,
            toggle_after(start, stops).entry_expected,
            words,
        ) == HandlerOutcomeView::Done(PluginStatus::StatusOk),
        (stops % 2 == 1 && !spec_is_standard_io(regs.spec_io_call().descriptor)) ==> stop_outcome(
            kind,
            regs,
            argvs,
            toggle_after(start, stops).entry_expected,
            words,
        ) == outcome_after_read(kind, argvs, words),
    decreases stops,
{
    reveal_with_fuel(toggle_after, 3);
    if stops > 0 {
        stops_alternate(kind, start, (stops - 1) as nat, regs, argvs, words);
    }
}

/// What one logger has asked to append after a run of stops, all records in
/// one piece: `stops` holds, for each stop in order, the registers and what
/// reading the buffer gave at that stop.
pub open spec fn logged_by(
    kind: HandlerKind,
    argvs: Option<Seq<Seq<char>>>,
    start: EntryExitToggle,
    stops: Seq<(SyscallEvent, Option<Seq<u64>>)>,
) -> Seq<u8>
    decreases stops.len(),
{
    if stops.len() == 0 {
        Seq::empty()
    } else {
        let earlier = logged_by(kind, argvs, start, stops.drop_last());
        let toggle = toggle_after(start, (stops.len() - 1) as nat);
        match stop_outcome(kind, stops.last().0, argvs, toggle.entry_expected, stops.last().1) {
            HandlerOutcomeView::Append { record, .. } => earlier + record,
            HandlerOutcomeView::Done(_) => earlier,
        }
    }
}

/// The two stops of each call of `calls`, in order: the entry, at which
/// reading the buffer would give `entry_reads`, and the exit, at which the
/// buffer holds the words of the call.
pub open spec fn stops_of_calls(
    calls: Seq<(SyscallEvent, Seq<u64>)>,
    entry_reads: Seq<Option<Seq<u64>>>,
) -> Seq<(SyscallEvent, Option<Seq<u64>>)> {
    Seq::new(
        2 * calls.len(),
        |i: int|
            if i % 2 == 0 {
                (calls[i / 2].0, entry_reads[i / 2])
            } else {
                (calls[i / 2].0, Some(calls[i / 2].1))
            },
    )
}

/// The records of `calls`, one after the other.
pub open spec fn records_of_calls(kind: HandlerKind, calls: Seq<(SyscallEvent, Seq<u64>)>) -> Seq<
    u8,
> {
    calls.map_values(|call: (SyscallEvent, Seq<u64>)| log_record(kind, call.1)).flatten()
}

/// Every call is logged exactly once, and the calls are logged in the order
/// in which they were made. A logger with a log path, which expects an entry,
/// sees a run of calls that are not on standard streams, two stops for each,
/// and every buffer can be read at the exit; then what it asks to append is
/// the record of the first call, then that of the second, and so on, with
/// nothing in between. What the buffers hold at the entries does not matter.
pub proof fn each_call_is_logged_once(
    kind: HandlerKind,
    argvs: Option<Seq<Seq<char>>>,
    start: EntryExitToggle,
    calls: Seq<(SyscallEvent, Seq<u64>)>,
    entry_reads: Seq<Option<Seq<u64>>>,
)
    requires
        start.entry_expected,
        log_path(argvs) is Some,
        entry_reads.len() == calls.len(),
        forall|i: int|
            0 <= i < calls.len() ==> !spec_is_standard_io(
                (#[trigger] calls[i]).0.spec_io_call().descriptor,
            ),
    ensures
        logged_by(kind, argvs, start, stops_of_calls(calls, entry_reads)) == records_of_calls(
            kind,
            calls,
        ),
    decreases calls.len(),
{
    let record_of = |call: (SyscallEvent, Seq<u64>)| log_record(kind, call.1);
    let stops = stops_of_calls(calls, entry_reads);
    if calls.len() > 0 {
        let n = calls.len() - 1;
        let front = calls.drop_last();
        let last = calls.last();
        each_call_is_logged_once(kind, argvs, start, front, entry_reads.drop_last());
        let entry = stops.drop_last();
        assert(entry.drop_last() =~= stops_of_calls(front, entry_reads.drop_last()));
        stops_alternate(kind, start, (2 * n + 1) as nat, last.0, argvs, Some(last.1));
        assert(logged_by(kind, argvs, start, entry) == logged_by(
            kind,
            argvs,
            start,
            entry.drop_last(),
        ));
        assert(front.push(last) =~= calls);
        front.lemma_push_map_commute(record_of, last);
        front.map_values(record_of).lemma_flatten_push(log_record(kind, last.1));
    }
}

} // verus!
