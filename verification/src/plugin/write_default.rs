//! The built-in logger for `write` calls.

use vstd::prelude::*;
use nix::unistd::Pid;
use crate::plugin::{HandlerKind, PluginStatus};
use crate::plugin::default_io::{
    buffer_is_read, handle_io_stop, outcome_after_read, read_fits_call, stop_outcome,
    EntryExitToggle, HandlerOutcome, HandlerOutcomeView,
};
use crate::plugin::remote::buffer_addressable;
use crate::regs::SyscallEvent;

verus! {

/// Handles one stop of a `write` call.
///
/// `argvs` holds the configured arguments of the plugin, of which the first
/// is the log file. `toggle` is the logger's own; it is flipped at every stop.
/// The stop that enters the call produces nothing. At the stop that leaves
/// it, unless the descriptor is a standard stream, the buffer is read from the
/// traced process `pid` and the record to append to the log is handed out; a
/// buffer that cannot be read and a missing log path give `StatusFailed`. A
/// call of no bytes asks nothing of the traced process, so it cannot fail on
/// the read: its record holds the delimiter line and the closing newline.
pub fn syscall_write_default(
    regs: SyscallEvent,
    pid: Pid,
    argvs: &Option<Vec<String>>,
    toggle: &mut EntryExitToggle,
) -> (outcome: HandlerOutcome)
    ensures
        *final(toggle) == old(toggle).flipped(),
        !buffer_is_read(regs, old(toggle).entry_expected) ==> outcome@ == HandlerOutcomeView::Done(
            PluginStatus::StatusOk,
        ),
        (buffer_is_read(regs, old(toggle).entry_expected) && regs.spec_io_call().size == 0)
            ==> outcome@ == outcome_after_read(
            HandlerKind::WriteDefault,
            argvs.deep_view(),
            Some(Seq::<u64>::empty()),
        ),
        (buffer_is_read(regs, old(toggle).entry_expected) && !buffer_addressable(
            regs.spec_io_call().address,
            regs.spec_io_call().size,
        )) ==> outcome@ == HandlerOutcomeView::Done(PluginStatus::StatusFailed),
        exists|words: Option<Seq<u64>>| #[trigger]
            read_fits_call(regs, words) && outcome@ == stop_outcome(
                HandlerKind::WriteDefault,
                regs,
                argvs.deep_view(),
                old(toggle).entry_expected,
                words,
            ),
{
    handle_io_stop(HandlerKind::WriteDefault, regs, pid, argvs, toggle)
}

} // verus!
