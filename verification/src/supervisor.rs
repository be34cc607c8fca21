//! The trace supervisor.
//!
//! The supervisor follows one traced child. It waits for the child to stop at
//! a syscall boundary, takes the register snapshot, runs the chain of plugins
//! bound to the syscall and lets the child run on to its next stop.
//!
//! A session says what is to be done next and takes in how it went. What may
//! block or touches the file system is done by the caller: waiting for the
//! child, and writing what a plugin wants written. A caller's loop is
//!
//! 1. `pending_action` gives the first action;
//! 2. for `Action::Wait` the caller waits for the child and reports what
//!    came of it with `step`, which gives the next action;
//! 3. for `Action::ReadRegisters` and `Action::Resume` the caller calls
//!    `read_registers` and `resume_child`, which do the work and give the
//!    next action;
//! 4. for `Action::Invoke` the caller calls `run_pending_handler`, appends the
//!    record if one comes back, and reports the status with `step`;
//! 5. `Action::Finish` and `Action::Abort` end the loop.
//!
//! `step` alone is the whole transition function; a caller that has the
//! events from elsewhere can drive a session with nothing else.

use vstd::prelude::*;
use nix::sys::ptrace;
use nix::unistd::Pid;
use crate::plugin::{
    table_view, DispatchTable, HandlerKind, PluginInterface, PluginInterfaceView, PluginStatus,
};
use crate::plugin::default_io::{
    buffer_is_read, handle_io_stop, outcome_after_read, read_fits_call, stop_outcome,
    EntryExitToggle, HandlerOutcome, HandlerOutcomeView,
};
use crate::plugin::remote::buffer_addressable;
use crate::regs::{SyscallEvent, REGISTER_COUNT};

verus! {

broadcast use vstd::std_specs::hash::group_hash_axioms;

/// What a wait for the child reported.
#[derive(Clone, Copy, Debug, PartialEq, Eq)]
pub enum WaitReport {
    /// The child is stopped at a trace-stop.
    Stopped,
    /// The child has exited.
    Exited,
    /// Any other report; it is consumed and the wait is repeated.
    Other,
    /// The wait itself failed.
    Failed,
}

/// Why a supervisor gave up.
#[derive(Clone, Copy, Debug, PartialEq, Eq)]
pub enum Failure {
    /// Waiting for the child failed.
    Wait,
    /// The registers of the stopped child could not be read.
    Registers,
    /// The child could not be resumed.
    Resume,
    /// A handler reported an unrecoverable error.
    Handler,
    /// An event was reported that answers no action the session asked for.
    Protocol,
}

/// What the caller reports to the session.
#[derive(Clone, Copy, Debug, PartialEq, Eq)]
pub enum Event {
    /// The outcome of `Action::Wait`.
    Waited(WaitReport),
    /// The outcome of `Action::ReadRegisters`; `None` if the read failed.
    Registers(Option<SyscallEvent>),
    /// The outcome of `Action::Invoke`: the status of the handler.
    HandlerReturned(PluginStatus),
    /// The outcome of `Action::Resume`: whether the child was resumed.
    Resumed(bool),
}

/// What the session asks the caller to do next.
#[derive(Clone, Copy, Debug, PartialEq, Eq)]
pub enum Action {
    /// Block until the child reports a change of state.
    Wait,
    /// Read the registers of the stopped child.
    ReadRegisters,
    /// Run the handler at `index` of the chain of the current syscall.
    Invoke { index: usize },
    /// Let the child run until its next syscall boundary.
    Resume,
    /// The child has exited; leave the loop.
    Finish,
    /// The trace cannot go on; give up at once.
    Abort(Failure),
}

/// Where a session stands between two events.
#[derive(Clone, Copy, Debug, PartialEq, Eq)]
pub enum Phase {
    /// The child runs; a wait is outstanding.
    Running,
    /// The child is stopped; its registers are being read.
    AwaitRegisters,
    /// The child is stopped at the syscall of `regs`; the handler at `index`
    /// of its chain is running.
    InChain { regs: SyscallEvent, index: usize },
    /// The child is stopped; the chain is over and the child is being resumed.
    AwaitResume,
    /// The child has exited.
    Exited,
    /// The supervisor has given up.
    Failed(Failure),
}

/// The state of the traced child as the supervisor sees it.
#[derive(Clone, Copy, Debug, PartialEq, Eq)]
pub enum TraceState {
    Running,
    StoppedAtSyscall,
    Exited,
    Failed,
}

impl Phase {
    /// The state of the child that a phase belongs to.
    pub open spec fn spec_state(self) -> TraceState {
        match self {
            Phase::Running => TraceState::Running,
            Phase::AwaitRegisters => TraceState::StoppedAtSyscall,
            Phase::InChain { .. } => TraceState::StoppedAtSyscall,
            Phase::AwaitResume => TraceState::StoppedAtSyscall,
            Phase::Exited => TraceState::Exited,
            Phase::Failed(_) => TraceState::Failed,
        }
    }

    /// The action a session in this phase is waiting on.
    pub open spec fn spec_pending_action(self) -> Action {
        match self {
            Phase::Running => Action::Wait,
            Phase::AwaitRegisters => Action::ReadRegisters,
            Phase::InChain { regs, index } => Action::Invoke { index },
            Phase::AwaitResume => Action::Resume,
            Phase::Exited => Action::Finish,
            Phase::Failed(why) => Action::Abort(why),
        }
    }

    /// The action a session in this phase is waiting on.
    #[verifier::when_used_as_spec(spec_pending_action)]
    pub fn pending_action(self) -> (action: Action)
        ensures
            action == self.spec_pending_action(),
    {
        match self {
            Phase::Running => Action::Wait,
            Phase::AwaitRegisters => Action::ReadRegisters,
            Phase::InChain { regs, index } => Action::Invoke { index },
            Phase::AwaitResume => Action::Resume,
            Phase::Exited => Action::Finish,
            Phase::Failed(why) => Action::Abort(why),
        }
    }

    /// The state of the child that a phase belongs to.
    #[verifier::when_used_as_spec(spec_state)]
    pub fn state(self) -> (state: TraceState)
        ensures
            state == self.spec_state(),
    {
        match self {
            Phase::Running => TraceState::Running,
            Phase::AwaitRegisters => TraceState::StoppedAtSyscall,
            Phase::InChain { .. } => TraceState::StoppedAtSyscall,
            Phase::AwaitResume => TraceState::StoppedAtSyscall,
            Phase::Exited => TraceState::Exited,
            Phase::Failed(_) => TraceState::Failed,
        }
    }
}

/// The toggles of the built-in loggers, one for each.
#[derive(Clone, Copy, Debug, PartialEq, Eq)]
pub struct HandlerToggles {
    pub read: EntryExitToggle,
    pub write: EntryExitToggle,
}

impl HandlerToggles {
    /// The toggle of the logger of the given kind.
    pub open spec fn of(self, kind: HandlerKind) -> EntryExitToggle {
        match kind {
            HandlerKind::ReadDefault => self.read,
            HandlerKind::WriteDefault => self.write,
        }
    }

    /// These toggles with the one of `kind` replaced.
    pub open spec fn with(self, kind: HandlerKind, toggle: EntryExitToggle) -> HandlerToggles {
        match kind {
            HandlerKind::ReadDefault => HandlerToggles { read: toggle, write: self.write },
            HandlerKind::WriteDefault => HandlerToggles { read: self.read, write: toggle },
        }
    }

    /// The toggles before the first stop: every logger expects an entry.
    pub fn new() -> (toggles: Self)
        ensures
            toggles.read.entry_expected,
            toggles.write.entry_expected,
    {
        HandlerToggles { read: EntryExitToggle::new(), write: EntryExitToggle::new() }
    }
}

/// The length of the chain of syscall `id`; zero if no chain is bound to it.
pub open spec fn chain_len(table: Map<u64, Seq<PluginInterfaceView>>, id: u64) -> nat {
    if table.contains_key(id) {
        table[id].len()
    } else {
        0
    }
}

/// What follows the handler at `index`, which has let the chain go on: the
/// next handler of the chain, or the resumption of the child after the last.
pub open spec fn after_handler(
    table: Map<u64, Seq<PluginInterfaceView>>,
    regs: SyscallEvent,
    index: usize,
) -> (Phase, Action) {
    if index + 1 < chain_len(table, regs.spec_syscall_id()) {
        (
            Phase::InChain { regs, index: (index + 1) as usize },
            Action::Invoke { index: (index + 1) as usize },
        )
    } else {
        (Phase::AwaitResume, Action::Resume)
    }
}

/// The transition of the supervisor: the phase a session is in after `event`
/// and what it asks for next.
///
/// * While the child runs, a stop leads to the registers being read, an exit
///   ends the trace, any other report is followed by another wait, and a
///   failed wait is fatal.
/// * Registers that cannot be read are fatal. Otherwise the syscall number is
///   looked up: without a chain the child is resumed at once, with a chain its
///   first handler is invoked.
/// * After a handler, `StatusOk` and `StatusFailed` lead on to the next
///   handler, or to the resumption after the last; `StatusPass` leads to the
///   resumption at once; `StatusError` is fatal.
/// * A child that was resumed runs; one that could not be resumed is fatal.
/// * An exited or failed session stays as it is. An event that does not
///   answer the outstanding action is fatal.
pub open spec fn next_step(
    table: Map<u64, Seq<PluginInterfaceView>>,
    phase: Phase,
    event: Event,
) -> (Phase, Action) {
    match phase {
        Phase::Exited => (Phase::Exited, Action::Finish),
        Phase::Failed(why) => (Phase::Failed(why), Action::Abort(why)),
        Phase::Running => match event {
            Event::Waited(WaitReport::Stopped) => (Phase::AwaitRegisters, Action::ReadRegisters),
            Event::Waited(WaitReport::Exited) => (Phase::Exited, Action::Finish),
            Event::Waited(WaitReport::Other) => (Phase::Running, Action::Wait),
            Event::Waited(WaitReport::Failed) => (
                Phase::Failed(Failure::Wait),
                Action::Abort(Failure::Wait),
            ),
            _ => (Phase::Failed(Failure::Protocol), Action::Abort(Failure::Protocol)),
        },
        Phase::AwaitRegisters => match event {
            Event::Registers(Some(regs)) => if chain_len(table, regs.spec_syscall_id()) > 0 {
                (Phase::InChain { regs, index: 0 }, Action::Invoke { index: 0 })
            } else {
                (Phase::AwaitResume, Action::Resume)
            },
            Event::Registers(None) => (
                Phase::Failed(Failure::Registers),
                Action::Abort(Failure::Registers),
            ),
            _ => (Phase::Failed(Failure::Protocol), Action::Abort(Failure::Protocol)),
        },
        Phase::InChain { regs, index } => match event {
            Event::HandlerReturned(PluginStatus::StatusOk) => after_handler(table, regs, index),
            Event::HandlerReturned(PluginStatus::StatusFailed) => after_handler(
                table,
                regs,
                index,
            ),
            Event::HandlerReturned(PluginStatus::StatusPass) => (
                Phase::AwaitResume,
                Action::Resume,
            ),
            Event::HandlerReturned(PluginStatus::StatusError) => (
                Phase::Failed(Failure::Handler),
                Action::Abort(Failure::Handler),
            ),
            _ => (Phase::Failed(Failure::Protocol), Action::Abort(Failure::Protocol)),
        },
        Phase::AwaitResume => match event {
            Event::Resumed(true) => (Phase::Running, Action::Wait),
            Event::Resumed(false) => (
                Phase::Failed(Failure::Resume),
                Action::Abort(Failure::Resume),
            ),
            _ => (Phase::Failed(Failure::Protocol), Action::Abort(Failure::Protocol)),
        },
    }
}

/// Whether a phase fits a table: a handler that is running is one of the
/// chain of its syscall.
pub open spec fn phase_fits(table: Map<u64, Seq<PluginInterfaceView>>, phase: Phase) -> bool {
    phase matches Phase::InChain { regs, index } ==> index < chain_len(
        table,
        regs.spec_syscall_id(),
    )
}

/// Calls `nix::sys::ptrace::getregs` (`PTRACE_GETREGS`) for the stopped
/// process `pid` and hands out the registers one for one, in the order in
/// which `user_regs_struct` declares them. `None` stands for any error the
/// call returned. Nothing is claimed of the values: they are whatever the
/// process holds at the time of the call.
#[verifier::external_body]
fn fetch_registers(pid: Pid) -> (words: Option<[u64; REGISTER_COUNT]>) {
    match ptrace::getregs(pid) {
        Ok(r) => Some([
            r.r15, r.r14, r.r13, r.r12, r.rbp, r.rbx, r.r11, r.r10, r.r9, r.r8, r.rax, r.rcx,
            r.rdx, r.rsi, r.rdi, r.orig_rax, r.rip, r.cs, r.eflags, r.rsp, r.ss, r.fs_base,
            r.gs_base, r.ds, r.es, r.fs, r.gs,
        ]),
        Err(_) => None,
    }
}

/// Calls `nix::sys::ptrace::syscall` (`PTRACE_SYSCALL`) for the stopped
/// process `pid`, with no signal to deliver, which lets the process run until
/// it enters or leaves its next system call, and tells whether the call
/// returned without error. Whether it does is up to the kernel.
#[verifier::external_body]
fn resume_until_syscall(pid: Pid) -> (resumed: bool) {
    ptrace::syscall(pid, None).is_ok()
}

/// The supervisor's view of one traced child.
pub struct TraceSession {
    child: Pid,
    phase: Phase,
    table: DispatchTable,
    toggles: HandlerToggles,
}

/// A `TraceSession` with its table as a map.
pub struct TraceSessionView {
    pub child: Pid,
    pub phase: Phase,
    pub table: Map<u64, Seq<PluginInterfaceView>>,
    pub toggles: HandlerToggles,
}

impl View for TraceSession {
    type V = TraceSessionView;

    closed spec fn view(&self) -> TraceSessionView {
        TraceSessionView {
            child: self.child,
            phase: self.phase,
            table: table_view(self.table),
            toggles: self.toggles,
        }
    }
}

impl TraceSession {
    #[verifier::type_invariant]
    spec fn well_formed(&self) -> bool {
        phase_fits(table_view(self.table), self.phase)
    }

    /// A session for the child `child`, which was started under trace and now
    /// runs, with the plugins of `table`. No logger has seen a stop yet.
    pub fn new(child: Pid, table: DispatchTable) -> (session: Self)
        ensures
            session@.child == child,
            session@.phase == Phase::Running,
            session@.table == table_view(table),
            session@.toggles.read.entry_expected,
            session@.toggles.write.entry_expected,
    {
        TraceSession { child, phase: Phase::Running, table, toggles: HandlerToggles::new() }
    }

    /// The traced child.
    pub fn child(&self) -> (child: Pid)
        ensures
            child == self@.child,
    {
        self.child
    }

    /// The phase the session is in.
    pub fn phase(&self) -> (phase: Phase)
        ensures
            phase == self@.phase,
            phase_fits(self@.table, phase),
    {
        proof {
            use_type_invariant(self);
        }
        self.phase
    }

    /// The state of the traced child.
    pub fn state(&self) -> (state: TraceState)
        ensures
            state == self@.phase.spec_state(),
    {
        self.phase.state()
    }

    /// Whether the trace is over, because the child has exited or because the
    /// supervisor has given up.
    pub fn is_over(&self) -> (over: bool)
        ensures
            over == (self@.phase is Exited || self@.phase is Failed),
    {
        match self.phase {
            Phase::Exited => true,
            Phase::Failed(_) => true,
            _ => false,
        }
    }

    /// The plugin whose handler the session is at, if it is at one.
    pub fn pending_plugin(&self) -> (plugin: Option<&PluginInterface>)
        ensures
            match self@.phase {
                Phase::InChain { regs, index } => plugin matches Some(p) && p@
                    == self@.table[regs.spec_syscall_id()][index as int],
                _ => plugin is None,
            },
    {
        proof {
            use_type_invariant(self);
        }
        let (regs, index) = match self.phase {
            Phase::InChain { regs, index } => (regs, index),
            _ => return None,
        };
        match self.table.get(&regs.syscall_id()) {
            Some(chain) => Some(&chain[index]),
            None => None,
        }
    }

    /// The action the session is waiting on. For a new session this is the
    /// first wait for the child.
    pub fn pending_action(&self) -> (action: Action)
        ensures
            action == self@.phase.spec_pending_action(),
    {
        self.phase.pending_action()
    }

    /// The length of the chain bound to syscall `id`.
    fn chain_len_of(&self, id: u64) -> (len: usize)
        ensures
            len == chain_len(self@.table, id),
    {
        match self.table.get(&id) {
            Some(chain) => chain.len(),
            None => 0,
        }
    }

    /// Takes in the outcome of the action the session asked for last, moves
    /// to the next phase and says what is to be done next. The table and the
    /// toggles of the loggers are left as they are.
    pub fn step(&mut self, event: Event) -> (action: Action)
        ensures
            (final(self)@.phase, action) == next_step(old(self)@.table, old(self)@.phase, event),
            final(self)@.table == old(self)@.table,
            final(self)@.toggles == old(self)@.toggles,
            final(self)@.child == old(self)@.child,
    {
        proof {
            use_type_invariant(&*self);
        }
        let (phase, action): (Phase, Action) = match self.phase {
            Phase::Exited => (Phase::Exited, Action::Finish),
            Phase::Failed(why) => (Phase::Failed(why), Action::Abort(why)),
            Phase::Running => match event {
                Event::Waited(WaitReport::Stopped) => (
                    Phase::AwaitRegisters,
                    Action::ReadRegisters,
                ),
                Event::Waited(WaitReport::Exited) => (Phase::Exited, Action::Finish),
                Event::Waited(WaitReport::Other) => (Phase::Running, Action::Wait),
                Event::Waited(WaitReport::Failed) => (
                    Phase::Failed(Failure::Wait),
                    Action::Abort(Failure::Wait),
                ),
                _ => (Phase::Failed(Failure::Protocol), Action::Abort(Failure::Protocol)),
            },
            Phase::AwaitRegisters => match event {
                Event::Registers(Some(regs)) => if self.chain_len_of(regs.syscall_id()) > 0 {
                    (Phase::InChain { regs, index: 0 }, Action::Invoke { index: 0 })
                } else {
                    (Phase::AwaitResume, Action::Resume)
                },
                Event::Registers(None) => (
                    Phase::Failed(Failure::Registers),
                    Action::Abort(Failure::Registers),
                ),
                _ => (Phase::Failed(Failure::Protocol), Action::Abort(Failure::Protocol)),
            },
            Phase::InChain { regs, index } => match event {
                Event::HandlerReturned(PluginStatus::StatusOk) | Event::HandlerReturned(
                    PluginStatus::StatusFailed,
                ) => {
                    let len = self.chain_len_of(regs.syscall_id());
                    if index + 1 < len {
                        (
                            Phase::InChain { regs, index: index + 1 },
                            Action::Invoke { index: index + 1 },
                        )
                    } else {
                        (Phase::AwaitResume, Action::Resume)
                    }
                },
                Event::HandlerReturned(PluginStatus::StatusPass) => (
                    Phase::AwaitResume,
                    Action::Resume,
                ),
                Event::HandlerReturned(PluginStatus::StatusError) => (
                    Phase::Failed(Failure::Handler),
                    Action::Abort(Failure::Handler),
                ),
                _ => (Phase::Failed(Failure::Protocol), Action::Abort(Failure::Protocol)),
            },
            Phase::AwaitResume => match event {
                Event::Resumed(true) => (Phase::Running, Action::Wait),
                Event::Resumed(false) => (
                    Phase::Failed(Failure::Resume),
                    Action::Abort(Failure::Resume),
                ),
                _ => (Phase::Failed(Failure::Protocol), Action::Abort(Failure::Protocol)),
            },
        };
        self.phase = phase;
        action
    }

    /// Carries out `Action::ReadRegisters`: reads the registers of the stopped
    /// child and takes the step that follows from them. Nothing is read and
    /// nothing changes if the session is not waiting for registers; the
    /// action it is waiting on is then asked for again.
    ///
    /// Whether the registers can be read, and what they hold, is up to the
    /// child and the kernel, so the step is stated for whatever came back.
    pub fn read_registers(&mut self) -> (action: Action)
        ensures
            final(self)@.table == old(self)@.table,
            final(self)@.toggles == old(self)@.toggles,
            final(self)@.child == old(self)@.child,
            old(self)@.phase is AwaitRegisters ==> exists|regs: Option<SyscallEvent>|
                (final(self)@.phase, action) == #[trigger] next_step(
                    old(self)@.table,
                    old(self)@.phase,
                    Event::Registers(regs),
                ),
            !(old(self)@.phase is AwaitRegisters) ==> final(self)@.phase == old(self)@.phase
                && action == old(self)@.phase.spec_pending_action(),
    {
        match self.phase {
            Phase::AwaitRegisters => {
                let regs = match fetch_registers(self.child) {
                    Some(words) => Some(SyscallEvent::from_words(&words)),
                    None => None,
                };
                self.step(Event::Registers(regs))
            },
            _ => self.pending_action(),
        }
    }

    /// Carries out `Action::Resume`: lets the stopped child run on to its
    /// next syscall boundary and takes the step that follows. The child is
    /// left alone and nothing changes if the session is not about to resume
    /// it; the action it is waiting on is then asked for again.
    ///
    /// Whether the child can be resumed is up to the kernel, so the step is
    /// stated for either outcome.
    pub fn resume_child(&mut self) -> (action: Action)
        ensures
            final(self)@.table == old(self)@.table,
            final(self)@.toggles == old(self)@.toggles,
            final(self)@.child == old(self)@.child,
            old(self)@.phase is AwaitResume ==> exists|resumed: bool|
                (final(self)@.phase, action) == #[trigger] next_step(
                    old(self)@.table,
                    old(self)@.phase,
                    Event::Resumed(resumed),
                ),
            !(old(self)@.phase is AwaitResume) ==> final(self)@.phase == old(self)@.phase
                && action == old(self)@.phase.spec_pending_action(),
    {
        match self.phase {
            Phase::AwaitResume => {
                let resumed = resume_until_syscall(self.child);
                self.step(Event::Resumed(resumed))
            },
            _ => self.pending_action(),
        }
    }

    /// Runs the handler that `Action::Invoke` asked for: the one the session
    /// is at in the chain of the current syscall, on the registers of the
    /// current stop, with the toggle of its kind. `None`, and nothing done,
    /// if the session is not at a handler.
    ///
    /// Only the toggle of the handler's kind changes. What the handler reads
    /// from the traced child is up to the child, so the outcome is stated for
    /// whatever came back. Where nothing is read the outcome is settled: at
    /// an entry stop and on a standard stream nothing is to be done, a call of
    /// no bytes gives the record of an empty buffer, and a buffer that
    /// reaches beyond the last address fails.
    pub fn run_pending_handler(&mut self) -> (outcome: Option<HandlerOutcome>)
        ensures
            final(self)@.phase == old(self)@.phase,
            final(self)@.table == old(self)@.table,
            final(self)@.child == old(self)@.child,
            match old(self)@.phase {
                Phase::InChain { regs, index } => {
                    let plugin = old(self)@.table[regs.spec_syscall_id()][index as int];
                    let toggle = old(self)@.toggles.of(plugin.function);
                    &&& final(self)@.toggles == old(self)@.toggles.with(
                        plugin.function,
                        toggle.flipped(),
                    )
                    &&& outcome matches Some(out)
                    &&& !buffer_is_read(regs, toggle.entry_expected) ==> out@
                        == HandlerOutcomeView::Done(PluginStatus::StatusOk)
                    &&& (buffer_is_read(regs, toggle.entry_expected) && regs.spec_io_call().size
                        == 0) ==> out@ == outcome_after_read(
                        plugin.function,
                        plugin.argvs,
                        Some(Seq::<u64>::empty()),
                    )
                    &&& (buffer_is_read(regs, toggle.entry_expected) && !buffer_addressable(
                        regs.spec_io_call().address,
                        regs.spec_io_call().size,
                    )) ==> out@ == HandlerOutcomeView::Done(PluginStatus::StatusFailed)
                    &&& exists|words: Option<Seq<u64>>| #[trigger]
                        read_fits_call(regs, words) && out@ == stop_outcome(
                            plugin.function,
                            regs,
                            plugin.argvs,
                            toggle.entry_expected,
                            words,
                        )
                },
                _ => outcome is None && final(self)@.toggles == old(self)@.toggles,
            },
    {
        proof {
            use_type_invariant(&*self);
        }
        let (regs, index) = match self.phase {
            Phase::InChain { regs, index } => (regs, index),
            _ => return None,
        };
        let chain = match self.table.get(&regs.syscall_id()) {
            Some(chain) => chain,
            None => return None,
        };
        let plugin = &chain[index];
        let kind = plugin.function;
        let mut toggle: EntryExitToggle = match kind {
            HandlerKind::ReadDefault => self.toggles.read,
            HandlerKind::WriteDefault => self.toggles.write,
        };
        let outcome = handle_io_stop(kind, regs, self.child, &plugin.argvs, &mut toggle);
        match kind {
            HandlerKind::ReadDefault => {
                self.toggles.read = toggle;
            },
            HandlerKind::WriteDefault => {
                self.toggles.write = toggle;
            },
        }
        Some(outcome)
    }
}

/// The phase a session reaches from `phase` when `events` are reported in
/// order, and the actions it asks for on the way, one for each event.
pub open spec fn run(table: Map<u64, Seq<PluginInterfaceView>>, phase: Phase, events: Seq<Event>) -> (
    Phase,
    Seq<Action>,
)
    decreases events.len(),
{
    if events.len() == 0 {
        (phase, Seq::empty())
    } else {
        let (reached, asked) = run(table, phase, events.drop_last());
        let (next, action) = next_step(table, reached, events.last());
        (next, asked.push(action))
    }
}

/// The requests to invoke the first `count` handlers of a chain, in order.
pub open spec fn invocations(count: nat) -> Seq<Action> {
    Seq::new(count, |i: int| Action::Invoke { index: i as usize })
}

/// Whether a status lets the chain go on to its next handler.
pub open spec fn chain_goes_on(status: PluginStatus) -> bool {
    status == PluginStatus::StatusOk || status == PluginStatus::StatusFailed
}

/// The events of a stop at the syscall of `regs` whose handlers, as far as
/// they are invoked, return `statuses` in order: the registers, then one
/// event for each status.
pub open spec fn stop_events(regs: SyscallEvent, statuses: Seq<PluginStatus>) -> Seq<Event> {
    seq![Event::Registers(Some(regs))] + statuses.map_values(
        |status: PluginStatus| Event::HandlerReturned(status),
    )
}

/// How `run` goes on by one event.
proof fn run_one_more(
    table: Map<u64, Seq<PluginInterfaceView>>,
    phase: Phase,
    events: Seq<Event>,
    event: Event,
)
    ensures
        run(table, phase, events.push(event)) == ({
            let (reached, asked) = run(table, phase, events);
            let (next, action) = next_step(table, reached, event);
            (next, asked.push(action))
        }),
{
    assert(events.push(event).drop_last() =~= events);
}

/// What a session asks for is what its new phase waits on: the action is
/// settled by the phase alone.
pub proof fn action_is_that_of_new_phase(
    table: Map<u64, Seq<PluginInterfaceView>>,
    phase: Phase,
    event: Event,
)
    ensures
        next_step(table, phase, event).1 == next_step(table, phase, event).0.spec_pending_action(),
{
}

/// Whether the supervisor's machine has a transition from `before` to
/// `after`: a running child stops, exits or runs on; a stopped child stays
/// stopped while its chain runs and then runs again; any state can fail; an
/// exited or failed trace stays as it is.
pub open spec fn state_follows(before: TraceState, after: TraceState) -> bool {
    match before {
        TraceState::Running => true,
        TraceState::StoppedAtSyscall => after != TraceState::Exited,
        TraceState::Exited => after == TraceState::Exited,
        TraceState::Failed => after == TraceState::Failed,
    }
}

/// Every step is a transition of the supervisor's machine, and the child is
/// only ever asked to run on from a stop: a handler is invoked, and the child
/// resumed, only while the child is stopped at a syscall.
pub proof fn steps_follow_the_machine(
    table: Map<u64, Seq<PluginInterfaceView>>,
    phase: Phase,
    event: Event,
)
    ensures
        state_follows(phase.spec_state(), next_step(table, phase, event).0.spec_state()),
        next_step(table, phase, event).1 is Invoke ==> next_step(
            table,
            phase,
            event,
        ).0.spec_state() == TraceState::StoppedAtSyscall,
        next_step(table, phase, event).1 is Resume ==> phase.spec_state()
            == TraceState::StoppedAtSyscall,
        next_step(table, phase, event).1 is Invoke ==> phase.spec_state()
            == TraceState::StoppedAtSyscall,
{
}

/// A transition never leaves the chain of the current syscall: the handler a
/// session is at after a step is one of that chain.
pub proof fn step_stays_within_chain(
    table: Map<u64, Seq<PluginInterfaceView>>,
    phase: Phase,
    event: Event,
)
    requires
        phase_fits(table, phase),
    ensures
        phase_fits(table, next_step(table, phase, event).0),
{
}

/// The handlers of a chain are invoked in the order of the chain, each after
/// the one before it has let the chain go on, and the child is resumed after
/// the last. As long as handlers are left, the session is at the next one.
pub proof fn chain_runs_in_order(
    table: Map<u64, Seq<PluginInterfaceView>>,
    regs: SyscallEvent,
    statuses: Seq<PluginStatus>,
)
    requires
        chain_len(table, regs.spec_syscall_id()) <= usize::MAX,
        statuses.len() <= chain_len(table, regs.spec_syscall_id()),
        forall|j: int| 0 <= j < statuses.len() ==> chain_goes_on(#[trigger] statuses[j]),
    ensures
        run(table, Phase::AwaitRegisters, stop_events(regs, statuses)) == if statuses.len()
            < chain_len(table, regs.spec_syscall_id()) {
            (
                Phase::InChain { regs, index: statuses.len() as usize },
                invocations(statuses.len() + 1),
            )
        } else {
            (
                Phase::AwaitResume,
                invocations(chain_len(table, regs.spec_syscall_id())).push(Action::Resume),
            )
        },
    decreases statuses.len(),
{
    if statuses.len() == 0 {
        run_one_more(table, Phase::AwaitRegisters, Seq::empty(), Event::Registers(Some(regs)));
    } else {
        let front = statuses.drop_last();
        let last = Event::HandlerReturned(statuses.last());
        chain_runs_in_order(table, regs, front);
        assert(stop_events(regs, statuses) =~= stop_events(regs, front).push(last));
        run_one_more(table, Phase::AwaitRegisters, stop_events(regs, front), last);
    }
}

/// A syscall that no chain is bound to is of no interest: the child is
/// resumed, no handler is invoked and nothing fails.
pub proof fn syscall_without_chain_is_resumed(
    table: Map<u64, Seq<PluginInterfaceView>>,
    regs: SyscallEvent,
)
    requires
        !table.contains_key(regs.spec_syscall_id()),
    ensures
        next_step(table, Phase::AwaitRegisters, Event::Registers(Some(regs))) == (
            Phase::AwaitResume,
            Action::Resume,
        ),
        run(
            table,
            Phase::Running,
            seq![
                Event::Waited(WaitReport::Stopped),
                Event::Registers(Some(regs)),
                Event::Resumed(true),
            ],
        ) == (Phase::Running, seq![Action::ReadRegisters, Action::Resume, Action::Wait]),
{
    let stopped = Event::Waited(WaitReport::Stopped);
    let registers = Event::Registers(Some(regs));
    let resumed = Event::Resumed(true);
    let none = Seq::<Event>::empty();
    run_one_more(table, Phase::Running, none, stopped);
    run_one_more(table, Phase::Running, none.push(stopped), registers);
    run_one_more(table, Phase::Running, none.push(stopped).push(registers), resumed);
    assert(seq![stopped, registers, resumed] =~= none.push(stopped).push(registers).push(resumed));
}

/// A handler that returns `StatusPass` ends the chain for this stop. If the
/// handlers before handler `k` let the chain go on and handler `k` returns
/// `StatusPass`, then exactly the handlers up to `k` are invoked, in order,
/// and the child is resumed: no handler behind `k` is invoked.
pub proof fn pass_skips_rest_of_chain(
    table: Map<u64, Seq<PluginInterfaceView>>,
    regs: SyscallEvent,
    statuses: Seq<PluginStatus>,
    k: nat,
)
    requires
        chain_len(table, regs.spec_syscall_id()) <= usize::MAX,
        k < chain_len(table, regs.spec_syscall_id()),
        statuses.len() == k + 1,
        forall|j: int| 0 <= j < k ==> chain_goes_on(#[trigger] statuses[j]),
        statuses[k as int] == PluginStatus::StatusPass,
    ensures
        run(table, Phase::AwaitRegisters, stop_events(regs, statuses)) == (
            Phase::AwaitResume,
            invocations(k + 1).push(Action::Resume),
        ),
        forall|index: usize|
            k < index ==> !(#[trigger] invocations(k + 1).push(Action::Resume).contains(
                Action::Invoke { index },
            )),
{
    let front = statuses.drop_last();
    let last = Event::HandlerReturned(PluginStatus::StatusPass);
    chain_runs_in_order(table, regs, front);
    assert(stop_events(regs, statuses) =~= stop_events(regs, front).push(last));
    run_one_more(table, Phase::AwaitRegisters, stop_events(regs, front), last);
}

/// A handler that returns `StatusError` ends the trace. If the handlers
/// before handler `k` let the chain go on and handler `k` returns
/// `StatusError`, then exactly the handlers up to `k` are invoked, in order,
/// and the supervisor gives up: no handler behind `k` is invoked and the
/// child is not resumed.
pub proof fn error_aborts_supervisor(
    table: Map<u64, Seq<PluginInterfaceView>>,
    regs: SyscallEvent,
    statuses: Seq<PluginStatus>,
    k: nat,
)
    requires
        chain_len(table, regs.spec_syscall_id()) <= usize::MAX,
        k < chain_len(table, regs.spec_syscall_id()),
        statuses.len() == k + 1,
        forall|j: int| 0 <= j < k ==> chain_goes_on(#[trigger] statuses[j]),
        statuses[k as int] == PluginStatus::StatusError,
    ensures
        run(table, Phase::AwaitRegisters, stop_events(regs, statuses)) == (
            Phase::Failed(Failure::Handler),
            invocations(k + 1).push(Action::Abort(Failure::Handler)),
        ),
        !invocations(k + 1).push(Action::Abort(Failure::Handler)).contains(Action::Resume),
        forall|index: usize|
            k < index ==> !(#[trigger] invocations(k + 1).push(
                Action::Abort(Failure::Handler),
            ).contains(Action::Invoke { index })),
{
    let front = statuses.drop_last();
    let last = Event::HandlerReturned(PluginStatus::StatusError);
    chain_runs_in_order(table, regs, front);
    assert(stop_events(regs, statuses) =~= stop_events(regs, front).push(last));
    run_one_more(table, Phase::AwaitRegisters, stop_events(regs, front), last);
}

/// A supervisor that has given up stays so: whatever is reported to it, it
/// asks for nothing but to abort, for the reason it gave up for.
pub proof fn failed_session_only_aborts(
    table: Map<u64, Seq<PluginInterfaceView>>,
    why: Failure,
    events: Seq<Event>,
)
    ensures
        run(table, Phase::Failed(why), events) == (
            Phase::Failed(why),
            Seq::new(events.len(), |i: int| Action::Abort(why)),
        ),
    decreases events.len(),
{
    if events.len() > 0 {
        failed_session_only_aborts(table, why, events.drop_last());
    }
}

/// Once the child has exited the trace is over: whatever is reported, the
/// session asks for nothing but to finish.
pub proof fn exited_session_only_finishes(
    table: Map<u64, Seq<PluginInterfaceView>>,
    events: Seq<Event>,
)
    ensures
        run(table, Phase::Exited, events) == (
            Phase::Exited,
            Seq::new(events.len(), |i: int| Action::Finish),
        ),
    decreases events.len(),
{
    if events.len() > 0 {
        exited_session_only_finishes(table, events.drop_last());
    }
}

} // verus!
