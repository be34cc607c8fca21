//! The register snapshot taken at a trace-stop.

use vstd::prelude::*;

verus! {

/// The general-purpose registers of the traced process at one trace-stop, as
/// the x86-64 kernel hands them out. A snapshot is taken once per stop and
/// never changed afterwards.
#[derive(Clone, Copy, Debug, PartialEq, Eq)]
pub struct SyscallEvent {
    pub r15: u64,
    pub r14: u64,
    pub r13: u64,
    pub r12: u64,
    pub rbp: u64,
    pub rbx: u64,
    pub r11: u64,
    pub r10: u64,
    pub r9: u64,
    pub r8: u64,
    /// The return value, once the call has returned.
    pub rax: u64,
    pub rcx: u64,
    /// Third argument of the call.
    pub rdx: u64,
    /// Second argument of the call.
    pub rsi: u64,
    /// First argument of the call.
    pub rdi: u64,
    /// The number of the system call that caused the stop.
    pub orig_rax: u64,
    pub rip: u64,
    pub cs: u64,
    pub eflags: u64,
    pub rsp: u64,
    pub ss: u64,
    pub fs_base: u64,
    pub gs_base: u64,
    pub ds: u64,
    pub es: u64,
    pub fs: u64,
    pub gs: u64,
}

/// The three arguments of a `read` or `write` call. Both calls use the same
/// argument slots.
#[derive(Clone, Copy, Debug, PartialEq, Eq)]
pub struct IoCall {
    /// The descriptor the call works on.
    pub descriptor: u64,
    /// Where the buffer starts in the traced process.
    pub address: u64,
    /// How many bytes the call was asked to move.
    pub size: u64,
}

/// How many registers a snapshot holds.
pub const REGISTER_COUNT: usize = 27;

impl SyscallEvent {
    /// The snapshot whose registers are `words`, in the order in which the
    /// kernel lays them out: `r15` first, `gs` last.
    pub open spec fn spec_from_words(words: Seq<u64>) -> SyscallEvent {
        SyscallEvent {
            r15: words[0],
            r14: words[1],
            r13: words[2],
            r12: words[3],
            rbp: words[4],
            rbx: words[5],
            r11: words[6],
            r10: words[7],
            r9: words[8],
            r8: words[9],
            rax: words[10],
            rcx: words[11],
            rdx: words[12],
            rsi: words[13],
            rdi: words[14],
            orig_rax: words[15],
            rip: words[16],
            cs: words[17],
            eflags: words[18],
            rsp: words[19],
            ss: words[20],
            fs_base: words[21],
            gs_base: words[22],
            ds: words[23],
            es: words[24],
            fs: words[25],
            gs: words[26],
        }
    }

    /// The snapshot whose registers are `words`, in the order in which the
    /// kernel lays them out: `r15` first, `gs` last.
    pub fn from_words(words: &[u64; REGISTER_COUNT]) -> (regs: SyscallEvent)
        ensures
            regs == SyscallEvent::spec_from_words(words@),
    {
        SyscallEvent {
            r15: words[0],
            r14: words[1],
            r13: words[2],
            r12: words[3],
            rbp: words[4],
            rbx: words[5],
            r11: words[6],
            r10: words[7],
            r9: words[8],
            r8: words[9],
            rax: words[10],
            rcx: words[11],
            rdx: words[12],
            rsi: words[13],
            rdi: words[14],
            orig_rax: words[15],
            rip: words[16],
            cs: words[17],
            eflags: words[18],
            rsp: words[19],
            ss: words[20],
            fs_base: words[21],
            gs_base: words[22],
            ds: words[23],
            es: words[24],
            fs: words[25],
            gs: words[26],
        }
    }

    /// The number of the system call this stop belongs to.
    pub open spec fn spec_syscall_id(&self) -> u64 {
        self.orig_rax
    }

    /// The arguments of the call, read as those of `read` or `write`.
    pub open spec fn spec_io_call(&self) -> IoCall {
        IoCall { descriptor: self.rdi, address: self.rsi, size: self.rdx }
    }

    /// The number of the system call this stop belongs to.
    #[verifier::when_used_as_spec(spec_syscall_id)]
    pub fn syscall_id(&self) -> (id: u64)
        ensures
            id == self.spec_syscall_id(),
    {
        self.orig_rax
    }

    /// Decodes the arguments of a `read` or `write` call: the descriptor from
    /// the first argument register, the buffer address from the second, the
    /// byte count from the third.
    #[verifier::when_used_as_spec(spec_io_call)]
    pub fn io_call(&self) -> (call: IoCall)
        ensures
            call == self.spec_io_call(),
    {
        IoCall { descriptor: self.rdi, address: self.rsi, size: self.rdx }
    }
}

} // verus!
