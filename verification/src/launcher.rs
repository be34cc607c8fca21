//! The child's side of the launch.
//!
//! A freshly forked child asks to be traced by its parent and then turns
//! into the program to trace. The request is made here; replacing the process
//! image is left to the caller, which is told what to start.

use vstd::prelude::*;
use nix::sys::ptrace;
use crate::conf::{Config, ConfigView};

verus! {

/// What the child does after it has asked to be traced.
#[derive(Debug, Clone, PartialEq, Eq)]
pub enum LaunchStep {
    /// Replace the process by the executable `file`, started with the one
    /// argument `argv`.
    Exec { file: String, argv: String },
    /// The request to be traced was turned down: give up before anything of
    /// the program runs.
    Abort,
}

/// A `LaunchStep` with its strings as sequences.
pub enum LaunchStepView {
    Exec { file: Seq<char>, argv: Seq<char> },
    Abort,
}

impl View for LaunchStep {
    type V = LaunchStepView;

    open spec fn view(&self) -> LaunchStepView {
        match self {
            LaunchStep::Exec { file, argv } => LaunchStepView::Exec { file: file@, argv: argv@ },
            LaunchStep::Abort => LaunchStepView::Abort,
        }
    }
}

/// Whether a configuration names the program to start and its argument.
pub open spec fn launchable(config: ConfigView) -> bool {
    config.file_path is Some && config.argv is Some
}

/// What the child does, given whether it is traced now: a traced child
/// starts the configured program, any other gives up.
pub open spec fn launch_plan(config: ConfigView, traced: bool) -> LaunchStepView {
    if traced {
        LaunchStepView::Exec { file: config.file_path->0, argv: config.argv->0 }
    } else {
        LaunchStepView::Abort
    }
}

/// Calls `nix::sys::ptrace::traceme` (`PTRACE_TRACEME`), which asks that the
/// calling process be traced by its parent, and tells whether the call
/// returned without error. Whether it does is up to the kernel.
#[verifier::external_body]
fn request_trace() -> (traced: bool) {
    ptrace::traceme().is_ok()
}

/// Decides what the child does once it knows whether it is traced.
pub fn plan_launch(config: &Config, traced: bool) -> (step: LaunchStep)
    requires
        launchable(config@),
    ensures
        step@ == launch_plan(config@, traced),
{
    if traced {
        LaunchStep::Exec { file: config.get_file(), argv: config.get_argv() }
    } else {
        LaunchStep::Abort
    }
}

/// The child's part of the launch, up to the point where the process image
/// is replaced: asks to be traced by the parent and says what to do next. The
/// program is started only if the request went through.
pub fn child_process(config: &Config) -> (step: LaunchStep)
    requires
        launchable(config@),
    ensures
        step@ == launch_plan(config@, true) || step@ == launch_plan(config@, false),
{
    let traced = request_trace();
    plan_launch(config, traced)
}

} // verus!
