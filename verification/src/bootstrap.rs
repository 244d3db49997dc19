//! The application bootstrap: a two-state machine around the host framework's
//! blocking run loop.
//!
//! The bootstrap starts in [`BootState::Starting`]: it builds the host
//! application from the fixed [`BootPlan`] (the two plugins in order, then the
//! single greeting command) and hands control to the host's run loop. When the
//! run loop returns — normal shutdown or unrecoverable startup failure — the
//! machine moves to [`BootState::Terminated`], and on failure owes exactly one
//! diagnostic line for the standard error stream. There is no retry and no
//! recovery path: the terminated state admits no further run.

use vstd::prelude::*;
use vstd::string::StringExecFns;

verus! {

/// A capability module attached to the host framework at startup.
#[derive(Clone, Copy, Debug, PartialEq, Eq, Structural)]
pub enum Plugin {
    /// Shell/process-execution access for the front end.
    Shell,
    /// Persistence of window geometry and state across runs.
    WindowState,
}

/// The two states of the bootstrap.
#[derive(Clone, Copy, Debug, PartialEq, Eq, Structural)]
pub enum BootState {
    /// Building the host application; the run loop has not returned yet.
    Starting,
    /// The run loop has returned; the process is on its way out.
    Terminated,
}

/// What the host's run loop reported when it returned.
pub enum RunOutcome {
    /// Normal shutdown.
    Completed,
    /// Unrecoverable failure; the payload is the host's rendering of its error.
    Failed(String),
}

/// The ordered startup plan: which plugins to attach, in which order, and the
/// name of the sole invokable command.
pub struct BootPlan {
    /// Plugins, in the order they are attached to the host builder.
    pub plugins: Vec<Plugin>,
    /// The one command registered with the host's dispatch mechanism.
    pub command: String,
}

/// The fixed plugin order: shell first, then window state. The order is kept
/// for compatibility with data the window-state plugin persisted earlier.
pub open spec fn spec_default_plugins() -> Seq<Plugin> {
    seq![Plugin::Shell, Plugin::WindowState]
}

/// Whether the bootstrap may hand control to the host's run loop: only while
/// it is still starting. Once terminated, the run loop is never invoked again.
pub open spec fn spec_may_run(s: BootState) -> bool {
    s is Starting
}

/// The diagnostic line owed to standard error when the run loop fails with an
/// error rendered as `err`.
pub open spec fn spec_diagnostic(err: Seq<char>) -> Seq<char> {
    "Error running tauri application: "@ + err
}

/// Build the default startup plan: the shell plugin, then the window-state
/// plugin, and the greeting command as the only invokable command.
pub fn default_plan() -> (p: BootPlan)
    ensures
        p.plugins@ == spec_default_plugins(),
        p.command@ == "greet"@,
{
    let mut plugins: Vec<Plugin> = Vec::new();
    plugins.push(Plugin::Shell);
    plugins.push(Plugin::WindowState);
    proof {
        assert(plugins@ =~= spec_default_plugins());
    }
    BootPlan { plugins, command: String::from_str("greet") }
}

/// Whether the bootstrap may start the host's run loop from state `s`.
pub fn may_run(s: BootState) -> (r: bool)
    ensures
        r == spec_may_run(s),
{
    match s {
        BootState::Starting => true,
        BootState::Terminated => false,
    }
}

/// Format the diagnostic line for a failed run loop.
pub fn diagnostic_line(err: &str) -> (r: String)
    ensures
        r@ == spec_diagnostic(err@),
{
    String::from_str("Error running tauri application: ").concat(err)
}

/// The single transition of the bootstrap state machine: the run loop has
/// returned with `outcome`, and the bootstrap terminates. On failure the
/// result carries the diagnostic line for standard error; on normal shutdown
/// it carries nothing. Either way the next state admits no further run: the
/// failure is terminal and non-resumable.
pub fn on_run_loop_return(state: BootState, outcome: RunOutcome) -> (r: (BootState, Option<String>))
    requires
        spec_may_run(state),
    ensures
        r.0 == BootState::Terminated,
        !spec_may_run(r.0),
        outcome is Completed ==> r.1 is None,
        (outcome matches RunOutcome::Failed(m) ==> r.1 matches Some(d) && d@ == spec_diagnostic(
            m@,
        )),
{
    match outcome {
        RunOutcome::Completed => (BootState::Terminated, None),
        RunOutcome::Failed(m) => (BootState::Terminated, Some(diagnostic_line(m.as_str()))),
    }
}

} // verus!
