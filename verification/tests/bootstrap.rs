use greeter_shell::bootstrap::diagnostic_line;
use greeter_shell::bootstrap::default_plan;
use greeter_shell::bootstrap::may_run;
use greeter_shell::bootstrap::on_run_loop_return;
use greeter_shell::bootstrap::BootState;
use greeter_shell::bootstrap::Plugin;
use greeter_shell::bootstrap::RunOutcome;

#[test]
fn plan_attaches_shell_then_window_state() {
    let plan = default_plan();
    assert_eq!(plan.plugins, vec![Plugin::Shell, Plugin::WindowState]);
    assert_eq!(plan.command, "greet");
}

#[test]
fn run_loop_failure_yields_diagnostic_and_terminates() {
    let (state, diag) = on_run_loop_return(
        BootState::Starting,
        RunOutcome::Failed(String::from("webview init failed")),
    );
    assert_eq!(state, BootState::Terminated);
    assert_eq!(
        diag.as_deref(),
        Some("Error running tauri application: webview init failed"),
    );
    assert!(!may_run(state));
}

#[test]
fn run_loop_shutdown_yields_no_diagnostic() {
    let (state, diag) = on_run_loop_return(BootState::Starting, RunOutcome::Completed);
    assert_eq!(state, BootState::Terminated);
    assert!(diag.is_none());
}

#[test]
fn only_the_starting_state_may_run() {
    assert!(may_run(BootState::Starting));
    assert!(!may_run(BootState::Terminated));
}

#[test]
fn diagnostic_line_carries_the_error_text() {
    assert_eq!(
        diagnostic_line("plugin failed"),
        "Error running tauri application: plugin failed",
    );
    assert_eq!(diagnostic_line(""), "Error running tauri application: ");
}
