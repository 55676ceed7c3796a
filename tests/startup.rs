use shell_startup::{
    main_window_label, plan, setup_signal, Action, Fault, LogLevel, Notice, Phase, Setup, Signal,
    StartupConfig, Status, Step,
};

fn run_setup(c: &StartupConfig, outcomes: &[bool]) -> (Setup, Vec<Step>) {
    let mut s = Setup::new(c);
    let mut carried_out = Vec::new();
    for &ok in outcomes {
        if let Action::Perform(step) = s.next_action() {
            if ok {
                carried_out.push(step);
            }
        }
        s.report(ok);
    }
    (s, carried_out)
}

#[test]
fn debug_build_is_verbose_with_warn_logging() {
    let c = StartupConfig::for_build(true);
    assert!(c.verbose);
    assert_eq!(c.log_level, Some(LogLevel::Warn));
}

#[test]
fn release_build_is_quiet_without_logging() {
    let c = StartupConfig::for_build(false);
    assert!(!c.verbose);
    assert_eq!(c.log_level, None);
}

#[test]
fn main_window_label_is_main() {
    assert_eq!(main_window_label(), "main");
}

#[test]
fn debug_plan_has_notices_and_logging() {
    let p = plan(&StartupConfig::for_build(true));
    assert_eq!(
        p,
        vec![
            Step::Announce(Notice::Starting),
            Step::AttachLog(LogLevel::Warn),
            Step::LookupWindow,
            Step::Announce(Notice::WindowFound),
            Step::ShowWindow,
            Step::FocusWindow,
            Step::Announce(Notice::WindowVisible),
        ]
    );
}

#[test]
fn release_plan_only_touches_the_window() {
    let p = plan(&StartupConfig::for_build(false));
    assert_eq!(p, vec![Step::LookupWindow, Step::ShowWindow, Step::FocusWindow]);
}

#[test]
fn verbose_plan_without_logging() {
    let c = StartupConfig { verbose: true, log_level: None };
    let p = plan(&c);
    assert_eq!(p.len(), 6);
    assert_eq!(p[0], Step::Announce(Notice::Starting));
    assert_eq!(p[1], Step::LookupWindow);
}

#[test]
fn quiet_plan_with_info_logging() {
    let c = StartupConfig { verbose: false, log_level: Some(LogLevel::Info) };
    let p = plan(&c);
    assert_eq!(
        p,
        vec![Step::AttachLog(LogLevel::Info), Step::LookupWindow, Step::ShowWindow, Step::FocusWindow]
    );
}

#[test]
fn new_setup_asks_for_first_step() {
    let s = Setup::new(&StartupConfig::for_build(true));
    assert_eq!(s.status(), Status::Pending);
    assert_eq!(s.steps_done(), 0);
    assert_eq!(s.next_action(), Action::Perform(Step::Announce(Notice::Starting)));
    assert_eq!(s.outcome(), None);
}

#[test]
fn successful_debug_setup_shows_and_focuses_window() {
    let c = StartupConfig::for_build(true);
    let (s, carried_out) = run_setup(&c, &[true; 7]);
    assert_eq!(s.status(), Status::Completed);
    assert_eq!(s.next_action(), Action::Finish);
    assert_eq!(s.outcome(), Some(Ok(())));
    assert_eq!(s.steps_done(), 7);
    let shown = carried_out.iter().position(|x| *x == Step::ShowWindow).unwrap();
    let focused = carried_out.iter().position(|x| *x == Step::FocusWindow).unwrap();
    assert!(shown < focused);
    assert_eq!(carried_out[0], Step::Announce(Notice::Starting));
    assert!(0 < shown);
}

#[test]
fn successful_release_setup_completes_after_three_steps() {
    let c = StartupConfig::for_build(false);
    let (s, carried_out) = run_setup(&c, &[true, true, true]);
    assert_eq!(s.status(), Status::Completed);
    assert_eq!(carried_out, vec![Step::LookupWindow, Step::ShowWindow, Step::FocusWindow]);
    assert!(!carried_out.iter().any(|x| matches!(x, Step::Announce(_))));
}

#[test]
fn missing_window_aborts_in_release() {
    let c = StartupConfig::for_build(false);
    let (s, carried_out) = run_setup(&c, &[false]);
    assert_eq!(s.status(), Status::Aborted(Fault::MissingWindow));
    assert_eq!(s.next_action(), Action::Abort(Fault::MissingWindow));
    assert_eq!(s.outcome(), Some(Err(Fault::MissingWindow)));
    assert!(carried_out.is_empty());
}

#[test]
fn missing_window_aborts_in_debug_before_showing() {
    let c = StartupConfig::for_build(true);
    let (s, carried_out) = run_setup(&c, &[true, true, false]);
    assert_eq!(s.status(), Status::Aborted(Fault::MissingWindow));
    assert_eq!(s.steps_done(), 2);
    assert!(!carried_out.contains(&Step::ShowWindow));
    assert!(!carried_out.contains(&Step::FocusWindow));
}

#[test]
fn log_plugin_failure_aborts() {
    let c = StartupConfig::for_build(true);
    let (s, _) = run_setup(&c, &[true, false]);
    assert_eq!(s.outcome(), Some(Err(Fault::LogPlugin)));
}

#[test]
fn show_and_focus_failures_abort() {
    let c = StartupConfig::for_build(false);
    let (s, _) = run_setup(&c, &[true, false]);
    assert_eq!(s.status(), Status::Aborted(Fault::ShowWindow));
    let (s, _) = run_setup(&c, &[true, true, false]);
    assert_eq!(s.status(), Status::Aborted(Fault::FocusWindow));
}

#[test]
fn console_failure_aborts() {
    let c = StartupConfig::for_build(true);
    let (s, _) = run_setup(&c, &[false]);
    assert_eq!(s.status(), Status::Aborted(Fault::Console));
}

#[test]
fn finished_setup_ignores_further_reports() {
    let c = StartupConfig::for_build(false);
    let (mut s, _) = run_setup(&c, &[true, true, true]);
    s.report(false);
    s.report(true);
    assert_eq!(s.status(), Status::Completed);
    assert_eq!(s.steps_done(), 3);
    let (mut s, _) = run_setup(&c, &[false]);
    s.report(true);
    assert_eq!(s.status(), Status::Aborted(Fault::MissingWindow));
    assert_eq!(s.steps_done(), 0);
}

#[test]
fn step_faults() {
    assert_eq!(Step::Announce(Notice::Starting).fault(), Fault::Console);
    assert_eq!(Step::AttachLog(LogLevel::Warn).fault(), Fault::LogPlugin);
    assert_eq!(Step::LookupWindow.fault(), Fault::MissingWindow);
    assert_eq!(Step::ShowWindow.fault(), Fault::ShowWindow);
    assert_eq!(Step::FocusWindow.fault(), Fault::FocusWindow);
}

#[test]
fn notice_texts() {
    assert_eq!(Notice::Starting.text(), "Tauri app starting up...");
    assert_eq!(Notice::WindowFound.text(), "Main window created successfully");
    assert_eq!(Notice::WindowVisible.text(), "Window should now be visible");
}

#[test]
fn diagnostics() {
    assert_eq!(Fault::RunLoop.diagnostic(), "error while running tauri application");
    assert_eq!(
        Fault::MissingWindow.diagnostic(),
        "no window is registered under the label \"main\""
    );
    assert_eq!(Fault::LogPlugin.diagnostic(), "could not attach the logging plugin");
    assert_eq!(Fault::ShowWindow.diagnostic(), "could not show the main window");
    assert_eq!(Fault::FocusWindow.diagnostic(), "could not focus the main window");
    assert_eq!(Fault::Console.diagnostic(), "could not write to the console");
}

#[test]
fn setup_signals() {
    assert_eq!(setup_signal(Status::Pending), None);
    assert_eq!(setup_signal(Status::Completed), Some(Signal::SetupSucceeded));
    assert_eq!(
        setup_signal(Status::Aborted(Fault::MissingWindow)),
        Some(Signal::SetupFailed(Fault::MissingWindow))
    );
}

#[test]
fn clean_run_exits_with_success() {
    let p = Phase::NotStarted;
    assert_eq!(p.verdict(), None);
    let p = p.advance(Signal::SetupSucceeded);
    assert_eq!(p, Phase::Running);
    assert_eq!(p.verdict(), None);
    let p = p.advance(Signal::LoopExited);
    assert_eq!(p, Phase::Exited);
    assert_eq!(p.verdict(), Some(Ok(())));
}

#[test]
fn failed_setup_crashes() {
    let p = Phase::NotStarted.advance(Signal::SetupFailed(Fault::MissingWindow));
    assert_eq!(p.verdict(), Some(Err(Fault::MissingWindow)));
    let p = p.advance(Signal::SetupSucceeded).advance(Signal::LoopExited);
    assert_eq!(p, Phase::Crashed(Fault::MissingWindow));
}

#[test]
fn loop_failure_crashes() {
    assert_eq!(Phase::NotStarted.advance(Signal::LoopFailed), Phase::Crashed(Fault::RunLoop));
    let p = Phase::Running.advance(Signal::LoopFailed);
    assert_eq!(p.verdict(), Some(Err(Fault::RunLoop)));
}

#[test]
fn loop_exit_before_setup_is_not_a_clean_exit() {
    let p = Phase::NotStarted.advance(Signal::LoopExited);
    assert_eq!(p, Phase::NotStarted);
    assert_eq!(p.verdict(), None);
    assert_eq!(Phase::Exited.advance(Signal::LoopFailed), Phase::Exited);
}
