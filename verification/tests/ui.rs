use rusty_speed_test::app::{AppStage, SpeedTestConfig};
use rusty_speed_test::text::decimal_string;
use rusty_speed_test::tui::{
    elapsed_line, footer_text, phase_duration_line, should_quit, shown_elapsed_secs, status_lines,
    tui_start, tui_step, KeyInput, KeyInputCode, TuiAction, TuiEvent, TuiState, AUTO_EXIT_SECS,
};

fn key(code: KeyInputCode) -> KeyInput {
    KeyInput { code, control_only: false }
}

#[test]
fn quit_keys() {
    assert!(should_quit(key(KeyInputCode::Char('q')), false));
    assert!(should_quit(key(KeyInputCode::Esc), false));
    assert!(!should_quit(key(KeyInputCode::Enter), false));
    assert!(should_quit(key(KeyInputCode::Enter), true));
    assert!(!should_quit(key(KeyInputCode::Char('c')), true));
    assert!(should_quit(KeyInput { code: KeyInputCode::Char('c'), control_only: true }, false));
    assert!(!should_quit(KeyInput { code: KeyInputCode::Char('x'), control_only: true }, true));
    assert!(!should_quit(key(KeyInputCode::Other), true));
}

#[test]
fn rerun_only_after_completion() {
    let running = tui_start();
    assert_eq!(
        tui_step(running, TuiEvent::Key(key(KeyInputCode::Char('r')))),
        (running, TuiAction::Redraw)
    );
    let (done, action) = tui_step(running, TuiEvent::TestFinished);
    assert_eq!(action, TuiAction::ArmAutoExit { secs: AUTO_EXIT_SECS });
    assert_eq!(AUTO_EXIT_SECS, 5);
    assert_eq!(done, TuiState { finished: true, auto_exit_armed: true });
    let (again, action) = tui_step(done, TuiEvent::Key(key(KeyInputCode::Char('r'))));
    assert_eq!(action, TuiAction::Rerun);
    assert_eq!(again, tui_start());
}

#[test]
fn auto_exit_after_completion() {
    let running = tui_start();
    assert_eq!(tui_step(running, TuiEvent::Drawn { past_deadline: true }).1, TuiAction::Wait);
    let (done, _) = tui_step(running, TuiEvent::TestFinished);
    assert_eq!(tui_step(done, TuiEvent::Drawn { past_deadline: false }).1, TuiAction::Wait);
    assert_eq!(tui_step(done, TuiEvent::Drawn { past_deadline: true }).1, TuiAction::Quit);
    assert_eq!(tui_step(done, TuiEvent::Key(key(KeyInputCode::Enter))).1, TuiAction::Quit);
    assert_eq!(tui_step(done, TuiEvent::Tick).1, TuiAction::Redraw);
}

#[test]
fn footer_and_status_text() {
    assert_eq!(footer_text(false), "Press q to quit");
    assert_eq!(footer_text(true), "Press Enter or q to quit | r to rerun");
    let lines = status_lines(
        AppStage::RunningDownloadTest,
        SpeedTestConfig { connections: 4, duration: 8 },
    );
    assert_eq!(
        lines,
        vec![
            "Stage: Running download test".to_string(),
            "Connections: 4 | Duration: 8s".to_string()
        ]
    );
}

#[test]
fn seconds_lines() {
    assert_eq!(elapsed_line(0), "Elapsed: 0s");
    assert_eq!(elapsed_line(125), "Elapsed: 125s");
    assert_eq!(phase_duration_line(8), "Per-phase duration: 8s");
    assert_eq!(shown_elapsed_secs(0), 1);
    assert_eq!(shown_elapsed_secs(1), 1);
    assert_eq!(shown_elapsed_secs(42), 42);
}

#[test]
fn decimal_rendering() {
    assert_eq!(decimal_string(0), "0");
    assert_eq!(decimal_string(9), "9");
    assert_eq!(decimal_string(10), "10");
    assert_eq!(decimal_string(262144), "262144");
    assert_eq!(decimal_string(u64::MAX), u64::MAX.to_string());
}
