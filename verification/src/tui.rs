//! The terminal UI's decisions and text: which keys quit or rerun, when the
//! UI leaves by itself after a run, and the integer lines it shows. Drawing,
//! key reading and timers belong to the caller.
use vstd::prelude::*;

use crate::app::{AppStage, SpeedTestConfig, stage_label, stage_text};
use crate::text::{decimal, decimal_string};

verus! {

/// Seconds the UI stays up after a run completes before leaving by itself.
pub const AUTO_EXIT_SECS: u64 = 5;

/// Milliseconds between two redraws while nothing else happens.
pub const REFRESH_MILLIS: u64 = 200;

/// The key of a key press, as far as the UI tells keys apart.
#[derive(Clone, Copy, Debug, PartialEq, Eq, Structural)]
pub enum KeyInputCode {
    Char(char),
    Esc,
    Enter,
    Other,
}

/// A key press: its key, and whether Control was the only modifier held.
#[derive(Clone, Copy, Debug, PartialEq, Eq, Structural)]
pub struct KeyInput {
    pub code: KeyInputCode,
    pub control_only: bool,
}

/// Whether a key press ends the UI: `q` and `Esc` always, `Enter` once the
/// run has finished, and `c` held with Control alone.
pub open spec fn spec_should_quit(key: KeyInput, finished: bool) -> bool {
    match key.code {
        KeyInputCode::Char('q') => true,
        KeyInputCode::Esc => true,
        KeyInputCode::Enter => finished,
        _ => key.control_only && key.code == KeyInputCode::Char('c'),
    }
}

/// Whether a key press ends the UI.
pub fn should_quit(key: KeyInput, finished: bool) -> (quit: bool)
    ensures
        quit == spec_should_quit(key, finished),
{
    match key.code {
        KeyInputCode::Char('q') | KeyInputCode::Esc => true,
        KeyInputCode::Enter => finished,
        _ => key.control_only && key.code == KeyInputCode::Char('c'),
    }
}

/// Where the UI stands: whether the current run has finished, and whether
/// the automatic exit after it is armed.
#[derive(Clone, Copy, Debug, PartialEq, Eq, Structural)]
pub struct TuiState {
    pub finished: bool,
    pub auto_exit_armed: bool,
}

impl TuiState {
    /// The automatic exit is armed only once the run has finished.
    pub open spec fn wf(self) -> bool {
        self.auto_exit_armed ==> self.finished
    }
}

/// What happened in the UI loop.
#[derive(Clone, Copy, Debug, PartialEq, Eq, Structural)]
pub enum TuiEvent {
    /// The refresh interval elapsed.
    Tick,
    /// The running test ended (with a result or an error).
    TestFinished,
    /// A key was pressed.
    Key(KeyInput),
    /// The screen was drawn; whether the automatic exit deadline has passed.
    Drawn { past_deadline: bool },
}

/// What the UI does next.
#[derive(Clone, Copy, Debug, PartialEq, Eq, Structural)]
pub enum TuiAction {
    /// Draw the screen.
    Redraw,
    /// Set the automatic exit deadline this many seconds from now, then draw.
    ArmAutoExit { secs: u64 },
    /// Reset the byte counter and the sampling, drop the deadline, start a
    /// new run with a new stage channel; do not draw in this round.
    Rerun,
    /// Leave the UI.
    Quit,
    /// Wait for the next event.
    Wait,
}

/// A fresh UI, with its first run under way.
pub open spec fn spec_tui_start() -> TuiState {
    TuiState { finished: false, auto_exit_armed: false }
}

/// The UI's decision for an event.
pub open spec fn spec_tui_step(state: TuiState, event: TuiEvent) -> (TuiState, TuiAction) {
    match event {
        TuiEvent::Tick => (state, TuiAction::Redraw),
        TuiEvent::TestFinished => if state.finished {
            (state, TuiAction::Wait)
        } else {
            (
                TuiState { finished: true, auto_exit_armed: true },
                TuiAction::ArmAutoExit { secs: AUTO_EXIT_SECS },
            )
        },
        TuiEvent::Key(key) => if key.code == KeyInputCode::Char('r') && state.finished {
            (TuiState { finished: false, auto_exit_armed: false }, TuiAction::Rerun)
        } else if spec_should_quit(key, state.finished) {
            (state, TuiAction::Quit)
        } else {
            (state, TuiAction::Redraw)
        },
        TuiEvent::Drawn { past_deadline } => if state.auto_exit_armed && past_deadline {
            (state, TuiAction::Quit)
        } else {
            (state, TuiAction::Wait)
        },
    }
}

/// A fresh UI, with its first run under way.
pub fn tui_start() -> (state: TuiState)
    ensures
        state == spec_tui_start(),
        state.wf(),
{
    TuiState { finished: false, auto_exit_armed: false }
}

/// Decides what the UI does after `event`.
pub fn tui_step(state: TuiState, event: TuiEvent) -> (r: (TuiState, TuiAction))
    requires
        state.wf(),
    ensures
        r == spec_tui_step(state, event),
        r.0.wf(),
{
    match event {
        TuiEvent::Tick => (state, TuiAction::Redraw),
        TuiEvent::TestFinished => {
            if state.finished {
                (state, TuiAction::Wait)
            } else {
                (
                    TuiState { finished: true, auto_exit_armed: true },
                    TuiAction::ArmAutoExit { secs: AUTO_EXIT_SECS },
                )
            }
        },
        TuiEvent::Key(key) => {
            if key.code == KeyInputCode::Char('r') && state.finished {
                (TuiState { finished: false, auto_exit_armed: false }, TuiAction::Rerun)
            } else if should_quit(key, state.finished) {
                (state, TuiAction::Quit)
            } else {
                (state, TuiAction::Redraw)
            }
        },
        TuiEvent::Drawn { past_deadline } => {
            if state.auto_exit_armed && past_deadline {
                (state, TuiAction::Quit)
            } else {
                (state, TuiAction::Wait)
            }
        },
    }
}

/// While a run is under way, neither `Enter` nor the deadline ends the UI
/// and `r` does not rerun; only `q`, `Esc` and Control-`c` do.
pub proof fn lemma_running_ui_only_quits_on_quit_keys(state: TuiState, event: TuiEvent)
    requires
        state.wf(),
        !state.finished,
    ensures
        spec_tui_step(state, event).1 != TuiAction::Rerun,
        spec_tui_step(state, event).1 == TuiAction::Quit ==> (event matches TuiEvent::Key(key) && (
        key.code == KeyInputCode::Char('q') || key.code == KeyInputCode::Esc || (key.control_only
            && key.code == KeyInputCode::Char('c')))),
{
}

/// Once a run has finished, `r` starts a new one and `Enter` leaves.
pub proof fn lemma_finished_ui_keys(state: TuiState, control_only: bool)
    requires
        state.wf(),
        state.finished,
    ensures
        spec_tui_step(state, TuiEvent::Key(KeyInput { code: KeyInputCode::Char('r'), control_only })).1
            == TuiAction::Rerun,
        spec_tui_step(state, TuiEvent::Key(KeyInput { code: KeyInputCode::Char('r'), control_only })).0
            == spec_tui_start(),
        spec_tui_step(state, TuiEvent::Key(KeyInput { code: KeyInputCode::Enter, control_only })).1
            == TuiAction::Quit,
{
}

/// The footer text.
pub open spec fn footer_text_spec(finished: bool) -> Seq<char> {
    if finished {
        "Press Enter or q to quit | r to rerun"@
    } else {
        "Press q to quit"@
    }
}

/// The footer, which names the keys that apply.
pub fn footer_text(finished: bool) -> (text: &'static str)
    ensures
        text@ == footer_text_spec(finished),
{
    if finished {
        "Press Enter or q to quit | r to rerun"
    } else {
        "Press q to quit"
    }
}

/// The lines of the status panel.
pub open spec fn status_lines_spec(stage: AppStage, config: SpeedTestConfig) -> Seq<Seq<char>> {
    seq![
        "Stage: "@ + stage_text(stage),
        "Connections: "@ + decimal(config.connections as nat) + " | Duration: "@ + decimal(
            config.duration as nat,
        ) + "s"@,
    ]
}

/// The status panel: the stage, then the number of connections and the
/// duration.
pub fn status_lines(stage: AppStage, config: SpeedTestConfig) -> (lines: Vec<String>)
    ensures
        lines@.len() == 2,
        forall|i: int| 0 <= i < 2 ==> #[trigger] lines@[i]@ == status_lines_spec(stage, config)[i],
{
    let mut first = String::from_str("Stage: ");
    first.append(stage_label(stage));
    let mut second = String::from_str("Connections: ");
    let connections = decimal_string(config.connections as u64);
    second.append(connections.as_str());
    second.append(" | Duration: ");
    let duration = decimal_string(config.duration);
    second.append(duration.as_str());
    second.append("s");
    let mut lines: Vec<String> = Vec::new();
    lines.push(first);
    lines.push(second);
    lines
}

/// A line that shows a number of seconds after a label.
pub open spec fn seconds_line_spec(label: Seq<char>, secs: u64) -> Seq<char> {
    label + decimal(secs as nat) + "s"@
}

/// The elapsed-time line of a run under way: `Elapsed: <secs>s`.
pub fn elapsed_line(secs: u64) -> (line: String)
    ensures
        line@ == seconds_line_spec("Elapsed: "@, secs),
{
    let mut line = String::from_str("Elapsed: ");
    let digits = decimal_string(secs);
    line.append(digits.as_str());
    line.append("s");
    line
}

/// The phase duration line of a finished run: `Per-phase duration: <secs>s`.
pub fn phase_duration_line(secs: u64) -> (line: String)
    ensures
        line@ == seconds_line_spec("Per-phase duration: "@, secs),
{
    let mut line = String::from_str("Per-phase duration: ");
    let digits = decimal_string(secs);
    line.append(digits.as_str());
    line.append("s");
    line
}

/// The number of seconds the UI reports as elapsed: at least one, so that a
/// rate over it is always defined.
pub fn shown_elapsed_secs(secs: u64) -> (shown: u64)
    ensures
        shown == if secs < 1 { 1 } else { secs },
{
    if secs < 1 {
        1
    } else {
        secs
    }
}

/// `q` and `Esc` end the UI whatever the state of the run, with or without
/// Control, and the UI loop quits on them from any state.
pub proof fn lemma_q_and_esc_always_quit(state: TuiState, finished: bool, control_only: bool)
    requires
        state.wf(),
    ensures
        spec_should_quit(KeyInput { code: KeyInputCode::Char('q'), control_only }, finished),
        spec_should_quit(KeyInput { code: KeyInputCode::Esc, control_only }, finished),
        spec_tui_step(state, TuiEvent::Key(KeyInput { code: KeyInputCode::Char('q'), control_only })).1
            == TuiAction::Quit,
        spec_tui_step(state, TuiEvent::Key(KeyInput { code: KeyInputCode::Esc, control_only })).1
            == TuiAction::Quit,
{
}

/// Finishing the run never takes a quit key away, and `Enter` is the one
/// key that quits after the run has finished but not before.
pub proof fn lemma_finishing_only_adds_enter(key: KeyInput)
    ensures
        spec_should_quit(key, false) ==> spec_should_quit(key, true),
        (spec_should_quit(key, true) && !spec_should_quit(key, false)) <==> key.code
            == KeyInputCode::Enter,
{
}

/// The keys that quit are exactly `q`, `Esc`, Control-`c`, and `Enter` once
/// the run has finished.
pub proof fn lemma_quit_keys_exactly(key: KeyInput, finished: bool)
    ensures
        spec_should_quit(key, finished) <==> (key.code == KeyInputCode::Char('q') || key.code
            == KeyInputCode::Esc || (key.code == KeyInputCode::Enter && finished) || (
        key.control_only && key.code == KeyInputCode::Char('c'))),
{
}

/// The automatic exit: when the run under way finishes, the UI arms an exit
/// `AUTO_EXIT_SECS` seconds later, and once drawn past that deadline it
/// quits; before the run finishes no deadline makes it quit.
pub proof fn lemma_auto_exit_after_completion(state: TuiState, past_deadline: bool)
    requires
        state.wf(),
        !state.finished,
    ensures
        ({
            let (done, armed) = spec_tui_step(state, TuiEvent::TestFinished);
            &&& armed == TuiAction::ArmAutoExit { secs: 5 }
            &&& done.finished
            &&& spec_tui_step(done, TuiEvent::Drawn { past_deadline: true }).1 == TuiAction::Quit
            &&& spec_tui_step(done, TuiEvent::Drawn { past_deadline: false }).1 != TuiAction::Quit
        }),
        spec_tui_step(state, TuiEvent::Drawn { past_deadline }).1 != TuiAction::Quit,
{
}

} // verus!
