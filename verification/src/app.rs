//! Stages of a speed test run and the runner's decisions: which stage comes
//! next, what to do in it, and what the run reports at its end.
use vstd::prelude::*;

verus! {

/// Simple stage enum used to describe high-level progress.
#[derive(Clone, Copy, Debug, PartialEq, Eq, Structural)]
pub enum AppStage {
    FetchingToken,
    FetchingServers,
    RunningDownloadTest,
    RunningUploadTest,
    Complete,
}

/// The text shown for each stage.
pub open spec fn stage_text(stage: AppStage) -> Seq<char> {
    match stage {
        AppStage::FetchingToken => "Fetching Fast.com token"@,
        AppStage::FetchingServers => "Fetching test servers"@,
        AppStage::RunningDownloadTest => "Running download test"@,
        AppStage::RunningUploadTest => "Running upload test"@,
        AppStage::Complete => "Complete"@,
    }
}

/// The position of a stage in a run, from 0 to 4.
pub open spec fn stage_rank(stage: AppStage) -> nat {
    match stage {
        AppStage::FetchingToken => 0,
        AppStage::FetchingServers => 1,
        AppStage::RunningDownloadTest => 2,
        AppStage::RunningUploadTest => 3,
        AppStage::Complete => 4,
    }
}

/// The human-readable label of a stage.
pub fn stage_label(stage: AppStage) -> (label: &'static str)
    ensures
        label@ == stage_text(stage),
{
    proof {
        reveal_strlit("Fetching Fast.com token");
        reveal_strlit("Fetching test servers");
        reveal_strlit("Running download test");
        reveal_strlit("Running upload test");
        reveal_strlit("Complete");
    }
    match stage {
        AppStage::FetchingToken => "Fetching Fast.com token",
        AppStage::FetchingServers => "Fetching test servers",
        AppStage::RunningDownloadTest => "Running download test",
        AppStage::RunningUploadTest => "Running upload test",
        AppStage::Complete => "Complete",
    }
}

/// Whether a stage seen by a progress printer is new and must be announced:
/// it differs from the last one announced, or none was announced yet.
pub fn stage_changed(last: Option<AppStage>, stage: AppStage) -> (changed: bool)
    ensures
        changed <==> last != Some(stage),
{
    match last {
        Some(previous) => previous != stage,
        None => true,
    }
}

/// Configuration for a single speed test run.
#[derive(Clone, Copy, Debug, PartialEq, Eq, Structural)]
pub struct SpeedTestConfig {
    /// Number of parallel download streams
    pub connections: usize,
    /// Test duration (seconds)
    pub duration: u64,
}

/// The byte counts of a finished run and the duration of each phase.
#[derive(Clone, Copy, Debug, PartialEq, Eq, Structural)]
pub struct TransferTotals {
    pub download_bytes: u64,
    pub upload_bytes: u64,
    pub phase_duration: u64,
}

/// Where a run stands.
#[derive(Clone, Copy, Debug, PartialEq, Eq, Structural)]
pub enum RunPhase {
    FetchingToken,
    FetchingServers,
    Downloading,
    Uploading,
    Complete,
    Failed,
}

/// What the caller reports back to the runner after doing the work of an
/// action.
#[derive(Clone, Copy, Debug, PartialEq, Eq, Structural)]
pub enum RunEvent {
    /// The token was fetched.
    TokenFetched,
    /// The server list was fetched (and holds at least one server).
    ServersFetched,
    /// All download workers ended; the shared byte counter reads this value.
    DownloadFinished(u64),
    /// All upload workers ended; the shared byte counter reads this value.
    UploadFinished(u64),
    /// Fetching the token or the servers failed.
    Failed,
}

/// What the caller does next. Each action that starts a stage first
/// publishes that stage (see `action_stage`).
#[derive(Clone, Copy, Debug, PartialEq, Eq, Structural)]
pub enum RunAction {
    /// Fetch a token.
    FetchToken,
    /// Ask the API for this many servers.
    FetchServers { connections: usize },
    /// Run one download worker per server for this many seconds.
    RunDownload { duration: u64 },
    /// Set the shared byte counter to 0, then run one upload worker per
    /// server for this many seconds.
    RunUpload { duration: u64 },
    /// The run is over; report these totals.
    Finish(TransferTotals),
    /// The run failed; report the error.
    Abort,
    /// The event does not belong to the current phase; nothing to do.
    Ignore,
}

/// The stage that an action publishes before its work, if any.
pub open spec fn spec_action_stage(action: RunAction) -> Option<AppStage> {
    match action {
        RunAction::FetchToken => Some(AppStage::FetchingToken),
        RunAction::FetchServers { .. } => Some(AppStage::FetchingServers),
        RunAction::RunDownload { .. } => Some(AppStage::RunningDownloadTest),
        RunAction::RunUpload { .. } => Some(AppStage::RunningUploadTest),
        RunAction::Finish(_) => Some(AppStage::Complete),
        RunAction::Abort => None,
        RunAction::Ignore => None,
    }
}

/// The stage that `action` publishes before its work, if any.
pub fn action_stage(action: RunAction) -> (stage: Option<AppStage>)
    ensures
        stage == spec_action_stage(action),
{
    match action {
        RunAction::FetchToken => Some(AppStage::FetchingToken),
        RunAction::FetchServers { .. } => Some(AppStage::FetchingServers),
        RunAction::RunDownload { .. } => Some(AppStage::RunningDownloadTest),
        RunAction::RunUpload { .. } => Some(AppStage::RunningUploadTest),
        RunAction::Finish(_) => Some(AppStage::Complete),
        RunAction::Abort => None,
        RunAction::Ignore => None,
    }
}

/// The state of one speed test run.
#[derive(Clone, Copy, Debug, PartialEq, Eq, Structural)]
pub struct SpeedTestRun {
    pub config: SpeedTestConfig,
    pub phase: RunPhase,
    /// The download byte count, once the download phase is over.
    pub download_bytes: u64,
}

/// How far a run has come: 0 to 4 along the stages, 5 once it is over.
pub open spec fn phase_rank(phase: RunPhase) -> nat {
    match phase {
        RunPhase::FetchingToken => 0,
        RunPhase::FetchingServers => 1,
        RunPhase::Downloading => 2,
        RunPhase::Uploading => 3,
        RunPhase::Complete => 5,
        RunPhase::Failed => 5,
    }
}

/// A run that was just started.
pub open spec fn spec_start(config: SpeedTestConfig) -> (SpeedTestRun, RunAction) {
    (
        SpeedTestRun { config, phase: RunPhase::FetchingToken, download_bytes: 0 },
        RunAction::FetchToken,
    )
}

/// The runner's decision: the next state and action for an event.
pub open spec fn spec_step(run: SpeedTestRun, event: RunEvent) -> (SpeedTestRun, RunAction) {
    match (run.phase, event) {
        (RunPhase::FetchingToken, RunEvent::TokenFetched) => (
            SpeedTestRun { phase: RunPhase::FetchingServers, ..run },
            RunAction::FetchServers { connections: run.config.connections },
        ),
        (RunPhase::FetchingServers, RunEvent::ServersFetched) => (
            SpeedTestRun { phase: RunPhase::Downloading, ..run },
            RunAction::RunDownload { duration: run.config.duration },
        ),
        (RunPhase::Downloading, RunEvent::DownloadFinished(bytes)) => (
            SpeedTestRun { phase: RunPhase::Uploading, download_bytes: bytes, ..run },
            RunAction::RunUpload { duration: run.config.duration },
        ),
        (RunPhase::Uploading, RunEvent::UploadFinished(bytes)) => (
            SpeedTestRun { phase: RunPhase::Complete, ..run },
            RunAction::Finish(
                TransferTotals {
                    download_bytes: run.download_bytes,
                    upload_bytes: bytes,
                    phase_duration: run.config.duration,
                },
            ),
        ),
        (RunPhase::FetchingToken, RunEvent::Failed) => (
            SpeedTestRun { phase: RunPhase::Failed, ..run },
            RunAction::Abort,
        ),
        (RunPhase::FetchingServers, RunEvent::Failed) => (
            SpeedTestRun { phase: RunPhase::Failed, ..run },
            RunAction::Abort,
        ),
        _ => (run, RunAction::Ignore),
    }
}

/// Runs the events in order from `run`, collecting the actions.
pub open spec fn spec_run(run: SpeedTestRun, events: Seq<RunEvent>) -> (SpeedTestRun, Seq<RunAction>)
    decreases events.len(),
{
    if events.len() == 0 {
        (run, Seq::empty())
    } else {
        let (next, action) = spec_step(run, events[0]);
        let (last, rest) = spec_run(next, events.drop_first());
        (last, seq![action] + rest)
    }
}

impl SpeedTestRun {
    /// Starts a run: the first action fetches the token.
    pub fn start(config: SpeedTestConfig) -> (r: (SpeedTestRun, RunAction))
        ensures
            r == spec_start(config),
    {
        (
            SpeedTestRun { config, phase: RunPhase::FetchingToken, download_bytes: 0 },
            RunAction::FetchToken,
        )
    }

    /// Feeds an event to the run and returns what to do next.
    pub fn step(&mut self, event: RunEvent) -> (action: RunAction)
        ensures
            (*final(self), action) == spec_step(*old(self), event),
            phase_rank(final(self).phase) >= phase_rank(old(self).phase),
            final(self).config == old(self).config,
            spec_action_stage(action) matches Some(stage) ==> stage_rank(stage) == phase_rank(
                final(self).phase,
            ) || (stage == AppStage::Complete && final(self).phase == RunPhase::Complete),
    {
        let run = *self;
        match (run.phase, event) {
            (RunPhase::FetchingToken, RunEvent::TokenFetched) => {
                self.phase = RunPhase::FetchingServers;
                RunAction::FetchServers { connections: run.config.connections }
            },
            (RunPhase::FetchingServers, RunEvent::ServersFetched) => {
                self.phase = RunPhase::Downloading;
                RunAction::RunDownload { duration: run.config.duration }
            },
            (RunPhase::Downloading, RunEvent::DownloadFinished(bytes)) => {
                self.phase = RunPhase::Uploading;
                self.download_bytes = bytes;
                RunAction::RunUpload { duration: run.config.duration }
            },
            (RunPhase::Uploading, RunEvent::UploadFinished(bytes)) => {
                self.phase = RunPhase::Complete;
                RunAction::Finish(
                    TransferTotals {
                        download_bytes: run.download_bytes,
                        upload_bytes: bytes,
                        phase_duration: run.config.duration,
                    },
                )
            },
            (RunPhase::FetchingToken, RunEvent::Failed) => {
                self.phase = RunPhase::Failed;
                RunAction::Abort
            },
            (RunPhase::FetchingServers, RunEvent::Failed) => {
                self.phase = RunPhase::Failed;
                RunAction::Abort
            },
            _ => RunAction::Ignore,
        }
    }
}

/// A run that meets no failure publishes the stages in their order,
/// fetching token, fetching servers, download, upload, complete, and ends
/// with totals that hold the download and upload counts it was told and the
/// configured duration of each phase.
pub proof fn lemma_successful_run(config: SpeedTestConfig, download: u64, upload: u64)
    ensures
        ({
            let (first, action0) = spec_start(config);
            let events = seq![
                RunEvent::TokenFetched,
                RunEvent::ServersFetched,
                RunEvent::DownloadFinished(download),
                RunEvent::UploadFinished(upload),
            ];
            let (last, actions) = spec_run(first, events);
            let all = seq![action0] + actions;
            &&& last.phase == RunPhase::Complete
            &&& all.len() == 5
            &&& forall|i: int| 0 <= i < 5 ==> spec_action_stage(#[trigger] all[i]) is Some
            &&& spec_action_stage(all[0]) == Some(AppStage::FetchingToken)
            &&& spec_action_stage(all[1]) == Some(AppStage::FetchingServers)
            &&& spec_action_stage(all[2]) == Some(AppStage::RunningDownloadTest)
            &&& spec_action_stage(all[3]) == Some(AppStage::RunningUploadTest)
            &&& spec_action_stage(all[4]) == Some(AppStage::Complete)
            &&& all[1] == RunAction::FetchServers { connections: config.connections }
            &&& all[2] == RunAction::RunDownload { duration: config.duration }
            &&& all[3] == RunAction::RunUpload { duration: config.duration }
            &&& all[4] == RunAction::Finish(
                TransferTotals {
                    download_bytes: download,
                    upload_bytes: upload,
                    phase_duration: config.duration,
                },
            )
        }),
{
    let (first, action0) = spec_start(config);
    let events = seq![
        RunEvent::TokenFetched,
        RunEvent::ServersFetched,
        RunEvent::DownloadFinished(download),
        RunEvent::UploadFinished(upload),
    ];
    reveal_with_fuel(spec_run, 5);
    assert(events.drop_first() =~= seq![
        RunEvent::ServersFetched,
        RunEvent::DownloadFinished(download),
        RunEvent::UploadFinished(upload),
    ]);
    assert(events.drop_first().drop_first() =~= seq![
        RunEvent::DownloadFinished(download),
        RunEvent::UploadFinished(upload),
    ]);
    assert(events.drop_first().drop_first().drop_first() =~= seq![
        RunEvent::UploadFinished(upload),
    ]);
    assert(events.drop_first().drop_first().drop_first().drop_first() =~= Seq::<RunEvent>::empty());
    let (last, actions) = spec_run(first, events);
    let all = seq![action0] + actions;
    assert(all.len() == 5);
}

/// Once a run is over, no event changes it and every event is ignored.
pub proof fn lemma_over_is_final(run: SpeedTestRun, events: Seq<RunEvent>)
    requires
        run.phase == RunPhase::Complete || run.phase == RunPhase::Failed,
    ensures
        spec_run(run, events).0 == run,
        forall|i: int|
            0 <= i < spec_run(run, events).1.len() ==> #[trigger] spec_run(run, events).1[i]
                == RunAction::Ignore,
        spec_run(run, events).1.len() == events.len(),
    decreases events.len(),
{
    if events.len() > 0 {
        lemma_over_is_final(run, events.drop_first());
    }
}

/// A run's phase never moves backwards, whatever the events.
pub proof fn lemma_run_progresses(run: SpeedTestRun, events: Seq<RunEvent>)
    ensures
        phase_rank(spec_run(run, events).0.phase) >= phase_rank(run.phase),
        spec_run(run, events).0.config == run.config,
    decreases events.len(),
{
    if events.len() > 0 {
        let (next, _) = spec_step(run, events[0]);
        lemma_run_progresses(next, events.drop_first());
    }
}

/// Along any events, the stages a run publishes come strictly in their order:
/// each published stage lies after the run's current phase, and of two
/// published stages the later one lies further along.
pub proof fn lemma_stages_in_order(run: SpeedTestRun, events: Seq<RunEvent>)
    ensures
        ({
            let actions = spec_run(run, events).1;
            &&& forall|i: int|
                0 <= i < actions.len() ==> (#[trigger] spec_action_stage(actions[i]) matches Some(s)
                    ==> stage_rank(s) > phase_rank(run.phase))
            &&& forall|i: int, j: int|
                0 <= i < j < actions.len() ==> (#[trigger] spec_action_stage(actions[i]) matches Some(
                    a,
                ) ==> (#[trigger] spec_action_stage(actions[j]) matches Some(b) ==> stage_rank(a)
                    < stage_rank(b)))
        }),
    decreases events.len(),
{
    if events.len() > 0 {
        let (next, action) = spec_step(run, events[0]);
        lemma_stages_in_order(next, events.drop_first());
        lemma_run_progresses(next, events.drop_first());
        let rest = spec_run(next, events.drop_first()).1;
        let actions = spec_run(run, events).1;
        assert(actions == seq![action] + rest);
        assert forall|i: int|
            0 <= i < actions.len() implies (#[trigger] spec_action_stage(actions[i]) matches Some(s)
                ==> stage_rank(s) > phase_rank(run.phase)) by {
            if i > 0 {
                assert(actions[i] == rest[i - 1]);
            }
        }
        assert forall|i: int, j: int|
            0 <= i < j < actions.len() implies (#[trigger] spec_action_stage(actions[i]) matches Some(
                a,
            ) ==> (#[trigger] spec_action_stage(actions[j]) matches Some(b) ==> stage_rank(a)
                < stage_rank(b))) by {
            assert(actions[j] == rest[j - 1]);
            if i > 0 {
                assert(actions[i] == rest[i - 1]);
            } else if next.phase == RunPhase::Complete || next.phase == RunPhase::Failed {
                lemma_over_is_final(next, events.drop_first());
            }
        }
    }
}

proof fn lemma_run_len(run: SpeedTestRun, events: Seq<RunEvent>)
    ensures
        spec_run(run, events).1.len() == events.len(),
    decreases events.len(),
{
    if events.len() > 0 {
        lemma_run_len(spec_step(run, events[0]).0, events.drop_first());
    }
}

/// A failure while the token or the server list is being fetched ends the
/// run with an error: when a `Failed` event arrives before any server list
/// was accepted, the run ends failed, it aborts, and it never finishes with
/// totals, whatever events follow.
pub proof fn lemma_failed_fetch_aborts(run: SpeedTestRun, events: Seq<RunEvent>, k: int)
    requires
        run.phase == RunPhase::FetchingToken || run.phase == RunPhase::FetchingServers,
        0 <= k < events.len(),
        events[k] == RunEvent::Failed,
        forall|j: int| 0 <= j < k ==> events[j] != RunEvent::ServersFetched,
    ensures
        ({
            let (last, actions) = spec_run(run, events);
            &&& last.phase == RunPhase::Failed
            &&& exists|i: int| 0 <= i <= k && #[trigger] actions[i] == RunAction::Abort
            &&& forall|i: int| 0 <= i < actions.len() ==> !(#[trigger] actions[i] is Finish)
        }),
    decreases events.len(),
{
    let (next, action) = spec_step(run, events[0]);
    let rest_events = events.drop_first();
    let actions = spec_run(run, events).1;
    let rest = spec_run(next, rest_events).1;
    lemma_run_len(next, rest_events);
    assert(actions == seq![action] + rest);
    if k == 0 {
        assert(next.phase == RunPhase::Failed && action == RunAction::Abort);
        lemma_over_is_final(next, rest_events);
        assert(actions[0] == RunAction::Abort);
        assert forall|i: int| 0 <= i < actions.len() implies !(#[trigger] actions[i] is Finish) by {
            if i > 0 {
                assert(actions[i] == rest[i - 1]);
            }
        }
    } else {
        assert(events[0] != RunEvent::ServersFetched);
        assert(!(action is Finish));
        assert forall|j: int| 0 <= j < k - 1 implies rest_events[j] != RunEvent::ServersFetched by {
            assert(rest_events[j] == events[j + 1]);
        }
        assert(rest_events[k - 1] == events[k]);
        if next.phase == RunPhase::Failed {
            lemma_over_is_final(next, rest_events);
            assert(actions[0] == RunAction::Abort);
            assert forall|i: int| 0 <= i < actions.len() implies !(#[trigger] actions[i] is Finish) by {
                if i > 0 {
                    assert(actions[i] == rest[i - 1]);
                }
            }
        } else {
            lemma_failed_fetch_aborts(next, rest_events, k - 1);
            let i0 = choose|i: int| 0 <= i <= k - 1 && #[trigger] rest[i] == RunAction::Abort;
            assert(actions[i0 + 1] == RunAction::Abort);
            assert forall|i: int| 0 <= i < actions.len() implies !(#[trigger] actions[i] is Finish) by {
                if i > 0 {
                    assert(actions[i] == rest[i - 1]);
                }
            }
        }
    }
}

proof fn lemma_finish_reports_events_from(run: SpeedTestRun, events: Seq<RunEvent>)
    ensures
        ({
            let actions = spec_run(run, events).1;
            forall|i: int|
                0 <= i < actions.len() ==> (#[trigger] actions[i] matches RunAction::Finish(t) ==> {
                    &&& t.phase_duration == run.config.duration
                    &&& events[i] == RunEvent::UploadFinished(t.upload_bytes)
                    &&& ((exists|j: int|
                        0 <= j < i && #[trigger] events[j] == RunEvent::DownloadFinished(
                            t.download_bytes,
                        )) || (run.phase == RunPhase::Uploading && t.download_bytes
                        == run.download_bytes))
                })
        }),
    decreases events.len(),
{
    if events.len() > 0 {
        let (next, action) = spec_step(run, events[0]);
        let rest_events = events.drop_first();
        let actions = spec_run(run, events).1;
        let rest = spec_run(next, rest_events).1;
        lemma_run_len(next, rest_events);
        assert(actions == seq![action] + rest);
        lemma_finish_reports_events_from(next, rest_events);
        assert forall|i: int|
            0 <= i < actions.len() implies (#[trigger] actions[i] matches RunAction::Finish(t) ==> {
                &&& t.phase_duration == run.config.duration
                &&& events[i] == RunEvent::UploadFinished(t.upload_bytes)
                &&& ((exists|j: int|
                    0 <= j < i && #[trigger] events[j] == RunEvent::DownloadFinished(
                        t.download_bytes,
                    )) || (run.phase == RunPhase::Uploading && t.download_bytes
                    == run.download_bytes))
            }) by {
            if i > 0 {
                assert(actions[i] == rest[i - 1]);
                assert(rest_events[i - 1] == events[i]);
                if let RunAction::Finish(t) = actions[i] {
                    if exists|j: int|
                        0 <= j < i - 1 && #[trigger] rest_events[j] == RunEvent::DownloadFinished(
                            t.download_bytes,
                        ) {
                        let j = choose|j: int|
                            0 <= j < i - 1 && #[trigger] rest_events[j] == RunEvent::DownloadFinished(
                                t.download_bytes,
                            );
                        assert(events[j + 1] == rest_events[j]);
                    } else {
                        assert(next.phase == RunPhase::Uploading);
                        if run.phase != RunPhase::Uploading {
                            assert(events[0] == RunEvent::DownloadFinished(t.download_bytes));
                        }
                    }
                }
            }
        }
    }
}

/// The totals a run finishes with come from what it was told: the upload
/// count is the one reported by the event that finishes it, the download
/// count is one reported by an earlier download event, and the phase
/// duration is the configured one.
pub proof fn lemma_finish_reports_measured_totals(config: SpeedTestConfig, events: Seq<RunEvent>)
    ensures
        ({
            let actions = spec_run(spec_start(config).0, events).1;
            forall|i: int|
                0 <= i < actions.len() ==> (#[trigger] actions[i] matches RunAction::Finish(t) ==> {
                    &&& t.phase_duration == config.duration
                    &&& events[i] == RunEvent::UploadFinished(t.upload_bytes)
                    &&& exists|j: int|
                        0 <= j < i && #[trigger] events[j] == RunEvent::DownloadFinished(
                            t.download_bytes,
                        )
                })
        }),
{
    lemma_finish_reports_events_from(spec_start(config).0, events);
}

} // verus!
