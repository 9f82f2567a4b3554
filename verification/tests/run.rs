use rusty_speed_test::app::{
    action_stage, stage_changed, stage_label, AppStage, RunAction, RunEvent, RunPhase,
    SpeedTestConfig, SpeedTestRun, TransferTotals,
};

#[test]
fn stage_labels() {
    assert_eq!(stage_label(AppStage::FetchingToken), "Fetching Fast.com token");
    assert_eq!(stage_label(AppStage::FetchingServers), "Fetching test servers");
    assert_eq!(stage_label(AppStage::RunningDownloadTest), "Running download test");
    assert_eq!(stage_label(AppStage::RunningUploadTest), "Running upload test");
    assert_eq!(stage_label(AppStage::Complete), "Complete");
}

#[test]
fn stage_changed_announces_new_stages_only() {
    assert!(stage_changed(None, AppStage::FetchingToken));
    assert!(!stage_changed(Some(AppStage::FetchingToken), AppStage::FetchingToken));
    assert!(stage_changed(Some(AppStage::FetchingToken), AppStage::FetchingServers));
}

#[test]
fn successful_run_publishes_stages_in_order() {
    let config = SpeedTestConfig { connections: 4, duration: 8 };
    let (mut run, first) = SpeedTestRun::start(config);
    assert_eq!(first, RunAction::FetchToken);
    let mut stages = vec![action_stage(first).unwrap()];
    let a1 = run.step(RunEvent::TokenFetched);
    assert_eq!(a1, RunAction::FetchServers { connections: 4 });
    stages.push(action_stage(a1).unwrap());
    let a2 = run.step(RunEvent::ServersFetched);
    assert_eq!(a2, RunAction::RunDownload { duration: 8 });
    stages.push(action_stage(a2).unwrap());
    let a3 = run.step(RunEvent::DownloadFinished(12_000_000));
    assert_eq!(a3, RunAction::RunUpload { duration: 8 });
    stages.push(action_stage(a3).unwrap());
    let a4 = run.step(RunEvent::UploadFinished(3_145_728));
    assert_eq!(
        a4,
        RunAction::Finish(TransferTotals {
            download_bytes: 12_000_000,
            upload_bytes: 3_145_728,
            phase_duration: 8,
        })
    );
    stages.push(action_stage(a4).unwrap());
    assert_eq!(
        stages,
        vec![
            AppStage::FetchingToken,
            AppStage::FetchingServers,
            AppStage::RunningDownloadTest,
            AppStage::RunningUploadTest,
            AppStage::Complete,
        ]
    );
    assert_eq!(run.phase, RunPhase::Complete);
}

#[test]
fn failed_fetch_aborts_the_run() {
    let config = SpeedTestConfig { connections: 2, duration: 3 };
    let (mut run, _) = SpeedTestRun::start(config);
    assert_eq!(run.step(RunEvent::TokenFetched), RunAction::FetchServers { connections: 2 });
    assert_eq!(run.step(RunEvent::Failed), RunAction::Abort);
    assert_eq!(action_stage(RunAction::Abort), None);
    assert_eq!(run.phase, RunPhase::Failed);
    assert_eq!(run.step(RunEvent::ServersFetched), RunAction::Ignore);
    assert_eq!(run.phase, RunPhase::Failed);
}

#[test]
fn out_of_order_events_are_ignored() {
    let config = SpeedTestConfig { connections: 1, duration: 1 };
    let (mut run, _) = SpeedTestRun::start(config);
    assert_eq!(run.step(RunEvent::DownloadFinished(5)), RunAction::Ignore);
    assert_eq!(run.step(RunEvent::UploadFinished(5)), RunAction::Ignore);
    assert_eq!(run.phase, RunPhase::FetchingToken);
}

#[test]
fn zero_duration_is_carried_to_the_totals() {
    let config = SpeedTestConfig { connections: 1, duration: 0 };
    let (mut run, _) = SpeedTestRun::start(config);
    run.step(RunEvent::TokenFetched);
    assert_eq!(run.step(RunEvent::ServersFetched), RunAction::RunDownload { duration: 0 });
    run.step(RunEvent::DownloadFinished(0));
    assert_eq!(
        run.step(RunEvent::UploadFinished(0)),
        RunAction::Finish(TransferTotals { download_bytes: 0, upload_bytes: 0, phase_duration: 0 })
    );
}
