use rusty_speed_test::download::{
    download_start, download_step, ChunkOutcome, DownloadAction, DownloadEvent, DownloadState,
};
use rusty_speed_test::upload::{
    upload_payload, upload_start, upload_step, UploadAction, UploadEvent, UploadState,
    UPLOAD_CHUNK_SIZE,
};

fn drive_download(events: &[DownloadEvent]) -> (DownloadState, u64, Vec<DownloadAction>) {
    let (mut state, first) = download_start();
    let mut actions = vec![first];
    let mut total = 0u64;
    for e in events {
        let (next, action) = download_step(state, *e);
        state = next;
        if let DownloadAction::Count(n) = action {
            total += n;
        }
        actions.push(action);
    }
    (state, total, actions)
}

#[test]
fn download_counts_chunks_before_the_deadline() {
    let events = [
        DownloadEvent::Clock { before_deadline: true },
        DownloadEvent::Response { ok: true },
        DownloadEvent::Chunk { before_deadline: true, outcome: ChunkOutcome::Data(1000) },
        DownloadEvent::Chunk { before_deadline: true, outcome: ChunkOutcome::Data(24) },
        DownloadEvent::Chunk { before_deadline: true, outcome: ChunkOutcome::End },
        DownloadEvent::Clock { before_deadline: true },
        DownloadEvent::Response { ok: true },
        DownloadEvent::Chunk { before_deadline: true, outcome: ChunkOutcome::Data(500) },
        DownloadEvent::Chunk { before_deadline: false, outcome: ChunkOutcome::Data(7000) },
    ];
    let (state, total, actions) = drive_download(&events);
    assert_eq!(state, DownloadState::Stopped);
    assert_eq!(total, 1524);
    assert_eq!(actions[0], DownloadAction::CheckClock);
    assert_eq!(actions[1], DownloadAction::SendRequest);
    assert_eq!(actions[2], DownloadAction::ReadChunk);
    assert_eq!(actions[5], DownloadAction::CheckClock);
    assert_eq!(actions[9], DownloadAction::Stop);
}

#[test]
fn download_stops_on_errors_and_at_the_deadline() {
    assert_eq!(
        download_step(DownloadState::Requesting, DownloadEvent::Response { ok: false }),
        (DownloadState::Stopped, DownloadAction::Stop)
    );
    assert_eq!(
        download_step(
            DownloadState::Streaming,
            DownloadEvent::Chunk { before_deadline: true, outcome: ChunkOutcome::Error }
        ),
        (DownloadState::Stopped, DownloadAction::Stop)
    );
    assert_eq!(
        download_step(DownloadState::CheckingClock, DownloadEvent::Clock { before_deadline: false }),
        (DownloadState::Stopped, DownloadAction::Stop)
    );
}

#[test]
fn stopped_download_ignores_everything() {
    for e in [
        DownloadEvent::Clock { before_deadline: true },
        DownloadEvent::Response { ok: true },
        DownloadEvent::Chunk { before_deadline: true, outcome: ChunkOutcome::Data(9) },
    ] {
        assert_eq!(
            download_step(DownloadState::Stopped, e),
            (DownloadState::Stopped, DownloadAction::Ignore)
        );
    }
}

#[test]
fn upload_payload_is_filled() {
    let payload = upload_payload();
    assert_eq!(UPLOAD_CHUNK_SIZE, 262144);
    assert_eq!(payload.len(), 262144);
    assert!(payload.iter().all(|b| *b == 0x5A));
}

#[test]
fn upload_counts_each_successful_post() {
    let (mut state, first) = upload_start();
    assert_eq!(first, UploadAction::CheckClock);
    let events = [
        UploadEvent::Clock { before_deadline: true },
        UploadEvent::Posted { ok: true },
        UploadEvent::Clock { before_deadline: true },
        UploadEvent::Posted { ok: true },
        UploadEvent::Clock { before_deadline: true },
        UploadEvent::Posted { ok: false },
        UploadEvent::Clock { before_deadline: true },
    ];
    let mut total = 0u64;
    let mut last = first;
    for e in events {
        let (next, action) = upload_step(state, e);
        state = next;
        if let UploadAction::Count(n) = action {
            total += n;
        }
        last = action;
    }
    assert_eq!(total, 2 * 262144);
    assert_eq!(state, UploadState::Stopped);
    assert_eq!(last, UploadAction::Ignore);
}

#[test]
fn upload_stops_at_the_deadline() {
    assert_eq!(
        upload_step(UploadState::CheckingClock, UploadEvent::Clock { before_deadline: false }),
        (UploadState::Stopped, UploadAction::Stop)
    );
    assert_eq!(
        upload_step(UploadState::CheckingClock, UploadEvent::Clock { before_deadline: true }),
        (UploadState::Posting, UploadAction::Post)
    );
}
