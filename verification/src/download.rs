//! The decisions of a download worker. The worker repeatedly requests its
//! URL and streams the body; each chunk received before the deadline is
//! added to the shared byte counter. It stops when the deadline is reached
//! or on any network error. The caller performs each action (reads the
//! clock, sends the request, reads a chunk, adds to the counter) and reports
//! what happened.
use vstd::prelude::*;

verus! {

/// Where a download worker stands.
#[derive(Clone, Copy, Debug, PartialEq, Eq, Structural)]
pub enum DownloadState {
    /// About to compare the clock with the deadline before a new request.
    CheckingClock,
    /// A request was sent; waiting for the response.
    Requesting,
    /// Reading the response body chunk by chunk.
    Streaming,
    /// Done for good.
    Stopped,
}

/// What the next read of the response body gave.
#[derive(Clone, Copy, Debug, PartialEq, Eq, Structural)]
pub enum ChunkOutcome {
    /// A chunk of this many bytes.
    Data(u64),
    /// The stream reported an error.
    Error,
    /// The body is complete.
    End,
}

/// What the caller reports after an action.
#[derive(Clone, Copy, Debug, PartialEq, Eq, Structural)]
pub enum DownloadEvent {
    /// The clock was read: whether it is still before the deadline.
    Clock { before_deadline: bool },
    /// The request was sent: whether a response came back.
    Response { ok: bool },
    /// A read of the body ended; `before_deadline` is the clock read when a
    /// chunk or an error arrived.
    Chunk { before_deadline: bool, outcome: ChunkOutcome },
}

/// What the caller does next.
#[derive(Clone, Copy, Debug, PartialEq, Eq, Structural)]
pub enum DownloadAction {
    /// Compare the clock with the deadline.
    CheckClock,
    /// Send a GET request to the worker's URL.
    SendRequest,
    /// Read the next chunk of the body.
    ReadChunk,
    /// Add this many bytes to the shared counter, then read the next chunk.
    Count(u64),
    /// End the worker.
    Stop,
    /// The event does not belong to the current state; nothing to do.
    Ignore,
}

/// The worker's decision for an event.
pub open spec fn spec_download_step(state: DownloadState, event: DownloadEvent) -> (DownloadState, DownloadAction) {
    match (state, event) {
        (DownloadState::CheckingClock, DownloadEvent::Clock { before_deadline }) => if before_deadline {
            (DownloadState::Requesting, DownloadAction::SendRequest)
        } else {
            (DownloadState::Stopped, DownloadAction::Stop)
        },
        (DownloadState::Requesting, DownloadEvent::Response { ok }) => if ok {
            (DownloadState::Streaming, DownloadAction::ReadChunk)
        } else {
            (DownloadState::Stopped, DownloadAction::Stop)
        },
        (DownloadState::Streaming, DownloadEvent::Chunk { before_deadline, outcome }) => match outcome {
            ChunkOutcome::End => (DownloadState::CheckingClock, DownloadAction::CheckClock),
            ChunkOutcome::Data(len) => if before_deadline {
                (DownloadState::Streaming, DownloadAction::Count(len))
            } else {
                (DownloadState::Stopped, DownloadAction::Stop)
            },
            ChunkOutcome::Error => (DownloadState::Stopped, DownloadAction::Stop),
        },
        _ => (state, DownloadAction::Ignore),
    }
}

/// A new worker: it first compares the clock with the deadline.
pub fn download_start() -> (r: (DownloadState, DownloadAction))
    ensures
        r == (DownloadState::CheckingClock, DownloadAction::CheckClock),
{
    (DownloadState::CheckingClock, DownloadAction::CheckClock)
}

/// Decides what a download worker does after `event`.
pub fn download_step(state: DownloadState, event: DownloadEvent) -> (r: (DownloadState, DownloadAction))
    ensures
        r == spec_download_step(state, event),
{
    match (state, event) {
        (DownloadState::CheckingClock, DownloadEvent::Clock { before_deadline }) => {
            if before_deadline {
                (DownloadState::Requesting, DownloadAction::SendRequest)
            } else {
                (DownloadState::Stopped, DownloadAction::Stop)
            }
        },
        (DownloadState::Requesting, DownloadEvent::Response { ok }) => {
            if ok {
                (DownloadState::Streaming, DownloadAction::ReadChunk)
            } else {
                (DownloadState::Stopped, DownloadAction::Stop)
            }
        },
        (DownloadState::Streaming, DownloadEvent::Chunk { before_deadline, outcome }) => {
            match outcome {
                ChunkOutcome::End => (DownloadState::CheckingClock, DownloadAction::CheckClock),
                ChunkOutcome::Data(len) => {
                    if before_deadline {
                        (DownloadState::Streaming, DownloadAction::Count(len))
                    } else {
                        (DownloadState::Stopped, DownloadAction::Stop)
                    }
                },
                ChunkOutcome::Error => (DownloadState::Stopped, DownloadAction::Stop),
            }
        },
        _ => (state, DownloadAction::Ignore),
    }
}

/// Runs the events in order from `state`, collecting the actions.
pub open spec fn spec_download_run(state: DownloadState, events: Seq<DownloadEvent>) -> (DownloadState, Seq<DownloadAction>)
    decreases events.len(),
{
    if events.len() == 0 {
        (state, Seq::empty())
    } else {
        let (next, action) = spec_download_step(state, events[0]);
        let (last, rest) = spec_download_run(next, events.drop_first());
        (last, seq![action] + rest)
    }
}

/// The bytes that a list of actions adds to the counter.
pub open spec fn counted(actions: Seq<DownloadAction>) -> int
    decreases actions.len(),
{
    if actions.len() == 0 {
        0
    } else {
        (match actions[0] {
            DownloadAction::Count(n) => n as int,
            _ => 0,
        }) + counted(actions.drop_first())
    }
}

/// The bytes of the chunks that a worker accepts along the events: data
/// chunks that arrive before the deadline while it streams a body.
pub open spec fn accepted_bytes(state: DownloadState, events: Seq<DownloadEvent>) -> int
    decreases events.len(),
{
    if events.len() == 0 {
        0
    } else {
        let here = match (state, events[0]) {
            (
                DownloadState::Streaming,
                DownloadEvent::Chunk { before_deadline: true, outcome: ChunkOutcome::Data(n) },
            ) => n as int,
            _ => 0,
        };
        here + accepted_bytes(spec_download_step(state, events[0]).0, events.drop_first())
    }
}

/// A stopped worker stays stopped and counts nothing more, whatever happens.
pub proof fn lemma_download_stop_is_final(events: Seq<DownloadEvent>)
    ensures
        spec_download_run(DownloadState::Stopped, events).0 == DownloadState::Stopped,
        counted(spec_download_run(DownloadState::Stopped, events).1) == 0,
        forall|i: int|
            0 <= i < spec_download_run(DownloadState::Stopped, events).1.len() ==> #[trigger] spec_download_run(
                DownloadState::Stopped,
                events,
            ).1[i] == DownloadAction::Ignore,
    decreases events.len(),
{
    if events.len() > 0 {
        lemma_download_stop_is_final(events.drop_first());
        let rest = spec_download_run(DownloadState::Stopped, events.drop_first()).1;
        assert((seq![DownloadAction::Ignore] + rest).drop_first() =~= rest);
    }
}

/// Along any events, the bytes a worker adds to the counter are exactly the
/// lengths of the chunks it received before the deadline while streaming.
pub proof fn lemma_download_counts_accepted_chunks(state: DownloadState, events: Seq<DownloadEvent>)
    ensures
        counted(spec_download_run(state, events).1) == accepted_bytes(state, events),
    decreases events.len(),
{
    if events.len() > 0 {
        let (next, action) = spec_download_step(state, events[0]);
        lemma_download_counts_accepted_chunks(next, events.drop_first());
        let rest = spec_download_run(next, events.drop_first()).1;
        assert((seq![action] + rest).drop_first() =~= rest);
    }
}

/// Whether `event` is the report of the work that `action` asked for.
pub open spec fn answers_download(action: DownloadAction, event: DownloadEvent) -> bool {
    match action {
        DownloadAction::CheckClock => event is Clock,
        DownloadAction::SendRequest => event is Response,
        DownloadAction::ReadChunk => event is Chunk,
        DownloadAction::Count(_) => event is Chunk,
        _ => false,
    }
}

/// Whether a report lets the worker go on: the clock is before the
/// deadline, the request got a response, the body ended, or a chunk of data
/// arrived before the deadline.
pub open spec fn download_report_ok(event: DownloadEvent) -> bool {
    match event {
        DownloadEvent::Clock { before_deadline } => before_deadline,
        DownloadEvent::Response { ok } => ok,
        DownloadEvent::Chunk { before_deadline, outcome } => match outcome {
            ChunkOutcome::End => true,
            ChunkOutcome::Data(_) => before_deadline,
            ChunkOutcome::Error => false,
        },
    }
}

/// The events are the caller's reports, in order, of the actions the worker
/// asks for, starting after `last` was asked from `state`.
pub open spec fn download_follows(state: DownloadState, last: DownloadAction, events: Seq<DownloadEvent>) -> bool
    decreases events.len(),
{
    if events.len() == 0 {
        true
    } else {
        let (next, action) = spec_download_step(state, events[0]);
        answers_download(last, events[0]) && download_follows(next, action, events.drop_first())
    }
}

/// The pairs of state and pending action in which a live worker can be.
pub open spec fn download_pending(state: DownloadState, last: DownloadAction) -> bool {
    match (state, last) {
        (DownloadState::CheckingClock, DownloadAction::CheckClock) => true,
        (DownloadState::Requesting, DownloadAction::SendRequest) => true,
        (DownloadState::Streaming, DownloadAction::ReadChunk) => true,
        (DownloadState::Streaming, DownloadAction::Count(_)) => true,
        _ => false,
    }
}

proof fn lemma_download_live_from(state: DownloadState, last: DownloadAction, events: Seq<DownloadEvent>)
    requires
        download_pending(state, last),
        download_follows(state, last, events),
    ensures
        ({
            let actions = spec_download_run(state, events).1;
            &&& actions.len() == events.len()
            &&& forall|i: int|
                0 <= i < events.len() && (forall|j: int| 0 <= j <= i ==> download_report_ok(
                    #[trigger] events[j],
                )) ==> (!(#[trigger] actions[i] is Stop) && !(actions[i] is Ignore))
            &&& forall|i: int|
                0 <= i < events.len() && (forall|j: int| 0 <= j < i ==> download_report_ok(
                    #[trigger] events[j],
                )) && !download_report_ok(events[i]) ==> #[trigger] actions[i] == DownloadAction::Stop
        }),
    decreases events.len(),
{
    if events.len() > 0 {
        let (next, action) = spec_download_step(state, events[0]);
        let rest_events = events.drop_first();
        let actions = spec_download_run(state, events).1;
        let rest = spec_download_run(next, rest_events).1;
        assert(actions == seq![action] + rest);
        if download_report_ok(events[0]) {
            assert(download_pending(next, action));
            lemma_download_live_from(next, action, rest_events);
            assert forall|i: int|
                0 <= i < events.len() && (forall|j: int| 0 <= j <= i ==> download_report_ok(
                    #[trigger] events[j],
                )) implies (!(#[trigger] actions[i] is Stop) && !(actions[i] is Ignore)) by {
                if i > 0 {
                    assert(actions[i] == rest[i - 1]);
                    assert forall|j: int| 0 <= j <= i - 1 implies download_report_ok(
                        #[trigger] rest_events[j],
                    ) by {
                        assert(rest_events[j] == events[j + 1]);
                    }
                }
            }
            assert forall|i: int|
                0 <= i < events.len() && (forall|j: int| 0 <= j < i ==> download_report_ok(
                    #[trigger] events[j],
                )) && !download_report_ok(events[i]) implies #[trigger] actions[i]
                == DownloadAction::Stop by {
                if i > 0 {
                    assert(actions[i] == rest[i - 1]);
                    assert(rest_events[i - 1] == events[i]);
                    assert forall|j: int| 0 <= j < i - 1 implies download_report_ok(
                        #[trigger] rest_events[j],
                    ) by {
                        assert(rest_events[j] == events[j + 1]);
                    }
                }
            }
        } else {
            assert(action == DownloadAction::Stop);
            let (_, rest_actions) = spec_download_run(next, rest_events);
            assert forall|i: int|
                0 <= i < events.len() && (forall|j: int| 0 <= j < i ==> download_report_ok(
                    #[trigger] events[j],
                )) && !download_report_ok(events[i]) implies #[trigger] actions[i]
                == DownloadAction::Stop by {
                if i > 0 {
                    assert(download_report_ok(events[0]));
                }
            }
        }
        lemma_download_run_len(next, rest_events);
    }
}

proof fn lemma_download_run_len(state: DownloadState, events: Seq<DownloadEvent>)
    ensures
        spec_download_run(state, events).1.len() == events.len(),
    decreases events.len(),
{
    if events.len() > 0 {
        lemma_download_run_len(spec_download_step(state, events[0]).0, events.drop_first());
    }
}

/// A new worker whose caller reports each action's outcome keeps working as
/// long as every report lets it: while the clock is before the deadline and
/// requests and chunks succeed, it never stops nor ignores a report, so after
/// each complete body it sends a new request. At the first report that does
/// not let it go on (the deadline passed, a failed request, a stream error,
/// a chunk after the deadline) it stops.
pub proof fn lemma_download_runs_until_deadline_or_error(events: Seq<DownloadEvent>)
    requires
        download_follows(DownloadState::CheckingClock, DownloadAction::CheckClock, events),
    ensures
        ({
            let actions = spec_download_run(DownloadState::CheckingClock, events).1;
            &&& actions.len() == events.len()
            &&& forall|i: int|
                0 <= i < events.len() && (forall|j: int| 0 <= j <= i ==> download_report_ok(
                    #[trigger] events[j],
                )) ==> (!(#[trigger] actions[i] is Stop) && !(actions[i] is Ignore))
            &&& forall|i: int|
                0 <= i < events.len() && (forall|j: int| 0 <= j < i ==> download_report_ok(
                    #[trigger] events[j],
                )) && !download_report_ok(events[i]) ==> #[trigger] actions[i] == DownloadAction::Stop
        }),
{
    lemma_download_live_from(DownloadState::CheckingClock, DownloadAction::CheckClock, events);
}

/// After a body ends, a clock reading before the deadline makes the worker
/// request the URL again, whatever the chunk that ended it reported.
pub proof fn lemma_download_requests_again_after_body(before_deadline: bool)
    ensures
        ({
            let (s1, a1) = spec_download_step(
                DownloadState::Streaming,
                DownloadEvent::Chunk { before_deadline, outcome: ChunkOutcome::End },
            );
            let (s2, a2) = spec_download_step(s1, DownloadEvent::Clock { before_deadline: true });
            a1 == DownloadAction::CheckClock && a2 == DownloadAction::SendRequest
        }),
{
}

} // verus!
