//! The decisions of an upload worker. The worker repeatedly posts a fixed
//! payload to its URL; each successful post adds the payload size to the
//! shared byte counter. It stops when the deadline is reached or on a
//! network error. The caller performs each action and reports what happened.
use vstd::prelude::*;

verus! {

/// The size of the payload of each post, in bytes.
pub const UPLOAD_CHUNK_SIZE: usize = 256 * 1024;

/// The byte that fills the payload.
pub const PAYLOAD_BYTE: u8 = 0x5A;

/// Builds the payload of a post: `UPLOAD_CHUNK_SIZE` bytes of `0x5A`.
pub fn upload_payload() -> (payload: Vec<u8>)
    ensures
        payload@.len() == UPLOAD_CHUNK_SIZE,
        forall|i: int| 0 <= i < payload@.len() ==> #[trigger] payload@[i] == PAYLOAD_BYTE,
{
    let mut payload: Vec<u8> = Vec::new();
    for i in 0..UPLOAD_CHUNK_SIZE
        invariant
            payload@.len() == i,
            forall|j: int| 0 <= j < payload@.len() ==> #[trigger] payload@[j] == PAYLOAD_BYTE,
    {
        payload.push(PAYLOAD_BYTE);
    }
    payload
}

/// Where an upload worker stands.
#[derive(Clone, Copy, Debug, PartialEq, Eq, Structural)]
pub enum UploadState {
    /// About to compare the clock with the deadline before a new post.
    CheckingClock,
    /// A post was sent; waiting for its outcome.
    Posting,
    /// Done for good.
    Stopped,
}

/// What the caller reports after an action.
#[derive(Clone, Copy, Debug, PartialEq, Eq, Structural)]
pub enum UploadEvent {
    /// The clock was read: whether it is still before the deadline.
    Clock { before_deadline: bool },
    /// The post ended: whether it succeeded.
    Posted { ok: bool },
}

/// What the caller does next.
#[derive(Clone, Copy, Debug, PartialEq, Eq, Structural)]
pub enum UploadAction {
    /// Compare the clock with the deadline.
    CheckClock,
    /// Post the payload to the worker's URL.
    Post,
    /// Add this many bytes to the shared counter, then compare the clock
    /// with the deadline.
    Count(u64),
    /// End the worker.
    Stop,
    /// The event does not belong to the current state; nothing to do.
    Ignore,
}

/// The worker's decision for an event.
pub open spec fn spec_upload_step(state: UploadState, event: UploadEvent) -> (UploadState, UploadAction) {
    match (state, event) {
        (UploadState::CheckingClock, UploadEvent::Clock { before_deadline }) => if before_deadline {
            (UploadState::Posting, UploadAction::Post)
        } else {
            (UploadState::Stopped, UploadAction::Stop)
        },
        (UploadState::Posting, UploadEvent::Posted { ok }) => if ok {
            (UploadState::CheckingClock, UploadAction::Count(UPLOAD_CHUNK_SIZE as u64))
        } else {
            (UploadState::Stopped, UploadAction::Stop)
        },
        _ => (state, UploadAction::Ignore),
    }
}

/// A new worker: it first compares the clock with the deadline.
pub fn upload_start() -> (r: (UploadState, UploadAction))
    ensures
        r == (UploadState::CheckingClock, UploadAction::CheckClock),
{
    (UploadState::CheckingClock, UploadAction::CheckClock)
}

/// Decides what an upload worker does after `event`.
pub fn upload_step(state: UploadState, event: UploadEvent) -> (r: (UploadState, UploadAction))
    ensures
        r == spec_upload_step(state, event),
{
    match (state, event) {
        (UploadState::CheckingClock, UploadEvent::Clock { before_deadline }) => {
            if before_deadline {
                (UploadState::Posting, UploadAction::Post)
            } else {
                (UploadState::Stopped, UploadAction::Stop)
            }
        },
        (UploadState::Posting, UploadEvent::Posted { ok }) => {
            if ok {
                (UploadState::CheckingClock, UploadAction::Count(UPLOAD_CHUNK_SIZE as u64))
            } else {
                (UploadState::Stopped, UploadAction::Stop)
            }
        },
        _ => (state, UploadAction::Ignore),
    }
}

/// Runs the events in order from `state`, collecting the actions.
pub open spec fn spec_upload_run(state: UploadState, events: Seq<UploadEvent>) -> (UploadState, Seq<UploadAction>)
    decreases events.len(),
{
    if events.len() == 0 {
        (state, Seq::empty())
    } else {
        let (next, action) = spec_upload_step(state, events[0]);
        let (last, rest) = spec_upload_run(next, events.drop_first());
        (last, seq![action] + rest)
    }
}

/// The bytes that a list of actions adds to the counter.
pub open spec fn uploaded(actions: Seq<UploadAction>) -> int
    decreases actions.len(),
{
    if actions.len() == 0 {
        0
    } else {
        (match actions[0] {
            UploadAction::Count(n) => n as int,
            _ => 0,
        }) + uploaded(actions.drop_first())
    }
}

/// The number of successful posts a worker sees along the events.
pub open spec fn successful_posts(state: UploadState, events: Seq<UploadEvent>) -> nat
    decreases events.len(),
{
    if events.len() == 0 {
        0
    } else {
        let here: nat = match (state, events[0]) {
            (UploadState::Posting, UploadEvent::Posted { ok: true }) => 1,
            _ => 0,
        };
        here + successful_posts(spec_upload_step(state, events[0]).0, events.drop_first())
    }
}

/// Along any events, a worker adds exactly `UPLOAD_CHUNK_SIZE` bytes to the
/// counter for each successful post, and nothing else.
pub proof fn lemma_upload_counts_successful_posts(state: UploadState, events: Seq<UploadEvent>)
    ensures
        uploaded(spec_upload_run(state, events).1) == UPLOAD_CHUNK_SIZE * successful_posts(state, events),
    decreases events.len(),
{
    if events.len() > 0 {
        let (next, action) = spec_upload_step(state, events[0]);
        lemma_upload_counts_successful_posts(next, events.drop_first());
        let rest = spec_upload_run(next, events.drop_first()).1;
        assert((seq![action] + rest).drop_first() =~= rest);
        assert(UPLOAD_CHUNK_SIZE * successful_posts(state, events) == UPLOAD_CHUNK_SIZE * (
        match (state, events[0]) {
            (UploadState::Posting, UploadEvent::Posted { ok: true }) => 1nat,
            _ => 0nat,
        }) + UPLOAD_CHUNK_SIZE * successful_posts(next, events.drop_first())) by (nonlinear_arith)
            requires
                successful_posts(state, events) == (match (state, events[0]) {
                    (UploadState::Posting, UploadEvent::Posted { ok: true }) => 1nat,
                    _ => 0nat,
                }) + successful_posts(next, events.drop_first()),
        ;
    }
}

/// A stopped worker stays stopped and uploads nothing more.
pub proof fn lemma_upload_stop_is_final(events: Seq<UploadEvent>)
    ensures
        spec_upload_run(UploadState::Stopped, events).0 == UploadState::Stopped,
        uploaded(spec_upload_run(UploadState::Stopped, events).1) == 0,
    decreases events.len(),
{
    if events.len() > 0 {
        lemma_upload_stop_is_final(events.drop_first());
        let rest = spec_upload_run(UploadState::Stopped, events.drop_first()).1;
        assert((seq![UploadAction::Ignore] + rest).drop_first() =~= rest);
    }
}

/// Whether `event` is the report of the work that `action` asked for
/// (after counting, the worker reads the clock).
pub open spec fn answers_upload(action: UploadAction, event: UploadEvent) -> bool {
    match action {
        UploadAction::CheckClock => event is Clock,
        UploadAction::Count(_) => event is Clock,
        UploadAction::Post => event is Posted,
        _ => false,
    }
}

/// Whether a report lets the worker go on: the clock is before the deadline
/// or the post succeeded.
pub open spec fn upload_report_ok(event: UploadEvent) -> bool {
    match event {
        UploadEvent::Clock { before_deadline } => before_deadline,
        UploadEvent::Posted { ok } => ok,
    }
}

/// The events are the caller's reports, in order, of the actions the worker
/// asks for, starting after `last` was asked from `state`.
pub open spec fn upload_follows(state: UploadState, last: UploadAction, events: Seq<UploadEvent>) -> bool
    decreases events.len(),
{
    if events.len() == 0 {
        true
    } else {
        let (next, action) = spec_upload_step(state, events[0]);
        answers_upload(last, events[0]) && upload_follows(next, action, events.drop_first())
    }
}

/// The pairs of state and pending action in which a live worker can be.
pub open spec fn upload_pending(state: UploadState, last: UploadAction) -> bool {
    match (state, last) {
        (UploadState::CheckingClock, UploadAction::CheckClock) => true,
        (UploadState::CheckingClock, UploadAction::Count(_)) => true,
        (UploadState::Posting, UploadAction::Post) => true,
        _ => false,
    }
}

proof fn lemma_upload_run_len(state: UploadState, events: Seq<UploadEvent>)
    ensures
        spec_upload_run(state, events).1.len() == events.len(),
    decreases events.len(),
{
    if events.len() > 0 {
        lemma_upload_run_len(spec_upload_step(state, events[0]).0, events.drop_first());
    }
}

proof fn lemma_upload_live_from(state: UploadState, last: UploadAction, events: Seq<UploadEvent>)
    requires
        upload_pending(state, last),
        upload_follows(state, last, events),
    ensures
        ({
            let actions = spec_upload_run(state, events).1;
            &&& actions.len() == events.len()
            &&& forall|i: int|
                0 <= i < events.len() && (forall|j: int| 0 <= j <= i ==> upload_report_ok(
                    #[trigger] events[j],
                )) ==> (!(#[trigger] actions[i] is Stop) && !(actions[i] is Ignore))
            &&& forall|i: int|
                0 <= i < events.len() && (forall|j: int| 0 <= j < i ==> upload_report_ok(
                    #[trigger] events[j],
                )) && !upload_report_ok(events[i]) ==> #[trigger] actions[i] == UploadAction::Stop
        }),
    decreases events.len(),
{
    if events.len() > 0 {
        let (next, action) = spec_upload_step(state, events[0]);
        let rest_events = events.drop_first();
        let actions = spec_upload_run(state, events).1;
        let rest = spec_upload_run(next, rest_events).1;
        assert(actions == seq![action] + rest);
        lemma_upload_run_len(next, rest_events);
        if upload_report_ok(events[0]) {
            assert(upload_pending(next, action));
            lemma_upload_live_from(next, action, rest_events);
            assert forall|i: int|
                0 <= i < events.len() && (forall|j: int| 0 <= j <= i ==> upload_report_ok(
                    #[trigger] events[j],
                )) implies (!(#[trigger] actions[i] is Stop) && !(actions[i] is Ignore)) by {
                if i > 0 {
                    assert(actions[i] == rest[i - 1]);
                    assert forall|j: int| 0 <= j <= i - 1 implies upload_report_ok(
                        #[trigger] rest_events[j],
                    ) by {
                        assert(rest_events[j] == events[j + 1]);
                    }
                }
            }
            assert forall|i: int|
                0 <= i < events.len() && (forall|j: int| 0 <= j < i ==> upload_report_ok(
                    #[trigger] events[j],
                )) && !upload_report_ok(events[i]) implies #[trigger] actions[i]
                == UploadAction::Stop by {
                if i > 0 {
                    assert(actions[i] == rest[i - 1]);
                    assert(rest_events[i - 1] == events[i]);
                    assert forall|j: int| 0 <= j < i - 1 implies upload_report_ok(
                        #[trigger] rest_events[j],
                    ) by {
                        assert(rest_events[j] == events[j + 1]);
                    }
                }
            }
        } else {
            assert(action == UploadAction::Stop);
            assert forall|i: int|
                0 <= i < events.len() && (forall|j: int| 0 <= j < i ==> upload_report_ok(
                    #[trigger] events[j],
                )) && !upload_report_ok(events[i]) implies #[trigger] actions[i]
                == UploadAction::Stop by {
                if i > 0 {
                    assert(upload_report_ok(events[0]));
                }
            }
        }
    }
}

/// A new worker whose caller reports each action's outcome keeps posting as
/// long as every report lets it: while the clock is before the deadline and
/// posts succeed, it never stops nor ignores a report, so after each counted
/// post it checks the clock and posts again. At the first report that does
/// not let it go on (the deadline passed or a failed post) it stops.
pub proof fn lemma_upload_runs_until_deadline_or_error(events: Seq<UploadEvent>)
    requires
        upload_follows(UploadState::CheckingClock, UploadAction::CheckClock, events),
    ensures
        ({
            let actions = spec_upload_run(UploadState::CheckingClock, events).1;
            &&& actions.len() == events.len()
            &&& forall|i: int|
                0 <= i < events.len() && (forall|j: int| 0 <= j <= i ==> upload_report_ok(
                    #[trigger] events[j],
                )) ==> (!(#[trigger] actions[i] is Stop) && !(actions[i] is Ignore))
            &&& forall|i: int|
                0 <= i < events.len() && (forall|j: int| 0 <= j < i ==> upload_report_ok(
                    #[trigger] events[j],
                )) && !upload_report_ok(events[i]) ==> #[trigger] actions[i] == UploadAction::Stop
        }),
{
    lemma_upload_live_from(UploadState::CheckingClock, UploadAction::CheckClock, events);
}

/// After a successful post the worker counts the payload, and a clock
/// reading before the deadline then makes it post again.
pub proof fn lemma_upload_posts_again_after_success()
    ensures
        ({
            let (s1, a1) = spec_upload_step(UploadState::Posting, UploadEvent::Posted { ok: true });
            let (s2, a2) = spec_upload_step(s1, UploadEvent::Clock { before_deadline: true });
            a1 == UploadAction::Count(262144) && a2 == UploadAction::Post
        }),
{
}

} // verus!
