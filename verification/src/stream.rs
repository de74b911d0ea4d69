//! The streaming loop as a state machine.
//!
//! The loop itself reads files, writes to the display and sleeps, so it runs
//! outside this library. What it decides is decided here: after the work on
//! a frame has ended one way or another, [`Streamer::advance`] says which
//! asset comes next and how long to sleep first, or that streaming is over.
//! There is one steady state, streaming, and one terminal state, failed.

use vstd::arithmetic::div_mod::lemma_add_mod_noop;
use vstd::arithmetic::div_mod::lemma_small_mod;
use vstd::prelude::*;

verus! {

/// Why streaming cannot start or has ended.
#[derive(Clone, Copy, Debug, PartialEq, Eq, Structural)]
pub enum StreamError {
    /// There is no asset to show.
    NoAssets,
    /// An asset could not be read, decoded or resampled.
    Decode,
    /// The display did not take a whole frame.
    Transmission,
}

/// How the work on the current frame ended.
#[derive(Clone, Copy, Debug, PartialEq, Eq, Structural)]
pub enum FrameOutcome {
    /// The display took the whole frame, `elapsed_ms` milliseconds after
    /// work on the frame began.
    Sent { elapsed_ms: u128 },
    /// No frame could be made of the asset.
    DecodeFailed,
    /// The write to the display failed.
    WriteFailed,
}

/// What the loop does next.
#[derive(Clone, Copy, Debug, PartialEq, Eq, Structural)]
pub enum Directive {
    /// Sleep for `sleep_ms` milliseconds, then work on asset `next_asset`.
    Continue { next_asset: usize, sleep_ms: u64 },
    /// Stop for good: no further frame is made or written.
    Halt { error: StreamError },
}

/// The state of the loop.
pub struct StreamState {
    /// Number of assets in the cycle.
    pub asset_count: nat,
    /// Time allotted to one frame, in milliseconds.
    pub frame_budget_ms: u64,
    /// Position of the current asset.
    pub cursor: nat,
    /// Why streaming ended, once it has.
    pub failure: Option<StreamError>,
}

impl StreamState {
    /// The cursor points at an asset.
    pub open spec fn wf(self) -> bool {
        self.cursor < self.asset_count
    }

    /// The state in which streaming starts.
    pub open spec fn start(asset_count: nat, frame_budget_ms: u64) -> StreamState {
        StreamState { asset_count, frame_budget_ms, cursor: 0, failure: None }
    }
}

/// How long to sleep after a frame that took `elapsed_ms` milliseconds: what
/// is left of the budget, and nothing once the budget is used up.
pub open spec fn pacing_delay(budget_ms: u64, elapsed_ms: u128) -> u64 {
    if elapsed_ms < budget_ms {
        (budget_ms - elapsed_ms) as u64
    } else {
        0
    }
}

/// The position `sent` assets after `cursor` in a cycle of `count` assets.
pub open spec fn cursor_after(cursor: nat, sent: nat, count: nat) -> nat {
    (cursor + sent) % count
}

/// The position after `cursor` in a cycle of `count` assets.
pub open spec fn next_cursor(cursor: nat, count: nat) -> nat {
    cursor_after(cursor, 1, count)
}

/// The failure that an outcome stands for, and `None` for a frame that was
/// sent.
pub open spec fn failure_of(outcome: FrameOutcome) -> Option<StreamError> {
    match outcome {
        FrameOutcome::Sent { .. } => None,
        FrameOutcome::DecodeFailed => Some(StreamError::Decode),
        FrameOutcome::WriteFailed => Some(StreamError::Transmission),
    }
}

/// One step of the loop: the state after an outcome, and what to do next.
pub open spec fn step(state: StreamState, outcome: FrameOutcome) -> (StreamState, Directive) {
    match state.failure {
        Some(error) => (state, Directive::Halt { error }),
        None => match outcome {
            FrameOutcome::Sent { elapsed_ms } => {
                let next = next_cursor(state.cursor, state.asset_count);
                (
                    StreamState { cursor: next, ..state },
                    Directive::Continue {
                        next_asset: next as usize,
                        sleep_ms: pacing_delay(state.frame_budget_ms, elapsed_ms),
                    },
                )
            },
            FrameOutcome::DecodeFailed => (
                StreamState { failure: Some(StreamError::Decode), ..state },
                Directive::Halt { error: StreamError::Decode },
            ),
            FrameOutcome::WriteFailed => (
                StreamState { failure: Some(StreamError::Transmission), ..state },
                Directive::Halt { error: StreamError::Transmission },
            ),
        },
    }
}

/// The state after a sequence of outcomes, oldest first.
pub open spec fn state_after(state: StreamState, outcomes: Seq<FrameOutcome>) -> StreamState
    decreases outcomes.len(),
{
    if outcomes.len() == 0 {
        state
    } else {
        step(state_after(state, outcomes.drop_last()), outcomes.last()).0
    }
}

/// The directive that answers outcome `i` of a sequence of outcomes.
pub open spec fn directive_at(state: StreamState, outcomes: Seq<FrameOutcome>, i: int) -> Directive
    recommends
        0 <= i < outcomes.len(),
{
    step(state_after(state, outcomes.take(i)), outcomes[i]).1
}

/// Computes how long to sleep after a frame that took `elapsed_ms`
/// milliseconds of a budget of `budget_ms`.
pub fn remaining_sleep(budget_ms: u64, elapsed_ms: u128) -> (sleep_ms: u64)
    ensures
        sleep_ms == pacing_delay(budget_ms, elapsed_ms),
        sleep_ms <= budget_ms,
        sleep_ms + elapsed_ms >= budget_ms,
{
    if elapsed_ms < budget_ms as u128 {
        budget_ms - elapsed_ms as u64
    } else {
        0
    }
}

/// The streaming loop's state: a cursor over a cycle of assets, the frame
/// budget, and the failure that ended streaming, if any.
#[derive(Debug)]
pub struct Streamer {
    asset_count: usize,
    frame_budget_ms: u64,
    cursor: usize,
    failure: Option<StreamError>,
}

impl View for Streamer {
    type V = StreamState;

    closed spec fn view(&self) -> StreamState {
        StreamState {
            asset_count: self.asset_count as nat,
            frame_budget_ms: self.frame_budget_ms,
            cursor: self.cursor as nat,
            failure: self.failure,
        }
    }
}

impl Streamer {
    #[verifier::type_invariant]
    closed spec fn well_formed(&self) -> bool {
        self.cursor < self.asset_count
    }

    /// Starts streaming at the first of `asset_count` assets. Streaming
    /// needs at least one asset.
    pub fn new(asset_count: usize, frame_budget_ms: u64) -> (streamer: Result<
        Streamer,
        StreamError,
    >)
        ensures
            match streamer {
                Ok(s) => asset_count > 0 && s@ == StreamState::start(
                    asset_count as nat,
                    frame_budget_ms,
                ),
                Err(e) => asset_count == 0 && e == StreamError::NoAssets,
            },
    {
        if asset_count == 0 {
            Err(StreamError::NoAssets)
        } else {
            Ok(Streamer { asset_count, frame_budget_ms, cursor: 0, failure: None })
        }
    }

    /// The position of the current asset.
    pub fn cursor(&self) -> (cursor: usize)
        ensures
            cursor == self@.cursor,
            self@.wf(),
    {
        proof {
            use_type_invariant(self);
        }
        self.cursor
    }

    /// Why streaming ended, or `None` while it goes on.
    pub fn failure(&self) -> (failure: Option<StreamError>)
        ensures
            failure == self@.failure,
    {
        self.failure
    }

    /// Takes in how the work on the current frame ended and says what to do
    /// next.
    ///
    /// After a frame that was sent, the cursor moves to the next asset, from
    /// the last one back to the first, and the loop sleeps for what is left
    /// of the frame budget. A failure ends streaming, and so does every call
    /// after it.
    pub fn advance(&mut self, outcome: FrameOutcome) -> (directive: Directive)
        ensures
            (final(self)@, directive) == step(old(self)@, outcome),
            final(self)@.wf(),
    {
        proof {
            use_type_invariant(&*self);
        }
        match self.failure {
            Some(error) => Directive::Halt { error },
            None => match outcome {
                FrameOutcome::Sent { elapsed_ms } => {
                    let next: usize = if self.cursor + 1 < self.asset_count {
                        self.cursor + 1
                    } else {
                        0
                    };
                    proof {
                        lemma_next_cursor(self.cursor as nat, self.asset_count as nat);
                    }
                    self.cursor = next;
                    Directive::Continue {
                        next_asset: next,
                        sleep_ms: remaining_sleep(self.frame_budget_ms, elapsed_ms),
                    }
                },
                FrameOutcome::DecodeFailed => {
                    self.failure = Some(StreamError::Decode);
                    Directive::Halt { error: StreamError::Decode }
                },
                FrameOutcome::WriteFailed => {
                    self.failure = Some(StreamError::Transmission);
                    Directive::Halt { error: StreamError::Transmission }
                },
            },
        }
    }
}

/// The cursor moves one asset on and wraps from the last to the first.
pub proof fn lemma_next_cursor(cursor: nat, count: nat)
    requires
        cursor < count,
    ensures
        next_cursor(cursor, count) < count,
        cursor + 1 < count ==> next_cursor(cursor, count) == cursor + 1,
        cursor + 1 == count ==> next_cursor(cursor, count) == 0,
{
    if cursor + 1 < count {
        lemma_small_mod(cursor + 1, count);
    }
}

/// A step keeps the cursor on an asset.
pub proof fn lemma_step_keeps_wf(state: StreamState, outcome: FrameOutcome)
    requires
        state.wf(),
    ensures
        step(state, outcome).0.wf(),
        step(state, outcome).0.asset_count == state.asset_count,
        step(state, outcome).0.frame_budget_ms == state.frame_budget_ms,
{
    lemma_next_cursor(state.cursor, state.asset_count);
}

/// Failure is terminal: once streaming has failed, every step leaves the
/// state as it is and answers with a halt that names the same failure.
pub proof fn lemma_failure_is_terminal(state: StreamState, outcome: FrameOutcome)
    requires
        state.failure is Some,
    ensures
        step(state, outcome).0 == state,
        step(state, outcome).1 == (Directive::Halt { error: state.failure->0 }),
{
}

/// A step halts exactly when streaming had failed before or the frame
/// failed now; a frame that was sent while streaming never halts.
pub proof fn lemma_halts_only_on_failure(state: StreamState, outcome: FrameOutcome)
    ensures
        step(state, outcome).1 is Halt <==> (state.failure is Some || !(outcome is Sent)),
        step(state, outcome).1 is Halt <==> step(state, outcome).0.failure is Some,
{
}

/// The loop never waits longer than the budget, and a frame that used up
/// the budget is followed at once.
pub proof fn lemma_pacing_bounds(budget_ms: u64, elapsed_ms: u128)
    ensures
        pacing_delay(budget_ms, elapsed_ms) <= budget_ms,
        elapsed_ms >= budget_ms ==> pacing_delay(budget_ms, elapsed_ms) == 0,
        elapsed_ms < budget_ms ==> pacing_delay(budget_ms, elapsed_ms) + elapsed_ms == budget_ms,
{
}

/// Frames go out in listing order, cyclically: after `n` frames in a row
/// were sent, the cursor stands `n` assets further round the cycle, and each
/// directive on the way named the asset that followed.
pub proof fn lemma_sent_frames_cycle(state: StreamState, outcomes: Seq<FrameOutcome>)
    requires
        state.wf(),
        state.failure is None,
        forall|i: int| 0 <= i < outcomes.len() ==> #[trigger] outcomes[i] is Sent,
    ensures
        state_after(state, outcomes) == (StreamState {
            cursor: cursor_after(state.cursor, outcomes.len(), state.asset_count),
            ..state
        }),
        forall|i: int|
            0 <= i < outcomes.len() ==> (#[trigger] directive_at(state, outcomes, i)) == (
            Directive::Continue {
                next_asset: cursor_after(
                    state.cursor,
                    (i + 1) as nat,
                    state.asset_count,
                ) as usize,
                sleep_ms: pacing_delay(state.frame_budget_ms, outcomes[i]->elapsed_ms),
            }),
    decreases outcomes.len(),
{
    let count = state.asset_count;
    if outcomes.len() == 0 {
        lemma_small_mod(state.cursor, count);
    } else {
        let earlier = outcomes.drop_last();
        lemma_sent_frames_cycle(state, earlier);
        assert(outcomes.last() is Sent);
        lemma_cursor_shift(state.cursor, earlier.len(), count);
        assert forall|i: int| 0 <= i < outcomes.len() implies (#[trigger] directive_at(
            state,
            outcomes,
            i,
        )) == (Directive::Continue {
            next_asset: cursor_after(state.cursor, (i + 1) as nat, count) as usize,
            sleep_ms: pacing_delay(state.frame_budget_ms, outcomes[i]->elapsed_ms),
        }) by {
            assert(outcomes[i] is Sent);
            if i < earlier.len() {
                assert(outcomes.take(i) =~= earlier.take(i));
                assert(directive_at(state, outcomes, i) == directive_at(state, earlier, i));
            } else {
                assert(outcomes.take(i) =~= earlier);
            }
        }
    }
}

/// One asset on from the position `n` assets after `start` is the position
/// `n + 1` assets after `start`.
pub proof fn lemma_cursor_shift(start: nat, n: nat, count: nat)
    requires
        start < count,
    ensures
        cursor_after(start, n, count) < count,
        next_cursor(cursor_after(start, n, count), count) == cursor_after(start, n + 1, count),
{
    lemma_add_mod_noop((start + n) as int, 1, count as int);
    if count > 1 {
        lemma_small_mod(1, count);
    }
}

/// The first failure stops the loop where it stands. If the first `n`
/// frames were sent and the next one failed, be it in decoding or in the
/// write to the display, then every directive before the failure says to go
/// on, the directive that answers the failure is a halt for it, and so is
/// every later one, whatever is reported afterwards. The cursor stays on the
/// asset that failed: no frame after it is begun.
pub proof fn lemma_stops_at_first_failure(
    state: StreamState,
    outcomes: Seq<FrameOutcome>,
    n: int,
)
    requires
        state.wf(),
        state.failure is None,
        0 <= n < outcomes.len(),
        forall|i: int| 0 <= i < n ==> #[trigger] outcomes[i] is Sent,
        !(outcomes[n] is Sent),
    ensures
        forall|i: int| 0 <= i < n ==> #[trigger] directive_at(state, outcomes, i) is Continue,
        forall|i: int|
            n <= i < outcomes.len() ==> (#[trigger] directive_at(state, outcomes, i)) == (
            Directive::Halt { error: failure_of(outcomes[n])->0 }),
        state_after(state, outcomes) == (StreamState {
            cursor: cursor_after(state.cursor, n as nat, state.asset_count),
            failure: failure_of(outcomes[n]),
            ..state
        }),
{
    let sent = outcomes.take(n);
    lemma_sent_frames_cycle(state, sent);
    assert forall|i: int| 0 <= i < n implies #[trigger] directive_at(
        state,
        outcomes,
        i,
    ) is Continue by {
        assert(outcomes.take(i) =~= sent.take(i));
        assert(sent[i] == outcomes[i]);
        assert(directive_at(state, outcomes, i) == directive_at(state, sent, i));
    }
    lemma_failed_prefix(state, outcomes, n, outcomes.len() as int);
    assert(outcomes.take(outcomes.len() as int) =~= outcomes);
    assert forall|i: int| n <= i < outcomes.len() implies (#[trigger] directive_at(
        state,
        outcomes,
        i,
    )) == (Directive::Halt { error: failure_of(outcomes[n])->0 }) by {
        if i > n {
            lemma_failed_prefix(state, outcomes, n, i);
        }
    }
}

/// Once outcome `n` has failed the stream, the state after any longer
/// prefix of the outcomes is the state right after the failure.
proof fn lemma_failed_prefix(state: StreamState, outcomes: Seq<FrameOutcome>, n: int, m: int)
    requires
        0 <= n < m <= outcomes.len(),
        step(state_after(state, outcomes.take(n)), outcomes[n]).0.failure is Some,
    ensures
        state_after(state, outcomes.take(m)) == step(
            state_after(state, outcomes.take(n)),
            outcomes[n],
        ).0,
    decreases m - n,
{
    let prefix = outcomes.take(m);
    assert(prefix.drop_last() =~= outcomes.take(m - 1));
    assert(prefix.last() == outcomes[m - 1]);
    if m - 1 > n {
        lemma_failed_prefix(state, outcomes, n, m - 1);
    }
}

} // verus!
