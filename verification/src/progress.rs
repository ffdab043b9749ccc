//! Progress of a transfer: the shared byte counter with its throttled
//! notifications, and the decorator that observes an outgoing part.

use vstd::prelude::*;

verus! {

/// Least time, in milliseconds, between two notifications that do not
/// announce completion.
pub const EMIT_INTERVAL_MS: u64 = 500;

/// One notification: how many bytes have been sent, out of how many.
#[derive(Debug, Clone, Copy, PartialEq, Eq, Structural)]
pub struct Progress {
    pub bytes_transferred: u64,
    pub content_length: u64,
}

/// Byte counter of one transfer. Every part that is being sent adds to it;
/// the caller keeps it behind a lock and passes in the time, in milliseconds
/// of a clock that does not go back.
#[derive(Debug)]
pub struct ProgressTracker {
    bytes_transferred: u64,
    content_length: u64,
    last_emitted_at: u64,
}

/// Mathematical value of a `ProgressTracker`.
pub struct TrackerState {
    pub bytes_transferred: nat,
    pub content_length: nat,
    pub last_emitted_at: nat,
}

/// One increment: `len` bytes were sent at time `at`.
pub struct Increment {
    pub len: nat,
    pub at: nat,
}

/// Whether a count announces completion: all of the content has been sent.
pub open spec fn is_complete(bytes_transferred: nat, content_length: nat) -> bool {
    bytes_transferred >= content_length
}

/// Whether an increment that brings the counter to `bytes_transferred` at
/// time `now` is notified: the interval has passed since the last
/// notification, or the count announces completion.
pub open spec fn is_due(state: TrackerState, bytes_transferred: nat, now: nat) -> bool {
    now - state.last_emitted_at >= EMIT_INTERVAL_MS || is_complete(
        bytes_transferred,
        state.content_length,
    )
}

/// The counter after an increment. The count always grows by the increment;
/// the time of the last notification moves only when one is made.
pub open spec fn state_after(state: TrackerState, step: Increment) -> TrackerState {
    let bytes_transferred = state.bytes_transferred + step.len;
    TrackerState {
        bytes_transferred,
        content_length: state.content_length,
        last_emitted_at: if is_due(state, bytes_transferred, step.at) {
            step.at
        } else {
            state.last_emitted_at
        },
    }
}

/// The count that an increment notifies, if it notifies one.
pub open spec fn emitted_by(state: TrackerState, step: Increment) -> Option<nat> {
    let bytes_transferred = state.bytes_transferred + step.len;
    if is_due(state, bytes_transferred, step.at) {
        Some(bytes_transferred)
    } else {
        None
    }
}

/// The counts notified, in order, while a run of increments is applied.
pub open spec fn emissions(state: TrackerState, steps: Seq<Increment>) -> Seq<nat>
    decreases steps.len(),
{
    if steps.len() == 0 {
        Seq::empty()
    } else {
        let rest = emissions(state_after(state, steps[0]), steps.drop_first());
        match emitted_by(state, steps[0]) {
            Some(count) => seq![count] + rest,
            None => rest,
        }
    }
}

/// The bytes that a run of increments adds.
pub open spec fn total_len(steps: Seq<Increment>) -> nat
    decreases steps.len(),
{
    if steps.len() == 0 {
        0
    } else {
        steps[0].len + total_len(steps.drop_first())
    }
}

impl View for ProgressTracker {
    type V = TrackerState;

    closed spec fn view(&self) -> TrackerState {
        TrackerState {
            bytes_transferred: self.bytes_transferred as nat,
            content_length: self.content_length as nat,
            last_emitted_at: self.last_emitted_at as nat,
        }
    }
}

impl ProgressTracker {
    /// A counter at zero for `content_length` bytes, made at time `now_ms`.
    /// The first notification that does not announce completion comes no
    /// sooner than one interval after `now_ms`.
    pub fn new(content_length: u64, now_ms: u64) -> (tracker: ProgressTracker)
        ensures
            tracker@ == (TrackerState {
                bytes_transferred: 0,
                content_length: content_length as nat,
                last_emitted_at: now_ms as nat,
            }),
    {
        ProgressTracker { bytes_transferred: 0, content_length, last_emitted_at: now_ms }
    }

    /// Bytes counted so far.
    pub fn bytes_transferred(&self) -> (count: u64)
        ensures
            count == self@.bytes_transferred,
    {
        self.bytes_transferred
    }

    /// Bytes that the transfer has to send.
    pub fn content_length(&self) -> (length: u64)
        ensures
            length == self@.content_length,
    {
        self.content_length
    }

    /// Time of the last notification, or of the counter's making if there
    /// was none.
    pub fn last_emitted_at(&self) -> (at: u64)
        ensures
            at == self@.last_emitted_at,
    {
        self.last_emitted_at
    }

    /// Counts `len` more bytes at time `now_ms` and says whether to notify.
    ///
    /// The counter grows by `len` in every case. A notification with the new
    /// count is returned if at least `EMIT_INTERVAL_MS` have passed since
    /// the last one or if the new count reaches the content length; the time
    /// of the last notification then becomes `now_ms`. Otherwise nothing is
    /// returned and that time stays. The new count must fit a `u64`.
    pub fn track(&mut self, len: u64, now_ms: u64) -> (emitted: Option<Progress>)
        requires
            old(self)@.bytes_transferred + len <= u64::MAX,
        ensures
            final(self)@ == state_after(
                old(self)@,
                Increment { len: len as nat, at: now_ms as nat },
            ),
            final(self)@.bytes_transferred == old(self)@.bytes_transferred + len,
            match emitted_by(old(self)@, Increment { len: len as nat, at: now_ms as nat }) {
                Some(count) => emitted == Some(
                    Progress {
                        bytes_transferred: count as u64,
                        content_length: old(self)@.content_length as u64,
                    },
                ),
                None => emitted.is_none(),
            },
    {
        self.bytes_transferred = self.bytes_transferred + len;
        let interval_passed = now_ms >= self.last_emitted_at && now_ms - self.last_emitted_at
            >= EMIT_INTERVAL_MS;
        if interval_passed || self.bytes_transferred >= self.content_length {
            self.last_emitted_at = now_ms;
            Some(
                Progress {
                    bytes_transferred: self.bytes_transferred,
                    content_length: self.content_length,
                },
            )
        } else {
            None
        }
    }
}

/// Notified counts never go down: every count notified during a run of
/// increments is at least the count before the run, and at least every
/// count notified before it.
pub proof fn lemma_emissions_never_decrease(state: TrackerState, steps: Seq<Increment>)
    ensures
        forall|i: int|
            0 <= i < emissions(state, steps).len() ==> state.bytes_transferred <= #[trigger] emissions(
                state,
                steps,
            )[i],
        forall|i: int, j: int|
            0 <= i <= j < emissions(state, steps).len() ==> emissions(state, steps)[i]
                <= emissions(state, steps)[j],
    decreases steps.len(),
{
    if steps.len() > 0 {
        let next = state_after(state, steps[0]);
        let rest = emissions(next, steps.drop_first());
        lemma_emissions_never_decrease(next, steps.drop_first());
        assert(state.bytes_transferred <= next.bytes_transferred);
        match emitted_by(state, steps[0]) {
            Some(count) => {
                assert(count == next.bytes_transferred);
                let all = emissions(state, steps);
                assert(all == seq![count] + rest);
                assert forall|i: int| 0 <= i < all.len() implies state.bytes_transferred
                    <= #[trigger] all[i] by {
                    if i > 0 {
                        assert(all[i] == rest[i - 1]);
                    }
                }
                assert forall|i: int, j: int| 0 <= i <= j < all.len() implies all[i]
                    <= all[j] by {
                    if i > 0 {
                        assert(all[i] == rest[i - 1]);
                        assert(all[j] == rest[j - 1]);
                    } else if j > 0 {
                        assert(all[j] == rest[j - 1]);
                    }
                }
            },
            None => {},
        }
    }
}

/// Completion is never skipped: if a run of increments brings the counter
/// to the content length or beyond, the last count notified is the final
/// count. Where the increments add up to exactly what was missing, the last
/// notification therefore shows all of the content and no more.
pub proof fn lemma_completion_is_notified(state: TrackerState, steps: Seq<Increment>)
    requires
        steps.len() > 0,
        state.bytes_transferred + total_len(steps) >= state.content_length,
    ensures
        emissions(state, steps).len() > 0,
        emissions(state, steps).last() == state.bytes_transferred + total_len(steps),
    decreases steps.len(),
{
    let next = state_after(state, steps[0]);
    let tail = steps.drop_first();
    let rest = emissions(next, tail);
    if tail.len() == 0 {
        assert(total_len(tail) == 0);
        assert(rest.len() == 0);
        assert(is_due(state, state.bytes_transferred + steps[0].len, steps[0].at));
        assert(emissions(state, steps) == seq![next.bytes_transferred] + rest);
    } else {
        lemma_completion_is_notified(next, tail);
        match emitted_by(state, steps[0]) {
            Some(count) => {
                let all = emissions(state, steps);
                assert(all == seq![count] + rest);
                assert(all.last() == rest.last());
            },
            None => {},
        }
    }
}

/// What one pull from the wrapped body gave.
#[derive(Debug, Clone, Copy, PartialEq, Eq, Structural)]
pub enum Pulled {
    /// A piece of the body, `len` bytes long.
    Data { len: u64 },
    /// The body has ended.
    End,
    /// The body failed.
    Failed,
    /// Nothing is ready yet.
    Pending,
}

/// The bytes that a pull sends on their way: the length of a piece of data,
/// and nothing for any other outcome.
pub open spec fn bytes_pulled(pulled: Pulled) -> Option<u64> {
    match pulled {
        Pulled::Data { len } => Some(len),
        _ => None,
    }
}

/// Decorator of the body of one outgoing part. It hands the wrapped body on
/// unchanged, says how many bytes each pull sends, and reports a fixed size
/// for the whole part.
#[derive(Debug)]
pub struct ProgressBody<InnerBody> {
    pub inner: InnerBody,
    pub content_length: u64,
}

impl<InnerBody> ProgressBody<InnerBody> {
    /// Wraps `body`, which will give `content_length` bytes in all.
    pub fn new(body: InnerBody, content_length: u64) -> (wrapped: Self)
        ensures
            wrapped.inner == body,
            wrapped.content_length == content_length,
    {
        Self { inner: body, content_length }
    }

    /// What a pull adds to the transfer's byte counter: the exact length of
    /// the piece for data, nothing otherwise. The decorator keeps no count
    /// of its own, so a part that is sent again is counted again.
    pub fn observe(&self, pulled: Pulled) -> (count: Option<u64>)
        ensures
            count == bytes_pulled(pulled),
    {
        match pulled {
            Pulled::Data { len } => Some(len),
            _ => None,
        }
    }

    /// The exact size reported for the part, whatever has been pulled.
    pub fn size_hint(&self) -> (size: u64)
        ensures
            size == self.content_length,
    {
        self.content_length
    }

    /// Gives the wrapped body back.
    pub fn into_inner(self) -> (body: InnerBody)
        ensures
            body == self.inner,
    {
        self.inner
    }
}

} // verus!
