//! Single-slot frame handoff between a producer (driven by a device
//! callback) and a consumer that pulls frames on demand.
//!
//! The buffer is latest-wins: a push always succeeds and silently replaces
//! any unread frame. Alongside the slot it keeps a frame counter, the epoch
//! timestamp of the stream (set exactly once), and an exponentially smoothed
//! latency estimate over integer nanoseconds.

use vstd::prelude::*;

verus! {

/// One step of the latency moving average: the new sample enters with
/// weight 8/10, the previous estimate stays with weight 2/10, truncating.
pub open spec fn ema_next(prev: u64, sample: u64) -> int {
    (2 * prev + 8 * sample) / 10
}

/// The frame counter increments and wraps around at the machine word,
/// as a relaxed atomic increment would.
pub open spec fn wrapping_inc(c: usize) -> usize {
    if c == usize::MAX {
        0
    } else {
        (c + 1) as usize
    }
}

/// A bounded (capacity-1) handoff cell plus stream bookkeeping. All state
/// is plain data; a caller that shares it between threads wraps it in its
/// own lock and condition variable.
pub struct FrameData<T> {
    /// The single pending frame, if any.
    pub slot: Option<T>,
    /// How many frames have ever been pushed (diagnostics; wraps).
    pub frame_counter: usize,
    /// Timestamp of the first frame of the stream, in nanoseconds.
    pub epoch_nanos: Option<u64>,
    /// Smoothed per-frame latency estimate, in nanoseconds.
    pub latency_nanos: Option<u64>,
    /// Set once the stream is torn down; waiters must not block afterwards.
    pub closed: bool,
}

/// The state after a push: the new frame replaces whatever was held.
pub open spec fn spec_add_frame<T>(s: FrameData<T>, frame: T) -> FrameData<T> {
    FrameData {
        slot: Some(frame),
        frame_counter: wrapping_inc(s.frame_counter),
        epoch_nanos: s.epoch_nanos,
        latency_nanos: s.latency_nanos,
        closed: s.closed,
    }
}

/// The state after a pop: the slot is drained, all else untouched.
pub open spec fn spec_pop_frame<T>(s: FrameData<T>) -> FrameData<T> {
    FrameData {
        slot: None,
        frame_counter: s.frame_counter,
        epoch_nanos: s.epoch_nanos,
        latency_nanos: s.latency_nanos,
        closed: s.closed,
    }
}

/// The state and result of establishing the epoch: the first caller's
/// timestamp is recorded, every later caller gets the recorded value back.
pub open spec fn spec_start_timestamp<T>(s: FrameData<T>, timestamp: u64) -> (FrameData<T>, u64) {
    match s.epoch_nanos {
        None => (
            FrameData {
                slot: s.slot,
                frame_counter: s.frame_counter,
                epoch_nanos: Some(timestamp),
                latency_nanos: s.latency_nanos,
                closed: s.closed,
            },
            timestamp,
        ),
        Some(prev) => (s, prev),
    }
}

/// The state after recording a latency sample: the first sample seeds the
/// estimate, later samples fold in through `ema_next`.
pub open spec fn spec_update_latency<T>(s: FrameData<T>, sample: u64) -> FrameData<T> {
    FrameData {
        slot: s.slot,
        frame_counter: s.frame_counter,
        epoch_nanos: s.epoch_nanos,
        latency_nanos: match s.latency_nanos {
            None => Some(sample),
            Some(prev) => Some(ema_next(prev, sample) as u64),
        },
        closed: s.closed,
    }
}

/// Presentation metadata computed for a frame as it is handed over:
/// timestamp relative to the stream epoch, nominal frame duration, and a
/// running offset, all that the downstream pipeline needs to schedule it.
pub struct FrameMeta {
    pub pts_nanos: u64,
    pub duration_nanos: u64,
    pub offset: u64,
}

/// What one turn of the consumer's pull loop decides.
pub enum PullStep<T> {
    /// A frame was pending; it is drained and handed over.
    Deliver(T),
    /// Nothing pending and the stream is live: the caller should block
    /// until the producer wakes it, then try again.
    Wait,
    /// Nothing pending and the stream is closed: end of stream.
    EndOfStream,
}

impl<T> FrameData<T> {
    /// An empty, live buffer, as at stream start.
    pub fn new() -> (r: Self)
        ensures
            r.slot.is_none(),
            r.frame_counter == 0,
            r.epoch_nanos.is_none(),
            r.latency_nanos.is_none(),
            !r.closed,
    {
        FrameData {
            slot: None,
            frame_counter: 0,
            epoch_nanos: None,
            latency_nanos: None,
            closed: false,
        }
    }

    /// Records the stream epoch if none is set yet and returns the epoch
    /// actually in force, so that concurrent first-frame races all observe
    /// one winning value.
    pub fn start_timestamp(&mut self, timestamp: u64) -> (epoch: u64)
        ensures
            (*final(self), epoch) == spec_start_timestamp(*old(self), timestamp),
    {
        match self.epoch_nanos {
            None => {
                self.epoch_nanos = Some(timestamp);
                timestamp
            },
            Some(prev) => prev,
        }
    }

    /// Folds a latency sample (nanoseconds) into the moving average; the
    /// first sample seeds it.
    pub fn update_latency(&mut self, latency: u64)
        ensures
            *final(self) == spec_update_latency(*old(self), latency),
    {
        match self.latency_nanos {
            None => {
                self.latency_nanos = Some(latency);
            },
            Some(prev) => {
                let wide: u128 = 2 * (prev as u128) + 8 * (latency as u128);
                let next: u128 = wide / 10;
                assert(next <= u64::MAX) by {
                    assert(2 * (prev as int) + 8 * (latency as int) <= 10 * (u64::MAX as int));
                };
                self.latency_nanos = Some(next as u64);
            },
        }
    }

    /// The current latency estimate, or `None` before the first sample.
    pub fn get_latency(&self) -> (r: Option<u64>)
        ensures
            r == self.latency_nanos,
    {
        self.latency_nanos
    }

    /// Unconditionally stores `frame`, dropping any unread predecessor
    /// (latest-wins), and returns the previous value of the frame counter.
    /// The caller that shares this buffer wakes one blocked waiter after
    /// each push.
    pub fn add_frame(&mut self, frame: T) -> (prev: usize)
        ensures
            *final(self) == spec_add_frame(*old(self), frame),
            prev == old(self).frame_counter,
    {
        let prev = self.frame_counter;
        self.slot = Some(frame);
        self.frame_counter = if prev == usize::MAX {
            0
        } else {
            prev + 1
        };
        prev
    }

    /// Atomically removes and returns the held frame, or reports empty.
    pub fn pop_frame(&mut self) -> (r: Option<T>)
        ensures
            r == old(self).slot,
            *final(self) == spec_pop_frame(*old(self)),
    {
        self.slot.take()
    }

    /// Marks the stream as torn down. The caller that shares this buffer
    /// wakes every blocked waiter right after, so none blocks past teardown.
    pub fn close(&mut self)
        ensures
            final(self).closed,
            final(self).slot == old(self).slot,
            final(self).frame_counter == old(self).frame_counter,
            final(self).epoch_nanos == old(self).epoch_nanos,
            final(self).latency_nanos == old(self).latency_nanos,
    {
        self.closed = true;
    }

    /// One turn of the consumer's pull loop: drain a pending frame, or say
    /// whether to block for a notification or to surface end-of-stream.
    pub fn pull_step(&mut self) -> (s: PullStep<T>)
        ensures
            match old(self).slot {
                Some(f) => s == PullStep::Deliver(f) && *final(self) == spec_pop_frame(*old(self)),
                None => *final(self) == *old(self) && if old(self).closed {
                    s == PullStep::<T>::EndOfStream
                } else {
                    s == PullStep::<T>::Wait
                },
            },
    {
        match self.slot.take() {
            Some(f) => PullStep::Deliver(f),
            None => if self.closed {
                PullStep::EndOfStream
            } else {
                PullStep::Wait
            },
        }
    }
}

impl<T> Default for FrameData<T> {
    /// Same state as `new`: empty, live, nothing recorded yet.
    fn default() -> (r: Self)
        ensures
            r.slot.is_none(),
            r.frame_counter == 0,
            r.epoch_nanos.is_none(),
            r.latency_nanos.is_none(),
            !r.closed,
    {
        FrameData::new()
    }
}

/// Law: the buffer is latest-wins. Pushing `a` then `b` with no pop in
/// between leaves exactly `b` pending; the pop that follows yields `b` and
/// leaves the slot empty, and `a` is gone from the state entirely.
pub proof fn lemma_latest_wins<T>(s: FrameData<T>, a: T, b: T)
    ensures
        spec_add_frame(spec_add_frame(s, a), b).slot == Some(b),
        spec_pop_frame(spec_add_frame(spec_add_frame(s, a), b)).slot.is_none(),
{
}

/// Law: the latency estimate seeds with the first sample and then follows
/// the moving average exactly: after samples `s0`, `s1` it reads
/// `(2*s0 + 8*s1) / 10`, i.e. `s0 * 0.2 + s1 * 0.8` in truncating
/// integer arithmetic.
pub proof fn lemma_latency_ema<T>(s: FrameData<T>, s0: u64, s1: u64)
    requires
        s.latency_nanos.is_none(),
    ensures
        spec_update_latency(s, s0).latency_nanos == Some(s0),
        spec_update_latency(spec_update_latency(s, s0), s1).latency_nanos
            == Some(((2 * s0 + 8 * s1) / 10) as u64),
{
}

/// Law: establishing the epoch is idempotent. Whatever two timestamps two
/// racing callers bring, exactly one value is recorded, both callers are
/// handed that same value, and the second call leaves the state unchanged.
pub proof fn lemma_epoch_idempotent<T>(s: FrameData<T>, t0: u64, t1: u64)
    requires
        s.epoch_nanos.is_none(),
    ensures
        ({
            let (s1, e0) = spec_start_timestamp(s, t0);
            let (s2, e1) = spec_start_timestamp(s1, t1);
            e0 == t0 && e1 == t0 && s2 == s1 && s1.epoch_nanos == Some(t0)
        }),
{
}

} // verus!
