//! Capture sources and the pacing adapter.
//!
//! A [`Source`] produces raw frames from a capture device with blocking/retry
//! semantics: a pull either fills the frame, asks the caller to retry
//! ([`StreamError::WouldRetry`]), ends the stream, or fails. The pacing
//! adapter ([`PollState`], [`PollSource`]) converts that into a cooperative,
//! time-aware poll: the caller supplies the current time in milliseconds and
//! receives either an item with its elapsed-since-start timestamp, a
//! `Pending` with an explicit wait before the next attempt, or `Complete`.
//! The poll never sleeps; the caller owns the clock and the sleeping.

use vstd::prelude::*;
use crate::error::StreamError;
use crate::frame::RawFrame;
use crate::rational::{frame_interval_ms, spec_frame_interval_ms, Rational};

verus! {

/// Milliseconds elapsed since the pipeline's start instant.
pub type Delta = u64;

/// How long a poll waits before any frame has ever been produced, in
/// milliseconds: a fixed short back-off so retries do not busy-spin while no
/// deadline is known yet.
pub const DEFAULT_RETRY_WAIT_MS: u64 = 5;

/// One step of a cooperative production sequence: not ready yet (retry after
/// the given number of milliseconds), an item stamped with its elapsed time,
/// or the end of the sequence.
#[derive(Debug)]
pub enum Output<T> {
    Pending(u64),
    Item(T, Delta),
    Complete,
}

/// The capture device a stream is configured to read: the software
/// demux-and-decode path or the zero-copy GPU duplication path.
#[derive(Clone, Copy, Debug, PartialEq, Eq, Structural)]
pub enum CaptureMethod {
    AVFoundation,
    DXGI,
}

impl Default for CaptureMethod {
    /// The zero-copy duplication path is the default where a choice exists.
    fn default() -> (r: Self)
        ensures
            r is DXGI,
    {
        CaptureMethod::DXGI
    }
}

/// A capture backend: fills `out` with the next raw frame, or reports why it
/// could not. `Err(WouldRetry)` means "no frame ready yet", `Err(EndOfStream)`
/// means the device stream is exhausted, and any other error is fatal for the
/// stream. `hw_support` declares whether returned frames carry a hardware
/// buffer the encoder should share rather than copy.
pub trait Source {
    fn next_frame(&mut self, out: &mut RawFrame) -> Result<(), StreamError>;

    fn hw_support(&self) -> bool {
        false
    }
}

/// The pacing adapter's state: the pipeline's start instant, the instant the
/// next frame is expected (known once a frame has succeeded), the last time
/// the adapter was polled, the target frame rate, and whether the stream has
/// completed. All instants are in milliseconds on the caller's clock.
#[derive(Clone, Copy, Debug, PartialEq, Eq, Structural)]
pub struct PollState {
    pub start: u64,
    pub next: Option<u64>,
    pub last_now: u64,
    pub target_fps: Rational,
    pub complete: bool,
}

impl PollState {
    /// A state the adapter keeps: the rate is usable for pacing and polls
    /// never run backwards in time.
    pub open spec fn wf(&self) -> bool {
        &&& self.target_fps.is_positive()
        &&& self.start <= self.last_now
    }

    pub fn new(target_fps: Rational, start: u64) -> (s: PollState)
        requires
            target_fps.is_positive(),
        ensures
            s == (PollState {
                start,
                next: None,
                last_now: start,
                target_fps,
                complete: false,
            }),
            s.wf(),
    {
        PollState { start, next: None, last_now: start, target_fps, complete: false }
    }

    /// Converts one capture result into one poll output, never sleeping:
    /// exactly [`spec_poll`], which is the whole contract.
    pub fn poll(&mut self, now: u64, event: Result<(), StreamError>) -> (r: Output<
        Result<(), StreamError>,
    >)
        requires
            old(self).wf(),
            now >= old(self).last_now,
            now + spec_frame_interval_ms(old(self).target_fps) <= u64::MAX,
        ensures
            (*final(self), r) == spec_poll(*old(self), now, event),
            final(self).wf(),
    {
        if self.complete {
            return Output::Complete;
        }
        match event {
            Err(StreamError::EndOfStream) => {
                self.complete = true;
                self.last_now = now;
                Output::Complete
            },
            Err(StreamError::WouldRetry) => {
                let w: u64 = match self.next {
                    Some(deadline) => if deadline > now {
                        deadline - now
                    } else {
                        0
                    },
                    None => DEFAULT_RETRY_WAIT_MS,
                };
                self.last_now = now;
                Output::Pending(w)
            },
            Err(e) => {
                self.last_now = now;
                Output::Item(Err(e), now - self.start)
            },
            Ok(_) => {
                let interval = frame_interval_ms(&self.target_fps);
                self.next = Some(now + interval);
                self.last_now = now;
                Output::Item(Ok(()), now - self.start)
            },
        }
    }
}

/// The wait a retry is told to take: the time left until the next expected
/// frame once a deadline is known (clamped at zero when the deadline has
/// passed), and the fixed short default before any frame has succeeded.
pub open spec fn spec_wait(s: PollState, now: u64) -> u64 {
    match s.next {
        Some(deadline) => if deadline > now {
            (deadline - now) as u64
        } else {
            0
        },
        None => DEFAULT_RETRY_WAIT_MS,
    }
}

/// The pacing adapter's transition function. Given the state, the time of the
/// poll and the capture result, it yields the new state and the output:
///
/// - once complete, every poll is `Complete` and changes nothing;
/// - `EndOfStream` completes the stream;
/// - `WouldRetry` is absorbed into `Pending(spec_wait)`;
/// - any other error is handed on with its elapsed time, not retried here;
/// - a frame advances the expected instant by the nominal frame interval of
///   the target rate and yields the frame's elapsed time.
pub open spec fn spec_poll(s: PollState, now: u64, event: Result<(), StreamError>) -> (PollState,
    Output<Result<(), StreamError>>,
) {
    if s.complete {
        (s, Output::Complete)
    } else {
        match event {
            Err(StreamError::EndOfStream) => (
                PollState { complete: true, last_now: now, ..s },
                Output::Complete,
            ),
            Err(StreamError::WouldRetry) => (
                PollState { last_now: now, ..s },
                Output::Pending(spec_wait(s, now)),
            ),
            Err(e) => (
                PollState { last_now: now, ..s },
                Output::Item(Err(e), (now - s.start) as u64),
            ),
            Ok(_) => (
                PollState {
                    next: Some((now + spec_frame_interval_ms(s.target_fps)) as u64),
                    last_now: now,
                    ..s
                },
                Output::Item(Ok(()), (now - s.start) as u64),
            ),
        }
    }
}

/// Elapsed-since-start timestamps never decrease across polls: whenever two
/// successive polls both yield an item, the second item's elapsed time is at
/// least the first's, because the clock the caller hands in never runs
/// backwards past a previous poll.
pub proof fn lemma_elapsed_monotonic(
    s0: PollState,
    now1: u64,
    event1: Result<(), StreamError>,
    now2: u64,
    event2: Result<(), StreamError>,
)
    requires
        s0.wf(),
        now1 >= s0.last_now,
        now2 >= now1,
    ensures
        ({
            let (s1, out1) = spec_poll(s0, now1, event1);
            let (s2, out2) = spec_poll(s1, now2, event2);
            out1 matches Output::Item(_, d1) ==> (out2 matches Output::Item(_, d2) ==> d1 <= d2)
        }),
{
}

/// Before any frame has ever succeeded no deadline is known, and every retry
/// is told to wait the fixed default.
pub proof fn lemma_default_wait_before_first_frame(s: PollState, now: u64)
    requires
        s.wf(),
        !s.complete,
        s.next is None,
    ensures
        spec_poll(s, now, Err(StreamError::WouldRetry)).1 == Output::<Result<(),
            StreamError,
        >>::Pending(DEFAULT_RETRY_WAIT_MS),
{
}

/// Once a frame has succeeded, every retry is told to wait exactly the time
/// left until the next expected frame, clamped at zero once that instant has
/// passed — never a negative wait, never more than the deadline allows.
pub proof fn lemma_wait_tracks_deadline(s: PollState, now: u64, deadline: u64)
    requires
        s.wf(),
        !s.complete,
        s.next == Some(deadline),
    ensures
        spec_poll(s, now, Err(StreamError::WouldRetry)).1 == Output::<Result<(),
            StreamError,
        >>::Pending(
            if deadline > now {
                (deadline - now) as u64
            } else {
                0
            },
        ),
{
}

/// `EndOfStream` always yields `Complete`, and `Complete` is terminal: once
/// the state has completed, every further poll yields `Complete` and changes
/// nothing, whatever the backend would have said — no item is ever produced
/// after completion, short of building a new adapter.
pub proof fn lemma_complete_is_terminal(
    s: PollState,
    now: u64,
    event: Result<(), StreamError>,
    later: u64,
    later_event: Result<(), StreamError>,
)
    ensures
        spec_poll(s, now, Err(StreamError::EndOfStream)).1 is Complete,
        spec_poll(s, now, Err(StreamError::EndOfStream)).0.complete,
        s.complete ==> spec_poll(s, now, event) == (s, Output::<Result<(),
            StreamError,
        >>::Complete),
        spec_poll(s, now, event).0.complete ==> spec_poll(
            spec_poll(s, now, event).0,
            later,
            later_event,
        ).1 is Complete,
{
}

/// A capture backend wrapped with its pacing state: pulls the backend once
/// per poll and paces the result.
#[derive(Debug)]
pub struct PollSource<T> {
    pub state: PollState,
    pub source: T,
}

impl<T> PollSource<T> {
    pub fn new(source: T, target_fps: Rational, start: u64) -> (s: PollSource<T>)
        requires
            target_fps.is_positive(),
        ensures
            s.state == (PollState {
                start,
                next: None,
                last_now: start,
                target_fps,
                complete: false,
            }),
            s.source == source,
            s.state.wf(),
    {
        PollSource { state: PollState::new(target_fps, start), source }
    }
}

impl<T> PollSource<T> where T: Source {
    /// Polls the backend once and paces whatever came back. The backend's
    /// result is its own; this contract states what holds of every outcome:
    /// the output and the new state are one transition of [`spec_poll`], and
    /// once the stream has completed the backend is never pulled again.
    pub fn next(&mut self, now: u64, frame: &mut RawFrame) -> (r: Output<
        Result<(), StreamError>,
    >)
        requires
            old(self).state.wf(),
            now >= old(self).state.last_now,
            now + spec_frame_interval_ms(old(self).state.target_fps) <= u64::MAX,
        ensures
            final(self).state.wf(),
            old(self).state.complete ==> *final(self) == *old(self) && r is Complete
                && *final(frame) == *old(frame),
            exists|event: Result<(), StreamError>|
                (final(self).state, r) == #[trigger] spec_poll(old(self).state, now, event),
    {
        if self.state.complete {
            proof {
                assert(spec_poll(old(self).state, now, Ok(())) == (
                    old(self).state,
                    Output::<Result<(), StreamError>>::Complete,
                ));
            }
            return Output::Complete;
        }
        let event = self.source.next_frame(frame);
        self.state.poll(now, event)
    }
}

} // verus!
