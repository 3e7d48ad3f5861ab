//! A point-streaming sequencer for laser-projector output.
//!
//! Given a frame (an ordered sequence of points describing a closed path),
//! the [`Streamer`] produces an endless, seamless stream of output points,
//! inserting a blanking (laser-off) point whenever the beam must jump
//! discontinuously: when wrapping from the end of a frame back to its start,
//! or when a brand-new frame is submitted mid-cycle.

use vstd::prelude::*;

mod laws;

pub use laws::lemma_fresh_cycle;
pub use laws::lemma_empty_frame_silent;
pub use laws::lemma_submit_mid_stream;
pub use laws::lemma_submit_before_any_emission;
pub use laws::lemma_partial_consumption_resumes;
pub use laws::lemma_regular_run;
pub use laws::lemma_state_after_step;
pub use laws::lemma_state_after_wf;

verus! {

/// A command to submit to the laser: either a blank point or a regular
/// coloured point.
#[derive(Copy, Clone, Debug, PartialEq)]
pub enum Point<P> {
    /// A single point ready for submission to a DAC.
    Regular(P),
    /// A point whose colour should be black (blank) when sent to the laser
    /// DAC.
    ///
    /// These points are inserted when trying to get from the end of the frame
    /// back to the beginning of the existing frame or some new frame.
    Blank(P),
}

/// The mathematical model of a streamer: the frame being traced and the
/// state needed to resume emission exactly where it left off.
#[verifier::ext_equal]
pub struct StreamState<P> {
    /// The points of the current frame, in order.
    pub frame: Seq<P>,
    /// The most recently emitted regular point, or `None` if nothing has
    /// been emitted yet.
    pub last: Option<P>,
    /// Whether a blank copy of `last` must be emitted before anything else.
    pub blank: bool,
    /// The index into `frame` at which regular emission resumes.
    pub ix: int,
}

/// A stream state is well formed when its resume index lies within the
/// frame, where an index equal to the length signals a pending wrap.
pub open spec fn state_wf<P>(st: StreamState<P>) -> bool {
    0 <= st.ix <= st.frame.len()
}

/// The state of a streamer that has just been loaded with frame `f` and has
/// emitted nothing yet: no last point, no pending blank, resume index zero.
pub open spec fn fresh_state<P>(f: Seq<P>) -> StreamState<P> {
    StreamState { frame: f, last: None, blank: false, ix: 0 }
}

/// The state of a streamer right after a frame submission: the new frame is
/// installed, the resume index is reset, a blank is pending, and the last
/// emitted point is carried over from before the submission.
pub open spec fn submitted_state<P>(f: Seq<P>, last: Option<P>) -> StreamState<P> {
    StreamState { frame: f, last: last, blank: true, ix: 0 }
}

/// What one pull emits from state `st`:
/// - a pending blank with a recorded last point emits a blank copy of it;
/// - otherwise an empty frame emits nothing;
/// - otherwise an index inside the frame emits that point as regular;
/// - otherwise (index at the end) the stream wraps: it emits a blank copy of
///   the last point if one exists, else the first point of the frame.
pub open spec fn step_emit<P>(st: StreamState<P>) -> Option<Point<P>> {
    if st.blank && st.last is Some {
        Some(Point::Blank(st.last->0))
    } else if st.frame.len() == 0 {
        None
    } else if st.ix < st.frame.len() {
        Some(Point::Regular(st.frame[st.ix]))
    } else if st.last is Some {
        Some(Point::Blank(st.last->0))
    } else {
        Some(Point::Regular(st.frame[0]))
    }
}

/// The state left behind by one pull from state `st`, in the same cases as
/// [`step_emit`]: a pending blank is cleared without moving the index; a
/// regular emission advances the index and records the point; a wrap resets
/// the index to the start of the frame.
pub open spec fn step_state<P>(st: StreamState<P>) -> StreamState<P> {
    if st.blank && st.last is Some {
        StreamState { frame: st.frame, last: st.last, blank: false, ix: st.ix }
    } else if st.frame.len() == 0 {
        StreamState { frame: st.frame, last: st.last, blank: false, ix: st.ix }
    } else if st.ix < st.frame.len() {
        StreamState { frame: st.frame, last: Some(st.frame[st.ix]), blank: false, ix: st.ix + 1 }
    } else if st.last is Some {
        StreamState { frame: st.frame, last: st.last, blank: false, ix: 0 }
    } else {
        StreamState { frame: st.frame, last: Some(st.frame[0]), blank: false, ix: 1 }
    }
}

/// The state reached from `st` after `n` pulls.
pub open spec fn state_after<P>(st: StreamState<P>, n: nat) -> StreamState<P>
    decreases n,
{
    if n == 0 {
        st
    } else {
        state_after(step_state(st), (n - 1) as nat)
    }
}

/// The item emitted by pull number `n` (counting from zero) from state `st`.
pub open spec fn stream_at<P>(st: StreamState<P>, n: nat) -> Option<Point<P>> {
    step_emit(state_after(st, n))
}

/// A type that allows for submitting new laser frames as input, and
/// requesting a sequence of laser points as an output.
#[derive(Clone, Debug)]
pub struct Streamer<P> {
    frame: Vec<P>,
    last_point: Option<P>,
    blank_last_point: bool,
    next_start: usize,
}

impl<P> View for Streamer<P> {
    type V = StreamState<P>;

    closed spec fn view(&self) -> StreamState<P> {
        StreamState {
            frame: self.frame@,
            last: self.last_point,
            blank: self.blank_last_point,
            ix: self.next_start as int,
        }
    }
}

/// A sequence lazily yielding points that describe the frame in a large
/// cycle. It owns the streamer's state while points are being pulled;
/// [`Points::into_streamer`] hands the state back, so that any partial
/// consumption is durably reflected in the streamer.
#[derive(Debug)]
pub struct Points<P> {
    streamer: Streamer<P>,
}

impl<P> View for Points<P> {
    type V = StreamState<P>;

    closed spec fn view(&self) -> StreamState<P> {
        self.streamer@
    }
}

impl<P> Streamer<P> {
    /// Initialise the `Streamer` with an empty frame.
    pub fn new() -> (s: Self)
        ensures
            s@ == fresh_state(Seq::<P>::empty()),
    {
        Self::from_frame(Vec::new())
    }

    /// Initialise the `Streamer` with some frame. No blank is scheduled: the
    /// very first points emitted are regular, starting at the frame's start.
    pub fn from_frame(frame: Vec<P>) -> (s: Self)
        ensures
            s@ == fresh_state(frame@),
    {
        Streamer {
            frame,
            last_point: None,
            blank_last_point: false,
            next_start: 0,
        }
    }

    /// Submit a new frame to start streaming. The frame buffer is replaced
    /// wholesale, emission restarts at the new frame's start, and exactly one
    /// blank transition is scheduled, so that the beam's jump from wherever
    /// the previous frame left it is never visible.
    pub fn submit_frame(&mut self, frame: Vec<P>)
        ensures
            final(self)@ == submitted_state(frame@, old(self)@.last),
    {
        self.frame = frame;
        self.next_start = 0;
        self.blank_last_point = true;
    }

    /// Produce a sequence yielding points that cycle the points of the frame,
    /// starting from the point that follows the last point that was yielded.
    /// The sequence takes over the streamer's state; recover the streamer
    /// with [`Points::into_streamer`] once enough points have been pulled.
    pub fn next_points(self) -> (pts: Points<P>)
        ensures
            pts@ == self@,
    {
        Points { streamer: self }
    }
}

impl<P> Default for Streamer<P> {
    /// Equivalent to [`Streamer::new`]: an empty frame and fresh state.
    fn default() -> (s: Self)
        ensures
            s@ == fresh_state(Seq::<P>::empty()),
    {
        Self::new()
    }
}

impl<P> Points<P> {
    /// Hand the state back to a `Streamer`, exactly as the pulls so far left
    /// it, so that the next requested sequence resumes where this one
    /// stopped.
    pub fn into_streamer(self) -> (s: Streamer<P>)
        ensures
            s@ == self@,
    {
        self.streamer
    }
}

impl<P: Copy> Points<P> {
    /// Pull the next point of the stream: [`step_emit`] says exactly which
    /// item comes out and [`step_state`] which state is left behind. `None`
    /// is returned only when the frame is empty and no blank is owed.
    pub fn next(&mut self) -> (r: Option<Point<P>>)
        requires
            state_wf(old(self)@),
        ensures
            state_wf(final(self)@),
            r == step_emit(old(self)@),
            final(self)@ == step_state(old(self)@),
    {
        // Send a blank from the last point that was emitted, if one is owed.
        if self.streamer.blank_last_point {
            self.streamer.blank_last_point = false;
            match self.streamer.last_point {
                Some(p) => {
                    return Some(Point::Blank(p));
                },
                None => {},
            }
        }

        // If there are no points, the stream is exhausted.
        if self.streamer.frame.len() == 0 {
            return None;
        }

        // If the last regular point was the last of the frame, wrap: blank
        // the last point once, then restart from the frame's start.
        if self.streamer.next_start >= self.streamer.frame.len() {
            self.streamer.next_start = 0;
            match self.streamer.last_point {
                Some(p) => {
                    return Some(Point::Blank(p));
                },
                None => {},
            }
        }

        // Otherwise, return a regular point from the current index.
        let ix = self.streamer.next_start;
        let p = self.streamer.frame[ix];
        self.streamer.next_start = ix + 1;
        self.streamer.last_point = Some(p);
        Some(Point::Regular(p))
    }
}

} // verus!
