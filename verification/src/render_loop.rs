//! The render loop, as a state machine without I/O.
//!
//! One pass of the loop is: read the store, paint a frame, wait on the event
//! channel, decide. This module decides; the caller reads, paints and waits:
//!
//! 1. `begin_pass` turns what the store held into the frame to paint;
//! 2. `Frame::wait` says how to wait on the channel once the frame is painted;
//! 3. `on_received` turns what the wait produced into the next step.

use vstd::prelude::*;
use crate::event::AppEvent;
use crate::event::Fatal;
use crate::event::Received;

verus! {

/// How long the loop sleeps before it polls the channel while it has nothing
/// but the loading indicator to show.
pub const LOADING_POLL_MILLIS: u64 = 100;

/// The two states of the render loop. Which one holds is decided anew on each
/// pass by what the store holds.
#[derive(Clone, Copy, Debug, PartialEq, Eq, Structural)]
pub enum Phase {
    /// Nothing has been published yet.
    Loading,
    /// The store holds a snapshot.
    Ready,
}

/// What the renderer is asked to paint.
#[derive(Debug, PartialEq, Eq)]
pub enum Frame<T> {
    /// The loading indicator, with the number of loading frames painted so far.
    Loading(usize),
    /// The dashboard for this snapshot.
    Ready(T),
}

/// How to wait on the event channel after a frame has been painted.
#[derive(Clone, Copy, Debug, PartialEq, Eq, Structural)]
pub enum Wait {
    /// Block until an event arrives or the channel closes. There is nothing
    /// to do between events once data is on the screen.
    Block,
    /// Sleep for this many milliseconds, then poll without blocking, so that
    /// the loading indicator keeps moving.
    PollAfter(u64),
}

/// What the loop does after a wait.
#[derive(Clone, Copy, Debug, PartialEq, Eq, Structural)]
pub enum Step {
    /// Make another pass: read the store again and repaint.
    Continue,
    /// Leave the loop and report success.
    Finish,
    /// Leave the loop and report this condition.
    Abort(Fatal),
}

impl Phase {
    /// The phase of a pass that found `stored` in the store.
    pub open spec fn of<T>(stored: Option<T>) -> Phase {
        if stored is Some {
            Phase::Ready
        } else {
            Phase::Loading
        }
    }
}

impl<T> Frame<T> {
    /// The phase in which this frame is painted.
    pub open spec fn spec_phase(self) -> Phase {
        match self {
            Frame::Loading(_) => Phase::Loading,
            Frame::Ready(_) => Phase::Ready,
        }
    }

    /// The wait that follows this frame.
    pub open spec fn spec_wait(self) -> Wait {
        match self {
            Frame::Loading(_) => Wait::PollAfter(LOADING_POLL_MILLIS),
            Frame::Ready(_) => Wait::Block,
        }
    }

    /// The phase in which this frame is painted.
    pub fn phase(&self) -> (phase: Phase)
        ensures
            phase == self.spec_phase(),
    {
        match self {
            Frame::Loading(_) => Phase::Loading,
            Frame::Ready(_) => Phase::Ready,
        }
    }

    /// How to wait on the channel once this frame is painted: block after a
    /// ready frame, sleep briefly and poll after a loading frame.
    pub fn wait(&self) -> (wait: Wait)
        ensures
            wait == self.spec_wait(),
    {
        match self {
            Frame::Loading(_) => Wait::PollAfter(LOADING_POLL_MILLIS),
            Frame::Ready(_) => Wait::Block,
        }
    }
}

/// The state that the render loop carries from one pass to the next: the
/// number of loading frames it has painted, which animates the spinner.
pub struct RenderLoop {
    loading_counter: usize,
}

impl View for RenderLoop {
    type V = usize;

    /// The number of loading frames painted so far.
    closed spec fn view(&self) -> usize {
        self.loading_counter
    }
}

impl RenderLoop {
    /// The frame for a pass that found `stored` in the store, when `counter`
    /// loading frames were painted before.
    pub open spec fn frame_for<T>(counter: usize, stored: Option<T>) -> Frame<T> {
        match stored {
            Some(snapshot) => Frame::Ready(snapshot),
            None => Frame::Loading(counter),
        }
    }

    /// The loading counter after such a pass. It moves only on loading
    /// frames, never backwards, and stays at the largest `usize`.
    pub open spec fn counter_after<T>(counter: usize, stored: Option<T>) -> usize {
        if stored is None && counter < usize::MAX {
            (counter + 1) as usize
        } else {
            counter
        }
    }

    /// The step that follows a wait: a redraw request and an empty poll lead
    /// to another pass, an exit request ends the loop, a closed channel is
    /// fatal: for the reason for which a worker closed it, or, where every
    /// sender has just gone, for that. The step does not depend on the phase. Only the poll of a
    /// loading pass can come back empty; the blocking wait of a ready pass
    /// returns with an event or with the news that the channel is closed.
    pub open spec fn step_for(received: Received) -> Step {
        match received {
            Received::Event(AppEvent::Redraw) => Step::Continue,
            Received::Event(AppEvent::Exit) => Step::Finish,
            Received::Empty => Step::Continue,
            Received::Closed(Some(cause)) => Step::Abort(cause),
            Received::Closed(None) => Step::Abort(Fatal::ChannelClosed),
        }
    }

    /// A loop that has painted nothing yet.
    pub fn new() -> (render_loop: Self)
        ensures
            render_loop@ == 0,
    {
        RenderLoop { loading_counter: 0 }
    }

    /// The number of loading frames painted so far.
    pub fn loading_counter(&self) -> (counter: usize)
        ensures
            counter == self@,
    {
        self.loading_counter
    }

    /// Starts a pass: given what the store held at this moment, returns the
    /// frame to paint.
    ///
    /// The frame is ready exactly when the store held a snapshot, and then
    /// carries that snapshot; otherwise it is the loading indicator for the
    /// current counter, and the counter advances.
    pub fn begin_pass<T>(&mut self, stored: Option<T>) -> (frame: Frame<T>)
        ensures
            frame == Self::frame_for(old(self)@, stored),
            frame.spec_phase() == Phase::of(stored),
            final(self)@ == Self::counter_after(old(self)@, stored),
    {
        match stored {
            Some(snapshot) => Frame::Ready(snapshot),
            None => {
                let tick = self.loading_counter;
                if self.loading_counter < usize::MAX {
                    self.loading_counter = self.loading_counter + 1;
                }
                Frame::Loading(tick)
            },
        }
    }

    /// Ends a pass: given what the wait on the channel produced, says whether
    /// the loop makes another pass, finishes, or aborts.
    pub fn on_received(&self, received: Received) -> (step: Step)
        ensures
            step == Self::step_for(received),
    {
        match received {
            Received::Event(AppEvent::Redraw) => Step::Continue,
            Received::Event(AppEvent::Exit) => Step::Finish,
            Received::Empty => Step::Continue,
            Received::Closed(Some(cause)) => Step::Abort(cause),
            Received::Closed(None) => Step::Abort(Fatal::ChannelClosed),
        }
    }
}

} // verus!
