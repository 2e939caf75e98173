//! The vocabulary of the event channel that connects the two workers to the
//! render loop.

use vstd::prelude::*;

verus! {

/// A request sent to the render loop. It carries no payload: the loop always
/// reads the latest snapshot itself when it repaints.
#[derive(Clone, Copy, Debug, PartialEq, Eq, Structural)]
pub enum AppEvent {
    /// Repaint. Sent after a fetch cycle and after a terminal resize.
    Redraw,
    /// Leave the render loop.
    Exit,
}

/// A condition from which the dashboard does not recover.
#[derive(Clone, Copy, Debug, PartialEq, Eq, Structural)]
pub enum Fatal {
    /// A fetch failed and the worker's policy is to fail fast.
    FetchFailed,
    /// The terminal could not deliver the next input event.
    InputFailed,
    /// The event channel closed while the render loop was waiting on it, and
    /// no worker gave a reason: the workers are gone.
    ChannelClosed,
}

/// What one wait on the receiving end of the channel produced.
#[derive(Clone, Copy, Debug, PartialEq, Eq, Structural)]
pub enum Received {
    /// The oldest event that was still queued.
    Event(AppEvent),
    /// A poll that found the queue empty while the channel is open.
    Empty,
    /// Nothing is queued and nothing will come: a worker closed the channel
    /// for the given reason, or, where no reason is given, every sender is
    /// gone.
    Closed(Option<Fatal>),
}

impl Fatal {
    /// The text of the message for this condition.
    pub open spec fn message_text(self) -> Seq<char> {
        match self {
            Fatal::FetchFailed => "Weather data could not be fetched"@,
            Fatal::InputFailed => "Terminal input could not be read"@,
            Fatal::ChannelClosed => "Thread crashed"@,
        }
    }

    /// A short message for the user.
    pub fn message(&self) -> (text: &'static str)
        ensures
            text@ == self.message_text(),
    {
        match self {
            Fatal::FetchFailed => "Weather data could not be fetched",
            Fatal::InputFailed => "Terminal input could not be read",
            Fatal::ChannelClosed => "Thread crashed",
        }
    }
}

} // verus!
