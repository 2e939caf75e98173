//! The input worker: the rules that turn terminal input into events for the
//! render loop.

use vstd::prelude::*;
use crate::event::AppEvent;
use crate::event::Fatal;

verus! {

/// The key that asks the dashboard to quit.
pub const QUIT_KEY: char = 'q';

/// A key press, as far as the dashboard cares.
#[derive(Clone, Copy, Debug, PartialEq, Eq, Structural)]
pub enum Key {
    /// A key that produces this character.
    Char(char),
    /// Any other key: arrows, function keys, modifiers and so on.
    Other,
}

/// One notification from the terminal.
#[derive(Clone, Copy, Debug, PartialEq, Eq, Structural)]
pub enum InputEvent {
    /// A key was pressed.
    Key(Key),
    /// The terminal now has this many columns and rows.
    Resize(u16, u16),
    /// Anything else: mouse, focus, paste.
    Other,
}

/// What the worker's thread does with one read from the terminal.
#[derive(Clone, Copy, Debug, PartialEq, Eq, Structural)]
pub enum Reaction {
    /// Send this event to the render loop.
    Emit(AppEvent),
    /// Send nothing and read on.
    Ignore,
    /// Stop with this condition: the terminal is unusable.
    Abort(Fatal),
}

/// The background worker that listens to the terminal. It remembers whether
/// it has already asked the render loop to exit; from then on it is silent.
pub struct InputWorker {
    exit_requested: bool,
}

impl View for InputWorker {
    type V = bool;

    /// Whether the worker has already emitted `Exit`.
    closed spec fn view(&self) -> bool {
        self.exit_requested
    }
}

impl InputWorker {
    /// The event that an input stands for: the quit key asks to exit, a
    /// resize asks for a repaint, everything else stands for nothing.
    pub open spec fn event_for(input: InputEvent) -> Option<AppEvent> {
        match input {
            InputEvent::Key(Key::Char(c)) => if c == QUIT_KEY {
                Some(AppEvent::Exit)
            } else {
                None
            },
            InputEvent::Key(Key::Other) => None,
            InputEvent::Resize(_, _) => Some(AppEvent::Redraw),
            InputEvent::Other => None,
        }
    }

    /// The reaction to one read, for a worker that has (or has not) asked for
    /// the exit before. A failed read is always fatal. Once the exit was
    /// requested every input is ignored.
    pub open spec fn reaction_for<E>(exit_requested: bool, read: Result<InputEvent, E>) -> Reaction {
        match read {
            Err(_) => Reaction::Abort(Fatal::InputFailed),
            Ok(input) => if exit_requested {
                Reaction::Ignore
            } else {
                match Self::event_for(input) {
                    Some(event) => Reaction::Emit(event),
                    None => Reaction::Ignore,
                }
            },
        }
    }

    /// A worker that has not asked for the exit.
    pub fn new() -> (worker: Self)
        ensures
            !worker@,
    {
        InputWorker { exit_requested: false }
    }

    /// Whether the worker has already emitted `Exit`.
    pub fn exit_requested(&self) -> (requested: bool)
        ensures
            requested == self@,
    {
        self.exit_requested
    }

    /// Handles the result of one blocking read from the terminal.
    ///
    /// The worker remembers an emitted `Exit`, and nothing else changes its
    /// state.
    pub fn on_read<E>(&mut self, read: Result<InputEvent, E>) -> (reaction: Reaction)
        ensures
            reaction == Self::reaction_for(old(self)@, read),
            final(self)@ == (old(self)@ || reaction == Reaction::Emit(AppEvent::Exit)),
    {
        match read {
            Err(_) => Reaction::Abort(Fatal::InputFailed),
            Ok(input) => {
                if self.exit_requested {
                    return Reaction::Ignore;
                }
                match input {
                    InputEvent::Key(Key::Char(c)) => {
                        if c == QUIT_KEY {
                            self.exit_requested = true;
                            Reaction::Emit(AppEvent::Exit)
                        } else {
                            Reaction::Ignore
                        }
                    },
                    InputEvent::Resize(_, _) => Reaction::Emit(AppEvent::Redraw),
                    _ => Reaction::Ignore,
                }
            },
        }
    }
}

/// The events that a worker emits for a sequence of successful reads, in
/// order, given whether it had asked for the exit before: the worker's
/// reactions to the reads one after the other, with its memory of an emitted
/// `Exit` carried along.
pub open spec fn emitted(exit_requested: bool, inputs: Seq<InputEvent>) -> Seq<AppEvent>
    decreases inputs.len(),
{
    if inputs.len() == 0 {
        Seq::empty()
    } else {
        match InputWorker::reaction_for::<()>(exit_requested, Ok(inputs.first())) {
            Reaction::Emit(event) => seq![event] + emitted(
                exit_requested || event == AppEvent::Exit,
                inputs.drop_first(),
            ),
            _ => emitted(exit_requested, inputs.drop_first()),
        }
    }
}

/// A worker asks for the exit at most once and emits nothing after it: in
/// what it emits, an `Exit` can only be the last event. A worker that had
/// asked before emits nothing at all.
pub proof fn lemma_exit_is_emitted_last(exit_requested: bool, inputs: Seq<InputEvent>)
    ensures
        exit_requested ==> emitted(exit_requested, inputs).len() == 0,
        forall|i: int|
            0 <= i < emitted(exit_requested, inputs).len() && #[trigger] emitted(
                exit_requested,
                inputs,
            )[i] == AppEvent::Exit ==> i == emitted(exit_requested, inputs).len() - 1,
    decreases inputs.len(),
{
    if inputs.len() > 0 {
        match InputWorker::reaction_for::<()>(exit_requested, Ok(inputs.first())) {
            Reaction::Emit(event) => {
                lemma_exit_is_emitted_last(
                    exit_requested || event == AppEvent::Exit,
                    inputs.drop_first(),
                );
            },
            _ => {
                lemma_exit_is_emitted_last(exit_requested, inputs.drop_first());
            },
        }
    }
}

/// A resize is answered with exactly one redraw request, by a worker that has
/// not asked for the exit, and no other input is.
pub proof fn lemma_only_a_resize_redraws(input: InputEvent)
    ensures
        InputWorker::event_for(input) == Some(AppEvent::Redraw) <==> input is Resize,
        InputWorker::event_for(input) == Some(AppEvent::Exit) <==> input == InputEvent::Key(
            Key::Char(QUIT_KEY),
        ),
{
}

} // verus!
