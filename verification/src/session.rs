//! The session state machine: the decisions the program takes on each
//! event, separated from the threads and devices that produce the events.
//! The surrounding binary reads terminal bytes and piped lines, feeds each
//! one to `Session::step` (under the one lock that guards the session), and
//! performs the returned action: write a line to the primary output, redraw
//! the status area, or announce the quit. Both shutdown triggers — the quit
//! key and the end of the piped source — converge here, and once the first
//! has fired every later event is a no-op.

use vstd::prelude::*;
use crate::filter::FilterState;
use crate::highlight::{highlight_spec, highlight_word_in_string};

verus! {

/// The quit key ends the run.
pub open spec fn is_quit_key(b: u8) -> bool {
    b == 113
}

/// Backspace and delete erase the last character of the filter term.
pub open spec fn is_erase_key(b: u8) -> bool {
    b == 8 || b == 127
}

/// A printable byte is appended to the filter term.
pub open spec fn is_printable_key(b: u8) -> bool {
    32 <= b && b <= 126
}

/// An event the surrounding binary feeds the session: one byte read from
/// the terminal in raw mode, one line from the piped source, or the end of
/// the piped source.
pub enum Event {
    Key(u8),
    PipedLine(String),
    PipeEnded,
}

/// An event as the specification sees it.
pub enum EventModel {
    Key(u8),
    PipedLine(Seq<char>),
    PipeEnded,
}

impl View for Event {
    type V = EventModel;

    open spec fn view(&self) -> EventModel {
        match self {
            Event::Key(b) => EventModel::Key(*b),
            Event::PipedLine(l) => EventModel::PipedLine(l@),
            Event::PipeEnded => EventModel::PipeEnded,
        }
    }
}

/// What the surrounding binary must do after a step.
pub enum Action {
    /// Write the line, newline-terminated, to the primary output stream.
    EmitLine(String),
    /// Rebuild the filter status line and redraw the status area.
    RedrawStatus,
    /// Write the quit notice to the terminal device.
    AnnounceQuit,
    /// Nothing.
    Idle,
}

/// An action as the specification sees it.
pub enum ActionModel {
    EmitLine(Seq<char>),
    RedrawStatus,
    AnnounceQuit,
    Idle,
}

impl View for Action {
    type V = ActionModel;

    open spec fn view(&self) -> ActionModel {
        match self {
            Action::EmitLine(l) => ActionModel::EmitLine(l@),
            Action::RedrawStatus => ActionModel::RedrawStatus,
            Action::AnnounceQuit => ActionModel::AnnounceQuit,
            Action::Idle => ActionModel::Idle,
        }
    }
}

/// The session state as the specification sees it.
pub struct SessionModel {
    /// The current filter term.
    pub term: Seq<char>,
    /// Whether a shutdown trigger has fired.
    pub shutdown: bool,
    /// Whether final terminal cleanup has been handed out.
    pub cleaned_up: bool,
}

/// A shutdown trigger: the quit key, or the end of the piped source.
pub open spec fn is_shutdown_trigger(e: EventModel) -> bool {
    match e {
        EventModel::Key(b) => is_quit_key(b),
        EventModel::PipedLine(_) => false,
        EventModel::PipeEnded => true,
    }
}

/// One step of the session: the next state and the action the binary must
/// perform. In a shut-down session every event leaves the state unchanged
/// and asks for nothing; otherwise the quit key and the pipe's end fire the
/// shutdown, erase and printable keys edit the filter term, a piped line is
/// answered by its highlighted form under the current term, and every other
/// byte is ignored.
pub open spec fn step_spec(m: SessionModel, e: EventModel) -> (SessionModel, ActionModel) {
    if m.shutdown {
        (m, ActionModel::Idle)
    } else {
        match e {
            EventModel::Key(b) => {
                if is_quit_key(b) {
                    (
                        SessionModel { term: m.term, shutdown: true, cleaned_up: m.cleaned_up },
                        ActionModel::AnnounceQuit,
                    )
                } else if is_erase_key(b) {
                    if m.term.len() > 0 {
                        (
                            SessionModel {
                                term: m.term.drop_last(),
                                shutdown: false,
                                cleaned_up: m.cleaned_up,
                            },
                            ActionModel::RedrawStatus,
                        )
                    } else {
                        (m, ActionModel::Idle)
                    }
                } else if is_printable_key(b) {
                    (
                        SessionModel {
                            term: m.term.push(b as char),
                            shutdown: false,
                            cleaned_up: m.cleaned_up,
                        },
                        ActionModel::RedrawStatus,
                    )
                } else {
                    (m, ActionModel::Idle)
                }
            },
            EventModel::PipedLine(l) => (m, ActionModel::EmitLine(highlight_spec(l, m.term))),
            EventModel::PipeEnded => (
                SessionModel { term: m.term, shutdown: true, cleaned_up: m.cleaned_up },
                ActionModel::Idle,
            ),
        }
    }
}

/// The final cleanup decision: marks the session shut down and cleaned up,
/// and says whether this caller is the one to restore the terminal.
pub open spec fn finish_spec(m: SessionModel) -> (SessionModel, bool) {
    (SessionModel { term: m.term, shutdown: true, cleaned_up: true }, !m.cleaned_up)
}

/// The session: the filter term and the shutdown state, one value behind
/// one lock in the surrounding binary.
pub struct Session {
    filter: FilterState,
    shutdown: bool,
    cleaned_up: bool,
}

impl View for Session {
    type V = SessionModel;

    closed spec fn view(&self) -> SessionModel {
        SessionModel { term: self.filter@, shutdown: self.shutdown, cleaned_up: self.cleaned_up }
    }
}

impl Session {
    /// A fresh session: the given initial filter term, not shut down.
    pub fn new(initial_term: &str) -> (s: Session)
        ensures
            s@ == (SessionModel { term: initial_term@, shutdown: false, cleaned_up: false }),
    {
        Session { filter: FilterState::new(initial_term), shutdown: false, cleaned_up: false }
    }

    /// Whether a shutdown trigger has fired.
    pub fn is_shut_down(&self) -> (r: bool)
        ensures
            r == self@.shutdown,
    {
        self.shutdown
    }

    /// The current filter term, borrowed.
    pub fn term(&self) -> (r: &str)
        ensures
            r@ == self@.term,
    {
        self.filter.term()
    }

    /// Feeds one event to the session and returns the action to perform.
    pub fn step(&mut self, e: Event) -> (a: Action)
        ensures
            final(self)@ == step_spec(old(self)@, e@).0,
            a@ == step_spec(old(self)@, e@).1,
    {
        if self.shutdown {
            return Action::Idle;
        }
        match e {
            Event::Key(b) => {
                if b == 113 {
                    self.shutdown = true;
                    Action::AnnounceQuit
                } else if b == 8 || b == 127 {
                    if self.filter.term().is_empty() {
                        Action::Idle
                    } else {
                        self.filter.pop_last();
                        Action::RedrawStatus
                    }
                } else if 32 <= b && b <= 126 {
                    self.filter.append_char(b as char);
                    Action::RedrawStatus
                } else {
                    Action::Idle
                }
            },
            Event::PipedLine(l) => {
                let out = highlight_word_in_string(l.as_str(), self.filter.term());
                Action::EmitLine(out)
            },
            Event::PipeEnded => {
                self.shutdown = true;
                Action::Idle
            },
        }
    }

    /// Observed by the main control flow once a shutdown trigger has fired:
    /// says whether this call is the one to restore the terminal and reset
    /// the scroll region. Every later call gets `false`, so the final
    /// cleanup is performed exactly once however many triggers fired.
    pub fn finish(&mut self) -> (first: bool)
        ensures
            final(self)@ == finish_spec(old(self)@).0,
            first == finish_spec(old(self)@).1,
    {
        let first = !self.cleaned_up;
        self.shutdown = true;
        self.cleaned_up = true;
        first
    }
}

/// Shutdown exactly-once: in a running session the first trigger — quit key
/// or pipe end — moves the session to the shut-down state; a second
/// trigger, from either side, changes nothing and asks for no further work;
/// and the cleanup is handed out exactly once however often `finish` runs.
pub proof fn lemma_shutdown_exactly_once(m: SessionModel, e1: EventModel, e2: EventModel)
    requires
        !m.shutdown,
        !m.cleaned_up,
        is_shutdown_trigger(e1),
        is_shutdown_trigger(e2),
    ensures
        step_spec(m, e1).0.shutdown,
        step_spec(step_spec(m, e1).0, e2).0 == step_spec(m, e1).0,
        step_spec(step_spec(m, e1).0, e2).1 == ActionModel::Idle,
        finish_spec(step_spec(m, e1).0).1,
        !finish_spec(finish_spec(step_spec(m, e1).0).0).1,
{
}

/// Cleanup idempotence: the first `finish` is told to clean up exactly when
/// no cleanup was handed out before, and after it every later `finish` is
/// told not to.
pub proof fn lemma_cleanup_once(m: SessionModel)
    ensures
        finish_spec(m).1 == !m.cleaned_up,
        !finish_spec(finish_spec(m).0).1,
{
}

/// No data after shutdown: once the shutdown has fired, no event emits a
/// line, none mutates the filter term, and the session does not change at
/// all.
pub proof fn lemma_no_data_after_shutdown(m: SessionModel, e: EventModel)
    requires
        m.shutdown,
    ensures
        step_spec(m, e).0 == m,
        step_spec(m, e).1 == ActionModel::Idle,
{
}

/// Order preservation at the session: while no shutdown trigger arrives, a
/// piped line is answered by exactly its highlighted form and the session
/// is unchanged, so a stream of lines is emitted one for one, in arrival
/// order.
pub proof fn lemma_line_emission(m: SessionModel, l: Seq<char>)
    requires
        !m.shutdown,
    ensures
        step_spec(m, EventModel::PipedLine(l)).0 == m,
        step_spec(m, EventModel::PipedLine(l)).1 == ActionModel::EmitLine(
            highlight_spec(l, m.term),
        ),
{
}

} // verus!
