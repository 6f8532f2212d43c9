//! The session: what each event of the merged stream does to the engine, and
//! what the loop that feeds the events has to do next.

use vstd::prelude::*;
use crate::engine::{App, Engine, SessionError};
use crate::source::{ReadOutcome, TextSource};

verus! {

/// The key of a key press.
#[derive(Debug, Clone, Copy, PartialEq, Eq, Structural)]
pub enum KeyCode {
    Char(char),
    Backspace,
    Enter,
    Other,
}

/// The modifiers held with a key: none, exactly one of two, or anything else.
#[derive(Debug, Clone, Copy, PartialEq, Eq, Structural)]
pub enum Modifiers {
    Plain,
    Shift,
    Control,
    Other,
}

/// One event of the merged stream.
#[derive(Debug, Clone, Copy, PartialEq, Eq, Structural)]
pub enum Event {
    /// The render timer fired.
    Tick,
    /// A key was pressed.
    Key(KeyCode, Modifiers),
    /// Any other event of the terminal.
    Other,
}

/// What an event asks of the session.
#[derive(Debug, Clone, Copy, PartialEq, Eq, Structural)]
pub enum Command {
    Redraw,
    Quit,
    Type(char),
    Erase,
    Commit,
    Ignore,
}

/// Why a session is over.
#[derive(Debug, Clone, Copy, PartialEq, Eq, Structural)]
pub enum Cause {
    /// The user asked to leave.
    Quit,
    /// Going on to the next line ended the session.
    Ended(SessionError),
}

/// Where a session stands.
#[derive(Debug, Clone, Copy, PartialEq, Eq, Structural)]
pub enum Phase {
    Running,
    Terminating(Cause),
}

/// What the loop does after an event.
#[derive(Debug, Clone, Copy, PartialEq, Eq, Structural)]
pub enum Action {
    /// Paint a frame.
    Render,
    /// Wait for the next event.
    Wait,
    /// Give the terminal back and leave.
    Leave,
}

/// The upper-case form of an ASCII letter; any other character itself.
pub open spec fn spec_upper(c: char) -> char {
    if 'a' <= c <= 'z' {
        ((c as u32) - 0x20) as char
    } else {
        c
    }
}

/// The upper-case form of an ASCII letter; any other character itself.
pub fn upper(c: char) -> (u: char)
    ensures
        u == spec_upper(c),
{
    if 'a' <= c && c <= 'z' {
        ((c as u8) - 0x20) as char
    } else {
        c
    }
}

/// What `event` asks of the session.
pub open spec fn spec_interpret(event: Event) -> Command {
    match event {
        Event::Tick => Command::Redraw,
        Event::Key(KeyCode::Char(c), Modifiers::Control) => if c == 'c' {
            Command::Quit
        } else {
            Command::Ignore
        },
        Event::Key(KeyCode::Char(c), Modifiers::Shift) => Command::Type(spec_upper(c)),
        Event::Key(KeyCode::Char(c), Modifiers::Plain) => Command::Type(c),
        Event::Key(KeyCode::Backspace, Modifiers::Plain) => Command::Erase,
        Event::Key(KeyCode::Enter, Modifiers::Plain) => Command::Commit,
        _ => Command::Ignore,
    }
}

/// What `event` asks of the session.
pub fn interpret(event: Event) -> (command: Command)
    ensures
        command == spec_interpret(event),
{
    match event {
        Event::Tick => Command::Redraw,
        Event::Key(KeyCode::Char(c), Modifiers::Control) => if c == 'c' {
            Command::Quit
        } else {
            Command::Ignore
        },
        Event::Key(KeyCode::Char(c), Modifiers::Shift) => Command::Type(upper(c)),
        Event::Key(KeyCode::Char(c), Modifiers::Plain) => Command::Type(c),
        Event::Key(KeyCode::Backspace, Modifiers::Plain) => Command::Erase,
        Event::Key(KeyCode::Enter, Modifiers::Plain) => Command::Commit,
        _ => Command::Ignore,
    }
}

/// The phase after an attempt to go on to the next line gave `res`.
pub open spec fn phase_after(res: Result<(), SessionError>) -> Phase {
    match res {
        Ok(()) => Phase::Running,
        Err(e) => Phase::Terminating(Cause::Ended(e)),
    }
}

/// What the loop does in `phase`, after an event that paints nothing.
pub open spec fn action_in(phase: Phase) -> Action {
    match phase {
        Phase::Running => Action::Wait,
        Phase::Terminating(_) => Action::Leave,
    }
}

/// A typing session: the engine and the phase it is in.
pub struct Session<R> {
    app: App<R>,
    phase: Phase,
}

impl<R> Session<R> {
    /// The engine of the session.
    pub closed spec fn engine(&self) -> App<R> {
        self.app
    }

    /// The phase of the session.
    pub closed spec fn stage(&self) -> Phase {
        self.phase
    }

    /// What holds of the session in every state that it reaches.
    pub open spec fn wf(&self) -> bool {
        self.engine().wf()
    }

    /// A running session over `app`.
    pub fn new(app: App<R>) -> (session: Self)
        ensures
            session.engine() == app,
            session.stage() == Phase::Running,
    {
        Session { app, phase: Phase::Running }
    }

    /// The engine of the session.
    pub fn app(&self) -> (app: &App<R>)
        ensures
            *app == self.engine(),
    {
        &self.app
    }

    /// The phase of the session.
    pub fn phase(&self) -> (phase: Phase)
        ensures
            phase == self.stage(),
    {
        self.phase
    }
}

impl<R: TextSource> Session<R> {
    /// Takes one event of the merged stream and says what the loop does next.
    ///
    /// A session that is over stays as it is, whatever comes. In a running
    /// session a tick asks for a frame and changes nothing; a typed character
    /// is judged, a backspace takes the last judgment back, and neither ends
    /// the session; the quit key ends it at once; the commit key goes on to
    /// the next line, and ends the session where that fails or the budget is
    /// reached.
    pub fn step(&mut self, event: Event) -> (action: Action)
        requires
            old(self).wf(),
        ensures
            final(self).wf(),
            final(self).engine().started() == old(self).engine().started(),
            old(self).stage() is Terminating ==> *final(self) == *old(self) && action
                == Action::Leave,
            old(self).stage() is Running ==> match spec_interpret(event) {
                Command::Redraw => *final(self) == *old(self) && action == Action::Render,
                Command::Ignore => *final(self) == *old(self) && action == Action::Wait,
                Command::Quit => {
                    &&& final(self).engine() == old(self).engine()
                    &&& final(self).stage() == Phase::Terminating(Cause::Quit)
                    &&& action == Action::Leave
                },
                Command::Type(c) => {
                    &&& final(self).engine()@ == old(self).engine()@.feed(c)
                    &&& final(self).engine().same_session(&old(self).engine())
                    &&& final(self).stage() == Phase::Running
                    &&& action == Action::Wait
                },
                Command::Erase => {
                    &&& final(self).engine()@ == old(self).engine()@.undo()
                    &&& final(self).engine().same_session(&old(self).engine())
                    &&& final(self).stage() == Phase::Running
                    &&& action == Action::Wait
                },
                Command::Commit => {
                    let before = old(self).engine();
                    if before@.full() && before@.request() > 0 {
                        exists|outcome: ReadOutcome|
                            {
                                &&& #[trigger] before.source().may_yield(
                                    before@.request() as usize,
                                    outcome,
                                    final(self).engine().source(),
                                )
                                &&& final(self).engine()@ == before@.advance(outcome)
                                &&& final(self).stage() == phase_after(
                                    before@.advance_result(outcome),
                                )
                                &&& action == action_in(final(self).stage())
                            }
                    } else {
                        &&& final(self).engine()@ == before@
                        &&& final(self).engine().source() == before.source()
                        &&& final(self).stage() == phase_after(
                            before@.advance_result(ReadOutcome::Eof),
                        )
                        &&& action == action_in(final(self).stage())
                    }
                },
            },
    {
        match self.phase {
            Phase::Terminating(_) => Action::Leave,
            Phase::Running => match interpret(event) {
                Command::Redraw => Action::Render,
                Command::Ignore => Action::Wait,
                Command::Quit => {
                    self.phase = Phase::Terminating(Cause::Quit);
                    Action::Leave
                },
                Command::Type(c) => {
                    self.app.eat(c);
                    Action::Wait
                },
                Command::Erase => {
                    self.app.uneat();
                    Action::Wait
                },
                Command::Commit => match self.app.newline() {
                    Ok(()) => Action::Wait,
                    Err(e) => {
                        self.phase = Phase::Terminating(Cause::Ended(e));
                        Action::Leave
                    },
                },
            },
        }
    }
}

} // verus!
