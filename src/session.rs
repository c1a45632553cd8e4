//! The editing session: it applies input actions to the buffer, forwards
//! changed text to the runner, keeps the latest result, and decides how the
//! session ends.
use vstd::prelude::*;
use crate::buffer::{
    edit_model, edits_text, empty_model, lemma_edge_actions_change_nothing, BufferModel,
    EditBuffer,
};
use crate::keys::Action;
use crate::runner::{Command, Outcome, RunResult};
use crate::text::string_of_chars;

verus! {

/// How a session ended.
#[derive(Debug)]
pub enum SessionEnd {
    /// Committed, with the output text to print.
    Committed(String),
    /// Aborted: nothing is printed.
    Aborted,
}

/// The meaning of a command sent to the runner.
pub enum Request {
    Run(Seq<char>),
    Terminate,
}

/// The meaning of a session's end.
pub enum Ending {
    Committed(Seq<char>),
    Aborted,
}

/// The meaning of an optional command.
pub open spec fn requested(c: Option<Command>) -> Option<Request> {
    match c {
        Some(Command::RunText(t)) => Some(Request::Run(t@)),
        Some(Command::Terminate) => Some(Request::Terminate),
        None => None,
    }
}

/// The meaning of an optional end.
pub open spec fn ended(e: Option<SessionEnd>) -> Option<Ending> {
    match e {
        Some(SessionEnd::Committed(t)) => Some(Ending::Committed(t@)),
        Some(SessionEnd::Aborted) => Some(Ending::Aborted),
        None => None,
    }
}

/// What a session holds: the buffer and the latest result.
pub struct SessionModel {
    pub buffer: BufferModel,
    pub output: Outcome,
}

/// The text printed when the session is committed with this output: the
/// text of a text result, and nothing otherwise.
pub open spec fn committed_text(o: Outcome) -> Seq<char> {
    match o {
        Outcome::Text(s) => s,
        _ => Seq::empty(),
    }
}

/// The command that an action sends to the runner.
pub open spec fn request_for(m: SessionModel, a: Option<Action>) -> Option<Request> {
    match a {
        Some(Action::Commit) => Some(Request::Terminate),
        Some(Action::Abort) => Some(Request::Terminate),
        Some(x) => if edits_text(m.buffer, x) {
            Some(Request::Run(edit_model(m.buffer, x).text))
        } else {
            None
        },
        None => None,
    }
}

/// How an action ends the session, if it does.
pub open spec fn ending_for(m: SessionModel, a: Option<Action>) -> Option<Ending> {
    match a {
        Some(Action::Commit) => Some(Ending::Committed(committed_text(m.output))),
        Some(Action::Abort) => Some(Ending::Aborted),
        _ => None,
    }
}

/// The session after an action.
pub open spec fn session_after(m: SessionModel, a: Option<Action>) -> SessionModel {
    match a {
        Some(x) => SessionModel { buffer: edit_model(m.buffer, x), output: m.output },
        None => m,
    }
}

/// What the session answers to one input event.
#[derive(Debug)]
pub struct Reply {
    /// The command to send to the runner.
    pub command: Option<Command>,
    /// Set when the session ends.
    pub end: Option<SessionEnd>,
}

/// An action at an edge of the buffer that has nothing to do (moving left
/// or deleting at the start, moving right at the end) leaves the session as
/// it was, sends no command and does not end it.
pub proof fn lemma_edge_actions_send_nothing(m: SessionModel)
    requires
        m.buffer.in_bounds(),
    ensures
        m.buffer.cursor == 0 ==> session_after(m, Some(Action::CursorLeft)) == m
            && request_for(m, Some(Action::CursorLeft)) is None
            && ending_for(m, Some(Action::CursorLeft)) is None,
        m.buffer.cursor == m.buffer.text.len() ==> session_after(m, Some(Action::CursorRight))
            == m && request_for(m, Some(Action::CursorRight)) is None
            && ending_for(m, Some(Action::CursorRight)) is None,
        m.buffer.cursor == 0 ==> session_after(m, Some(Action::DeleteBack)) == m
            && request_for(m, Some(Action::DeleteBack)) is None
            && ending_for(m, Some(Action::DeleteBack)) is None,
{
    lemma_edge_actions_change_nothing(m.buffer);
}

/// Deleting the last character of the buffer asks the runner to run the
/// empty text.
pub proof fn lemma_emptied_buffer_requests_empty_run(m: SessionModel)
    requires
        m.buffer.text.len() == 1,
        m.buffer.cursor == 1,
    ensures
        request_for(m, Some(Action::DeleteBack)) == Some(Request::Run(Seq::<char>::empty())),
        session_after(m, Some(Action::DeleteBack)).buffer == empty_model(),
{
    assert(m.buffer.text.remove(0) =~= Seq::<char>::empty());
}

/// Aborting ends every session with nothing to print, whatever was edited
/// and whatever output was shown.
pub proof fn lemma_abort_prints_nothing(m: SessionModel)
    ensures
        ending_for(m, Some(Action::Abort)) == Some(Ending::Aborted),
        request_for(m, Some(Action::Abort)) == Some(Request::Terminate),
{
}

/// One editing session.
pub struct Session {
    buffer: EditBuffer,
    output: RunResult,
}

impl View for Session {
    type V = SessionModel;

    closed spec fn view(&self) -> SessionModel {
        SessionModel { buffer: self.buffer@, output: self.output@ }
    }
}

impl Session {
    /// The session's invariant.
    pub open spec fn wf(&self) -> bool {
        self@.buffer.in_bounds()
    }

    /// A session with an empty buffer and no output.
    pub fn new() -> (r: Session)
        ensures
            r@.buffer == empty_model(),
            r@.output == Outcome::Empty,
            r.wf(),
    {
        Session { buffer: EditBuffer::new(), output: RunResult::Empty }
    }

    /// The edit buffer.
    pub fn buffer(&self) -> (r: &EditBuffer)
        ensures
            r@ == self@.buffer,
    {
        &self.buffer
    }

    /// The latest result.
    pub fn output(&self) -> (r: &RunResult)
        ensures
            r@ == self@.output,
    {
        &self.output
    }

    /// Takes in a result from the runner.
    pub fn on_result(&mut self, result: RunResult)
        requires
            old(self).wf(),
        ensures
            final(self)@.buffer == old(self)@.buffer,
            final(self)@.output == result@,
            final(self).wf(),
    {
        self.output = result;
    }

    /// Handles the action of one input event, or an event without one.
    pub fn on_action(&mut self, action: Option<Action>) -> (r: Reply)
        requires
            old(self).wf(),
        ensures
            final(self)@ == session_after(old(self)@, action),
            requested(r.command) == request_for(old(self)@, action),
            ended(r.end) == ending_for(old(self)@, action),
            final(self).wf(),
    {
        match action {
            None => Reply { command: None, end: None },
            Some(Action::Commit) => {
                let text = match &self.output {
                    RunResult::Text(s) => s.clone(),
                    _ => String::new(),
                };
                Reply { command: Some(Command::Terminate), end: Some(SessionEnd::Committed(text)) }
            },
            Some(Action::Abort) => Reply {
                command: Some(Command::Terminate),
                end: Some(SessionEnd::Aborted),
            },
            Some(a) => {
                let changed = self.buffer.apply(a);
                if changed {
                    let text = string_of_chars(self.buffer.chars());
                    Reply { command: Some(Command::RunText(text)), end: None }
                } else {
                    Reply { command: None, end: None }
                }
            },
        }
    }
}

} // verus!
