//! The command runner: it owns at most one managed process at a time and
//! turns commands and process events into the steps to perform.
//!
//! The runner decides; its caller performs a reaction's steps in the order
//! kill, spawn, emit, stop, and reports back how the spawn and the process
//! ended.
use vstd::prelude::*;
use vstd::utf8::{decode_utf8, valid_utf8};
use crate::text::decode_text;

verus! {

/// What a finished process produced, as the runner reports it.
#[derive(Debug)]
pub enum RunResult {
    /// Neither stdout nor stderr held anything.
    Empty,
    /// The text of stdout, or of stderr where stdout was empty.
    Text(String),
    /// The chosen stream held bytes that are not UTF-8 text.
    Undecodable,
}

/// The meaning of a `RunResult`.
pub enum Outcome {
    Empty,
    Text(Seq<char>),
    Undecodable,
}

impl View for RunResult {
    type V = Outcome;

    open spec fn view(&self) -> Outcome {
        match self {
            RunResult::Empty => Outcome::Empty,
            RunResult::Text(s) => Outcome::Text(s@),
            RunResult::Undecodable => Outcome::Undecodable,
        }
    }
}

/// The outcome of one captured stream that is not empty.
pub open spec fn stream_outcome(bytes: Seq<u8>) -> Outcome {
    if valid_utf8(bytes) {
        Outcome::Text(decode_utf8(bytes))
    } else {
        Outcome::Undecodable
    }
}

/// The outcome of a finished process: stdout if it holds anything, else
/// stderr if it does, else nothing.
pub open spec fn outcome_of(stdout: Seq<u8>, stderr: Seq<u8>) -> Outcome {
    if stdout.len() > 0 {
        stream_outcome(stdout)
    } else if stderr.len() > 0 {
        stream_outcome(stderr)
    } else {
        Outcome::Empty
    }
}

/// Turns a decoding result into a `RunResult`.
pub fn result_of_decoded(decoded: Option<String>) -> (r: RunResult)
    ensures
        decoded matches Some(s) ==> r@ == Outcome::Text(s@),
        decoded is None ==> r@ == Outcome::Undecodable,
{
    match decoded {
        Some(s) => RunResult::Text(s),
        None => RunResult::Undecodable,
    }
}

/// Classifies what a finished process wrote to stdout and stderr.
pub fn classify_output(stdout: Vec<u8>, stderr: Vec<u8>) -> (r: RunResult)
    ensures
        r@ == outcome_of(stdout@, stderr@),
{
    if stdout.len() > 0 {
        result_of_decoded(decode_text(stdout))
    } else if stderr.len() > 0 {
        result_of_decoded(decode_text(stderr))
    } else {
        RunResult::Empty
    }
}

/// A message to the runner.
#[derive(Debug)]
pub enum Command {
    /// Run this text as a shell command line, superseding any running one.
    RunText(String),
    /// Stop any running process and end the runner.
    Terminate,
}

/// Where the runner stands.
#[derive(Clone, Copy, Debug, PartialEq, Eq, Structural)]
pub enum RunnerState {
    /// No managed process.
    Idle,
    /// One managed process, spawned or being spawned, not yet finished.
    Running,
    /// Ended: no process, and no message is handled any more.
    Stopped,
}

/// The steps that a runner asks for, to be performed in field order.
#[derive(Debug)]
pub struct Reaction {
    /// Kill the managed process.
    pub kill: bool,
    /// Spawn a process that runs this text through the shell.
    pub spawn: Option<String>,
    /// Report this result.
    pub emit: Option<RunResult>,
    /// End the runner.
    pub stop: bool,
}

/// The meaning of an optional result.
pub open spec fn emitted(e: Option<RunResult>) -> Option<Outcome> {
    match e {
        Some(r) => Some(r@),
        None => None,
    }
}

/// The text of an optional spawn.
pub open spec fn spawned(s: Option<String>) -> Option<Seq<char>> {
    match s {
        Some(t) => Some(t@),
        None => None,
    }
}

/// How many managed processes are alive once a reaction's kill and spawn are
/// done, from a runner that stood at `before`.
pub open spec fn live_after(before: RunnerState, r: Reaction) -> int {
    (if before == RunnerState::Running && !r.kill { 1int } else { 0int })
        + (if r.spawn.is_some() { 1int } else { 0int })
}

/// No reaction leaves two processes alive, a kill is asked only of a live
/// process, and the runner is `Running` exactly when one is left.
pub open spec fn keeps_one_process(before: RunnerState, r: Reaction, after: RunnerState) -> bool {
    &&& live_after(before, r) <= 1
    &&& r.kill ==> before == RunnerState::Running
    &&& (after == RunnerState::Running) == (r.spawn.is_some() || (before
        == RunnerState::Running && !r.kill))
}

/// A reaction with no step at all.
pub open spec fn is_quiet(r: Reaction) -> bool {
    !r.kill && r.spawn.is_none() && r.emit.is_none() && !r.stop
}

/// The runner of shell commands.
pub struct CommandRunner {
    state: RunnerState,
}

impl View for CommandRunner {
    type V = RunnerState;

    closed spec fn view(&self) -> RunnerState {
        self.state
    }
}

impl CommandRunner {
    /// A runner with no process.
    pub fn new() -> (r: CommandRunner)
        ensures
            r@ == RunnerState::Idle,
    {
        CommandRunner { state: RunnerState::Idle }
    }

    /// Where the runner stands.
    pub fn state(&self) -> (r: RunnerState)
        ensures
            r == self@,
    {
        self.state
    }

    /// Supersedes any running process with one for `text`. An empty text is
    /// not run: it reports an empty result at once.
    pub fn run_text(&mut self, text: String) -> (r: Reaction)
        ensures
            old(self)@ == RunnerState::Stopped ==> final(self)@ == RunnerState::Stopped
                && is_quiet(r),
            old(self)@ != RunnerState::Stopped ==> {
                &&& r.kill == (old(self)@ == RunnerState::Running)
                &&& !r.stop
                &&& text@.len() == 0 ==> r.spawn.is_none() && emitted(r.emit) == Some(
                    Outcome::Empty,
                ) && final(self)@ == RunnerState::Idle
                &&& text@.len() > 0 ==> r.emit.is_none() && final(self)@ == RunnerState::Running
                    && spawned(r.spawn) == Some(text@)
            },
            keeps_one_process(old(self)@, r, final(self)@),
    {
        if self.state == RunnerState::Stopped {
            return Reaction { kill: false, spawn: None, emit: None, stop: false };
        }
        let kill = self.state == RunnerState::Running;
        if text.as_str().is_empty() {
            self.state = RunnerState::Idle;
            Reaction { kill, spawn: None, emit: Some(RunResult::Empty), stop: false }
        } else {
            self.state = RunnerState::Running;
            Reaction { kill, spawn: Some(text), emit: None, stop: false }
        }
    }

    /// Kills any running process and ends the runner.
    pub fn terminate(&mut self) -> (r: Reaction)
        ensures
            final(self)@ == RunnerState::Stopped,
            old(self)@ == RunnerState::Stopped ==> is_quiet(r),
            old(self)@ != RunnerState::Stopped ==> r.kill == (old(self)@ == RunnerState::Running)
                && r.spawn.is_none() && r.emit.is_none() && r.stop,
            keeps_one_process(old(self)@, r, final(self)@),
    {
        if self.state == RunnerState::Stopped {
            return Reaction { kill: false, spawn: None, emit: None, stop: false };
        }
        let kill = self.state == RunnerState::Running;
        self.state = RunnerState::Stopped;
        Reaction { kill, spawn: None, emit: None, stop: true }
    }

    /// Handles one command.
    pub fn handle(&mut self, cmd: Command) -> (r: Reaction)
        ensures
            keeps_one_process(old(self)@, r, final(self)@),
            cmd is Terminate ==> final(self)@ == RunnerState::Stopped,
            old(self)@ == RunnerState::Stopped ==> final(self)@ == RunnerState::Stopped
                && is_quiet(r),
            old(self)@ != RunnerState::Stopped ==> r.kill == (old(self)@ == RunnerState::Running),
            cmd matches Command::RunText(t) ==> (old(self)@ != RunnerState::Stopped ==> {
                &&& t@.len() == 0 ==> r.spawn.is_none() && emitted(r.emit) == Some(Outcome::Empty)
                &&& t@.len() > 0 ==> spawned(r.spawn) == Some(t@) && r.emit.is_none()
            }),
    {
        match cmd {
            Command::RunText(t) => self.run_text(t),
            Command::Terminate => self.terminate(),
        }
    }

    /// The process for the last text could not be started: report an empty
    /// result.
    pub fn spawn_failed(&mut self) -> (r: Reaction)
        ensures
            old(self)@ == RunnerState::Running ==> final(self)@ == RunnerState::Idle && !r.kill
                && r.spawn.is_none() && emitted(r.emit) == Some(Outcome::Empty) && !r.stop,
            old(self)@ != RunnerState::Running ==> final(self)@ == old(self)@ && is_quiet(r),
            live_after(old(self)@, r) <= 1,
    {
        if self.state == RunnerState::Running {
            self.state = RunnerState::Idle;
            Reaction { kill: false, spawn: None, emit: Some(RunResult::Empty), stop: false }
        } else {
            Reaction { kill: false, spawn: None, emit: None, stop: false }
        }
    }

    /// The managed process exited with this output: report its outcome.
    pub fn finished(&mut self, stdout: Vec<u8>, stderr: Vec<u8>) -> (r: Reaction)
        ensures
            old(self)@ == RunnerState::Running ==> final(self)@ == RunnerState::Idle && !r.kill
                && r.spawn.is_none() && emitted(r.emit) == Some(outcome_of(stdout@, stderr@))
                && !r.stop,
            old(self)@ != RunnerState::Running ==> final(self)@ == old(self)@ && is_quiet(r),
            live_after(old(self)@, r) <= 1,
    {
        if self.state == RunnerState::Running {
            self.state = RunnerState::Idle;
            let out = classify_output(stdout, stderr);
            Reaction { kill: false, spawn: None, emit: Some(out), stop: false }
        } else {
            Reaction { kill: false, spawn: None, emit: None, stop: false }
        }
    }
}

} // verus!
