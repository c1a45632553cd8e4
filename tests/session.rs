use livecmd::keys::Action;
use livecmd::runner::{Command, CommandRunner, RunResult};
use livecmd::session::{Session, SessionEnd};

fn run_text(c: &Option<Command>) -> Option<String> {
    match c {
        Some(Command::RunText(t)) => Some(t.clone()),
        _ => None,
    }
}

#[test]
fn typing_echo_hi_and_committing_prints_its_output() {
    let mut s = Session::new();
    let mut sent = Vec::new();
    for c in "echo hi".chars() {
        let r = s.on_action(Some(Action::Insert(c)));
        assert!(r.end.is_none());
        sent.push(run_text(&r.command).unwrap());
    }
    assert_eq!(sent, vec!["e", "ec", "ech", "echo", "echo ", "echo h", "echo hi"]);
    s.on_result(RunResult::Text("hi\n".to_string()));
    let r = s.on_action(Some(Action::Commit));
    assert!(matches!(r.command, Some(Command::Terminate)));
    assert!(matches!(r.end, Some(SessionEnd::Committed(ref t)) if t == "hi\n"));
}

#[test]
fn commands_from_session_drive_runner() {
    let mut s = Session::new();
    let mut run = CommandRunner::new();
    let mut last = None;
    for c in "echo hi".chars() {
        let r = s.on_action(Some(Action::Insert(c)));
        last = Some(run.handle(r.command.unwrap()));
    }
    let last = last.unwrap();
    assert!(last.kill);
    assert_eq!(last.spawn.as_deref(), Some("echo hi"));
    let done = run.finished(b"hi\n".to_vec(), vec![]);
    s.on_result(done.emit.unwrap());
    let end = s.on_action(Some(Action::Commit));
    assert!(matches!(end.end, Some(SessionEnd::Committed(ref t)) if t == "hi\n"));
    let stop = run.handle(end.command.unwrap());
    assert!(stop.stop && !stop.kill);
}

#[test]
fn abort_after_output_prints_nothing() {
    let mut s = Session::new();
    for c in "echo hi".chars() {
        s.on_action(Some(Action::Insert(c)));
    }
    s.on_result(RunResult::Text("hi\n".to_string()));
    let r = s.on_action(Some(Action::Abort));
    assert!(matches!(r.command, Some(Command::Terminate)));
    assert!(matches!(r.end, Some(SessionEnd::Aborted)));
}

#[test]
fn deleting_everything_runs_empty_text() {
    let mut s = Session::new();
    s.on_action(Some(Action::Insert('l')));
    s.on_action(Some(Action::Insert('s')));
    s.on_action(Some(Action::DeleteBack));
    let r = s.on_action(Some(Action::DeleteBack));
    assert_eq!(run_text(&r.command), Some(String::new()));
    let mut run = CommandRunner::new();
    let reaction = run.handle(r.command.unwrap());
    assert!(reaction.spawn.is_none());
    assert!(matches!(reaction.emit, Some(RunResult::Empty)));
}

#[test]
fn edge_actions_send_no_command() {
    let mut s = Session::new();
    assert!(s.on_action(Some(Action::CursorLeft)).command.is_none());
    assert!(s.on_action(Some(Action::DeleteBack)).command.is_none());
    s.on_action(Some(Action::Insert('a')));
    let r = s.on_action(Some(Action::CursorRight));
    assert!(r.command.is_none() && r.end.is_none());
    assert_eq!(s.buffer().cursor(), 1);
    s.on_action(Some(Action::CursorLeft));
    let r = s.on_action(Some(Action::DeleteBack));
    assert!(r.command.is_none());
    assert_eq!(s.buffer().text(), "a");
}

#[test]
fn unmapped_event_changes_nothing() {
    let mut s = Session::new();
    s.on_action(Some(Action::Insert('a')));
    let r = s.on_action(None);
    assert!(r.command.is_none() && r.end.is_none());
    assert_eq!(s.buffer().text(), "a");
}

#[test]
fn commit_without_text_output_prints_nothing() {
    let mut s = Session::new();
    let r = s.on_action(Some(Action::Commit));
    assert!(matches!(r.end, Some(SessionEnd::Committed(ref t)) if t.is_empty()));
    let mut s = Session::new();
    s.on_result(RunResult::Undecodable);
    assert!(matches!(s.output(), RunResult::Undecodable));
    let r = s.on_action(Some(Action::Commit));
    assert!(matches!(r.end, Some(SessionEnd::Committed(ref t)) if t.is_empty()));
}

#[test]
fn cursor_moves_keep_text() {
    let mut s = Session::new();
    for c in "ab".chars() {
        s.on_action(Some(Action::Insert(c)));
    }
    s.on_action(Some(Action::CursorLeft));
    let r = s.on_action(Some(Action::Insert('x')));
    assert_eq!(run_text(&r.command), Some("axb".to_string()));
    assert_eq!(s.buffer().cursor(), 2);
}
