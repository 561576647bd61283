use ftp_control::session::Session;
use ftp_control::worker::{worker, Action, Event, WorkerState};

fn expect_send(action: Action) -> String {
    match action {
        Action::Send(wire) => wire,
        Action::Read => panic!("expected a send action, the machine asked for a read"),
        Action::Close => panic!("expected a send action, the machine asked to close"),
    }
}

#[test]
fn full_session_from_greeting_to_quit() {
    let mut s = Session::new();

    let (state, action) = worker(WorkerState::Greeting, Event::Start, &mut s);
    assert_eq!(state, WorkerState::Greeting);
    assert_eq!(expect_send(action), "220 Service ready for new user.\r\n");

    let (state, action) = worker(state, Event::WriteOk, &mut s);
    assert_eq!(state, WorkerState::Ready);
    assert!(matches!(action, Action::Read));

    let (state, action) = worker(state, Event::Line(String::from("USER alice")), &mut s);
    assert_eq!(state, WorkerState::Ready);
    assert_eq!(expect_send(action), "230 User logged in, proceed.\r\n");
    assert_eq!(s.username, Some(String::from("alice")));

    let (state, action) = worker(state, Event::WriteOk, &mut s);
    assert_eq!(state, WorkerState::Ready);
    assert!(matches!(action, Action::Read));

    let (state, action) = worker(state, Event::Line(String::from("QUIT")), &mut s);
    assert_eq!(state, WorkerState::Closing);
    assert_eq!(expect_send(action), "221 Service closing control connection.\r\n");

    let (state, action) = worker(state, Event::WriteOk, &mut s);
    assert_eq!(state, WorkerState::Closed);
    assert!(matches!(action, Action::Close));
}

#[test]
fn unknown_command_keeps_the_connection_open() {
    let mut s = Session::new();

    let (state, _) = worker(WorkerState::Greeting, Event::Start, &mut s);
    let (state, _) = worker(state, Event::WriteOk, &mut s);

    let (state, action) = worker(state, Event::Line(String::from("FOO")), &mut s);
    assert_eq!(state, WorkerState::Ready);
    assert_eq!(expect_send(action), "500 Syntax error, command unrecognized.\r\n");

    // The connection stays open: a later command is still processed.
    let (state, action) = worker(state, Event::WriteOk, &mut s);
    assert_eq!(state, WorkerState::Ready);
    assert!(matches!(action, Action::Read));

    let (state, action) = worker(state, Event::Line(String::from("USER alice")), &mut s);
    assert_eq!(state, WorkerState::Ready);
    assert_eq!(expect_send(action), "230 User logged in, proceed.\r\n");
}

#[test]
fn closed_peer_ends_worker_without_a_write() {
    let mut s = Session::new();
    let (state, action) = worker(WorkerState::Ready, Event::ReadClosed, &mut s);
    assert_eq!(state, WorkerState::Closed);
    assert!(matches!(action, Action::Close));
}

#[test]
fn read_failure_ends_worker_without_a_write() {
    let mut s = Session::new();
    let (state, action) = worker(WorkerState::Ready, Event::ReadFailed, &mut s);
    assert_eq!(state, WorkerState::Closed);
    assert!(matches!(action, Action::Close));
}

#[test]
fn write_failure_ends_worker() {
    let mut s = Session::new();
    let (state, action) = worker(WorkerState::Ready, Event::WriteFailed, &mut s);
    assert_eq!(state, WorkerState::Closed);
    assert!(matches!(action, Action::Close));
}

#[test]
fn greeting_write_failure_ends_worker() {
    let mut s = Session::new();
    let (state, action) = worker(WorkerState::Greeting, Event::WriteFailed, &mut s);
    assert_eq!(state, WorkerState::Closed);
    assert!(matches!(action, Action::Close));
}
