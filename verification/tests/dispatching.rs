use ftp_control::dispatch::{dispatch, Signal};
use ftp_control::session::{DirHandle, FormatControl, Session, TransferMode};

#[test]
fn new_session_is_fresh() {
    let s = Session::new();
    assert!(!s.authenticated);
    assert_eq!(s.username, None);
    assert_eq!(s.transfer_mode, TransferMode::Ascii(FormatControl::NonPrint));
    assert_eq!(s.current_directory, DirHandle(0));
}

#[test]
fn user_with_one_parameter_logs_in() {
    let mut s = Session::new();
    let (reply, signal) = dispatch(&mut s, "USER alice");
    assert_eq!(reply.code, 230);
    assert_eq!(reply.message, "User logged in, proceed.");
    assert_eq!(signal, Signal::Continue);
    assert_eq!(s.username, Some(String::from("alice")));
    assert!(s.authenticated);
}

#[test]
fn user_without_parameter_is_rejected() {
    let mut s = Session::new();
    let (reply, signal) = dispatch(&mut s, "USER");
    assert_eq!(reply.code, 501);
    assert_eq!(reply.message, "Syntax error in parameters or arguments.");
    assert_eq!(signal, Signal::Continue);
    assert_eq!(s.username, None);
    assert!(!s.authenticated);
}

#[test]
fn user_with_extra_parameters_is_rejected() {
    let mut s = Session::new();
    let (reply, signal) = dispatch(&mut s, "USER alice bob");
    assert_eq!(reply.code, 501);
    assert_eq!(signal, Signal::Continue);
    assert_eq!(s.username, None);
    assert!(!s.authenticated);
}

#[test]
fn quit_replies_and_closes() {
    let mut s = Session::new();
    let (reply, signal) = dispatch(&mut s, "QUIT");
    assert_eq!(reply.code, 221);
    assert_eq!(reply.message, "Service closing control connection.");
    assert_eq!(signal, Signal::Close);
}

#[test]
fn quit_with_parameter_is_rejected_and_stays_open() {
    let mut s = Session::new();
    let (reply, signal) = dispatch(&mut s, "QUIT now");
    assert_eq!(reply.code, 501);
    assert_eq!(signal, Signal::Continue);
}

#[test]
fn unknown_action_is_500_whatever_the_arity() {
    let mut s = Session::new();
    for line in ["FOO", "FOO a", "FOO a b c", "user alice"] {
        let (reply, signal) = dispatch(&mut s, line);
        assert_eq!(reply.code, 500);
        assert_eq!(reply.message, "Syntax error, command unrecognized.");
        assert_eq!(signal, Signal::Continue);
        assert_eq!(s.username, None);
        assert!(!s.authenticated);
    }
}

#[test]
fn empty_line_is_unrecognized() {
    let mut s = Session::new();
    let (reply, signal) = dispatch(&mut s, "");
    assert_eq!(reply.code, 500);
    assert_eq!(signal, Signal::Continue);
}

#[test]
fn sessions_are_isolated() {
    let mut first = Session::new();
    let mut second = Session::new();
    let (reply, _) = dispatch(&mut first, "USER alice");
    assert_eq!(reply.code, 230);
    assert_eq!(first.username, Some(String::from("alice")));
    assert!(first.authenticated);
    assert_eq!(second.username, None);
    assert!(!second.authenticated);
    let (reply, _) = dispatch(&mut second, "USER bob");
    assert_eq!(reply.code, 230);
    assert_eq!(second.username, Some(String::from("bob")));
    assert_eq!(first.username, Some(String::from("alice")));
}
