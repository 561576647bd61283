use ftp_control::reader::{receive_command, ReadError};

#[test]
fn closed_peer_yields_connection_closed() {
    let r = receive_command(true, 0, String::new());
    assert_eq!(r, Err(ReadError::ConnectionClosed));
}

#[test]
fn failed_read_yields_io_error() {
    let r = receive_command(false, 3, String::from("USE"));
    assert_eq!(r, Err(ReadError::IoError));
}

#[test]
fn strips_crlf_terminator() {
    let r = receive_command(true, 12, String::from("USER alice\r\n"));
    assert_eq!(r, Ok(String::from("USER alice")));
}

#[test]
fn strips_bare_newline() {
    let r = receive_command(true, 5, String::from("QUIT\n"));
    assert_eq!(r, Ok(String::from("QUIT")));
}

#[test]
fn keeps_unterminated_line() {
    let r = receive_command(true, 4, String::from("QUIT"));
    assert_eq!(r, Ok(String::from("QUIT")));
}

#[test]
fn terminator_only_line_is_empty_command() {
    let r = receive_command(true, 2, String::from("\r\n"));
    assert_eq!(r, Ok(String::new()));
}
