use wye::log::{log_already_in_session, log_closed_session, log_opened_session};

#[test]
fn line_for_a_nested_run() {
    assert_eq!(log_already_in_session("3"), "\rWye in session: 3\r\n");
    assert_eq!(log_already_in_session(""), "\rWye in session: \r\n");
    assert_eq!(log_already_in_session("not a number"), "\rWye in session: not a number\r\n");
}

#[test]
fn line_for_an_opened_session() {
    assert_eq!(log_opened_session(7, "/tmp/wye-7"), "\rWye new session: 7, /tmp/wye-7\r\n");
    assert_eq!(log_opened_session(0, ""), "\rWye new session: 0, \r\n");
    assert_eq!(
        log_opened_session(u32::MAX, "/tmp/wye-4294967295"),
        "\rWye new session: 4294967295, /tmp/wye-4294967295\r\n"
    );
}

#[test]
fn line_for_a_closed_session() {
    assert_eq!(log_closed_session(7), "\rWye closed session: 7\r\n");
    assert_eq!(log_closed_session(0), "\rWye closed session: 0\r\n");
    assert_eq!(log_closed_session(1000), "\rWye closed session: 1000\r\n");
}

#[test]
fn lines_are_the_bytes_the_terminal_gets() {
    assert_eq!(log_closed_session(12).as_bytes(), b"\rWye closed session: 12\r\n");
    assert_eq!(log_already_in_session("12").as_bytes(), b"\rWye in session: 12\r\n");
}
