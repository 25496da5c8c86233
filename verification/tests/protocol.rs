use modem_sms::protocol::body_payload;
use modem_sms::protocol::dispatch_failure_message;
use modem_sms::protocol::enumerate_failure_message;
use modem_sms::protocol::interpret_response;
use modem_sms::protocol::notify_mode_line;
use modem_sms::protocol::open_failure_message;
use modem_sms::protocol::probe_line;
use modem_sms::protocol::read_outcome;
use modem_sms::protocol::recipient_line;
use modem_sms::protocol::submit_failure_message;
use modem_sms::protocol::text_mode_line;
use modem_sms::protocol::write_failure_message;
use modem_sms::text::find_token;
use modem_sms::text::trim_text;

#[test]
fn command_lines_are_exact() {
    assert_eq!(probe_line(), "AT\r\n");
    assert_eq!(text_mode_line(), "AT+CMGF=1\r\n");
    assert_eq!(notify_mode_line(), "AT+CNMI=2,2,0,0,0\r\n");
}

#[test]
fn recipient_number_stands_verbatim_between_quotes() {
    assert_eq!(recipient_line("+15551234567"), "AT+CMGS=\"+15551234567\"\r\n");
}

#[test]
fn recipient_number_is_not_escaped() {
    assert_eq!(recipient_line("\"7\""), "AT+CMGS=\"\"7\"\"\r\n");
}

#[test]
fn body_ends_with_one_ctrl_z_and_no_crlf() {
    let payload = body_payload("Hello");
    assert_eq!(payload, vec![b'H', b'e', b'l', b'l', b'o', 0x1a]);
    assert_eq!(*payload.last().unwrap(), 0x1a);
    assert!(!payload.ends_with(b"\r\n"));
}

#[test]
fn empty_body_is_just_the_terminator() {
    assert_eq!(body_payload(""), vec![0x1a]);
}

#[test]
fn ok_response_reports_success() {
    assert_eq!(interpret_response("OK\r\n"), Ok(true));
}

#[test]
fn cmgs_response_reports_success() {
    assert_eq!(interpret_response("\r\n+CMGS: 12\r\n"), Ok(true));
}

#[test]
fn success_token_takes_precedence_over_error() {
    assert_eq!(interpret_response("ERROR\r\nOK\r\n"), Ok(true));
}

#[test]
fn error_response_reports_failure_with_trimmed_text() {
    assert_eq!(
        interpret_response("\r\nERROR\r\n"),
        Err(String::from("SMS failed: ERROR"))
    );
}

#[test]
fn cms_error_reports_failure() {
    assert_eq!(
        interpret_response("+CMS ERROR: 500\r\n"),
        Err(String::from("SMS failed: +CMS ERROR: 500"))
    );
}

#[test]
fn empty_response_is_optimistic_success() {
    assert_eq!(interpret_response(""), Ok(true));
}

#[test]
fn tokenless_response_is_optimistic_success() {
    assert_eq!(interpret_response("RING\r\n"), Ok(true));
}

#[test]
fn read_outcome_decodes_ascii_bytes() {
    assert_eq!(read_outcome(b"OK\r\n"), Ok(true));
    assert_eq!(read_outcome(b""), Ok(true));
}

#[test]
fn read_outcome_survives_invalid_utf8() {
    assert_eq!(
        read_outcome(b"\xffERROR\r\n"),
        Err(String::from("SMS failed: \u{fffd}ERROR"))
    );
}

#[test]
fn failure_messages_name_their_stage() {
    assert_eq!(
        open_failure_message("COM3", "busy"),
        "Failed to open port COM3: busy"
    );
    assert_eq!(write_failure_message("broken pipe"), "Write error: broken pipe");
    assert_eq!(
        submit_failure_message("broken pipe"),
        "Failed to send message: broken pipe"
    );
    assert_eq!(dispatch_failure_message("panic"), "Task error: panic");
    assert_eq!(
        enumerate_failure_message("denied"),
        "Failed to list ports: denied"
    );
}

#[test]
fn find_token_basics() {
    assert!(find_token("hello", "ell"));
    assert!(find_token("hello", ""));
    assert!(find_token("OK", "OK"));
    assert!(!find_token("", "OK"));
    assert!(!find_token("OKA", "KAY"));
    assert!(!find_token("ERROR", "OK"));
}

#[test]
fn trim_text_strips_ascii_whitespace() {
    assert_eq!(trim_text("  \r\n x y \t\r\n"), "x y");
    assert_eq!(trim_text(" \t\r\n"), "");
    assert_eq!(trim_text(""), "");
    assert_eq!(trim_text("plain"), "plain");
}
