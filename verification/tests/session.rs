use modem_sms::session::effective_baud;
use modem_sms::session::FailureStage;
use modem_sms::session::ModemSession;
use modem_sms::session::SendError;
use modem_sms::session::SessionAction;
use modem_sms::session::StepOutcome;

/// Runs a session against a simulated modem: every open and write is
/// reported complete, and the read hands back `response`. Returns the
/// written lines with their dwell times, the body payload, and the outcome.
fn run_simulated(
    port: &str,
    number: &str,
    message: &str,
    baud: Option<u32>,
    response: &[u8],
) -> (Vec<(String, u64)>, Vec<u8>, Result<bool, SendError>) {
    let mut session = ModemSession::new(
        String::from(port),
        String::from(number),
        String::from(message),
        baud,
    );
    let mut lines: Vec<(String, u64)> = Vec::new();
    let mut body: Vec<u8> = Vec::new();
    loop {
        let action = session.current_action();
        match action {
            SessionAction::OpenPort { .. } => session.handle(StepOutcome::Completed),
            SessionAction::WriteLine { line, dwell_ms } => {
                lines.push((line, dwell_ms));
                session.handle(StepOutcome::Completed);
            }
            SessionAction::SubmitBody { payload } => {
                body = payload;
                session.handle(StepOutcome::Completed);
            }
            SessionAction::AwaitResponse { .. } => {
                session.handle(StepOutcome::Response(response.to_vec()));
            }
            SessionAction::Stop => break,
        }
    }
    let outcome = session.outcome();
    (lines, body, outcome)
}

#[test]
fn end_to_end_fixed_transcript_and_success() {
    let (lines, body, outcome) =
        run_simulated("COM-TEST", "+15551234567", "Hello", Some(9600), b"OK\r\n");
    assert_eq!(lines.len(), 4);
    assert_eq!(lines[0], (String::from("AT\r\n"), 500));
    assert_eq!(lines[1], (String::from("AT+CMGF=1\r\n"), 500));
    assert_eq!(lines[2], (String::from("AT+CNMI=2,2,0,0,0\r\n"), 500));
    assert_eq!(lines[3], (String::from("AT+CMGS=\"+15551234567\"\r\n"), 1000));
    assert_eq!(body, vec![b'H', b'e', b'l', b'l', b'o', 0x1a]);
    assert_eq!(outcome, Ok(true));
}

#[test]
fn open_parameters_and_read_parameters_are_fixed() {
    let session = ModemSession::new(
        String::from("COM-TEST"),
        String::from("+15551234567"),
        String::from("Hello"),
        None,
    );
    match session.current_action() {
        SessionAction::OpenPort { baud, timeout_secs } => {
            assert_eq!(baud, 9600);
            assert_eq!(timeout_secs, 30);
        }
        _ => panic!("a fresh session must ask for the port to be opened"),
    }
}

#[test]
fn failed_open_is_terminal_with_port_open_stage() {
    let mut session = ModemSession::new(
        String::from("/dev/missing"),
        String::from("+15551234567"),
        String::from("Hello"),
        None,
    );
    assert!(matches!(
        session.current_action(),
        SessionAction::OpenPort { .. }
    ));
    session.handle(StepOutcome::Failed(String::from("No such file or directory")));
    assert!(matches!(session.current_action(), SessionAction::Stop));
    let err = session.outcome().unwrap_err();
    assert_eq!(err.stage, FailureStage::PortOpen);
    assert_eq!(
        err.message,
        "Failed to open port /dev/missing: No such file or directory"
    );
}

#[test]
fn failed_command_write_reports_write_error() {
    let mut session = ModemSession::new(
        String::from("COM-TEST"),
        String::from("+15551234567"),
        String::from("Hello"),
        None,
    );
    session.handle(StepOutcome::Completed);
    session.handle(StepOutcome::Completed);
    session.handle(StepOutcome::Completed);
    assert!(matches!(
        session.current_action(),
        SessionAction::WriteLine { .. }
    ));
    session.handle(StepOutcome::Failed(String::from("broken pipe")));
    assert!(matches!(session.current_action(), SessionAction::Stop));
    let err = session.outcome().unwrap_err();
    assert_eq!(err.stage, FailureStage::PortWrite);
    assert_eq!(err.message, "Write error: broken pipe");
}

#[test]
fn failed_body_write_reports_its_own_message() {
    let mut session = ModemSession::new(
        String::from("COM-TEST"),
        String::from("+15551234567"),
        String::from("Hello"),
        None,
    );
    for _ in 0..5 {
        session.handle(StepOutcome::Completed);
    }
    assert!(matches!(
        session.current_action(),
        SessionAction::SubmitBody { .. }
    ));
    session.handle(StepOutcome::Failed(String::from("broken pipe")));
    let err = session.outcome().unwrap_err();
    assert_eq!(err.stage, FailureStage::PortWrite);
    assert_eq!(err.message, "Failed to send message: broken pipe");
}

#[test]
fn error_response_reports_modem_failure() {
    let (_, _, outcome) =
        run_simulated("COM-TEST", "+15551234567", "Hello", None, b"\r\nERROR\r\n");
    let err = outcome.unwrap_err();
    assert_eq!(err.stage, FailureStage::ModemReported);
    assert_eq!(err.message, "SMS failed: ERROR");
}

#[test]
fn empty_response_is_success() {
    let (_, _, outcome) = run_simulated("COM-TEST", "+15551234567", "Hello", None, b"");
    assert_eq!(outcome, Ok(true));
}

#[test]
fn tokenless_response_is_success() {
    let (_, _, outcome) = run_simulated("COM-TEST", "+15551234567", "Hi", None, b"\r\n> ");
    assert_eq!(outcome, Ok(true));
}

#[test]
fn requested_baud_is_kept_and_default_applied() {
    assert_eq!(effective_baud(Some(115200)), 115200);
    assert_eq!(effective_baud(None), 9600);
    let session = ModemSession::new(
        String::from("COM-TEST"),
        String::from("+15551234567"),
        String::from("Hello"),
        Some(19200),
    );
    match session.current_action() {
        SessionAction::OpenPort { baud, .. } => assert_eq!(baud, 19200),
        _ => panic!("a fresh session must ask for the port to be opened"),
    }
}
