//! The wire protocol of a send operation: the AT command lines, the message
//! body with its Ctrl-Z (0x1A) terminator, the interpretation of the modem's
//! textual response, and the diagnostic messages of each failure stage.

use vstd::prelude::*;
use vstd::string::StrSliceExecFns;
use vstd::string::StringExecFns;
use vstd::string::StringSliceAdditionalSpecFns;
use vstd::utf8::encode_utf8;

use crate::text::find_token;
use crate::text::has_token;
use crate::text::trim_text;
use crate::text::trim_ws;

verus! {

/// The probe line that wakes the modem.
pub open spec fn probe_line_text() -> Seq<char> {
    "AT\r\n"@
}

/// The line that selects human-readable SMS text mode over binary PDU mode.
pub open spec fn text_mode_line_text() -> Seq<char> {
    "AT+CMGF=1\r\n"@
}

/// The line that suppresses unsolicited result codes during the exchange.
pub open spec fn notify_mode_line_text() -> Seq<char> {
    "AT+CNMI=2,2,0,0,0\r\n"@
}

/// The line that addresses the recipient: the destination number stands
/// verbatim and unescaped between double quotes.
pub open spec fn recipient_line_text(number: Seq<char>) -> Seq<char> {
    "AT+CMGS=\""@ + number + "\"\r\n"@
}

/// The bytes submitted as the message body: the UTF-8 encoding of the
/// message followed by the single 0x1A terminator, with no trailing CRLF.
pub open spec fn body_bytes_of(message: Seq<char>) -> Seq<u8> {
    encode_utf8(message).push(26u8)
}

/// The response carries one of the success tokens.
pub open spec fn reports_success(r: Seq<char>) -> bool {
    has_token(r, "OK"@) || has_token(r, "+CMGS:"@)
}

/// The response carries "ERROR" and no success token took precedence.
pub open spec fn reports_error(r: Seq<char>) -> bool {
    has_token(r, "ERROR"@) && !reports_success(r)
}

/// The diagnostic for a modem-reported failure embeds the trimmed response.
pub open spec fn failure_text(r: Seq<char>) -> Seq<char> {
    "SMS failed: "@ + trim_ws(r)
}

/// Diagnostic for a port that could not be opened.
pub open spec fn open_failure_text(path: Seq<char>, detail: Seq<char>) -> Seq<char> {
    "Failed to open port "@ + path + ": "@ + detail
}

/// Diagnostic for a command line that could not be written.
pub open spec fn write_failure_text(detail: Seq<char>) -> Seq<char> {
    "Write error: "@ + detail
}

/// Diagnostic for a message body that could not be written.
pub open spec fn submit_failure_text(detail: Seq<char>) -> Seq<char> {
    "Failed to send message: "@ + detail
}

/// Diagnostic for a worker that could not run the operation to its end.
pub open spec fn dispatch_failure_text(detail: Seq<char>) -> Seq<char> {
    "Task error: "@ + detail
}

/// Diagnostic for a port enumeration that failed at the OS layer.
pub open spec fn enumerate_failure_text(detail: Seq<char>) -> Seq<char> {
    "Failed to list ports: "@ + detail
}

/// Builds the probe line.
pub fn probe_line() -> (r: String)
    ensures
        r@ == probe_line_text(),
{
    String::from_str("AT\r\n")
}

/// Builds the text-mode selection line.
pub fn text_mode_line() -> (r: String)
    ensures
        r@ == text_mode_line_text(),
{
    String::from_str("AT+CMGF=1\r\n")
}

/// Builds the notification-mode line.
pub fn notify_mode_line() -> (r: String)
    ensures
        r@ == notify_mode_line_text(),
{
    String::from_str("AT+CNMI=2,2,0,0,0\r\n")
}

/// Builds the recipient-addressing line around the given number.
pub fn recipient_line(number: &str) -> (r: String)
    ensures
        r@ == recipient_line_text(number@),
{
    let mut line = String::from_str("AT+CMGS=\"");
    line.append(number);
    line.append("\"\r\n");
    line
}

/// Builds the body submission: the message bytes and the 0x1A terminator.
pub fn body_payload(message: &str) -> (r: Vec<u8>)
    ensures
        r@ == body_bytes_of(message@),
{
    let mut bytes = message.as_bytes_vec();
    bytes.push(26u8);
    bytes
}

/// Classifies a decoded response: a success token wins, an explicit "ERROR"
/// fails with the trimmed response in the diagnostic, and a response with
/// neither token is optimistically taken as success.
pub fn interpret_response(response: &str) -> (r: Result<bool, String>)
    ensures
        r is Ok <==> !reports_error(response@),
        r is Ok ==> r->Ok_0 == true,
        r is Err ==> r->Err_0@ == failure_text(response@),
{
    if find_token(response, "OK") || find_token(response, "+CMGS:") {
        Ok(true)
    } else if find_token(response, "ERROR") {
        let trimmed = trim_text(response);
        let mut msg = String::from_str("SMS failed: ");
        msg.append(trimmed.as_str());
        Err(msg)
    } else {
        Ok(true)
    }
}

/// What `String::from_utf8_lossy` decodes the given bytes to.
pub uninterp spec fn lossy_decoded(bytes: Seq<u8>) -> Seq<char>;

/// Relies on `String::from_utf8_lossy`: the result is a function of the
/// bytes alone, invalid sequences are replaced, and bytes that already form
/// valid UTF-8 — pure ASCII in particular — decode to exactly those
/// characters.
#[verifier::external_body]
pub(crate) fn decode_response(raw: &[u8]) -> (r: String)
    ensures
        r@ == lossy_decoded(raw@),
        (forall|i: int| 0 <= i < raw@.len() ==> raw@[i] < 128) ==> r@ == Seq::new(
            raw@.len(),
            |i: int| raw@[i] as char,
        ),
{
    String::from_utf8_lossy(raw).into_owned()
}

/// Decodes the raw bytes read from the port and classifies the result, as
/// the final step of a send operation does.
pub fn read_outcome(raw: &[u8]) -> (r: Result<bool, String>)
    ensures
        r is Ok <==> !reports_error(lossy_decoded(raw@)),
        r is Ok ==> r->Ok_0 == true,
        r is Err ==> r->Err_0@ == failure_text(lossy_decoded(raw@)),
{
    let text = decode_response(raw);
    interpret_response(text.as_str())
}

/// Builds the diagnostic for a port that could not be opened.
pub fn open_failure_message(path: &str, detail: &str) -> (r: String)
    ensures
        r@ == open_failure_text(path@, detail@),
{
    let mut msg = String::from_str("Failed to open port ");
    msg.append(path);
    msg.append(": ");
    msg.append(detail);
    msg
}

/// Builds the diagnostic for a command line that could not be written.
pub fn write_failure_message(detail: &str) -> (r: String)
    ensures
        r@ == write_failure_text(detail@),
{
    let mut msg = String::from_str("Write error: ");
    msg.append(detail);
    msg
}

/// Builds the diagnostic for a message body that could not be written.
pub fn submit_failure_message(detail: &str) -> (r: String)
    ensures
        r@ == submit_failure_text(detail@),
{
    let mut msg = String::from_str("Failed to send message: ");
    msg.append(detail);
    msg
}

/// Builds the diagnostic for a worker that could not finish.
pub fn dispatch_failure_message(detail: &str) -> (r: String)
    ensures
        r@ == dispatch_failure_text(detail@),
{
    let mut msg = String::from_str("Task error: ");
    msg.append(detail);
    msg
}

/// Builds the diagnostic for a failed port enumeration.
pub fn enumerate_failure_message(detail: &str) -> (r: String)
    ensures
        r@ == enumerate_failure_text(detail@),
{
    let mut msg = String::from_str("Failed to list ports: ");
    msg.append(detail);
    msg
}

/// A response that carries a success token — "OK" or "+CMGS:" — is never
/// flagged as an error, whatever else it contains: the operation reports
/// success.
pub proof fn lemma_success_token_wins(r: Seq<char>)
    requires
        has_token(r, "OK"@) || has_token(r, "+CMGS:"@),
    ensures
        !reports_error(r),
{
}

/// A response that carries "ERROR" and no success token is reported as a
/// failure, and its diagnostic embeds the trimmed response text.
pub proof fn lemma_error_token_fails(r: Seq<char>)
    requires
        has_token(r, "ERROR"@),
        !has_token(r, "OK"@),
        !has_token(r, "+CMGS:"@),
    ensures
        reports_error(r),
        failure_text(r) == "SMS failed: "@ + trim_ws(r),
{
}

/// A response that carries no token at all is optimistically reported as
/// success: only an explicit "ERROR" fails the operation.
pub proof fn lemma_no_token_is_success(r: Seq<char>)
    requires
        !has_token(r, "ERROR"@),
    ensures
        !reports_error(r),
{
}

/// The empty response carries no token, so it reports success.
pub proof fn lemma_empty_response_is_success(r: Seq<char>)
    requires
        r.len() == 0,
    ensures
        !reports_error(r),
{
    reveal_strlit("ERROR");
}

/// The recipient-addressing line carries the destination number verbatim,
/// unescaped, between the double quote at index 8 and the one right after
/// the number, and ends with CRLF.
pub proof fn lemma_recipient_number_verbatim(number: Seq<char>)
    ensures
        recipient_line_text(number).len() == number.len() + 12,
        recipient_line_text(number)[8] == '"',
        recipient_line_text(number).subrange(9, 9 + number.len() as int) == number,
        recipient_line_text(number)[9 + number.len() as int] == '"',
        recipient_line_text(number)[10 + number.len() as int] == '\r',
        recipient_line_text(number)[11 + number.len() as int] == '\n',
{
    reveal_strlit("AT+CMGS=\"");
    reveal_strlit("\"\r\n");
    assert(recipient_line_text(number).subrange(9, 9 + number.len() as int) =~= number);
}

/// The body submission is the encoded message followed by exactly one 0x1A
/// byte and nothing after it — in particular no trailing CRLF.
pub proof fn lemma_body_terminator(message: Seq<char>)
    ensures
        body_bytes_of(message).len() == encode_utf8(message).len() + 1,
        body_bytes_of(message).last() == 26u8,
        body_bytes_of(message).drop_last() == encode_utf8(message),
{
    assert(body_bytes_of(message).drop_last() =~= encode_utf8(message));
}

} // verus!
