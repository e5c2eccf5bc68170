use ftp_core::response::Response;
use ftp_core::response::ResponseKind;
use ftp_core::response::ResponseMessage;
use ftp_core::text::ensure_crlf;

fn assert_response_equal_str(resp: Response, s: &str) {
    assert_eq!(resp.serialize(), format!("{s:}\r\n"));
}

#[test]
fn test_resp_default_message() {
    assert_response_equal_str(
        Response::with_default(ResponseKind::Greeting220),
        "220 Welcome to the rust FTP Server.",
    );
    assert_response_equal_str(
        Response::with_default(ResponseKind::SyntaxError500),
        "500 Command not executed: syntax error.",
    );
}

#[test]
fn test_resp_custom_message() {
    assert_response_equal_str(Response::new(ResponseKind::Unknown999, "unknown"), "999 unknown");
}

#[test]
fn test_resp_codes_and_defaults() {
    let catalog = [
        (ResponseKind::DataOpen150, 150),
        (ResponseKind::Greeting220, 220),
        (ResponseKind::Goodbye221, 221),
        (ResponseKind::TransferDone226, 226),
        (ResponseKind::PassiveMode227, 227),
        (ResponseKind::LoginOk230, 230),
        (ResponseKind::NeedPassword331, 331),
        (ResponseKind::ServiceUnavailable421, 421),
        (ResponseKind::NoTransferMode425, 425),
        (ResponseKind::SyntaxError500, 500),
        (ResponseKind::BadArity501, 501),
        (ResponseKind::NotImplemented502, 502),
        (ResponseKind::WrongSequence503, 503),
        (ResponseKind::NotLoggedIn530, 530),
        (ResponseKind::Unknown999, 999),
    ];
    for (kind, code) in catalog {
        let resp = Response::with_default(kind);
        assert_eq!(resp.code(), code);
        // the serialized form opens with the code in decimal, then a space
        let wire = resp.serialize();
        assert!(wire.starts_with(&format!("{code} ")));
        assert!(wire.ends_with("\r\n"));
    }
}

#[test]
fn test_resp_message_already_terminated() {
    // a message that already ends in CRLF is not terminated a second time
    let resp = Response::new(ResponseKind::Unknown999, "done\r\n");
    assert_eq!(resp.serialize(), "999 done\r\n");
}

#[test]
fn test_ensure_crlf() {
    assert_eq!(ensure_crlf("message"), "message\r\n");
    assert_eq!(ensure_crlf("message\r\n"), "message\r\n");
    assert_eq!(ensure_crlf(""), "\r\n");
}
