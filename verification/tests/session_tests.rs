use ftp_core::command::Command;
use ftp_core::response::Response;
use ftp_core::response::ResponseKind;
use ftp_core::response::ResponseMessage;
use ftp_core::session::CmdOutcome;
use ftp_core::session::LoginStatus;
use ftp_core::session::Session;
use ftp_core::session::TransferMode;
use ftp_core::session::fake_user_valid;
use ftp_core::session::get_local_hostname;
use ftp_core::session::hostname_to_comma_hostname;
use ftp_core::session::list_payload;

const USERNAME: &str = "anonymous";
const PASSWORD: &str = "anonymous";

/// The response of an outcome that continues the session.
fn reply_of(outcome: CmdOutcome) -> Response {
    match outcome {
        CmdOutcome::Reply(resp) => resp,
        other => panic!("expected a plain reply, got {other:?}"),
    }
}

/// The response of an outcome that closes the session.
fn closing_reply_of(outcome: CmdOutcome) -> Response {
    match outcome {
        CmdOutcome::ReplyThenClose(resp) => resp,
        other => panic!("expected a closing reply, got {other:?}"),
    }
}

fn setup_session_unlogged() -> Session {
    Session::new()
}

fn setup_session_and_login() -> Session {
    let mut session = setup_session_unlogged();
    session.exec_user(vec![USERNAME.to_string()]);
    session.exec_pass(vec![PASSWORD.to_string()]);
    session
}

/// Parses one raw line and dispatches the command, as the control loop does.
fn exec_line(session: &mut Session, line: &str) -> CmdOutcome {
    let cmd = Command::parse(line).unwrap();
    session.exec_cmd(cmd)
}

/// Runs the full passive-mode exchange with a successful bind, returning the
/// advertised port.
fn do_pasv(session: &mut Session) -> u16 {
    match session.exec_cmd(Command::Pasv(vec![])) {
        CmdOutcome::BindPassive(port) => {
            let resp = reply_of(session.exec_pasv_complete(port, true));
            assert!(resp.serialize().starts_with("227"));
            port
        }
        other => panic!("expected a bind request, got {other:?}"),
    }
}

#[test]
fn test_create_session() {
    let _ = setup_session_and_login();
}

#[test]
fn test_get_cmd() {
    let cmd = Command::parse("QUIT arg");
    assert!(cmd.is_ok());
    assert!(matches!(cmd.unwrap(), Command::Quit(_)));
}

#[test]
fn test_exec_quit() {
    let mut session = setup_session_and_login();

    // QUIT closes the session after the goodbye is sent
    assert!(matches!(
        session.exec_cmd(Command::Quit(vec![])),
        CmdOutcome::ReplyThenClose(_)
    ));
}

#[test]
fn test_unlogged() {
    let session = setup_session_unlogged();

    assert_eq!(session.login_status, LoginStatus::Unloggedin);
}

#[test]
fn test_exec_user_unlogged() {
    let mut session = setup_session_unlogged();

    session.exec_cmd(Command::User(vec![USERNAME.into()]));
    assert_eq!(session.login_status, LoginStatus::Username(USERNAME.into()));
}

#[test]
fn test_exec_user_username() {
    let mut session = setup_session_and_login();

    session.login_status = LoginStatus::Username("oldusername".into());
    session.exec_cmd(Command::User(vec!["newusername".into()]));

    // can change username
    assert_eq!(
        session.login_status,
        LoginStatus::Username("newusername".into())
    );
}

#[test]
fn test_exec_user_loggedin() {
    let mut session = setup_session_and_login();

    session.login_status = LoginStatus::Loggedin("oldusername".into());
    session.exec_cmd(Command::User(vec!["newusername".into()]));

    // cannot change user
    assert_eq!(
        session.login_status,
        LoginStatus::Loggedin("oldusername".into())
    );
}

#[test]
fn test_exec_pass_unlogged() {
    let mut session = setup_session_unlogged();

    session.exec_cmd(Command::Pass(vec![PASSWORD.into()]));
    assert_eq!(session.login_status, LoginStatus::Unloggedin);
}

#[test]
fn test_exec_pass_username() {
    let mut session = setup_session_and_login();

    session.login_status = LoginStatus::Username(USERNAME.into());
    session.exec_cmd(Command::Pass(vec!["wrongpassword".into()]));
    // status back to unauthenticated
    assert_eq!(session.login_status, LoginStatus::Unloggedin);

    session.login_status = LoginStatus::Username(USERNAME.into());
    // right password
    session.exec_cmd(Command::Pass(vec![PASSWORD.into()]));
    // login success
    assert_eq!(session.login_status, LoginStatus::Loggedin(USERNAME.into()));
}

#[test]
fn test_exec_pass_loggedin() {
    let mut session = setup_session_and_login();

    session.login_status = LoginStatus::Loggedin(USERNAME.into());
    session.exec_cmd(Command::Pass(vec![PASSWORD.into()]));

    // cannot change user
    assert_eq!(session.login_status, LoginStatus::Loggedin(USERNAME.into()));
}

#[test]
fn test_no_mode() {
    let session = setup_session_and_login();

    assert!(matches!(session.transfer_mode, TransferMode::NotSpecified));
}

#[test]
fn test_pasv() {
    let mut session = setup_session_and_login();

    let port = do_pasv(&mut session);
    assert!(matches!(session.transfer_mode, TransferMode::Pasv(p) if p == port));
}

#[test]
fn test_pasv_on_pasv() {
    let mut session = setup_session_and_login();

    let old_pasv_port = do_pasv(&mut session);
    let new_pasv_port = do_pasv(&mut session);

    assert_ne!(old_pasv_port, new_pasv_port);
    // the second exchange replaced the first listener
    assert!(matches!(session.transfer_mode, TransferMode::Pasv(p) if p == new_pasv_port));
}

#[test]
fn test_list_no_mode() {
    let mut session = setup_session_and_login();

    let resp = reply_of(session.exec_cmd(Command::List(vec![".".to_string()])));
    assert!(resp.serialize().starts_with("425"));
}

#[test]
fn session_test_list_pasv() {
    let mut session = setup_session_and_login();

    let port = do_pasv(&mut session);
    match session.exec_cmd(Command::List(vec![".".to_string()])) {
        CmdOutcome::AcceptTransfer(p) => {
            assert_eq!(p, port);
            // the caller accepts the data connection and streams the payload;
            // the machine then reports the transfer finished
            let resp = reply_of(Session::exec_list_complete(true));
            assert!(resp.serialize().starts_with("226"));
        }
        other => panic!("expected an accept request, got {other:?}"),
    }

    assert!(matches!(session.transfer_mode, TransferMode::NotSpecified));
}

#[test]
fn test_hello() {
    let greeting = Response::with_default(ResponseKind::Greeting220);
    assert_eq!(greeting.serialize(), "220 Welcome to the rust FTP Server.\r\n");
}

#[test]
fn test_quit() {
    let mut session = setup_session_unlogged();

    let resp = closing_reply_of(exec_line(&mut session, "QUIT"));
    assert_eq!(resp.code(), 221);
}

#[test]
fn test_login_success() {
    let mut session = setup_session_unlogged();

    let resp = reply_of(exec_line(&mut session, &format!("USER {USERNAME:}")));
    assert_eq!(resp.code(), 331);

    let resp = reply_of(exec_line(&mut session, &format!("PASS {PASSWORD:}")));
    assert_eq!(resp.code(), 230);
}

#[test]
fn test_login_fail() {
    let mut session = setup_session_unlogged();

    let resp = reply_of(exec_line(&mut session, &format!("USER {USERNAME:}")));
    assert_eq!(resp.code(), 331);

    let resp = reply_of(exec_line(&mut session, "PASS wrong"));
    assert_eq!(resp.code(), 530);

    let resp = reply_of(exec_line(&mut session, &format!("PASS {PASSWORD:}")));
    assert_eq!(resp.code(), 503);
}

#[test]
fn test_permission() {
    let mut session = setup_session_unlogged();

    let resp = reply_of(exec_line(&mut session, "LIST"));
    assert_eq!(resp.code(), 530);

    let resp = reply_of(exec_line(&mut session, "PASV"));
    assert_eq!(resp.code(), 530);
}

#[test]
fn main_test_list_pasv() {
    let mut session = setup_session_unlogged();
    reply_of(exec_line(&mut session, &format!("USER {USERNAME:}")));
    reply_of(exec_line(&mut session, &format!("PASS {PASSWORD:}")));

    let resp = reply_of(exec_line(&mut session, "LIST"));
    assert_eq!(resp.code(), 425);

    let port = match exec_line(&mut session, "PASV") {
        CmdOutcome::BindPassive(port) => port,
        other => panic!("expected a bind request, got {other:?}"),
    };
    let pasv_resp = reply_of(session.exec_pasv_complete(port, true));
    assert!(pasv_resp.serialize().starts_with("227"));

    match exec_line(&mut session, "LIST") {
        CmdOutcome::AcceptTransfer(p) => {
            assert_eq!(p, port);
            // with the connection accepted, the caller announces the data
            let data_open = Response::with_default(ResponseKind::DataOpen150);
            assert_eq!(data_open.code(), 150);
            let resp = reply_of(Session::exec_list_complete(true));
            assert_eq!(resp.code(), 226);
        }
        other => panic!("expected an accept request, got {other:?}"),
    }

    // without a fresh PASV, a further LIST finds no transfer mode again
    let resp = reply_of(exec_line(&mut session, "LIST"));
    assert_eq!(resp.code(), 425);
}

#[test]
fn test_pasv_reply_formula() {
    let mut session = setup_session_and_login();

    // 1234 = 4 * 256 + 210, so the advertised pair is (4, 210)
    let resp = reply_of(session.exec_pasv_complete(1234, true));
    assert_eq!(resp.serialize(), "227 (127,0,0,1,4,210)\r\n");
}

#[test]
fn test_pasv_bind_failure_is_fatal() {
    let mut session = setup_session_and_login();

    let resp = closing_reply_of(session.exec_pasv_complete(2048, false));
    assert_eq!(resp.code(), 421);
    assert!(matches!(session.transfer_mode, TransferMode::NotSpecified));
}

#[test]
fn test_list_accept_failure_is_fatal() {
    let mut session = setup_session_and_login();

    do_pasv(&mut session);
    assert!(matches!(
        session.exec_cmd(Command::List(vec![])),
        CmdOutcome::AcceptTransfer(_)
    ));
    // the listener was spent either way
    assert!(matches!(session.transfer_mode, TransferMode::NotSpecified));
    let resp = closing_reply_of(Session::exec_list_complete(false));
    assert_eq!(resp.code(), 421);
}

#[test]
fn test_port_not_implemented() {
    let mut session = setup_session_and_login();

    let resp = reply_of(session.exec_cmd(Command::Port(vec!["h,p".to_string()])));
    assert_eq!(resp.code(), 502);
}

#[test]
fn test_fake_user_valid() {
    assert!(fake_user_valid("anonymous", "anonymous"));
    assert!(!fake_user_valid("anonymous", "wrong"));
    assert!(!fake_user_valid("someone", "anonymous"));
    assert!(!fake_user_valid("", ""));
}

#[test]
fn test_hostname_to_comma_hostname() {
    assert_eq!(hostname_to_comma_hostname("127.0.0.1"), "127,0,0,1");
    assert_eq!(hostname_to_comma_hostname(get_local_hostname()), "127,0,0,1");
    assert_eq!(hostname_to_comma_hostname("10.20.30.40"), "10,20,30,40");
}

#[test]
fn test_full_session_scenario() {
    // the whole control-channel exchange, with the socket work simulated
    let greeting = Response::with_default(ResponseKind::Greeting220);
    assert!(greeting.serialize().starts_with("220 "));

    let mut session = Session::new();

    let resp = reply_of(exec_line(&mut session, "USER anonymous"));
    assert!(resp.serialize().starts_with("331 "));

    let resp = reply_of(exec_line(&mut session, "PASS anonymous"));
    assert!(resp.serialize().starts_with("230 "));

    let port = match exec_line(&mut session, "PASV") {
        CmdOutcome::BindPassive(port) => port,
        other => panic!("expected a bind request, got {other:?}"),
    };
    let resp = reply_of(session.exec_pasv_complete(port, true));
    let expected = format!("227 (127,0,0,1,{},{})\r\n", port / 256, port % 256);
    assert_eq!(resp.serialize(), expected);

    match exec_line(&mut session, "LIST") {
        CmdOutcome::AcceptTransfer(p) => {
            assert_eq!(p, port);
            let data_open = Response::with_default(ResponseKind::DataOpen150);
            assert!(data_open.serialize().starts_with("150 "));
            assert_eq!(list_payload(), ".\r\n..\r\nthis\r\noutput\r\nis\r\nfake\r\n");
            let resp = reply_of(Session::exec_list_complete(true));
            assert!(resp.serialize().starts_with("226 "));
        }
        other => panic!("expected an accept request, got {other:?}"),
    }

    let resp = closing_reply_of(exec_line(&mut session, "QUIT"));
    assert!(resp.serialize().starts_with("221 "));
}
