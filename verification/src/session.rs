//! The per-connection protocol state machine: login state, passive transfer
//! mode, and the dispatcher that maps a parsed command to its outcome.
//!
//! The machine performs no I/O of its own. Where a command needs outside work
//! — binding the passive listener, accepting the one data connection — the
//! dispatcher hands the caller an action carrying the port, and the caller
//! reports the outcome back through the matching completion function. The
//! contracts state the full transition tables: how each command moves the
//! login state and the transfer mode, and which response it answers with.

use vstd::prelude::*;
use vstd::pervasive::unreached;

use crate::command::Command;
use crate::response::Response;
use crate::response::ResponseKind;
use crate::text::str_eq;
use crate::text::dec_digits;
use crate::text::u16_to_dec;

verus! {

/// The single configured identity accepted by the credential check.
pub open spec fn spec_user_valid(username: Seq<char>, password: Seq<char>) -> bool {
    username == "anonymous"@ && password == "anonymous"@
}

/// The pluggable credential predicate over (username, secret); the base
/// system accepts exactly one fixed identity.
pub fn fake_user_valid(username: &str, password: &str) -> (r: bool)
    ensures
        r == spec_user_valid(username@, password@),
{
    str_eq(username, "anonymous") && str_eq(password, "anonymous")
}

/// The IPv4 address advertised in the passive-mode response.
pub fn get_local_hostname() -> (r: &'static str)
    ensures
        r@ == "127.0.0.1"@,
{
    "127.0.0.1"
}

/// The dotted address rewritten with commas: every `.` becomes a `,`.
pub open spec fn spec_comma_hostname(h: Seq<char>) -> Seq<char> {
    h.map_values(|c: char| if c == '.' { ',' } else { c })
}

/// From `h1.h2.h3.h4` to `h1,h2,h3,h4`.
pub fn hostname_to_comma_hostname(hostname: &str) -> (r: String)
    ensures
        r@ == spec_comma_hostname(hostname@),
{
    let n = hostname.unicode_len();
    let mut r = String::new();
    let mut i: usize = 0;
    while i < n
        invariant
            n == hostname@.len(),
            i <= n,
            r@ == spec_comma_hostname(hostname@.take(i as int)),
        decreases n - i,
    {
        let ghost prev = r@;
        let c = hostname.get_char(i);
        if c == '.' {
            r.append(",");
            proof {
                reveal_strlit(",");
                assert(r@ =~= prev.push(','));
            }
        } else {
            let piece = hostname.substring_char(i, i + 1);
            r.append(piece);
            proof {
                assert(r@ =~= prev.push(hostname@[i as int]));
            }
        }
        proof {
            assert(hostname@.take(i as int + 1) =~= hostname@.take(i as int).push(
                hostname@[i as int],
            ));
            assert(spec_comma_hostname(hostname@.take(i as int + 1)) =~= spec_comma_hostname(
                hostname@.take(i as int),
            ).push(if hostname@[i as int] == '.' {
                ','
            } else {
                hostname@[i as int]
            }));
        }
        i += 1;
    }
    proof {
        assert(hostname@.take(n as int) =~= hostname@);
    }
    r
}

/// Where the session stands in the login exchange.
#[derive(Debug, PartialEq)]
pub enum LoginStatus {
    /// No username was given yet.
    Unloggedin,
    /// A username was given; the matching password is awaited.
    Username(String),
    /// The identity was checked and accepted.
    Loggedin(String),
}

/// The login state as the contracts speak of it, with names as character
/// sequences.
pub enum LoginView {
    Unloggedin,
    Username(Seq<char>),
    Loggedin(Seq<char>),
}

impl View for LoginStatus {
    type V = LoginView;

    open spec fn view(&self) -> LoginView {
        match self {
            LoginStatus::Unloggedin => LoginView::Unloggedin,
            LoginStatus::Username(n) => LoginView::Username(n@),
            LoginStatus::Loggedin(n) => LoginView::Loggedin(n@),
        }
    }
}

/// The transfer mode of the session: nothing set up, or a passive listener
/// bound on the given port. The listener handle itself is owned by the
/// caller, which did the binding; the machine tracks the port.
#[derive(Clone, Copy, Debug, PartialEq, Eq, Structural)]
pub enum TransferMode {
    NotSpecified,
    Pasv(u16),
}

/// One control connection's protocol state.
#[derive(Debug)]
pub struct Session {
    pub login_status: LoginStatus,
    pub transfer_mode: TransferMode,
}

/// The session state as the contracts speak of it.
pub struct SessionView {
    pub login: LoginView,
    pub transfer: TransferMode,
}

impl View for Session {
    type V = SessionView;

    open spec fn view(&self) -> SessionView {
        SessionView { login: self.login_status@, transfer: self.transfer_mode }
    }
}

/// Only a session in the logged-in state may use privileged commands.
pub open spec fn is_authenticated(l: LoginView) -> bool {
    l is Loggedin
}

/// How a USER command moves the login state: a logged-in session keeps its
/// user; any other session records the new username and awaits the password.
pub open spec fn user_step(l: LoginView, name: Seq<char>) -> LoginView {
    match l {
        LoginView::Loggedin(u) => LoginView::Loggedin(u),
        _ => LoginView::Username(name),
    }
}

/// How a PASS command moves the login state: only a session that has just
/// given a username moves, to logged-in on a valid secret and back to
/// unauthenticated on an invalid one.
pub open spec fn pass_step(l: LoginView, password: Seq<char>) -> LoginView {
    match l {
        LoginView::Unloggedin => LoginView::Unloggedin,
        LoginView::Loggedin(u) => LoginView::Loggedin(u),
        LoginView::Username(u) => if spec_user_valid(u, password) {
            LoginView::Loggedin(u)
        } else {
            LoginView::Unloggedin
        },
    }
}

/// The response carries the given kind and its compiled-in default message.
pub open spec fn resp_default(resp: Response, k: ResponseKind) -> bool {
    resp.kind == k && resp.text is None
}

/// The response carries the given kind and the given override message.
pub open spec fn resp_text(resp: Response, k: ResponseKind, txt: Seq<char>) -> bool {
    resp.kind == k && (resp.text matches Some(t) && t@ == txt)
}

/// The response that a USER command is answered with, by login state.
pub open spec fn user_reply(l: LoginView, resp: Response) -> bool {
    if l is Loggedin {
        resp_text(resp, ResponseKind::NotLoggedIn530, "Can't change to another user."@)
    } else {
        resp_default(resp, ResponseKind::NeedPassword331)
    }
}

/// The response that a PASS command is answered with, by login state and
/// credential validity.
pub open spec fn pass_reply(l: LoginView, password: Seq<char>, resp: Response) -> bool {
    match l {
        LoginView::Unloggedin => resp_text(
            resp,
            ResponseKind::WrongSequence503,
            "Login with USER first."@,
        ),
        LoginView::Loggedin(_) => resp_text(resp, ResponseKind::LoginOk230, "Already logged in."@),
        LoginView::Username(u) => if spec_user_valid(u, password) {
            resp_default(resp, ResponseKind::LoginOk230)
        } else {
            resp_text(resp, ResponseKind::NotLoggedIn530, "Login incorrect."@)
        },
    }
}

/// What the dispatcher asks of its caller for one command.
#[derive(Debug)]
pub enum CmdOutcome {
    /// Send the response; the session goes on.
    Reply(Response),
    /// Send the response, then close the control connection. This is QUIT's
    /// normal exit and the fatal service-unavailable path.
    ReplyThenClose(Response),
    /// Bind a passive listener on this port, then report the outcome to
    /// [`Session::exec_pasv_complete`].
    BindPassive(u16),
    /// Accept one data connection on the listener bound earlier on this port,
    /// send the data-open response, stream the payload, and report the accept
    /// outcome to [`Session::exec_list_complete`].
    AcceptTransfer(u16),
}

/// Relies on portpicker::pick_unused_port: asks the operating system for an
/// unused ephemeral port, trying random candidates first. Which port comes
/// back, and whether one comes back at all, depends on the machine's state,
/// so nothing is promised of the result.
#[verifier::external_body]
fn pick_unused_port() -> (r: Option<u16>) {
    portpicker::pick_unused_port()
}

/// The message of the passive-mode response: the advertised address as four
/// comma-joined octets, then the port split as `p1 = port / 256`,
/// `p2 = port % 256`, all in parentheses.
pub open spec fn spec_pasv_text(port: u16) -> Seq<char> {
    seq!['('] + spec_comma_hostname("127.0.0.1"@) + seq![','] + dec_digits((port / 256) as nat)
        + seq![','] + dec_digits((port % 256) as nat) + seq![')']
}

/// Splitting the port for the passive-mode address tuple loses nothing: the
/// two advertised numbers recombine to the port.
pub proof fn lemma_pasv_port_split(port: u16)
    ensures
        (port / 256) * 256 + (port % 256) == port,
{
}

/// Writes the passive-mode address tuple for the given port.
fn pasv_reply_text(port: u16) -> (r: String)
    ensures
        r@ == spec_pasv_text(port),
{
    let mut r = String::from_str("(");
    let host = hostname_to_comma_hostname(get_local_hostname());
    r.append(host.as_str());
    r.append(",");
    let p1 = u16_to_dec(port / 256);
    r.append(p1.as_str());
    r.append(",");
    let p2 = u16_to_dec(port % 256);
    r.append(p2.as_str());
    r.append(")");
    proof {
        reveal_strlit("(");
        reveal_strlit(",");
        reveal_strlit(")");
        assert(r@ =~= spec_pasv_text(port));
    }
    r
}

/// The canned payload that stands in for a directory listing; the payload
/// provider proper is an external collaborator.
pub fn list_payload() -> (r: &'static str)
    ensures
        r@ == ".\r\n..\r\nthis\r\noutput\r\nis\r\nfake\r\n"@,
{
    ".\r\n..\r\nthis\r\noutput\r\nis\r\nfake\r\n"
}

/// What a PASV request is answered with: denied while not logged in;
/// otherwise either a bind action for some port, or the fatal
/// service-unavailable close when no port could be picked.
pub open spec fn pasv_request_outcome(l: LoginView, r: CmdOutcome) -> bool {
    if !is_authenticated(l) {
        r matches CmdOutcome::Reply(resp) && resp_default(resp, ResponseKind::NotLoggedIn530)
    } else {
        ||| r matches CmdOutcome::BindPassive(_)
        ||| (r matches CmdOutcome::ReplyThenClose(resp) && resp_default(
            resp,
            ResponseKind::ServiceUnavailable421,
        ))
    }
}

/// How a LIST request moves the session and what it asks of the caller:
/// denied while not logged in (nothing moves); no-transfer-mode when nothing
/// was set up (nothing moves); and with a passive listener bound, the mode is
/// reset at once — win or lose, a listener is never reusable — and the caller
/// is asked to accept the one data connection.
pub open spec fn list_request_transition(pre: SessionView, post: SessionView, r: CmdOutcome) -> bool {
    if !is_authenticated(pre.login) {
        post == pre && (r matches CmdOutcome::Reply(resp) && resp_default(
            resp,
            ResponseKind::NotLoggedIn530,
        ))
    } else {
        match pre.transfer {
            TransferMode::NotSpecified => post == pre && (r matches CmdOutcome::Reply(resp)
                && resp_default(resp, ResponseKind::NoTransferMode425)),
            TransferMode::Pasv(p) => post.login == pre.login && post.transfer
                == TransferMode::NotSpecified && (r matches CmdOutcome::AcceptTransfer(q) && q
                == p),
        }
    }
}

impl Session {
    /// A fresh session: not logged in, no transfer mode set up.
    pub fn new() -> (s: Session)
        ensures
            s@.login is Unloggedin,
            s@.transfer == TransferMode::NotSpecified,
    {
        Session { login_status: LoginStatus::Unloggedin, transfer_mode: TransferMode::NotSpecified }
    }

    /// The session is in the logged-in state.
    pub fn is_logged_in(&self) -> (r: bool)
        ensures
            r == is_authenticated(self@.login),
    {
        match &self.login_status {
            LoginStatus::Loggedin(_) => true,
            _ => false,
        }
    }

    /// QUIT: answer goodbye and close the connection; the sole normal exit.
    pub fn exec_quit(&self) -> (r: CmdOutcome)
        ensures
            r matches CmdOutcome::ReplyThenClose(resp) && resp_default(
                resp,
                ResponseKind::Goodbye221,
            ),
    {
        CmdOutcome::ReplyThenClose(Response::with_default(ResponseKind::Goodbye221))
    }

    /// USER: record the username and ask for the password; a logged-in
    /// session keeps its user and is refused the change.
    pub fn exec_user(&mut self, args: Vec<String>) -> (r: Response)
        requires
            args@.len() >= 1,
        ensures
            final(self)@.transfer == old(self)@.transfer,
            final(self)@.login == user_step(old(self)@.login, args.deep_view()[0]),
            user_reply(old(self)@.login, r),
    {
        match &self.login_status {
            LoginStatus::Loggedin(_) => Response::new(
                ResponseKind::NotLoggedIn530,
                "Can't change to another user.",
            ),
            _ => {
                self.login_status = LoginStatus::Username(args[0].clone());
                Response::with_default(ResponseKind::NeedPassword331)
            },
        }
    }

    /// PASS: check the secret against the username given just before; valid
    /// logs the session in, invalid drops it back to unauthenticated. Out of
    /// sequence or already logged in, nothing moves.
    pub fn exec_pass(&mut self, args: Vec<String>) -> (r: Response)
        requires
            args@.len() >= 1,
        ensures
            final(self)@.transfer == old(self)@.transfer,
            final(self)@.login == pass_step(old(self)@.login, args.deep_view()[0]),
            pass_reply(old(self)@.login, args.deep_view()[0], r),
    {
        match &self.login_status {
            LoginStatus::Unloggedin => Response::new(
                ResponseKind::WrongSequence503,
                "Login with USER first.",
            ),
            LoginStatus::Loggedin(_) => Response::new(
                ResponseKind::LoginOk230,
                "Already logged in.",
            ),
            LoginStatus::Username(u) => {
                let name = u.clone();
                if fake_user_valid(name.as_str(), args[0].as_str()) {
                    self.login_status = LoginStatus::Loggedin(name);
                    Response::with_default(ResponseKind::LoginOk230)
                } else {
                    self.login_status = LoginStatus::Unloggedin;
                    Response::new(ResponseKind::NotLoggedIn530, "Login incorrect.")
                }
            },
        }
    }

    /// PORT: active transfer mode is a documented non-goal; always refused as
    /// not implemented, touching nothing.
    pub fn exec_port(&self) -> (r: Response)
        ensures
            resp_default(r, ResponseKind::NotImplemented502),
    {
        Response::with_default(ResponseKind::NotImplemented502)
    }

    /// PASV: requires the logged-in state; picks an unused ephemeral port and
    /// asks the caller to bind it. When no port can be picked, the session is
    /// answered service-unavailable and closed.
    pub fn exec_pasv(&self) -> (r: CmdOutcome)
        ensures
            pasv_request_outcome(self@.login, r),
    {
        if !self.is_logged_in() {
            return CmdOutcome::Reply(Response::with_default(ResponseKind::NotLoggedIn530));
        }
        match pick_unused_port() {
            Some(port) => CmdOutcome::BindPassive(port),
            None => CmdOutcome::ReplyThenClose(
                Response::with_default(ResponseKind::ServiceUnavailable421),
            ),
        }
    }

    /// Completes PASV once the caller tried to bind the picked port. A
    /// successful bind replaces any earlier passive listener — the caller
    /// discards its handle — and is answered with the address tuple; a failed
    /// bind is fatal: service-unavailable, then close.
    pub fn exec_pasv_complete(&mut self, port: u16, bound: bool) -> (r: CmdOutcome)
        requires
            is_authenticated(old(self)@.login),
        ensures
            final(self)@.login == old(self)@.login,
            bound ==> final(self)@.transfer == TransferMode::Pasv(port) && (r matches
                CmdOutcome::Reply(resp) && resp_text(
                resp,
                ResponseKind::PassiveMode227,
                spec_pasv_text(port),
            )),
            !bound ==> final(self)@.transfer == old(self)@.transfer && (r matches
                CmdOutcome::ReplyThenClose(resp) && resp_default(
                resp,
                ResponseKind::ServiceUnavailable421,
            )),
    {
        if bound {
            self.transfer_mode = TransferMode::Pasv(port);
            let text = pasv_reply_text(port);
            CmdOutcome::Reply(Response::new(ResponseKind::PassiveMode227, text.as_str()))
        } else {
            CmdOutcome::ReplyThenClose(Response::with_default(ResponseKind::ServiceUnavailable421))
        }
    }

    /// LIST: requires the logged-in state and a passive listener. The mode is
    /// taken and reset to not-specified before anything else, so a listener
    /// can never serve twice; the caller is then asked to accept the one data
    /// connection on it.
    pub fn exec_list(&mut self) -> (r: CmdOutcome)
        ensures
            list_request_transition(old(self)@, final(self)@, r),
    {
        if !self.is_logged_in() {
            return CmdOutcome::Reply(Response::with_default(ResponseKind::NotLoggedIn530));
        }
        match self.transfer_mode {
            TransferMode::NotSpecified => CmdOutcome::Reply(
                Response::with_default(ResponseKind::NoTransferMode425),
            ),
            TransferMode::Pasv(port) => {
                self.transfer_mode = TransferMode::NotSpecified;
                CmdOutcome::AcceptTransfer(port)
            },
        }
    }

    /// Completes LIST once the caller tried to accept the data connection: a
    /// completed transfer is answered transfer-done; a failed accept is
    /// fatal: service-unavailable, then close.
    pub fn exec_list_complete(accepted: bool) -> (r: CmdOutcome)
        ensures
            accepted ==> (r matches CmdOutcome::Reply(resp) && resp_default(
                resp,
                ResponseKind::TransferDone226,
            )),
            !accepted ==> (r matches CmdOutcome::ReplyThenClose(resp) && resp_default(
                resp,
                ResponseKind::ServiceUnavailable421,
            )),
    {
        if accepted {
            CmdOutcome::Reply(Response::with_default(ResponseKind::TransferDone226))
        } else {
            CmdOutcome::ReplyThenClose(Response::with_default(ResponseKind::ServiceUnavailable421))
        }
    }

    /// Dispatches one parsed command to its handler. The placeholder
    /// two-argument verb exists for the parser alone and is never dispatched.
    pub fn exec_cmd(&mut self, cmd: Command) -> (r: CmdOutcome)
        requires
            !(cmd matches Command::FakeCmdWithTwoArg(_)),
            cmd matches Command::User(args) ==> args@.len() >= 1,
            cmd matches Command::Pass(args) ==> args@.len() >= 1,
        ensures
            cmd matches Command::Quit(_) ==> final(self)@ == old(self)@ && (r matches
                CmdOutcome::ReplyThenClose(resp) && resp_default(resp, ResponseKind::Goodbye221)),
            cmd matches Command::User(args) ==> final(self)@.transfer == old(self)@.transfer
                && final(self)@.login == user_step(old(self)@.login, args.deep_view()[0]) && (r
                matches CmdOutcome::Reply(resp) && user_reply(old(self)@.login, resp)),
            cmd matches Command::Pass(args) ==> final(self)@.transfer == old(self)@.transfer
                && final(self)@.login == pass_step(old(self)@.login, args.deep_view()[0]) && (r
                matches CmdOutcome::Reply(resp) && pass_reply(
                old(self)@.login,
                args.deep_view()[0],
                resp,
            )),
            cmd matches Command::Port(_) ==> final(self)@ == old(self)@ && (r matches
                CmdOutcome::Reply(resp) && resp_default(resp, ResponseKind::NotImplemented502)),
            cmd matches Command::Pasv(_) ==> final(self)@ == old(self)@ && pasv_request_outcome(
                old(self)@.login,
                r,
            ),
            cmd matches Command::List(_) ==> list_request_transition(old(self)@, final(self)@, r),
    {
        match cmd {
            Command::Quit(_) => self.exec_quit(),
            Command::User(args) => CmdOutcome::Reply(self.exec_user(args)),
            Command::Pass(args) => CmdOutcome::Reply(self.exec_pass(args)),
            Command::FakeCmdWithTwoArg(_) => unreached(),
            Command::Pasv(_) => self.exec_pasv(),
            Command::Port(_) => CmdOutcome::Reply(self.exec_port()),
            Command::List(_) => self.exec_list(),
        }
    }
}

/// A USER command never authenticates: from any state short of logged-in it
/// lands on awaiting-password with the given name.
pub proof fn lemma_user_step_never_authenticates(l: LoginView, name: Seq<char>)
    requires
        !(l is Loggedin),
    ensures
        user_step(l, name) == LoginView::Username(name),
{
}

/// The only move into the logged-in state is a PASS carrying the secret that
/// matches the username given just before.
pub proof fn lemma_only_valid_pass_authenticates(l: LoginView, password: Seq<char>)
    requires
        !(l is Loggedin),
        pass_step(l, password) is Loggedin,
    ensures
        l matches LoginView::Username(u) && spec_user_valid(u, password) && pass_step(l, password)
            == LoginView::Loggedin(u),
{
}

/// One USER or PASS command, as the login-sequence law speaks of it.
pub enum AuthCmd {
    User(Seq<char>),
    Pass(Seq<char>),
}

/// How one USER or PASS command moves the login state.
pub open spec fn auth_step(l: LoginView, c: AuthCmd) -> LoginView {
    match c {
        AuthCmd::User(name) => user_step(l, name),
        AuthCmd::Pass(password) => pass_step(l, password),
    }
}

/// The login state after a sequence of USER and PASS commands.
pub open spec fn run_auth(l: LoginView, cs: Seq<AuthCmd>) -> LoginView
    decreases cs.len(),
{
    if cs.len() == 0 {
        l
    } else {
        run_auth(auth_step(l, cs[0]), cs.drop_first())
    }
}

/// At position `i` the sequence holds a USER command immediately followed by
/// a PASS command whose secret matches that username.
pub open spec fn valid_pair_at(cs: Seq<AuthCmd>, i: int) -> bool {
    0 <= i && i + 1 < cs.len() && (cs[i] matches AuthCmd::User(u) && (cs[i + 1] matches
        AuthCmd::Pass(p) && spec_user_valid(u, p)))
}

/// Somewhere in the sequence a USER command is immediately followed by a PASS
/// command whose secret matches that username.
pub open spec fn has_valid_pair(cs: Seq<AuthCmd>) -> bool {
    exists|i: int| valid_pair_at(cs, i)
}

proof fn lemma_run_auth_login_origin(l: LoginView, cs: Seq<AuthCmd>)
    requires
        !(l is Loggedin),
        run_auth(l, cs) is Loggedin,
    ensures
        (l matches LoginView::Username(u) && cs.len() >= 1 && (cs[0] matches AuthCmd::Pass(p)
            && spec_user_valid(u, p))) || has_valid_pair(cs),
    decreases cs.len(),
{
    let l1 = auth_step(l, cs[0]);
    if l1 is Loggedin {
        match cs[0] {
            AuthCmd::User(name) => {
                lemma_user_step_never_authenticates(l, name);
                assert(false);
            },
            AuthCmd::Pass(password) => {
                lemma_only_valid_pass_authenticates(l, password);
            },
        }
    } else {
        lemma_run_auth_login_origin(l1, cs.drop_first());
        if l1 matches LoginView::Username(u) && cs.drop_first().len() >= 1 && (cs.drop_first()[0]
            matches AuthCmd::Pass(p) && spec_user_valid(u, p)) {
            match cs[0] {
                AuthCmd::User(name) => {
                    lemma_user_step_never_authenticates(l, name);
                    assert(valid_pair_at(cs, 0));
                },
                AuthCmd::Pass(password) => {
                    assert(!(pass_step(l, password) matches LoginView::Username(_)));
                    assert(false);
                },
            }
        } else {
            let i = choose|i: int| valid_pair_at(cs.drop_first(), i);
            assert(valid_pair_at(cs, i + 1));
        }
    }
}

/// The login-sequence law: starting unauthenticated, a run of USER and PASS
/// commands reaches the logged-in state only when somewhere in it a USER with
/// a valid name is immediately followed by a PASS with the matching secret;
/// every other ordering stays short of logged-in.
pub proof fn lemma_authentication_needs_valid_user_pass(cs: Seq<AuthCmd>)
    requires
        run_auth(LoginView::Unloggedin, cs) is Loggedin,
    ensures
        has_valid_pair(cs),
{
    lemma_run_auth_login_origin(LoginView::Unloggedin, cs);
}

} // verus!

