//! The closed catalog of numbered responses that the server sends on the
//! control channel, and their canonical wire serialization.
//!
//! Each response kind fixes a numeric code; its message is either a
//! compiled-in default or a caller-supplied override (used for dynamic content
//! such as the passive-mode address tuple). A response serializes as
//! `<code><space><message><CRLF>`, and a message that already ends in CRLF is
//! not terminated a second time.

use vstd::prelude::*;

use crate::text::ends_crlf;
use crate::text::ends_with_crlf;

verus! {

/// The closed set of response kinds, each with its fixed numeric code.
#[derive(Clone, Copy, Debug, PartialEq, Eq, Structural)]
pub enum ResponseKind {
    /// 150: the data connection is open and the payload follows on it.
    DataOpen150,
    /// 220: greeting sent when the control connection is established.
    Greeting220,
    /// 221: goodbye, sent before the server closes the connection on QUIT.
    Goodbye221,
    /// 226: the data transfer finished and the data connection was closed.
    TransferDone226,
    /// 227: entering passive mode, with the advertised address tuple.
    PassiveMode227,
    /// 230: login succeeded, or the user was already logged in.
    LoginOk230,
    /// 331: username accepted, password needed.
    NeedPassword331,
    /// 421: service not available; fatal for the session.
    ServiceUnavailable421,
    /// 425: no transfer mode was set up before a data-transfer command.
    NoTransferMode425,
    /// 500: the command line could not be parsed or the verb is unknown.
    SyntaxError500,
    /// 501: too few arguments for the verb's declared arity.
    BadArity501,
    /// 502: the command is recognised but deliberately not implemented.
    NotImplemented502,
    /// 503: the command is valid but arrived in the wrong order.
    WrongSequence503,
    /// 530: permission denied: not logged in, or the login attempt failed.
    NotLoggedIn530,
    /// 999: catch-all kind with no default message, for caller-supplied text.
    Unknown999,
}

/// The numeric code of a response kind.
pub open spec fn code_of(k: ResponseKind) -> u16 {
    match k {
        ResponseKind::DataOpen150 => 150,
        ResponseKind::Greeting220 => 220,
        ResponseKind::Goodbye221 => 221,
        ResponseKind::TransferDone226 => 226,
        ResponseKind::PassiveMode227 => 227,
        ResponseKind::LoginOk230 => 230,
        ResponseKind::NeedPassword331 => 331,
        ResponseKind::ServiceUnavailable421 => 421,
        ResponseKind::NoTransferMode425 => 425,
        ResponseKind::SyntaxError500 => 500,
        ResponseKind::BadArity501 => 501,
        ResponseKind::NotImplemented502 => 502,
        ResponseKind::WrongSequence503 => 503,
        ResponseKind::NotLoggedIn530 => 530,
        ResponseKind::Unknown999 => 999,
    }
}

/// The numeric code of a response kind, written out in decimal for the wire.
pub open spec fn code_text(k: ResponseKind) -> Seq<char> {
    match k {
        ResponseKind::DataOpen150 => "150"@,
        ResponseKind::Greeting220 => "220"@,
        ResponseKind::Goodbye221 => "221"@,
        ResponseKind::TransferDone226 => "226"@,
        ResponseKind::PassiveMode227 => "227"@,
        ResponseKind::LoginOk230 => "230"@,
        ResponseKind::NeedPassword331 => "331"@,
        ResponseKind::ServiceUnavailable421 => "421"@,
        ResponseKind::NoTransferMode425 => "425"@,
        ResponseKind::SyntaxError500 => "500"@,
        ResponseKind::BadArity501 => "501"@,
        ResponseKind::NotImplemented502 => "502"@,
        ResponseKind::WrongSequence503 => "503"@,
        ResponseKind::NotLoggedIn530 => "530"@,
        ResponseKind::Unknown999 => "999"@,
    }
}

/// The kind has a compiled-in default message. The passive-mode and catch-all
/// kinds carry dynamic content only and have none.
pub open spec fn has_default(k: ResponseKind) -> bool {
    !(k is PassiveMode227 || k is Unknown999)
}

/// The compiled-in default message of a response kind; empty for the kinds
/// that have none.
pub open spec fn default_text(k: ResponseKind) -> Seq<char> {
    match k {
        ResponseKind::DataOpen150 => "150 Here comes the data."@,
        ResponseKind::Greeting220 => "Welcome to the rust FTP Server."@,
        ResponseKind::Goodbye221 => "Goodbye."@,
        ResponseKind::TransferDone226 => "Data transfer finished."@,
        ResponseKind::PassiveMode227 => Seq::<char>::empty(),
        ResponseKind::LoginOk230 => "Login successful."@,
        ResponseKind::NeedPassword331 => "Please specify the password."@,
        ResponseKind::ServiceUnavailable421 => "Service not available, closing control connection."@,
        ResponseKind::NoTransferMode425 => "Use PASV first."@,
        ResponseKind::SyntaxError500 => "Command not executed: syntax error."@,
        ResponseKind::BadArity501 => "Invalid parameters."@,
        ResponseKind::NotImplemented502 => "Command not implemented."@,
        ResponseKind::WrongSequence503 => "Wrong command sequence."@,
        ResponseKind::NotLoggedIn530 => "Please login with USER and PASS."@,
        ResponseKind::Unknown999 => Seq::<char>::empty(),
    }
}

/// A response: a kind (which fixes the code) and an optional override of the
/// kind's default message.
#[derive(Debug)]
pub struct Response {
    pub kind: ResponseKind,
    pub text: Option<String>,
}

/// Every response has a numeric code and a message text.
pub trait ResponseMessage {
    /// The numeric code, as the contracts speak of it.
    spec fn spec_code(&self) -> u16;

    /// The message text, as the contracts speak of it.
    spec fn spec_message(&self) -> Seq<char>;

    /// The numeric code of this response.
    fn code(&self) -> (c: u16)
        ensures
            c == self.spec_code(),
    ;

    /// The message text of this response.
    fn message(&self) -> (m: &str)
        ensures
            m@ == self.spec_message(),
    ;
}

impl Response {
    /// The wire form: the code in decimal, one space, the message, and a CRLF
    /// terminator unless the message already ends in one.
    pub open spec fn spec_serialized(self) -> Seq<char> {
        code_text(self.kind) + seq![' '] + self.spec_message() + if ends_crlf(
            self.spec_message(),
        ) {
            Seq::<char>::empty()
        } else {
            seq!['\r', '\n']
        }
    }

    /// A response of the given kind carrying a caller-supplied message.
    pub fn new(kind: ResponseKind, text: &str) -> (r: Response)
        ensures
            r.kind == kind,
            r.text matches Some(t) && t@ == text@,
    {
        Response { kind, text: Some(String::from_str(text)) }
    }

    /// A response of the given kind carrying its compiled-in default message.
    pub fn with_default(kind: ResponseKind) -> (r: Response)
        ensures
            r.kind == kind,
            r.text is None,
    {
        Response { kind, text: None }
    }

    /// The code written out in decimal, as it opens the wire form.
    fn code_str(&self) -> (r: &'static str)
        ensures
            r@ == code_text(self.kind),
    {
        match self.kind {
            ResponseKind::DataOpen150 => "150",
            ResponseKind::Greeting220 => "220",
            ResponseKind::Goodbye221 => "221",
            ResponseKind::TransferDone226 => "226",
            ResponseKind::PassiveMode227 => "227",
            ResponseKind::LoginOk230 => "230",
            ResponseKind::NeedPassword331 => "331",
            ResponseKind::ServiceUnavailable421 => "421",
            ResponseKind::NoTransferMode425 => "425",
            ResponseKind::SyntaxError500 => "500",
            ResponseKind::BadArity501 => "501",
            ResponseKind::NotImplemented502 => "502",
            ResponseKind::WrongSequence503 => "503",
            ResponseKind::NotLoggedIn530 => "530",
            ResponseKind::Unknown999 => "999",
        }
    }

    /// Serializes the response for the wire: `<code> <message>`, CRLF
    /// terminated, with a message already ending in CRLF left as it is.
    pub fn serialize(&self) -> (s: String)
        ensures
            s@ == self.spec_serialized(),
    {
        let mut s = String::from_str(self.code_str());
        s.append(" ");
        let msg = self.message();
        s.append(msg);
        if !ends_with_crlf(msg) {
            s.append("\r\n");
        }
        proof {
            reveal_strlit(" ");
            reveal_strlit("\r\n");
            assert(s@ =~= self.spec_serialized());
        }
        s
    }
}

impl ResponseMessage for Response {
    open spec fn spec_code(&self) -> u16 {
        code_of(self.kind)
    }

    open spec fn spec_message(&self) -> Seq<char> {
        match self.text {
            Some(t) => t@,
            None => default_text(self.kind),
        }
    }

    fn code(&self) -> (c: u16) {
        match self.kind {
            ResponseKind::DataOpen150 => 150,
            ResponseKind::Greeting220 => 220,
            ResponseKind::Goodbye221 => 221,
            ResponseKind::TransferDone226 => 226,
            ResponseKind::PassiveMode227 => 227,
            ResponseKind::LoginOk230 => 230,
            ResponseKind::NeedPassword331 => 331,
            ResponseKind::ServiceUnavailable421 => 421,
            ResponseKind::NoTransferMode425 => 425,
            ResponseKind::SyntaxError500 => 500,
            ResponseKind::BadArity501 => 501,
            ResponseKind::NotImplemented502 => 502,
            ResponseKind::WrongSequence503 => 503,
            ResponseKind::NotLoggedIn530 => 530,
            ResponseKind::Unknown999 => 999,
        }
    }

    fn message(&self) -> (m: &str) {
        proof {
            reveal_strlit("");
        }
        match &self.text {
            Some(t) => t.as_str(),
            None => match self.kind {
                ResponseKind::DataOpen150 => "150 Here comes the data.",
                ResponseKind::Greeting220 => "Welcome to the rust FTP Server.",
                ResponseKind::Goodbye221 => "Goodbye.",
                ResponseKind::TransferDone226 => "Data transfer finished.",
                ResponseKind::PassiveMode227 => "",
                ResponseKind::LoginOk230 => "Login successful.",
                ResponseKind::NeedPassword331 => "Please specify the password.",
                ResponseKind::ServiceUnavailable421 => "Service not available, closing control connection.",
                ResponseKind::NoTransferMode425 => "Use PASV first.",
                ResponseKind::SyntaxError500 => "Command not executed: syntax error.",
                ResponseKind::BadArity501 => "Invalid parameters.",
                ResponseKind::NotImplemented502 => "Command not implemented.",
                ResponseKind::WrongSequence503 => "Wrong command sequence.",
                ResponseKind::NotLoggedIn530 => "Please login with USER and PASS.",
                ResponseKind::Unknown999 => "",
            },
        }
    }
}

/// The three characters are decimal digits spelling the value `n`.
pub open spec fn is_decimal_code(s: Seq<char>, n: int) -> bool {
    &&& s.len() == 3
    &&& forall|i: int| 0 <= i < 3 ==> '0' <= #[trigger] s[i] && s[i] <= '9'
    &&& (s[0] as int - '0' as int) * 100 + (s[1] as int - '0' as int) * 10 + (s[2] as int
        - '0' as int) == n
}

/// The decimal text that opens every serialized response spells exactly the
/// numeric code of its kind.
pub proof fn lemma_code_text_spells_code(k: ResponseKind)
    ensures
        is_decimal_code(code_text(k), code_of(k) as int),
{
    reveal_strlit("150");
    reveal_strlit("220");
    reveal_strlit("221");
    reveal_strlit("226");
    reveal_strlit("227");
    reveal_strlit("230");
    reveal_strlit("331");
    reveal_strlit("421");
    reveal_strlit("425");
    reveal_strlit("500");
    reveal_strlit("501");
    reveal_strlit("502");
    reveal_strlit("503");
    reveal_strlit("530");
    reveal_strlit("999");
}

} // verus!
