//! Control-channel protocol engine of a minimal file-transfer server.
//!
//! The crate is organised around three verified components:
//! - [`command`]: a line parser that tokenizes a raw command line, resolves the
//!   verb case-insensitively against the table of supported commands, and
//!   enforces each verb's declared arity;
//! - [`response`]: the closed catalog of numbered responses together with their
//!   canonical wire serialization `<code> <message>\r\n`;
//! - [`session`]: the per-connection state machine holding the login state and
//!   the passive transfer mode, and the dispatcher that maps a parsed command
//!   to its outcome.
//!
//! The engine itself performs no I/O: callers read lines, bind listeners and
//! accept data connections, and hand the outcomes back to the state machine.

pub mod command;
pub mod response;
pub mod session;
pub mod text;
