//! Glue to the wire-protocol collaborator, the `mini_redis` crate: its
//! `Frame` is the decoded request/response unit, its `Command` the result of
//! command-grammar parsing. Both are opaque here; this module turns a parsed
//! command into a typed [`Operation`] and a typed [`Response`] into a frame
//! to send. All knowledge of the byte-level framing and of the command
//! grammar stays inside `mini_redis`.

use crate::command::{Operation, Response};
use vstd::prelude::*;
use vstd::string::StringExecFns;

verus! {

#[verifier::external_type_specification]
#[verifier::external_body]
pub struct ExFrame(mini_redis::frame::Frame);

#[verifier::external_type_specification]
#[verifier::external_body]
pub struct ExCommand(mini_redis::cmd::Command);

#[verifier::external_type_specification]
#[verifier::external_body]
pub struct ExGet(mini_redis::cmd::Get);

#[verifier::external_type_specification]
#[verifier::external_body]
pub struct ExSet(mini_redis::cmd::Set);

/// A parsed command with its variants told apart, so that verified code can
/// branch on which command arrived.
pub enum CommandKind {
    Get(mini_redis::cmd::Get),
    Put(mini_redis::cmd::Set),
    Publish,
    Subscribe,
    Unsubscribe,
    Unknown,
}

/// Relies on `mini_redis::Command::from_frame`: parses one decoded frame
/// against the command grammar, returning `Err` (mapped to `None` here) when
/// the frame is not an array of the expected shape; it does not panic.
#[verifier::external_body]
fn parse_command(f: mini_redis::frame::Frame) -> (r: Option<mini_redis::cmd::Command>) {
    match mini_redis::cmd::Command::from_frame(f) {
        Ok(c) => Some(c),
        Err(_) => None,
    }
}

/// Tells the variants of `mini_redis::cmd::Command` apart, one arm each,
/// moving the payloads of the two supported commands.
#[verifier::external_body]
fn split_command(c: mini_redis::cmd::Command) -> (r: CommandKind) {
    match c {
        mini_redis::cmd::Command::Get(g) => CommandKind::Get(g),
        mini_redis::cmd::Command::Set(s) => CommandKind::Put(s),
        mini_redis::cmd::Command::Publish(_) => CommandKind::Publish,
        mini_redis::cmd::Command::Subscribe(_) => CommandKind::Subscribe,
        mini_redis::cmd::Command::Unsubscribe(_) => CommandKind::Unsubscribe,
        mini_redis::cmd::Command::Unknown(_) => CommandKind::Unknown,
    }
}

/// Relies on `mini_redis::cmd::Get::key`: the key the GET names.
#[verifier::external_body]
fn get_key(g: &mini_redis::cmd::Get) -> (r: String) {
    g.key().to_string()
}

/// Relies on `mini_redis::cmd::Set::key`: the key the SET names.
#[verifier::external_body]
fn set_key(s: &mini_redis::cmd::Set) -> (r: String) {
    s.key().to_string()
}

/// Relies on `mini_redis::cmd::Set::value`: the value the SET carries.
#[verifier::external_body]
fn set_value(s: &mini_redis::cmd::Set) -> (r: Vec<u8>) {
    s.value().to_vec()
}

/// Relies on `mini_redis::Frame::Simple`: a frame carrying a status line.
#[verifier::external_body]
fn frame_simple(s: String) -> (r: mini_redis::frame::Frame) {
    mini_redis::frame::Frame::Simple(s)
}

/// Relies on `mini_redis::Frame::Bulk` and `bytes::Bytes::from`: a frame
/// carrying a binary value.
#[verifier::external_body]
fn frame_bulk(v: Vec<u8>) -> (r: mini_redis::frame::Frame) {
    mini_redis::frame::Frame::Bulk(bytes::Bytes::from(v))
}

/// Relies on `mini_redis::Frame::Null`: the absence indicator on the wire.
#[verifier::external_body]
fn frame_null() -> (r: mini_redis::frame::Frame) {
    mini_redis::frame::Frame::Null
}

/// Relies on `mini_redis::Frame::Error`: a frame carrying an error line.
#[verifier::external_body]
fn frame_error(s: String) -> (r: mini_redis::frame::Frame) {
    mini_redis::frame::Frame::Error(s)
}

/// The typed operation a parsed command stands for. The two supported
/// commands keep their key and value; every other command becomes an
/// `Operation::Other` named after the command family, since the collaborator
/// does not expose an unknown command's original name.
pub fn operation_of_command(c: mini_redis::cmd::Command) -> (r: Operation) {
    match split_command(c) {
        CommandKind::Get(g) => Operation::Get { key: get_key(&g) },
        CommandKind::Put(s) => Operation::Put { key: set_key(&s), value: set_value(&s) },
        CommandKind::Publish => Operation::Other { name: String::from_str("publish") },
        CommandKind::Subscribe => Operation::Other { name: String::from_str("subscribe") },
        CommandKind::Unsubscribe => Operation::Other { name: String::from_str("unsubscribe") },
        CommandKind::Unknown => Operation::Other { name: String::from_str("unknown") },
    }
}

/// Parses one decoded frame into a typed operation, or `None` when the frame
/// does not match the command grammar — the condition that terminates the
/// connection. The frame is opaque here, so which case holds is decided
/// entirely by the collaborator; everything after this point is verified for
/// every outcome.
pub fn decode_operation(f: mini_redis::frame::Frame) -> (r: Option<Operation>) {
    match parse_command(f) {
        Some(c) => Some(operation_of_command(c)),
        None => None,
    }
}

/// Turns one typed response into the frame to send, variant for variant.
pub fn encode_response(r: Response) -> (f: mini_redis::frame::Frame) {
    match r {
        Response::Simple(s) => frame_simple(s),
        Response::Bulk(v) => frame_bulk(v),
        Response::Null => frame_null(),
        Response::Error(s) => frame_error(s),
    }
}

} // verus!
