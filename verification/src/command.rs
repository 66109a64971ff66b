//! The typed operations a client can request, the responses the server
//! produces, and the command executor: a function from one operation and the
//! shared store to exactly one response.

use crate::store::Store;
use vstd::prelude::*;
use vstd::string::StringExecFns;

verus! {

/// The typed, parsed form of one client request.
#[derive(Debug, Clone, PartialEq, Eq)]
pub enum Operation {
    /// Store `value` under `key`, replacing any earlier value.
    Put { key: String, value: Vec<u8> },
    /// Retrieve the value under `key`; has no side effect.
    Get { key: String },
    /// Any operation outside the supported pair, named for the error message.
    Other { name: String },
}

/// The typed result sent back to a client after executing one operation.
#[derive(Debug, Clone, PartialEq, Eq)]
pub enum Response {
    /// A status line, e.g. `OK` after a successful set.
    Simple(String),
    /// The binary value a get found.
    Bulk(Vec<u8>),
    /// The absence indicator: the requested key was never written.
    Null,
    /// A request-level error, e.g. an unsupported operation.
    Error(String),
}

/// The mathematical form of an `Operation`.
pub enum OpView {
    Put { key: Seq<char>, value: Seq<u8> },
    Get { key: Seq<char> },
    Other { name: Seq<char> },
}

/// The mathematical form of a `Response`.
pub enum ReplyView {
    Simple(Seq<char>),
    Bulk(Seq<u8>),
    Null,
    Error(Seq<char>),
}

impl View for Operation {
    type V = OpView;

    open spec fn view(&self) -> OpView {
        match self {
            Operation::Put { key, value } => OpView::Put { key: key@, value: value@ },
            Operation::Get { key } => OpView::Get { key: key@ },
            Operation::Other { name } => OpView::Other { name: name@ },
        }
    }
}

impl View for Response {
    type V = ReplyView;

    open spec fn view(&self) -> ReplyView {
        match self {
            Response::Simple(s) => ReplyView::Simple(s@),
            Response::Bulk(v) => ReplyView::Bulk(v@),
            Response::Null => ReplyView::Null,
            Response::Error(s) => ReplyView::Error(s@),
        }
    }
}

/// The store contents after one operation: only a set changes the mapping.
pub open spec fn store_after(m: Map<Seq<char>, Seq<u8>>, op: OpView) -> Map<Seq<char>, Seq<u8>> {
    match op {
        OpView::Put { key, value } => m.insert(key, value),
        OpView::Get { .. } => m,
        OpView::Other { .. } => m,
    }
}

/// The error text reported for an operation outside the supported pair.
pub open spec fn unsupported_text(name: Seq<char>) -> Seq<char> {
    "unsupported operation: "@ + name
}

/// The one response an operation earns against store contents `m`.
pub open spec fn reply_of(m: Map<Seq<char>, Seq<u8>>, op: OpView) -> ReplyView {
    match op {
        OpView::Put { .. } => ReplyView::Simple("OK"@),
        OpView::Get { key } => if m.contains_key(key) {
            ReplyView::Bulk(m[key])
        } else {
            ReplyView::Null
        },
        OpView::Other { name } => ReplyView::Error(unsupported_text(name)),
    }
}

/// The command executor: applies one decoded operation to the shared store
/// and produces exactly one response, synchronously.
///
/// A set stores the value and earns `OK`; a get earns the current value or
/// the absence indicator and leaves the store unchanged; an unsupported
/// operation earns a request-level error and leaves the store unchanged, so
/// the connection can stay open. No input fails.
pub fn execute(op: Operation, store: &mut Store) -> (r: Response)
    requires
        old(store).wf(),
    ensures
        final(store).wf(),
        final(store)@ == store_after(old(store)@, op@),
        r@ == reply_of(old(store)@, op@),
{
    match op {
        Operation::Put { key, value } => {
            store.set(key, value);
            Response::Simple(String::from_str("OK"))
        },
        Operation::Get { key } => {
            match store.get(&key) {
                Some(v) => Response::Bulk(v),
                None => Response::Null,
            }
        },
        Operation::Other { name } => {
            Response::Error(String::from_str("unsupported operation: ").concat(name.as_str()))
        },
    }
}

} // verus!
