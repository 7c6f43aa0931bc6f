//! The core of an asynchronous D-Bus connection: the state machines that
//! multiplex one authenticated socket across concurrent calls, signal
//! subscriptions and a property cache, each with a verified contract.
//!
//! Everything here is sans-I/O. A connection's decisions — which serial a
//! message gets, whether the fd gate refuses it, which handlers a signal
//! starts, when a match expression is reserved or released with the bus,
//! which sender a stream may trust, what the property cache shows — are
//! taken by these types over plain values. The loop around them performs
//! the socket reads, the broadcast fan-out and the executor scheduling,
//! and owes the bus exactly the calls these contracts hand back.
//!
//! One outside crate works inside the verified core: `slotmap` keeps the
//! scope's handler table, behind wrappers whose contracts state what the
//! table holds. The wire codec (marshalling, signatures) and the
//! authentication handshake are outside collaborators: messages enter and
//! leave this crate already decoded.

pub mod connection;
pub mod matches;
pub mod message;
pub mod names;
pub mod property_cache;
pub mod proxy;
pub mod scope;
pub mod serial;
pub mod signal_stream;

use vstd::prelude::*;

verus! {

/// Errors that the connection core reports.
///
/// `Io` is fatal for the connection; `Protocol` is per-message and
/// recoverable by discarding the offending message.
#[derive(Clone, Debug, PartialEq, Eq, Structural)]
pub enum Error {
    Io,
    Protocol,
    NameError,
    Unsupported,
    InterfaceNotFound,
    NoReply,
}

impl Error {
    /// A short description, usable where a display string is wanted.
    pub fn describe(&self) -> (r: &'static str)
        ensures
            r@.len() > 0,
    {
        let s: &'static str = match self {
            Error::Io => "I/O error",
            Error::Protocol => "protocol error",
            Error::NameError => "invalid name",
            Error::Unsupported => "operation unsupported by this connection",
            Error::InterfaceNotFound => "interface not found",
            Error::NoReply => "no reply",
        };
        proof {
            reveal_strlit("I/O error");
            reveal_strlit("protocol error");
            reveal_strlit("invalid name");
            reveal_strlit("operation unsupported by this connection");
            reveal_strlit("interface not found");
            reveal_strlit("no reply");
        }
        s
    }
}

} // verus!
