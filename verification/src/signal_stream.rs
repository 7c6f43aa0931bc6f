//! The per-subscriber signal filter. A stream watches one selection
//! `{destination, path, interface, optional member}`; it accepts a signal
//! only when its sender is the unique name currently known to own the
//! destination. The reply to the stream's `GetNameOwner` query seeds that
//! expectation, and `NameOwnerChanged` keeps it current, in lock-step with
//! the filtering itself.

use vstd::prelude::*;
use vstd::string::StringExecFns;
use crate::Error;
use crate::message::{Body, Message, MsgType};
use crate::names::{str_eq, BusName};

verus! {

/// The characters of an optional name.
pub open spec fn opt_str_view(o: Option<String>) -> Option<Seq<char>> {
    match o {
        Some(s) => Some(s@),
        None => None,
    }
}

/// The match expression for one signal selection.
pub open spec fn signal_expr_seq(
    dest: Seq<char>,
    path: Seq<char>,
    interface: Seq<char>,
    member: Option<Seq<char>>,
) -> Seq<char> {
    let base = "type='signal',sender='"@ + dest + "',path='"@ + path + "',interface='"@ + interface
        + "'"@;
    match member {
        Some(m) => base + ",member='"@ + m + "'"@,
        None => base,
    }
}

/// Builds the match expression for one signal selection.
pub fn signal_match_expr(dest: &str, path: &str, interface: &str, member: &Option<String>) -> (r:
    String)
    ensures
        r@ == signal_expr_seq(dest@, path@, interface@, opt_str_view(*member)),
{
    let mut e = String::from_str("type='signal',sender='");
    e.append(dest);
    e.append("',path='");
    e.append(path);
    e.append("',interface='");
    e.append(interface);
    e.append("'");
    match member {
        Some(m) => {
            e.append(",member='");
            e.append(m.as_str());
            e.append("'");
        },
        None => {},
    }
    e
}

/// The match expression that watches `NameOwnerChanged` for one name.
pub open spec fn name_watch_expr_seq(name: Seq<char>) -> Seq<char> {
    "type='signal',sender='org.freedesktop.DBus',path='/org/freedesktop/DBus',interface='org.freedesktop.DBus',member='NameOwnerChanged',arg0='"@
        + name + "'"@
}

/// Builds the match expression that watches `NameOwnerChanged` for a
/// well-known name.
pub fn name_watch_expr(name: &str) -> (r: String)
    ensures
        r@ == name_watch_expr_seq(name@),
{
    let mut e = String::from_str(
        "type='signal',sender='org.freedesktop.DBus',path='/org/freedesktop/DBus',interface='org.freedesktop.DBus',member='NameOwnerChanged',arg0='",
    );
    e.append(name);
    e.append("'");
    e
}

/// The filtering state of one signal stream.
pub struct SignalStream {
    /// The selected object path.
    pub path: String,
    /// The selected interface.
    pub interface: String,
    /// The selected member; `None` selects every signal of the interface.
    pub member: Option<String>,
    /// The match expression installed for this stream.
    pub expr: String,
    /// The destination, when it is a well-known name.
    pub src_bus_name: Option<String>,
    /// The serial of the pending `GetNameOwner` call, until its reply.
    pub src_query: Option<u32>,
    /// The unique name currently expected as sender.
    pub src_unique_name: Option<String>,
}

/// The message has the shape of the bus daemon's `NameOwnerChanged`
/// signal: right member, interface, path, and the daemon as sender.
pub open spec fn is_owner_change_notice(msg: Message) -> bool {
    &&& msg.msg_type is Signal
    &&& (msg.member matches Some(m) && m@ == "NameOwnerChanged"@)
    &&& (msg.interface matches Some(i) && i@ == "org.freedesktop.DBus"@)
    &&& (msg.path matches Some(p) && p@ == "/org/freedesktop/DBus"@)
    &&& (msg.sender matches Some(s) && s@ == "org.freedesktop.DBus"@)
}

impl SignalStream {
    /// The message's member, path and interface fit the selection.
    pub open spec fn selection_matches(&self, msg: Message) -> bool {
        &&& (self.member matches Some(f) ==> (msg.member matches Some(m) && m@ == f@))
        &&& (msg.path matches Some(p) && p@ == self.path@)
        &&& (msg.interface matches Some(i) && i@ == self.interface@)
    }

    /// The message's sender is exactly the expected unique name; absent
    /// senders are accepted only while no owner is expected, as on a
    /// peer-to-peer link.
    pub open spec fn sender_expected(&self, msg: Message) -> bool {
        match msg.sender {
            Some(a) => self.src_unique_name matches Some(b) && a@ == b@,
            None => self.src_unique_name is None,
        }
    }

    /// The filter lets this message through: a signal of the selection,
    /// from the expected sender.
    pub open spec fn emits(&self, msg: Message) -> bool {
        &&& msg.msg_type is Signal
        &&& self.selection_matches(msg)
        &&& self.sender_expected(msg)
    }

    /// The message is the reply to the stream's pending `GetNameOwner`.
    pub open spec fn seeds_query(&self, msg: Message) -> bool {
        &&& msg.msg_type is MethodReturn
        &&& self.src_query is Some
        &&& msg.reply_serial == self.src_query
    }

    /// The reply that should seed the owner carries no name string.
    pub open spec fn seed_malformed(&self, msg: Message) -> bool {
        self.seeds_query(msg) && !(msg.body is Str)
    }

    /// A non-emitted `NameOwnerChanged` of a stream that watches a
    /// well-known name: the owner may have to be updated.
    pub open spec fn owner_update_due(&self, msg: Message) -> bool {
        &&& msg.msg_type is Signal
        &&& !self.emits(msg)
        &&& is_owner_change_notice(msg)
        &&& self.src_bus_name is Some
    }

    /// The owner-change notice does not carry an owner-change body.
    pub open spec fn owner_update_malformed(&self, msg: Message) -> bool {
        self.owner_update_due(msg) && !(msg.body is OwnerChange)
    }

    /// The notice is about the watched name, so the expectation changes.
    pub open spec fn owner_update_applies(&self, msg: Message) -> bool {
        &&& self.owner_update_due(msg)
        &&& (msg.body matches Body::OwnerChange { name, .. } && (self.src_bus_name matches Some(b)
            && name@ == b@))
    }

    /// A stream for one selection. A well-known destination starts
    /// unseeded, with the serial of the `GetNameOwner` call the caller
    /// sent; a unique destination is its own expected sender.
    pub fn new(
        destination: &BusName,
        path: String,
        interface: String,
        member: Option<String>,
        owner_query_serial: Option<u32>,
    ) -> (r: SignalStream)
        requires
            (destination matches BusName::WellKnown(_)) <==> owner_query_serial is Some,
        ensures
            r.path == path,
            r.interface == interface,
            r.member == member,
            r.expr@ == signal_expr_seq(destination.name_seq(), path@, interface@, opt_str_view(member)),
            destination matches BusName::Unique(u) ==> ((r.src_unique_name matches Some(x) && x@
                == u@) && r.src_bus_name is None && r.src_query is None),
            destination matches BusName::WellKnown(w) ==> ((r.src_bus_name matches Some(x) && x@
                == w@) && r.src_unique_name is None && r.src_query == owner_query_serial),
    {
        let expr = signal_match_expr(destination.as_str(), path.as_str(), interface.as_str(), &member);
        match destination {
            BusName::Unique(u) => SignalStream {
                path,
                interface,
                member,
                expr,
                src_bus_name: None,
                src_query: None,
                src_unique_name: Some(u.clone()),
            },
            BusName::WellKnown(w) => SignalStream {
                path,
                interface,
                member,
                expr,
                src_bus_name: Some(w.clone()),
                src_query: owner_query_serial,
                src_unique_name: None,
            },
        }
    }

    /// Decides whether one inbound message is emitted, and keeps the
    /// expected owner current.
    ///
    /// A message is emitted exactly when it is a signal of the selection
    /// whose sender is the currently expected owner — so no message with
    /// a spoofed sender ever comes out. The reply to the pending
    /// `GetNameOwner` seeds the expectation; a `NameOwnerChanged` for the
    /// watched name replaces it. Both updates happen in lock-step with
    /// the filtering: the expectation used for this message is the one
    /// that held when it arrived.
    pub fn filter(&mut self, msg: &Message) -> (r: Result<bool, Error>)
        ensures
            final(self).path == old(self).path,
            final(self).interface == old(self).interface,
            final(self).member == old(self).member,
            final(self).expr == old(self).expr,
            final(self).src_bus_name == old(self).src_bus_name,
            (r matches Ok(true)) <==> old(self).emits(*msg),
            (r is Err) <==> (old(self).seed_malformed(*msg) || old(self).owner_update_malformed(
                *msg,
            )),
            r matches Err(e) ==> e == Error::Protocol,
            old(self).seeds_query(*msg) ==> final(self).src_query is None,
            !old(self).seeds_query(*msg) ==> final(self).src_query == old(self).src_query,
            old(self).seeds_query(*msg) ==> (msg.body matches Body::Str(n) ==> (final(self).src_unique_name matches Some(u) && u@ == n@)),
            old(self).owner_update_applies(*msg) ==> (msg.body matches Body::OwnerChange {
                new_owner,
                ..
            } ==> opt_str_view(final(self).src_unique_name) == opt_str_view(new_owner)),
            !old(self).seeds_query(*msg) && !old(self).owner_update_applies(*msg) ==> final(self).src_unique_name == old(self).src_unique_name,
            old(self).seed_malformed(*msg) ==> final(self).src_unique_name == old(self).src_unique_name,
    {
        if matches!(msg.msg_type, MsgType::MethodReturn) && self.src_query.is_some()
            && opt_serial_eq(&msg.reply_serial, &self.src_query) {
            self.src_query = None;
            match &msg.body {
                Body::Str(name) => {
                    self.src_unique_name = Some(name.clone());
                },
                _ => {
                    return Err(Error::Protocol);
                },
            }
        }
        if !matches!(msg.msg_type, MsgType::Signal) {
            return Ok(false);
        }
        let member_ok = match &self.member {
            Some(f) => match &msg.member {
                Some(m) => str_eq(m.as_str(), f.as_str()),
                None => false,
            },
            None => true,
        };
        let path_ok = match &msg.path {
            Some(p) => str_eq(p.as_str(), self.path.as_str()),
            None => false,
        };
        let iface_ok = match &msg.interface {
            Some(i) => str_eq(i.as_str(), self.interface.as_str()),
            None => false,
        };
        if member_ok && path_ok && iface_ok {
            let sender_ok = match &msg.sender {
                Some(a) => match &self.src_unique_name {
                    Some(b) => str_eq(a.as_str(), b.as_str()),
                    None => false,
                },
                None => self.src_unique_name.is_none(),
            };
            if sender_ok {
                return Ok(true);
            }
        }
        match &self.src_bus_name {
            Some(bus_name) => {
                let notice = (match &msg.member {
                    Some(m) => str_eq(m.as_str(), "NameOwnerChanged"),
                    None => false,
                }) && (match &msg.interface {
                    Some(i) => str_eq(i.as_str(), "org.freedesktop.DBus"),
                    None => false,
                }) && (match &msg.path {
                    Some(p) => str_eq(p.as_str(), "/org/freedesktop/DBus"),
                    None => false,
                }) && (match &msg.sender {
                    Some(s) => str_eq(s.as_str(), "org.freedesktop.DBus"),
                    None => false,
                });
                if notice {
                    match &msg.body {
                        Body::OwnerChange { name, old_owner: _, new_owner } => {
                            if str_eq(name.as_str(), bus_name.as_str()) {
                                self.src_unique_name = match new_owner {
                                    Some(n) => Some(n.clone()),
                                    None => None,
                                };
                            }
                        },
                        _ => {
                            return Err(Error::Protocol);
                        },
                    }
                }
            },
            None => {},
        }
        Ok(false)
    }
}

/// Two optional serials hold the same number.
fn opt_serial_eq(a: &Option<u32>, b: &Option<u32>) -> (r: bool)
    ensures
        r == (a == b),
{
    match (a, b) {
        (Some(x), Some(y)) => *x == *y,
        (None, None) => true,
        _ => false,
    }
}

/// No spoofing: a message the filter emits is a signal of the stream's
/// selection whose sender is exactly the owner the stream currently
/// expects for its destination.
pub proof fn lemma_emitted_sender_is_expected_owner(s: SignalStream, msg: Message)
    requires
        s.emits(msg),
    ensures
        s.sender_expected(msg),
        msg.msg_type is Signal,
        s.selection_matches(msg),
{
}

} // verus!
