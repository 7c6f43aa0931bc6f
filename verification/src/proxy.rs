//! The client-side interface proxy: one destination, object path and
//! interface, with an optional property cache and the decisions behind
//! signal subscriptions, owner tracking and property access. Awaiting
//! replies and pumping streams is the caller's loop; the messages and
//! state transitions it needs are produced here, with contracts.

use vstd::prelude::*;
use vstd::string::StringExecFns;
use crate::Error;
use crate::connection::Connection;
use crate::matches::BusCall;
use crate::message::{Body, Message, MsgType, PropValue};
use crate::names::{self, BusName};
use crate::property_cache::{get_all_applied, update_applied, PropertiesCache};
use crate::signal_stream::{
    name_watch_expr, name_watch_expr_seq, opt_str_view, signal_expr_seq, SignalStream,
};
use crate::scope::HandlerEntry;

verus! {

/// `RequestName` is sent with replace-existing and do-not-queue.
pub const REQUEST_NAME_FLAGS: u32 = 6;

/// The message is a `GetNameOwner` call to the bus daemon for `name`,
/// stamped with `serial`.
pub open spec fn is_get_name_owner_call(msg: Message, serial: u32, name: Seq<char>) -> bool {
    &&& msg.msg_type is MethodCall
    &&& msg.serial == Some(serial)
    &&& (msg.destination matches Some(d) && d@ == "org.freedesktop.DBus"@)
    &&& (msg.path matches Some(p) && p@ == "/org/freedesktop/DBus"@)
    &&& (msg.interface matches Some(i) && i@ == "org.freedesktop.DBus"@)
    &&& (msg.member matches Some(m) && m@ == "GetNameOwner"@)
    &&& (msg.body matches Body::Str(n) && n@ == name)
}

/// The message is a `Get` or `Set` or `GetAll` call on the standard
/// properties interface, at this path and destination, stamped with
/// `serial`.
pub open spec fn is_properties_call(
    msg: Message,
    serial: u32,
    dest: Seq<char>,
    path: Seq<char>,
    member: Seq<char>,
) -> bool {
    &&& msg.msg_type is MethodCall
    &&& msg.serial == Some(serial)
    &&& (msg.destination matches Some(d) && d@ == dest)
    &&& (msg.path matches Some(p) && p@ == path)
    &&& (msg.interface matches Some(i) && i@ == "org.freedesktop.DBus.Properties"@)
    &&& (msg.member matches Some(m) && m@ == member)
}

/// The names of the bus daemon and of the standard interfaces follow
/// their syntax rules.
proof fn lemma_fdo_literals()
    ensures
        names::valid_well_known_name("org.freedesktop.DBus"@),
        names::valid_interface_name("org.freedesktop.DBus"@),
        names::valid_object_path("/org/freedesktop/DBus"@),
        names::valid_member_name("GetNameOwner"@),
        names::valid_member_name("PropertiesChanged"@),
        names::valid_member_name("Get"@),
        names::valid_member_name("Set"@),
        names::valid_member_name("GetAll"@),
        names::valid_member_name("Introspect"@),
        names::valid_interface_name("org.freedesktop.DBus.Properties"@),
        names::valid_interface_name("org.freedesktop.DBus.Introspectable"@),
{
    reveal_strlit("org.freedesktop.DBus");
    reveal_strlit("/org/freedesktop/DBus");
    reveal_strlit("GetNameOwner");
    reveal_strlit("PropertiesChanged");
    reveal_strlit("Get");
    reveal_strlit("Set");
    reveal_strlit("GetAll");
    reveal_strlit("Introspect");
    reveal_strlit("org.freedesktop.DBus.Properties");
    reveal_strlit("org.freedesktop.DBus.Introspectable");
    assert("org.freedesktop.DBus"@[3] == '.');
    assert(names::valid_name_body("org.freedesktop.DBus"@, 0, false, true));
    assert(names::valid_name_body("org.freedesktop.DBus"@, 0, false, false));
    assert("org.freedesktop.DBus.Properties"@[3] == '.');
    assert(names::valid_name_body("org.freedesktop.DBus.Properties"@, 0, false, false));
    assert("org.freedesktop.DBus.Introspectable"@[3] == '.');
    assert(names::valid_name_body("org.freedesktop.DBus.Introspectable"@, 0, false, false));
}

/// What a property read found: the cached value, or the serial of the
/// `Get` call the caller must now await.
pub enum PropertyLookup {
    Cached(PropValue),
    Fetch(u32),
}

/// A view of `NameOwnerChanged` events for one bus name.
pub struct OwnerChangedStream {
    name: BusName,
}

impl OwnerChangedStream {
    /// The name being tracked.
    pub closed spec fn name_spec(&self) -> BusName {
        self.name
    }

    /// The bus name being tracked.
    pub fn name(&self) -> (r: &BusName)
        ensures
            r == self.name_spec(),
    {
        &self.name
    }

    /// Reads one `NameOwnerChanged` notice: an owner change for the
    /// tracked name yields the new owner (or `None` when the name was
    /// released); anything else yields nothing.
    pub fn filter(&self, msg: &Message) -> (r: Option<Option<String>>)
        ensures
            (r is Some) <==> (crate::signal_stream::is_owner_change_notice(*msg) && (
            msg.body matches Body::OwnerChange { name, .. } && name@ == self.name_spec().name_seq())),
            r matches Some(o) ==> (msg.body matches Body::OwnerChange { new_owner, .. }
                && opt_str_view(o) == opt_str_view(new_owner)),
    {
        let shaped = matches!(msg.msg_type, MsgType::Signal) && (match &msg.member {
            Some(m) => names::str_eq(m.as_str(), "NameOwnerChanged"),
            None => false,
        }) && (match &msg.interface {
            Some(i) => names::str_eq(i.as_str(), "org.freedesktop.DBus"),
            None => false,
        }) && (match &msg.path {
            Some(p) => names::str_eq(p.as_str(), "/org/freedesktop/DBus"),
            None => false,
        }) && (match &msg.sender {
            Some(s) => names::str_eq(s.as_str(), "org.freedesktop.DBus"),
            None => false,
        });
        if !shaped {
            return None;
        }
        match &msg.body {
            Body::OwnerChange { name, old_owner: _, new_owner } => {
                if names::str_eq(name.as_str(), self.name.as_str()) {
                    match new_owner {
                        Some(n) => Some(Some(n.clone())),
                        None => Some(None),
                    }
                } else {
                    None
                }
            },
            _ => None,
        }
    }
}

/// A client-side interface proxy.
pub struct Proxy {
    destination: BusName,
    path: String,
    interface: String,
    cache: Option<PropertiesCache>,
    cache_started: bool,
    dest_name_watcher: Option<String>,
}

impl Proxy {
    /// The destination the proxy talks to.
    pub closed spec fn destination_spec(&self) -> BusName {
        self.destination
    }

    /// The object path.
    pub closed spec fn path_spec(&self) -> Seq<char> {
        self.path@
    }

    /// The interface.
    pub closed spec fn interface_spec(&self) -> Seq<char> {
        self.interface@
    }

    /// The property cache, when caching is enabled.
    pub closed spec fn cache_spec(&self) -> Option<PropertiesCache> {
        self.cache
    }

    /// Whether the cache's background population has been started.
    pub closed spec fn cache_started_spec(&self) -> bool {
        self.cache_started
    }

    /// The installed owner-watch expression, once one exists.
    pub closed spec fn watcher_spec(&self) -> Option<String> {
        self.dest_name_watcher
    }

    /// Valid names throughout, and a well-formed cache where enabled.
    pub open spec fn wf(&self) -> bool {
        &&& self.destination_spec().wf()
        &&& names::valid_object_path(self.path_spec())
        &&& names::valid_interface_name(self.interface_spec())
        &&& (self.cache_spec() matches Some(c) ==> c.wf())
    }

    /// Create a new `Proxy` for the given destination/path/interface.
    /// The proxy is built exactly when each name follows its syntax
    /// rules; with `cache_properties` the property cache starts empty
    /// and unpopulated.
    pub fn new(destination: &str, path: &str, interface: &str, cache_properties: bool) -> (r:
        Result<Proxy, Error>)
        ensures
            (r is Ok) <==> ((names::valid_unique_name(destination@)
                || names::valid_well_known_name(destination@)) && names::valid_object_path(path@)
                && names::valid_interface_name(interface@)),
            r matches Err(e) ==> e == Error::NameError,
            r matches Ok(p) ==> ({
                &&& p.wf()
                &&& p.destination_spec().name_seq() == destination@
                &&& (p.destination_spec() is Unique <==> names::valid_unique_name(destination@))
                &&& p.path_spec() == path@
                &&& p.interface_spec() == interface@
                &&& (p.cache_spec() is Some <==> cache_properties)
                &&& (p.cache_spec() matches Some(c) ==> (c.view_map() == Map::<
                    Seq<char>,
                    Option<(Seq<char>, Seq<u8>)>,
                >::empty() && !c.ready_spec()))
                &&& !p.cache_started_spec()
                &&& p.watcher_spec() is None
            }),
    {
        let dest = match BusName::try_from(destination) {
            Ok(d) => d,
            Err(e) => {
                return Err(e);
            },
        };
        if !names::check_object_path(path) {
            return Err(Error::NameError);
        }
        if !names::check_interface_name(interface) {
            return Err(Error::NameError);
        }
        Ok(
            Proxy {
                destination: dest,
                path: String::from_str(path),
                interface: String::from_str(interface),
                cache: if cache_properties {
                    Some(PropertiesCache::new())
                } else {
                    None
                },
                cache_started: false,
                dest_name_watcher: None,
            },
        )
    }

    /// Create a new `Proxy`, taking ownership of all passed arguments.
    pub fn new_owned(destination: String, path: String, interface: String, cache_properties: bool)
        -> (r: Result<Proxy, Error>)
        ensures
            (r is Ok) <==> ((names::valid_unique_name(destination@)
                || names::valid_well_known_name(destination@)) && names::valid_object_path(path@)
                && names::valid_interface_name(interface@)),
            r matches Err(e) ==> e == Error::NameError,
            r matches Ok(p) ==> (p.wf() && p.destination_spec().name_seq() == destination@
                && p.path_spec() == path@ && p.interface_spec() == interface@ && (
            p.cache_spec() is Some <==> cache_properties)),
    {
        Proxy::new(destination.as_str(), path.as_str(), interface.as_str(), cache_properties)
    }

    /// Get a reference to the destination service name.
    pub fn destination(&self) -> (r: &BusName)
        ensures
            r == self.destination_spec(),
    {
        &self.destination
    }

    /// Get a reference to the object path.
    pub fn path(&self) -> (r: &str)
        ensures
            r@ == self.path_spec(),
    {
        self.path.as_str()
    }

    /// Get a reference to the interface.
    pub fn interface(&self) -> (r: &str)
        ensures
            r@ == self.interface_spec(),
    {
        self.interface.as_str()
    }

    /// Resolves whether the destination needs a bus-side owner watch,
    /// installing it at most once: on a bus connection with a well-known
    /// destination not yet watched, the `NameOwnerChanged` watch for the
    /// name is reserved, and the returned action is the bus call the
    /// caller owes.
    pub fn destination_unique_name(&mut self, conn: &mut Connection) -> (r: BusCall)
        requires
            old(self).wf(),
            old(conn).wf(),
            old(conn).matches_spec().count_of(
                name_watch_expr_seq(old(self).destination_spec().name_seq()),
            ) < u64::MAX,
            old(conn).matches_spec().entries_seq().len() < usize::MAX,
        ensures
            final(self).wf(),
            final(conn).wf(),
            final(self).destination_spec() == old(self).destination_spec(),
            final(self).path_spec() == old(self).path_spec(),
            final(self).interface_spec() == old(self).interface_spec(),
            final(self).cache_spec() == old(self).cache_spec(),
            final(self).cache_started_spec() == old(self).cache_started_spec(),
            !(r is SendRemoveMatch),
            ({
                &&& old(conn).is_bus_spec()
                &&& old(self).destination_spec() is WellKnown
                &&& old(self).watcher_spec() is None
            }) ==> ({
                &&& (final(self).watcher_spec() matches Some(w) && w@ == name_watch_expr_seq(
                    old(self).destination_spec().name_seq(),
                ))
                &&& final(conn).matches_spec().count_of(
                    name_watch_expr_seq(old(self).destination_spec().name_seq()),
                ) == old(conn).matches_spec().count_of(
                    name_watch_expr_seq(old(self).destination_spec().name_seq()),
                ) + 1
                &&& (r is SendAddMatch <==> !old(conn).matches_spec().has_expr(
                    name_watch_expr_seq(old(self).destination_spec().name_seq()),
                ))
            }),
            !({
                &&& old(conn).is_bus_spec()
                &&& old(self).destination_spec() is WellKnown
                &&& old(self).watcher_spec() is None
            }) ==> (r is Nothing && *final(self) == *old(self) && *final(conn) == *old(conn)),
            Connection::config_unchanged(*old(conn), *final(conn)),
            final(conn).scope_spec() == old(conn).scope_spec(),
            final(conn).registered_spec() == old(conn).registered_spec(),
            final(conn).serial_spec() == old(conn).serial_spec(),
            final(conn).out_queue_spec() == old(conn).out_queue_spec(),
            final(conn).pending_removals_spec() == old(conn).pending_removals_spec(),
    {
        if !conn.is_bus() {
            return BusCall::Nothing;
        }
        match &self.destination {
            BusName::WellKnown(w) => {
                if self.dest_name_watcher.is_some() {
                    return BusCall::Nothing;
                }
                let expr = name_watch_expr(w.as_str());
                let action = conn.add_match(expr.clone());
                self.dest_name_watcher = Some(expr);
                action
            },
            BusName::Unique(_) => BusCall::Nothing,
        }
    }

    /// Subscribes to signals of one interface at the proxy's path and
    /// destination: the match expression is reserved with the
    /// connection, a well-known destination is resolved through a
    /// `GetNameOwner` call whose reply will seed the stream, and the
    /// stream's filter starts in the corresponding state.
    fn subscribe(&self, conn: &mut Connection, interface: String, member: Option<String>) -> (r: (
        SignalStream,
        BusCall,
    ))
        requires
            self.wf(),
            old(conn).wf(),
            names::valid_interface_name(interface@),
            (member matches Some(m) ==> names::valid_member_name(m@)),
            old(conn).serial_spec().next_spec() < u32::MAX,
            old(conn).out_queue_spec().len() < usize::MAX,
            old(conn).matches_spec().count_of(
                signal_expr_seq(
                    self.destination_spec().name_seq(),
                    self.path_spec(),
                    interface@,
                    opt_str_view(member),
                ),
            ) < u64::MAX,
            old(conn).matches_spec().entries_seq().len() < usize::MAX,
        ensures
            final(conn).wf(),
            ({
                let stream = r.0;
                let action = r.1;
                &&& stream.path@ == self.path_spec()
                &&& stream.interface@ == interface@
                &&& opt_str_view(stream.member) == opt_str_view(member)
                &&& stream.expr@ == signal_expr_seq(
                    self.destination_spec().name_seq(),
                    self.path_spec(),
                    interface@,
                    opt_str_view(member),
                )
                &&& final(conn).matches_spec().count_of(stream.expr@) == old(conn).matches_spec().count_of(stream.expr@) + 1
                &&& (action is SendAddMatch <==> !old(conn).matches_spec().has_expr(stream.expr@))
                &&& !(action is SendRemoveMatch)
                &&& (self.destination_spec() matches BusName::Unique(u) ==> ((
                stream.src_unique_name matches Some(x) && x@ == u@) && stream.src_query is None
                    && stream.src_bus_name is None && final(conn).out_queue_spec() == old(conn).out_queue_spec() && final(conn).serial_spec() == old(conn).serial_spec()))
                &&& (self.destination_spec() matches BusName::WellKnown(w) ==> ((
                stream.src_bus_name matches Some(x) && x@ == w@) && stream.src_unique_name is None
                    && (stream.src_query matches Some(q) && q == old(conn).serial_spec().next_spec() && final(conn).out_queue_spec().len() == old(conn).out_queue_spec().len() + 1 && is_get_name_owner_call(
                    final(conn).out_queue_spec().last(),
                    q,
                    w@,
                ) && final(conn).out_queue_spec().take(old(conn).out_queue_spec().len() as int)
                    == old(conn).out_queue_spec())))
            }),
            Connection::config_unchanged(*old(conn), *final(conn)),
            final(conn).scope_spec() == old(conn).scope_spec(),
            final(conn).registered_spec() == old(conn).registered_spec(),
            final(conn).pending_removals_spec() == old(conn).pending_removals_spec(),
    {
        proof {
            lemma_fdo_literals();
        }
        let expr = crate::signal_stream::signal_match_expr(
            self.destination.as_str(),
            self.path.as_str(),
            interface.as_str(),
            &member,
        );
        let action = conn.add_match(expr.clone());
        let owner_query_serial: Option<u32> = match &self.destination {
            BusName::WellKnown(w) => {
                let serial = match conn.call_method(
                    Some(String::from_str("org.freedesktop.DBus")),
                    String::from_str("/org/freedesktop/DBus"),
                    Some(String::from_str("org.freedesktop.DBus")),
                    String::from_str("GetNameOwner"),
                    Body::Str(w.clone()),
                ) {
                    Ok(s) => s,
                    Err(_) => {
                        proof {
                            assert(false);
                        }
                        0
                    },
                };
                Some(serial)
            },
            BusName::Unique(_) => None,
        };
        let stream = SignalStream::new(
            &self.destination,
            make_owned(self.path.as_str()),
            interface,
            member,
            owner_query_serial,
        );
        (stream, action)
    }

    /// Create a stream for the signal named `signal_name` on the
    /// proxy's own interface.
    pub fn receive_signal(&self, conn: &mut Connection, signal_name: String) -> (r: Result<
        (SignalStream, BusCall),
        Error,
    >)
        requires
            self.wf(),
            old(conn).wf(),
            old(conn).serial_spec().next_spec() < u32::MAX,
            old(conn).out_queue_spec().len() < usize::MAX,
            old(conn).matches_spec().count_of(
                signal_expr_seq(
                    self.destination_spec().name_seq(),
                    self.path_spec(),
                    self.interface_spec(),
                    Some(signal_name@),
                ),
            ) < u64::MAX,
            old(conn).matches_spec().entries_seq().len() < usize::MAX,
        ensures
            final(conn).wf(),
            (r is Ok) <==> names::valid_member_name(signal_name@),
            r matches Err(e) ==> (e == Error::NameError && *final(conn) == *old(conn)),
            r matches Ok(p) ==> (p.0.interface@ == self.interface_spec() && opt_str_view(p.0.member)
                == Some(signal_name@) && p.0.path@ == self.path_spec() && p.0.expr@
                == signal_expr_seq(
                self.destination_spec().name_seq(),
                self.path_spec(),
                self.interface_spec(),
                Some(signal_name@),
            ) && final(conn).matches_spec().count_of(p.0.expr@) == old(conn).matches_spec().count_of(p.0.expr@) + 1 && (p.1 is SendAddMatch <==> !old(conn).matches_spec().has_expr(p.0.expr@)) && (self.destination_spec()
                matches BusName::WellKnown(w) ==> (p.0.src_query matches Some(q)
                && is_get_name_owner_call(final(conn).out_queue_spec().last(), q, w@))) && (
            self.destination_spec() matches BusName::Unique(u) ==> (p.0.src_unique_name
                matches Some(x) && x@ == u@))),
            Connection::config_unchanged(*old(conn), *final(conn)),
            final(conn).scope_spec() == old(conn).scope_spec(),
    {
        if !names::check_member_name(signal_name.as_str()) {
            return Err(Error::NameError);
        }
        let iface = self.interface.clone();
        Ok(self.subscribe(conn, iface, Some(signal_name)))
    }

    /// Create a stream for all signals emitted on the proxy's interface
    /// by this service.
    pub fn receive_all_signals(&self, conn: &mut Connection) -> (r: (SignalStream, BusCall))
        requires
            self.wf(),
            old(conn).wf(),
            old(conn).serial_spec().next_spec() < u32::MAX,
            old(conn).out_queue_spec().len() < usize::MAX,
            old(conn).matches_spec().count_of(
                signal_expr_seq(
                    self.destination_spec().name_seq(),
                    self.path_spec(),
                    self.interface_spec(),
                    None,
                ),
            ) < u64::MAX,
            old(conn).matches_spec().entries_seq().len() < usize::MAX,
        ensures
            final(conn).wf(),
            r.0.interface@ == self.interface_spec(),
            r.0.member is None,
            r.0.path@ == self.path_spec(),
            r.0.expr@ == signal_expr_seq(
                self.destination_spec().name_seq(),
                self.path_spec(),
                self.interface_spec(),
                None,
            ),
            final(conn).matches_spec().count_of(r.0.expr@) == old(conn).matches_spec().count_of(
                r.0.expr@,
            ) + 1,
            r.1 is SendAddMatch <==> !old(conn).matches_spec().has_expr(r.0.expr@),
            Connection::config_unchanged(*old(conn), *final(conn)),
            final(conn).scope_spec() == old(conn).scope_spec(),
    {
        let iface = self.interface.clone();
        self.subscribe(conn, iface, None)
    }

    /// Subscribes to `PropertiesChanged` notifications for this proxy's
    /// path, through the standard properties interface.
    pub fn receive_properties_changed(&self, conn: &mut Connection) -> (r: (SignalStream, BusCall))
        requires
            self.wf(),
            old(conn).wf(),
            old(conn).serial_spec().next_spec() < u32::MAX,
            old(conn).out_queue_spec().len() < usize::MAX,
            old(conn).matches_spec().count_of(
                signal_expr_seq(
                    self.destination_spec().name_seq(),
                    self.path_spec(),
                    "org.freedesktop.DBus.Properties"@,
                    Some("PropertiesChanged"@),
                ),
            ) < u64::MAX,
            old(conn).matches_spec().entries_seq().len() < usize::MAX,
        ensures
            final(conn).wf(),
            r.0.interface@ == "org.freedesktop.DBus.Properties"@,
            opt_str_view(r.0.member) == Some("PropertiesChanged"@),
            r.0.path@ == self.path_spec(),
            final(conn).matches_spec().count_of(r.0.expr@) == old(conn).matches_spec().count_of(
                r.0.expr@,
            ) + 1,
            r.1 is SendAddMatch <==> !old(conn).matches_spec().has_expr(r.0.expr@),
            Connection::config_unchanged(*old(conn), *final(conn)),
            final(conn).scope_spec() == old(conn).scope_spec(),
    {
        proof {
            lemma_fdo_literals();
        }
        self.subscribe(
            conn,
            String::from_str("org.freedesktop.DBus.Properties"),
            Some(String::from_str("PropertiesChanged")),
        )
    }

    /// Starts the property cache's one background population: the
    /// `GetAll` call for the proxy's interface is enqueued, once, and
    /// its serial returned. Without a cache, or once started, nothing
    /// happens.
    pub fn start_property_cache(&mut self, conn: &mut Connection) -> (r: Option<u32>)
        requires
            old(self).wf(),
            old(conn).wf(),
            old(conn).serial_spec().next_spec() < u32::MAX,
            old(conn).out_queue_spec().len() < usize::MAX,
        ensures
            final(self).wf(),
            final(conn).wf(),
            (r is Some) <==> (old(self).cache_spec() is Some && !old(self).cache_started_spec()),
            r matches Some(s) ==> (s == old(conn).serial_spec().next_spec() && final(self).cache_started_spec() && final(conn).out_queue_spec().len() == old(conn).out_queue_spec().len() + 1 && is_properties_call(
                final(conn).out_queue_spec().last(),
                s,
                old(self).destination_spec().name_seq(),
                old(self).path_spec(),
                "GetAll"@,
            ) && (final(conn).out_queue_spec().last().body matches Body::Str(i) && i@ == old(self).interface_spec())),
            r is None ==> (*final(conn) == *old(conn) && *final(self) == *old(self)),
            final(self).cache_spec() == old(self).cache_spec(),
            final(self).destination_spec() == old(self).destination_spec(),
            final(self).path_spec() == old(self).path_spec(),
            final(self).interface_spec() == old(self).interface_spec(),
            final(self).watcher_spec() == old(self).watcher_spec(),
            Connection::config_unchanged(*old(conn), *final(conn)),
            final(conn).scope_spec() == old(conn).scope_spec(),
            final(conn).matches_spec() == old(conn).matches_spec(),
            final(conn).registered_spec() == old(conn).registered_spec(),
            final(conn).pending_removals_spec() == old(conn).pending_removals_spec(),
    {
        if self.cache.is_none() || self.cache_started {
            return None;
        }
        proof {
            lemma_fdo_literals();
        }
        let serial = match conn.call_method(
            Some(make_owned(self.destination.as_str())),
            self.path.clone(),
            Some(String::from_str("org.freedesktop.DBus.Properties")),
            String::from_str("GetAll"),
            Body::Str(self.interface.clone()),
        ) {
            Ok(s) => s,
            Err(_) => {
                proof {
                    assert(false);
                }
                0
            },
        };
        self.cache_started = true;
        Some(serial)
    }

    /// Applies one `PropertiesChanged` notification to the cache, when
    /// a cache exists and the notification is about this proxy's
    /// interface; returns whether it was applied.
    pub fn handle_properties_changed(
        &mut self,
        interface: &str,
        changed: &Vec<(String, PropValue)>,
        invalidated: &Vec<String>,
    ) -> (r: bool)
        requires
            old(self).wf(),
        ensures
            final(self).wf(),
            r == (old(self).cache_spec() is Some && interface@ == old(self).interface_spec()),
            r ==> (old(self).cache_spec() matches Some(c) && (final(self).cache_spec()
                matches Some(c2) && c2.view_map() == update_applied(
                c.view_map(),
                changed@,
                invalidated@,
            ) && c2.ready_spec() == c.ready_spec())),
            !r ==> *final(self) == *old(self),
            final(self).destination_spec() == old(self).destination_spec(),
            final(self).path_spec() == old(self).path_spec(),
            final(self).interface_spec() == old(self).interface_spec(),
            final(self).cache_started_spec() == old(self).cache_started_spec(),
            final(self).watcher_spec() == old(self).watcher_spec(),
    {
        if !names::str_eq(interface, self.interface.as_str()) {
            return false;
        }
        match &mut self.cache {
            Some(c) => {
                c.update_cache(changed, invalidated);
                true
            },
            None => false,
        }
    }

    /// Applies the `GetAll` reply to the cache and marks it populated;
    /// an errored population marks it populated with nothing, so later
    /// readers bypass it. Returns whether a cache existed.
    pub fn handle_get_all_reply(&mut self, values: &Vec<(String, PropValue)>) -> (r: bool)
        requires
            old(self).wf(),
        ensures
            final(self).wf(),
            r == (old(self).cache_spec() is Some),
            r ==> (old(self).cache_spec() matches Some(c) && (final(self).cache_spec()
                matches Some(c2) && c2.view_map() == get_all_applied(c.view_map(), values@)
                && c2.ready_spec())),
            !r ==> *final(self) == *old(self),
            final(self).destination_spec() == old(self).destination_spec(),
            final(self).path_spec() == old(self).path_spec(),
            final(self).interface_spec() == old(self).interface_spec(),
            final(self).cache_started_spec() == old(self).cache_started_spec(),
            final(self).watcher_spec() == old(self).watcher_spec(),
    {
        match &mut self.cache {
            Some(c) => {
                c.apply_get_all(values);
                c.note_ready();
                true
            },
            None => false,
        }
    }

    /// Pre-registers a cache entry for a property whose change stream
    /// is being created, so notifications for it have a place to land.
    pub fn receive_property_changed(&mut self, name: &str)
        requires
            old(self).wf(),
        ensures
            final(self).wf(),
            old(self).cache_spec() matches Some(c) ==> (final(self).cache_spec() matches Some(c2)
                && c2.has_entry(name@) && c2.ready_spec() == c.ready_spec() && (c.has_entry(name@)
                ==> c2.view_map() == c.view_map()) && (!c.has_entry(name@) ==> c2.view_map()
                == c.view_map().insert(name@, None))),
            old(self).cache_spec() is None ==> *final(self) == *old(self),
            final(self).destination_spec() == old(self).destination_spec(),
            final(self).path_spec() == old(self).path_spec(),
            final(self).interface_spec() == old(self).interface_spec(),
            final(self).cache_started_spec() == old(self).cache_started_spec(),
            final(self).watcher_spec() == old(self).watcher_spec(),
    {
        match &mut self.cache {
            Some(c) => {
                c.ensure_entry(name);
            },
            None => {},
        }
    }

    /// Stores the value fetched for an invalidated property.
    pub fn store_fetched_property(&mut self, name: &str, value: PropValue)
        requires
            old(self).wf(),
        ensures
            final(self).wf(),
            old(self).cache_spec() matches Some(c) ==> (final(self).cache_spec() matches Some(c2)
                && c2.view_map() == c.view_map().insert(name@, Some(value@)) && c2.ready_spec()
                == c.ready_spec()),
            old(self).cache_spec() is None ==> *final(self) == *old(self),
            final(self).destination_spec() == old(self).destination_spec(),
            final(self).path_spec() == old(self).path_spec(),
            final(self).interface_spec() == old(self).interface_spec(),
            final(self).cache_started_spec() == old(self).cache_started_spec(),
            final(self).watcher_spec() == old(self).watcher_spec(),
    {
        match &mut self.cache {
            Some(c) => {
                c.store_fetched(name, value);
            },
            None => {},
        }
    }

    /// Get the cached value of the property `property_name`: its stored
    /// value when the cache holds one, and nothing on a miss, an
    /// invalidated entry, or with caching disabled.
    pub fn cached_property(&self, property_name: &str) -> (r: Option<&PropValue>)
        requires
            self.wf(),
        ensures
            (r is Some) <==> (self.cache_spec() matches Some(c) && c.has_entry(property_name@)
                && c.value_of(property_name@) is Some),
            r matches Some(v) ==> (self.cache_spec() matches Some(c) && Some(v@) == c.value_of(
                property_name@,
            )),
    {
        match &self.cache {
            Some(c) => c.cached_property(property_name),
            None => None,
        }
    }

    /// Whether the cache's first population has completed.
    pub fn cache_ready(&self) -> (r: bool)
        ensures
            r == (self.cache_spec() matches Some(c) && c.ready_spec()),
    {
        match &self.cache {
            Some(c) => c.is_ready(),
            None => false,
        }
    }

    /// Get the property `property_name`: the cached value when one is
    /// stored, else the serial of the `Get` call now enqueued for the
    /// caller to await.
    pub fn get_property(&self, conn: &mut Connection, property_name: &str) -> (r: PropertyLookup)
        requires
            self.wf(),
            old(conn).wf(),
            old(conn).serial_spec().next_spec() < u32::MAX,
            old(conn).out_queue_spec().len() < usize::MAX,
        ensures
            final(conn).wf(),
            (r is Cached) <==> (self.cache_spec() matches Some(c) && c.has_entry(property_name@)
                && c.value_of(property_name@) is Some),
            r matches PropertyLookup::Cached(v) ==> ((self.cache_spec() matches Some(c) && Some(v@)
                == c.value_of(property_name@)) && *final(conn) == *old(conn)),
            r matches PropertyLookup::Fetch(s) ==> (s == old(conn).serial_spec().next_spec()
                && final(conn).out_queue_spec().len() == old(conn).out_queue_spec().len() + 1
                && is_properties_call(
                final(conn).out_queue_spec().last(),
                s,
                self.destination_spec().name_seq(),
                self.path_spec(),
                "Get"@,
            ) && (final(conn).out_queue_spec().last().body matches Body::StrPair(i, n) && i@
                == self.interface_spec() && n@ == property_name@)),
            Connection::config_unchanged(*old(conn), *final(conn)),
            final(conn).scope_spec() == old(conn).scope_spec(),
            final(conn).matches_spec() == old(conn).matches_spec(),
    {
        match self.cached_property(property_name) {
            Some(v) => PropertyLookup::Cached(v.clone()),
            None => {
                proof {
                    lemma_fdo_literals();
                }
                let serial = match conn.call_method(
                    Some(make_owned(self.destination.as_str())),
                    self.path.clone(),
                    Some(String::from_str("org.freedesktop.DBus.Properties")),
                    String::from_str("Get"),
                    Body::StrPair(self.interface.clone(), make_owned(property_name)),
                ) {
                    Ok(s) => s,
                    Err(_) => {
                        proof {
                            assert(false);
                        }
                        0
                    },
                };
                PropertyLookup::Fetch(serial)
            },
        }
    }

    /// Set the property `property_name`: the `Set` call on the standard
    /// properties interface is enqueued, and its serial returned.
    pub fn set_property(&self, conn: &mut Connection, property_name: &str, value: PropValue) -> (r:
        u32)
        requires
            self.wf(),
            old(conn).wf(),
            old(conn).serial_spec().next_spec() < u32::MAX,
            old(conn).out_queue_spec().len() < usize::MAX,
        ensures
            final(conn).wf(),
            r == old(conn).serial_spec().next_spec(),
            final(conn).out_queue_spec().len() == old(conn).out_queue_spec().len() + 1,
            is_properties_call(
                final(conn).out_queue_spec().last(),
                r,
                self.destination_spec().name_seq(),
                self.path_spec(),
                "Set"@,
            ),
            final(conn).out_queue_spec().last().body matches Body::PropertySet(i, n, v) && i@
                == self.interface_spec() && n@ == property_name@ && v@ == value@,
            Connection::config_unchanged(*old(conn), *final(conn)),
            final(conn).scope_spec() == old(conn).scope_spec(),
            final(conn).matches_spec() == old(conn).matches_spec(),
    {
        proof {
            lemma_fdo_literals();
        }
        match conn.call_method(
            Some(make_owned(self.destination.as_str())),
            self.path.clone(),
            Some(String::from_str("org.freedesktop.DBus.Properties")),
            String::from_str("Set"),
            Body::PropertySet(self.interface.clone(), make_owned(property_name), value),
        ) {
            Ok(s) => s,
            Err(_) => {
                proof {
                    assert(false);
                }
                0
            },
        }
    }

    /// Call a method on the proxy's own interface: the call message is
    /// enqueued with the proxy's destination, path and interface, and
    /// the serial to await the reply with is returned. The call is
    /// built exactly when the method name follows its syntax rules.
    pub fn call_method(&self, conn: &mut Connection, method_name: String, body: Body) -> (r:
        Result<u32, Error>)
        requires
            self.wf(),
            old(conn).wf(),
            old(conn).serial_spec().next_spec() < u32::MAX,
            old(conn).out_queue_spec().len() < usize::MAX,
        ensures
            final(conn).wf(),
            (r is Ok) <==> names::valid_member_name(method_name@),
            r matches Err(e) ==> (e == Error::NameError && final(conn).out_queue_spec() == old(conn).out_queue_spec() && final(conn).serial_spec() == old(conn).serial_spec()),
            r matches Ok(s) ==> (s == old(conn).serial_spec().next_spec() && final(conn).out_queue_spec().len() == old(conn).out_queue_spec().len() + 1 && ({
                let m = final(conn).out_queue_spec().last();
                &&& m.msg_type is MethodCall
                &&& m.serial == Some(s)
                &&& (m.destination matches Some(d) && d@ == self.destination_spec().name_seq())
                &&& (m.path matches Some(p) && p@ == self.path_spec())
                &&& (m.interface matches Some(i) && i@ == self.interface_spec())
                &&& m.member == Some(method_name)
                &&& m.body == body
                &&& !m.no_reply_expected
            })),
            Connection::config_unchanged(*old(conn), *final(conn)),
            final(conn).scope_spec() == old(conn).scope_spec(),
            final(conn).matches_spec() == old(conn).matches_spec(),
    {
        conn.call_method(
            Some(make_owned(self.destination.as_str())),
            self.path.clone(),
            Some(self.interface.clone()),
            method_name,
            body,
        )
    }

    /// Call a method without expecting a reply: the call goes out with
    /// the no-reply-expected flag set, and nothing is awaited.
    pub fn call_noreply(&self, conn: &mut Connection, method_name: String, body: Body) -> (r:
        Result<(), Error>)
        requires
            self.wf(),
            old(conn).wf(),
            old(conn).serial_spec().next_spec() < u32::MAX,
            old(conn).out_queue_spec().len() < usize::MAX,
        ensures
            final(conn).wf(),
            (r is Ok) <==> names::valid_member_name(method_name@),
            r matches Err(e) ==> (e == Error::NameError && *final(conn) == *old(conn)),
            r is Ok ==> (final(conn).out_queue_spec().len() == old(conn).out_queue_spec().len() + 1
                && ({
                let m = final(conn).out_queue_spec().last();
                &&& m.msg_type is MethodCall
                &&& (m.destination matches Some(d) && d@ == self.destination_spec().name_seq())
                &&& (m.path matches Some(p) && p@ == self.path_spec())
                &&& (m.interface matches Some(i) && i@ == self.interface_spec())
                &&& m.member == Some(method_name)
                &&& m.body == body
                &&& m.no_reply_expected
            })),
            Connection::config_unchanged(*old(conn), *final(conn)),
            final(conn).scope_spec() == old(conn).scope_spec(),
            final(conn).matches_spec() == old(conn).matches_spec(),
    {
        if !names::check_member_name(method_name.as_str()) {
            return Err(Error::NameError);
        }
        let built = Message::method(
            None,
            Some(make_owned(self.destination.as_str())),
            self.path.clone(),
            Some(self.interface.clone()),
            method_name,
            body,
        );
        let mut m = match built {
            Ok(m) => m,
            Err(_) => {
                proof {
                    assert(false);
                }
                return Err(Error::NameError);
            },
        };
        m.no_reply_expected = true;
        match conn.send_message(m) {
            Ok(_) => Ok(()),
            Err(_) => {
                proof {
                    assert(false);
                }
                Err(Error::NameError)
            },
        }
    }

    /// Introspect the associated object: the `Introspect` call is
    /// enqueued and its serial returned; the reply carries the XML
    /// description.
    pub fn introspect(&self, conn: &mut Connection) -> (r: u32)
        requires
            self.wf(),
            old(conn).wf(),
            old(conn).serial_spec().next_spec() < u32::MAX,
            old(conn).out_queue_spec().len() < usize::MAX,
        ensures
            final(conn).wf(),
            r == old(conn).serial_spec().next_spec(),
            final(conn).out_queue_spec().len() == old(conn).out_queue_spec().len() + 1,
            ({
                let m = final(conn).out_queue_spec().last();
                &&& m.msg_type is MethodCall
                &&& m.serial == Some(r)
                &&& (m.destination matches Some(d) && d@ == self.destination_spec().name_seq())
                &&& (m.path matches Some(p) && p@ == self.path_spec())
                &&& (m.interface matches Some(i) && i@ == "org.freedesktop.DBus.Introspectable"@)
                &&& (m.member matches Some(mm) && mm@ == "Introspect"@)
                &&& m.body is Unit
            }),
            Connection::config_unchanged(*old(conn), *final(conn)),
            final(conn).scope_spec() == old(conn).scope_spec(),
            final(conn).matches_spec() == old(conn).matches_spec(),
    {
        proof {
            lemma_fdo_literals();
        }
        match conn.call_method(
            Some(make_owned(self.destination.as_str())),
            self.path.clone(),
            Some(String::from_str("org.freedesktop.DBus.Introspectable")),
            String::from_str("Introspect"),
            Body::Unit,
        ) {
            Ok(s) => s,
            Err(_) => {
                proof {
                    assert(false);
                }
                0
            },
        }
    }

    /// Get a stream of destination owner changes: notices for other
    /// names, and everything that is not a daemon owner-change notice,
    /// are filtered out.
    pub fn receive_owner_changed(&self) -> (r: OwnerChangedStream)
        ensures
            r.name_spec() == self.destination_spec(),
    {
        OwnerChangedStream { name: self.destination.to_owned() }
    }

    /// A handler entry filtering on this proxy's selection, for the
    /// connection's callback scope, together with its match expression.
    pub fn signal_handler_entry(&self, member: Option<String>) -> (r: HandlerEntry)
        requires
            self.wf(),
        ensures
            (r.filter_path matches Some(p) && p@ == self.path_spec()),
            (r.filter_interface matches Some(i) && i@ == self.interface_spec()),
            opt_str_view(r.filter_member) == opt_str_view(member),
            r.match_expr@ == signal_expr_seq(
                self.destination_spec().name_seq(),
                self.path_spec(),
                self.interface_spec(),
                opt_str_view(member),
            ),
    {
        let expr = crate::signal_stream::signal_match_expr(
            self.destination.as_str(),
            self.path.as_str(),
            self.interface.as_str(),
            &member,
        );
        HandlerEntry {
            filter_path: Some(self.path.clone()),
            filter_interface: Some(self.interface.clone()),
            filter_member: member,
            match_expr: expr,
        }
    }
}

/// An owned copy of a string slice.
fn make_owned(s: &str) -> (r: String)
    ensures
        r@ == s@,
{
    String::from_str(s)
}

} // verus!
