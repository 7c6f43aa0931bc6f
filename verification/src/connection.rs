//! The connection façade: serial assignment, the outgoing queue with its
//! file-descriptor gate, reply correlation, well-known-name registration,
//! match reservations and the callback scope, composed over one shared
//! state. The socket I/O around it — reading frames, flushing the queue,
//! running the executor — is the caller's loop; every decision it needs
//! stands here with a contract.

use vstd::prelude::*;
use crate::Error;
use crate::matches::{BusCall, MatchRegistry};
use crate::message::{Body, Message, MsgType};
use crate::names;
use crate::scope::{Dispatch, HandlerEntry, Scope};
use crate::serial::SerialAllocator;

verus! {

/// How many inbound messages the broadcast queues by default.
pub const DEFAULT_MAX_QUEUED: usize = 64;

/// The connection's phase, from the authenticated socket onwards.
#[derive(Clone, Copy, Debug, PartialEq, Eq, Structural)]
pub enum ConnState {
    Authenticated,
    Helloing,
    Ready,
    Closed,
}

/// This list of names carries this name.
pub open spec fn name_list_has(s: Seq<String>, n: Seq<char>) -> bool {
    exists|i: int| 0 <= i < s.len() && (#[trigger] s[i])@ == n
}

/// No name appears twice in this list.
pub open spec fn distinct_name_list(s: Seq<String>) -> bool {
    forall|i: int, j: int| 0 <= i < j < s.len() ==> (#[trigger] s[i])@ != (#[trigger] s[j])@
}

/// What a correlated message means for a pending call.
#[derive(Clone, Copy, Debug, PartialEq, Eq, Structural)]
pub enum ReplyOutcome {
    /// Not the reply to this call.
    NotReply,
    /// The successful reply.
    Return,
    /// The remote error reply, to surface as a method error.
    ErrorReply,
}

/// Classifies one inbound message against an outgoing call's serial: the
/// first method return or error whose `reply_serial` equals the serial
/// settles the call; everything else is not its reply.
pub fn classify_reply(msg: &Message, serial: u32) -> (r: ReplyOutcome)
    ensures
        r is Return <==> (msg.msg_type is MethodReturn && msg.reply_serial == Some(serial)),
        r is ErrorReply <==> (msg.msg_type is Error && msg.reply_serial == Some(serial)),
{
    let correlated = match &msg.reply_serial {
        Some(s) => *s == serial,
        None => false,
    };
    if correlated && matches!(msg.msg_type, MsgType::MethodReturn) {
        ReplyOutcome::Return
    } else if correlated && matches!(msg.msg_type, MsgType::Error) {
        ReplyOutcome::ErrorReply
    } else {
        ReplyOutcome::NotReply
    }
}

/// One D-Bus connection's shared state.
pub struct Connection {
    server_guid: String,
    cap_unix_fd: bool,
    bus_conn: bool,
    max_queued: usize,
    state: ConnState,
    unique_name: Option<String>,
    serial: SerialAllocator,
    registered_names: Vec<String>,
    matches: MatchRegistry,
    scope: Scope,
    out_queue: Vec<Message>,
    pending_match_removals: Vec<String>,
}

impl Connection {
    /// The server's GUID.
    pub closed spec fn server_guid_spec(&self) -> Seq<char> {
        self.server_guid@
    }

    /// Whether fd-passing was negotiated.
    pub closed spec fn cap_unix_fd_spec(&self) -> bool {
        self.cap_unix_fd
    }

    /// Whether this is a bus connection (as opposed to peer-to-peer).
    pub closed spec fn is_bus_spec(&self) -> bool {
        self.bus_conn
    }

    /// The inbound queue bound.
    pub closed spec fn max_queued_spec(&self) -> usize {
        self.max_queued
    }

    /// The connection's phase.
    pub closed spec fn state_spec(&self) -> ConnState {
        self.state
    }

    /// The unique name the bus assigned, once `Hello` completed.
    pub closed spec fn unique_name_spec(&self) -> Option<String> {
        self.unique_name
    }

    /// The serial counter.
    pub closed spec fn serial_spec(&self) -> SerialAllocator {
        self.serial
    }

    /// The well-known names registered through this connection.
    pub closed spec fn registered_spec(&self) -> Seq<String> {
        self.registered_names@
    }

    /// The match-expression registry.
    pub closed spec fn matches_spec(&self) -> MatchRegistry {
        self.matches
    }

    /// The connection's default callback scope.
    pub closed spec fn scope_spec(&self) -> Scope {
        self.scope
    }

    /// The messages enqueued for the socket, oldest first.
    pub closed spec fn out_queue_spec(&self) -> Seq<Message> {
        self.out_queue@
    }

    /// Match expressions whose removal was queued from a drop.
    pub closed spec fn pending_removals_spec(&self) -> Seq<String> {
        self.pending_match_removals@
    }

    /// The composed invariant of the connection state.
    pub open spec fn wf(&self) -> bool {
        &&& self.serial_spec().wf()
        &&& self.matches_spec().wf()
        &&& self.scope_spec().wf()
        &&& distinct_name_list(self.registered_spec())
        &&& (self.unique_name_spec() matches Some(u) ==> names::valid_unique_name(u@))
        &&& (!self.is_bus_spec() ==> self.unique_name_spec() is None)
        &&& (self.state_spec() is Helloing ==> self.is_bus_spec())
    }

    /// The configuration and phase did not change between two states.
    pub open spec fn config_unchanged(pre: Connection, post: Connection) -> bool {
        &&& post.server_guid_spec() == pre.server_guid_spec()
        &&& post.cap_unix_fd_spec() == pre.cap_unix_fd_spec()
        &&& post.is_bus_spec() == pre.is_bus_spec()
        &&& post.max_queued_spec() == pre.max_queued_spec()
        &&& post.state_spec() == pre.state_spec()
        &&& post.unique_name_spec() == pre.unique_name_spec()
    }

    /// The registries did not change between two states.
    pub open spec fn registries_unchanged(pre: Connection, post: Connection) -> bool {
        &&& post.registered_spec() == pre.registered_spec()
        &&& post.matches_spec() == pre.matches_spec()
        &&& post.scope_spec() == pre.scope_spec()
        &&& post.pending_removals_spec() == pre.pending_removals_spec()
    }

    /// A fresh connection over an authenticated socket: serials start at
    /// 1, every queue and registry is empty, and a bus connection still
    /// owes the bus its `Hello`.
    pub fn new(server_guid: String, cap_unix_fd: bool, bus_connection: bool) -> (r: Connection)
        ensures
            r.wf(),
            r.server_guid_spec() == server_guid@,
            r.cap_unix_fd_spec() == cap_unix_fd,
            r.is_bus_spec() == bus_connection,
            r.max_queued_spec() == DEFAULT_MAX_QUEUED,
            r.state_spec() == (if bus_connection {
                ConnState::Helloing
            } else {
                ConnState::Ready
            }),
            r.unique_name_spec() is None,
            r.serial_spec().next_spec() == 1,
            r.serial_spec().issued_seq() == Seq::<u32>::empty(),
            r.registered_spec() == Seq::<String>::empty(),
            r.matches_spec().entries_seq() == Seq::<crate::matches::MatchEntry>::empty(),
            r.matches_spec().adds_sent() == 0,
            r.matches_spec().removes_sent() == 0,
            r.scope_spec().handlers_map() == Map::<u64, HandlerEntry>::empty(),
            r.scope_spec().replies_seq() == Seq::<(u32, u64)>::empty(),
            r.out_queue_spec() == Seq::<Message>::empty(),
            r.pending_removals_spec() == Seq::<String>::empty(),
    {
        Connection {
            server_guid,
            cap_unix_fd,
            bus_conn: bus_connection,
            max_queued: DEFAULT_MAX_QUEUED,
            state: if bus_connection {
                ConnState::Helloing
            } else {
                ConnState::Ready
            },
            unique_name: None,
            serial: SerialAllocator::new(),
            registered_names: Vec::new(),
            matches: MatchRegistry::new(),
            scope: Scope::new(),
            out_queue: Vec::new(),
            pending_match_removals: Vec::new(),
        }
    }

    /// Completes the bus `Hello`: records the unique name the bus
    /// assigned, exactly once, and enters the ready phase. The name is
    /// accepted exactly when it has unique-name syntax.
    pub fn complete_hello(&mut self, name: String) -> (r: Result<(), Error>)
        requires
            old(self).wf(),
            old(self).is_bus_spec(),
            old(self).state_spec() is Helloing,
            old(self).unique_name_spec() is None,
        ensures
            final(self).wf(),
            names::valid_unique_name(name@) <==> r is Ok,
            r is Ok ==> (final(self).unique_name_spec() == Some(name) && final(self).state_spec()
                is Ready),
            r matches Err(e) ==> (e == Error::NameError && *final(self) == *old(self)),
            Connection::registries_unchanged(*old(self), *final(self)),
            final(self).serial_spec() == old(self).serial_spec(),
            final(self).out_queue_spec() == old(self).out_queue_spec(),
            final(self).server_guid_spec() == old(self).server_guid_spec(),
            final(self).cap_unix_fd_spec() == old(self).cap_unix_fd_spec(),
            final(self).is_bus_spec() == old(self).is_bus_spec(),
            final(self).max_queued_spec() == old(self).max_queued_spec(),
    {
        if !names::check_unique_name(name.as_str()) {
            return Err(Error::NameError);
        }
        self.unique_name = Some(name);
        self.state = ConnState::Ready;
        Ok(())
    }

    /// Moves the connection to its closed phase, as any raw-connection
    /// I/O error does: from here on the queues are dead letters.
    pub fn close(&mut self)
        requires
            old(self).wf(),
        ensures
            final(self).wf(),
            final(self).state_spec() is Closed,
            final(self).unique_name_spec() == old(self).unique_name_spec(),
            Connection::registries_unchanged(*old(self), *final(self)),
            final(self).serial_spec() == old(self).serial_spec(),
            final(self).out_queue_spec() == old(self).out_queue_spec(),
    {
        self.state = ConnState::Closed;
    }

    /// Checks if `self` is a connection to a message bus.
    pub fn is_bus(&self) -> (r: bool)
        ensures
            r == self.is_bus_spec(),
    {
        self.bus_conn
    }

    /// The unique name as assigned by the message bus, or `None` before
    /// `Hello` completed or outside a bus connection.
    pub fn unique_name(&self) -> (r: Option<&String>)
        ensures
            r matches Some(u) ==> self.unique_name_spec() == Some(*u),
            r is None ==> self.unique_name_spec() is None,
    {
        self.unique_name.as_ref()
    }

    /// Max number of messages to queue.
    pub fn max_queued(&self) -> (r: usize)
        ensures
            r == self.max_queued_spec(),
    {
        self.max_queued
    }

    /// Set the max number of messages to queue.
    pub fn set_max_queued(&mut self, max: usize)
        requires
            old(self).wf(),
        ensures
            final(self).wf(),
            final(self).max_queued_spec() == max,
            final(self).state_spec() == old(self).state_spec(),
            final(self).unique_name_spec() == old(self).unique_name_spec(),
            Connection::registries_unchanged(*old(self), *final(self)),
            final(self).serial_spec() == old(self).serial_spec(),
            final(self).out_queue_spec() == old(self).out_queue_spec(),
    {
        self.max_queued = max;
    }

    /// The server's GUID.
    pub fn server_guid(&self) -> (r: &str)
        ensures
            r@ == self.server_guid_spec(),
    {
        self.server_guid.as_str()
    }

    /// Whether another serial can still be assigned; exhausting the
    /// 32-bit serial space would be undefined on the wire.
    pub fn has_serial_headroom(&self) -> (r: bool)
        ensures
            r == (self.serial_spec().next_spec() < u32::MAX),
    {
        self.serial.peek_next() < u32::MAX
    }

    /// Hands out the next serial number.
    pub fn next_serial(&mut self) -> (r: u32)
        requires
            old(self).wf(),
            old(self).serial_spec().next_spec() < u32::MAX,
        ensures
            final(self).wf(),
            r == old(self).serial_spec().next_spec(),
            final(self).serial_spec().next_spec() == r + 1,
            final(self).serial_spec().issued_seq() == old(self).serial_spec().issued_seq().push(r),
            Connection::config_unchanged(*old(self), *final(self)),
            Connection::registries_unchanged(*old(self), *final(self)),
            final(self).out_queue_spec() == old(self).out_queue_spec(),
    {
        self.serial.next_serial()
    }

    /// Assigns a serial number to `msg` that is unique to this
    /// connection, unless the caller pre-assigned one; either way the
    /// serial now on the message is returned.
    pub fn assign_serial_num(&mut self, msg: &mut Message) -> (r: u32)
        requires
            old(self).wf(),
            old(self).serial_spec().next_spec() < u32::MAX,
        ensures
            final(self).wf(),
            final(msg).serial == Some(r),
            (*final(msg)) == (Message { serial: Some(r), ..*old(msg) }),
            old(msg).serial matches Some(s) ==> (r == s && *final(self) == *old(self)),
            old(msg).serial is None ==> (r == old(self).serial_spec().next_spec() && final(self).serial_spec().issued_seq() == old(self).serial_spec().issued_seq().push(r) && final(self).serial_spec().next_spec() == r + 1),
            Connection::config_unchanged(*old(self), *final(self)),
            Connection::registries_unchanged(*old(self), *final(self)),
            final(self).out_queue_spec() == old(self).out_queue_spec(),
    {
        match &msg.serial {
            Some(s) => *s,
            None => {
                let s = self.serial.next_serial();
                msg.serial = Some(s);
                s
            },
        }
    }

    /// Enqueues a message for the socket, without touching its serial.
    ///
    /// A message that carries file descriptors over a connection that
    /// did not negotiate fd-passing is refused as `Unsupported`, and the
    /// queue is left exactly as it was.
    pub fn start_send(&mut self, msg: Message) -> (r: Result<(), Error>)
        requires
            old(self).wf(),
            old(self).out_queue_spec().len() < usize::MAX,
        ensures
            final(self).wf(),
            (r is Ok) <==> !(msg.n_fds > 0 && !old(self).cap_unix_fd_spec()),
            r is Ok ==> final(self).out_queue_spec() == old(self).out_queue_spec().push(msg),
            r matches Err(e) ==> (e == Error::Unsupported && *final(self) == *old(self)),
            Connection::config_unchanged(*old(self), *final(self)),
            Connection::registries_unchanged(*old(self), *final(self)),
            final(self).serial_spec() == old(self).serial_spec(),
    {
        if msg.n_fds > 0 && !self.cap_unix_fd {
            return Err(Error::Unsupported);
        }
        self.out_queue.push(msg);
        Ok(())
    }

    /// Takes everything enqueued for the socket, leaving the queue
    /// empty; the caller writes and flushes it.
    pub fn take_out_queue(&mut self) -> (r: Vec<Message>)
        requires
            old(self).wf(),
        ensures
            final(self).wf(),
            r@ == old(self).out_queue_spec(),
            final(self).out_queue_spec() == Seq::<Message>::empty(),
            Connection::config_unchanged(*old(self), *final(self)),
            Connection::registries_unchanged(*old(self), *final(self)),
            final(self).serial_spec() == old(self).serial_spec(),
    {
        let mut taken: Vec<Message> = Vec::new();
        core::mem::swap(&mut taken, &mut self.out_queue);
        taken
    }

    /// Send `msg` to the peer: a serial is assigned unless one is
    /// already present, and the message joins the outgoing queue. On
    /// success the serial on the sent message is returned; the
    /// fd-passing gate of [`Connection::start_send`] applies, and a
    /// refused message leaves the queue untouched.
    pub fn send_message(&mut self, msg: Message) -> (r: Result<u32, Error>)
        requires
            old(self).wf(),
            old(self).serial_spec().next_spec() < u32::MAX,
            old(self).out_queue_spec().len() < usize::MAX,
        ensures
            final(self).wf(),
            (r is Ok) <==> !(msg.n_fds > 0 && !old(self).cap_unix_fd_spec()),
            r matches Ok(s) ==> (s == (match msg.serial {
                Some(s0) => s0,
                None => old(self).serial_spec().next_spec(),
            }) && final(self).out_queue_spec() == old(self).out_queue_spec().push(
                (Message { serial: Some(s), ..msg }),
            )),
            r matches Err(e) ==> (e == Error::Unsupported && final(self).out_queue_spec() == old(self).out_queue_spec()),
            msg.serial is None ==> final(self).serial_spec().issued_seq() == old(self).serial_spec().issued_seq().push(
                old(self).serial_spec().next_spec(),
            ),
            msg.serial is Some ==> final(self).serial_spec() == old(self).serial_spec(),
            Connection::config_unchanged(*old(self), *final(self)),
            Connection::registries_unchanged(*old(self), *final(self)),
    {
        let mut msg = msg;
        let serial = self.assign_serial_num(&mut msg);
        match self.start_send(msg) {
            Ok(()) => Ok(serial),
            Err(e) => Err(e),
        }
    }

    /// Send a method call: the call message is built, stamped and
    /// enqueued, and the serial to correlate its reply is returned. The
    /// call is built exactly when every name follows its syntax rules;
    /// the connection's own unique name is the sender.
    pub fn call_method(
        &mut self,
        destination: Option<String>,
        path: String,
        interface: Option<String>,
        method_name: String,
        body: Body,
    ) -> (r: Result<u32, Error>)
        requires
            old(self).wf(),
            old(self).serial_spec().next_spec() < u32::MAX,
            old(self).out_queue_spec().len() < usize::MAX,
        ensures
            final(self).wf(),
            (r is Ok) <==> ({
                &&& (destination matches Some(d) ==> names::valid_unique_name(d@)
                    || names::valid_well_known_name(d@))
                &&& names::valid_object_path(path@)
                &&& (interface matches Some(i) ==> names::valid_interface_name(i@))
                &&& names::valid_member_name(method_name@)
            }),
            r matches Ok(s) ==> (s == old(self).serial_spec().next_spec() && final(self).out_queue_spec().len() == old(self).out_queue_spec().len() + 1 && (final(self).out_queue_spec().last() == (Message {
                msg_type: MsgType::MethodCall,
                serial: Some(s),
                sender: old(self).unique_name_spec(),
                destination: destination,
                path: Some(path),
                interface: interface,
                member: Some(method_name),
                error_name: None,
                reply_serial: None,
                no_reply_expected: false,
                body: body,
                n_fds: 0,
            })) && final(self).out_queue_spec().take(
                old(self).out_queue_spec().len() as int,
            ) == old(self).out_queue_spec()),
            r matches Err(e) ==> (e == Error::NameError && final(self).out_queue_spec() == old(self).out_queue_spec() && final(self).serial_spec() == old(self).serial_spec()),
            Connection::config_unchanged(*old(self), *final(self)),
            Connection::registries_unchanged(*old(self), *final(self)),
    {
        let sender = self.clone_unique_name();
        let m = match Message::method(sender, destination, path, interface, method_name, body) {
            Ok(m) => m,
            Err(e) => {
                return Err(e);
            },
        };
        let r = self.send_message(m);
        proof {
            if r is Ok {
                assert(final(self).out_queue_spec().take(old(self).out_queue_spec().len() as int)
                    =~= old(self).out_queue_spec());
            }
        }
        r
    }

    /// Emit a signal: the signal message is built, stamped and
    /// enqueued. It is built exactly when every name follows its syntax
    /// rules.
    pub fn emit_signal(
        &mut self,
        destination: Option<String>,
        path: String,
        interface: String,
        signal_name: String,
        body: Body,
    ) -> (r: Result<(), Error>)
        requires
            old(self).wf(),
            old(self).serial_spec().next_spec() < u32::MAX,
            old(self).out_queue_spec().len() < usize::MAX,
        ensures
            final(self).wf(),
            (r is Ok) <==> ({
                &&& (destination matches Some(d) ==> names::valid_unique_name(d@)
                    || names::valid_well_known_name(d@))
                &&& names::valid_object_path(path@)
                &&& names::valid_interface_name(interface@)
                &&& names::valid_member_name(signal_name@)
            }),
            r is Ok ==> (final(self).out_queue_spec().len() == old(self).out_queue_spec().len() + 1
                && (final(self).out_queue_spec().last() == (Message {
                msg_type: MsgType::Signal,
                serial: Some(old(self).serial_spec().next_spec()),
                sender: old(self).unique_name_spec(),
                destination: destination,
                path: Some(path),
                interface: Some(interface),
                member: Some(signal_name),
                error_name: None,
                reply_serial: None,
                no_reply_expected: false,
                body: body,
                n_fds: 0,
            })) && final(self).out_queue_spec().take(old(self).out_queue_spec().len() as int)
                == old(self).out_queue_spec()),
            r matches Err(e) ==> (e == Error::NameError && final(self).out_queue_spec() == old(self).out_queue_spec() && final(self).serial_spec() == old(self).serial_spec()),
            Connection::config_unchanged(*old(self), *final(self)),
            Connection::registries_unchanged(*old(self), *final(self)),
    {
        let sender = self.clone_unique_name();
        let m = match Message::signal(sender, destination, path, interface, signal_name, body) {
            Ok(m) => m,
            Err(e) => {
                return Err(e);
            },
        };
        let r = match self.send_message(m) {
            Ok(_) => Ok(()),
            Err(e) => Err(e),
        };
        proof {
            if r is Ok {
                assert(final(self).out_queue_spec().take(old(self).out_queue_spec().len() as int)
                    =~= old(self).out_queue_spec());
            }
        }
        r
    }

    /// Reply to a message: a method return addressed to the caller,
    /// correlated through the call's serial, is built, stamped and
    /// enqueued; the reply's own serial is returned.
    pub fn reply(&mut self, call: &Message, body: Body) -> (r: Result<u32, Error>)
        requires
            old(self).wf(),
            call.serial is Some,
            old(self).serial_spec().next_spec() < u32::MAX,
            old(self).out_queue_spec().len() < usize::MAX,
        ensures
            final(self).wf(),
            (r is Ok) <==> (call.sender matches Some(d) ==> names::valid_unique_name(d@)
                || names::valid_well_known_name(d@)),
            r matches Ok(s) ==> (s == old(self).serial_spec().next_spec() && final(self).out_queue_spec().len() == old(self).out_queue_spec().len() + 1 && (final(self).out_queue_spec().last() == (Message {
                msg_type: MsgType::MethodReturn,
                serial: Some(s),
                sender: old(self).unique_name_spec(),
                destination: call.sender,
                path: None,
                interface: None,
                member: None,
                error_name: None,
                reply_serial: call.serial,
                no_reply_expected: false,
                body: body,
                n_fds: 0,
            }))),
            r matches Err(e) ==> (e == Error::NameError && final(self).out_queue_spec() == old(self).out_queue_spec() && final(self).serial_spec() == old(self).serial_spec()),
            Connection::config_unchanged(*old(self), *final(self)),
            Connection::registries_unchanged(*old(self), *final(self)),
    {
        let sender = self.clone_unique_name();
        let m = match Message::method_reply(sender, call, body) {
            Ok(m) => m,
            Err(e) => {
                return Err(e);
            },
        };
        self.send_message(m)
    }

    /// Reply an error to a message, under the given error name; the
    /// reply's own serial is returned.
    pub fn reply_error(&mut self, call: &Message, error_name: String, body: Body) -> (r: Result<
        u32,
        Error,
    >)
        requires
            old(self).wf(),
            call.serial is Some,
            old(self).serial_spec().next_spec() < u32::MAX,
            old(self).out_queue_spec().len() < usize::MAX,
        ensures
            final(self).wf(),
            (r is Ok) <==> ((call.sender matches Some(d) ==> names::valid_unique_name(d@)
                || names::valid_well_known_name(d@)) && names::valid_error_name(error_name@)),
            r matches Ok(s) ==> (s == old(self).serial_spec().next_spec() && final(self).out_queue_spec().len() == old(self).out_queue_spec().len() + 1 && (final(self).out_queue_spec().last() == (Message {
                msg_type: MsgType::Error,
                serial: Some(s),
                sender: old(self).unique_name_spec(),
                destination: call.sender,
                path: None,
                interface: None,
                member: None,
                error_name: Some(error_name),
                reply_serial: call.serial,
                no_reply_expected: false,
                body: body,
                n_fds: 0,
            }))),
            r matches Err(e) ==> (e == Error::NameError && final(self).out_queue_spec() == old(self).out_queue_spec() && final(self).serial_spec() == old(self).serial_spec()),
            Connection::config_unchanged(*old(self), *final(self)),
            Connection::registries_unchanged(*old(self), *final(self)),
    {
        let sender = self.clone_unique_name();
        let m = match Message::method_error(sender, call, error_name, body) {
            Ok(m) => m,
            Err(e) => {
                return Err(e);
            },
        };
        self.send_message(m)
    }

    /// Send a prebuilt method call; the serial to correlate its reply
    /// is returned, and the fd-passing gate of
    /// [`Connection::start_send`] applies.
    pub fn call_method_raw(&mut self, msg: Message) -> (r: Result<u32, Error>)
        requires
            old(self).wf(),
            msg.msg_type is MethodCall,
            old(self).serial_spec().next_spec() < u32::MAX,
            old(self).out_queue_spec().len() < usize::MAX,
        ensures
            final(self).wf(),
            (r is Ok) <==> !(msg.n_fds > 0 && !old(self).cap_unix_fd_spec()),
            r matches Ok(s) ==> (s == (match msg.serial {
                Some(s0) => s0,
                None => old(self).serial_spec().next_spec(),
            }) && final(self).out_queue_spec() == old(self).out_queue_spec().push(
                (Message { serial: Some(s), ..msg }),
            )),
            r matches Err(e) ==> (e == Error::Unsupported && final(self).out_queue_spec() == old(self).out_queue_spec()),
            Connection::config_unchanged(*old(self), *final(self)),
            Connection::registries_unchanged(*old(self), *final(self)),
    {
        self.send_message(msg)
    }

    /// Send a method call whose reply runs a scope callback: the serial
    /// is assigned, the one-shot slot for it is registered under the
    /// caller's token (replacing any slot left under the same serial),
    /// and the message is enqueued. The reply is then well-ordered with
    /// the scope's other callbacks.
    pub fn dispatch_call(&mut self, msg: Message, token: u64) -> (r: Result<u32, Error>)
        requires
            old(self).wf(),
            old(self).serial_spec().next_spec() < u32::MAX,
            old(self).out_queue_spec().len() < usize::MAX,
        ensures
            final(self).wf(),
            (r is Ok) <==> !(msg.n_fds > 0 && !old(self).cap_unix_fd_spec()),
            r matches Ok(s) ==> (s == (match msg.serial {
                Some(s0) => s0,
                None => old(self).serial_spec().next_spec(),
            }) && final(self).scope_spec().replies_has(s) && final(self).scope_spec().reply_token(s)
                == token && final(self).out_queue_spec() == old(self).out_queue_spec().push(
                (Message { serial: Some(s), ..msg }),
            )),
            r matches Err(e) ==> e == Error::Unsupported,
            final(self).scope_spec().handlers_map() == old(self).scope_spec().handlers_map(),
            Connection::config_unchanged(*old(self), *final(self)),
            final(self).registered_spec() == old(self).registered_spec(),
            final(self).matches_spec() == old(self).matches_spec(),
            final(self).pending_removals_spec() == old(self).pending_removals_spec(),
    {
        let mut msg = msg;
        let serial = self.assign_serial_num(&mut msg);
        self.scope.take_reply(serial);
        self.scope.register_reply(serial, token);
        match self.start_send(msg) {
            Ok(()) => Ok(serial),
            Err(e) => Err(e),
        }
    }

    /// Register a well-known name for this service on the bus: the name
    /// is recorded, and the caller owes the bus one `RequestName` call
    /// (with replace-existing and do-not-queue) exactly when `Ok(true)`
    /// comes back; a name already registered is a no-op `Ok(false)`.
    pub fn request_name(&mut self, name: String) -> (r: Result<bool, Error>)
        requires
            old(self).wf(),
            old(self).registered_spec().len() < usize::MAX,
        ensures
            final(self).wf(),
            (r is Ok) <==> names::valid_well_known_name(name@),
            r matches Err(e) ==> (e == Error::NameError && *final(self) == *old(self)),
            r matches Ok(b) ==> (b == !name_list_has(old(self).registered_spec(), name@)),
            r is Ok ==> name_list_has(final(self).registered_spec(), name@),
            r matches Ok(b) ==> (b ==> final(self).registered_spec() == old(self).registered_spec().push(name)),
            r matches Ok(b) ==> (!b ==> final(self).registered_spec() == old(self).registered_spec()),
            forall|n: Seq<char>|
                n != name@ ==> ((#[trigger] name_list_has(final(self).registered_spec(), n))
                    <==> name_list_has(old(self).registered_spec(), n)),
            Connection::config_unchanged(*old(self), *final(self)),
            final(self).matches_spec() == old(self).matches_spec(),
            final(self).scope_spec() == old(self).scope_spec(),
            final(self).pending_removals_spec() == old(self).pending_removals_spec(),
            final(self).serial_spec() == old(self).serial_spec(),
            final(self).out_queue_spec() == old(self).out_queue_spec(),
    {
        if !names::check_well_known_name(name.as_str()) {
            return Err(Error::NameError);
        }
        let ghost pre = self.registered_names@;
        match self.find_registered(&name) {
            Some(_) => Ok(false),
            None => {
                self.registered_names.push(name);
                proof {
                    lemma_name_list_push(pre, self.registered_names@);
                }
                Ok(true)
            },
        }
    }

    /// Deregister a previously registered well-known name: the record is
    /// dropped, and the caller owes the bus one `ReleaseName` call
    /// exactly when `Ok(true)` comes back; a name never registered is a
    /// no-op `Ok(false)`.
    pub fn release_name(&mut self, name: String) -> (r: Result<bool, Error>)
        requires
            old(self).wf(),
        ensures
            final(self).wf(),
            (r is Ok) <==> names::valid_well_known_name(name@),
            r matches Err(e) ==> (e == Error::NameError && *final(self) == *old(self)),
            r matches Ok(b) ==> (b == name_list_has(old(self).registered_spec(), name@)),
            r is Ok ==> !name_list_has(final(self).registered_spec(), name@),
            forall|n: Seq<char>|
                n != name@ ==> ((#[trigger] name_list_has(final(self).registered_spec(), n))
                    <==> name_list_has(old(self).registered_spec(), n)),
            Connection::config_unchanged(*old(self), *final(self)),
            final(self).matches_spec() == old(self).matches_spec(),
            final(self).scope_spec() == old(self).scope_spec(),
            final(self).pending_removals_spec() == old(self).pending_removals_spec(),
            final(self).serial_spec() == old(self).serial_spec(),
            final(self).out_queue_spec() == old(self).out_queue_spec(),
    {
        if !names::check_well_known_name(name.as_str()) {
            return Err(Error::NameError);
        }
        let ghost pre = self.registered_names@;
        match self.find_registered(&name) {
            Some(i) => {
                self.registered_names.remove(i);
                proof {
                    lemma_name_list_remove(pre, self.registered_names@, i as int);
                }
                Ok(true)
            },
            None => Ok(false),
        }
    }

    /// Registers one reservation of a match expression with the bus-side
    /// registry; the returned action is the bus call the caller owes.
    pub fn add_match(&mut self, expr: String) -> (r: BusCall)
        requires
            old(self).wf(),
            old(self).matches_spec().count_of(expr@) < u64::MAX,
            old(self).matches_spec().entries_seq().len() < usize::MAX,
        ensures
            final(self).wf(),
            r is SendAddMatch <==> !old(self).matches_spec().has_expr(expr@),
            !(r is SendRemoveMatch),
            final(self).matches_spec().has_expr(expr@),
            final(self).matches_spec().count_of(expr@) == old(self).matches_spec().count_of(expr@)
                + 1,
            forall|e: Seq<char>|
                e != expr@ ==> #[trigger] final(self).matches_spec().count_of(e) == old(self).matches_spec().count_of(e),
            final(self).matches_spec().adds_sent() == old(self).matches_spec().adds_sent() + (
            if old(self).matches_spec().has_expr(expr@) {
                0int
            } else {
                1int
            }),
            final(self).matches_spec().removes_sent() == old(self).matches_spec().removes_sent(),
            Connection::config_unchanged(*old(self), *final(self)),
            final(self).registered_spec() == old(self).registered_spec(),
            final(self).scope_spec() == old(self).scope_spec(),
            final(self).pending_removals_spec() == old(self).pending_removals_spec(),
            final(self).serial_spec() == old(self).serial_spec(),
            final(self).out_queue_spec() == old(self).out_queue_spec(),
    {
        self.matches.add_match(expr)
    }

    /// Releases one reservation of a match expression; the returned
    /// action is the bus call the caller owes, and the flag says whether
    /// the expression was registered at all.
    pub fn remove_match(&mut self, expr: String) -> (r: (bool, BusCall))
        requires
            old(self).wf(),
        ensures
            final(self).wf(),
            r.0 == old(self).matches_spec().has_expr(expr@),
            r.1 is SendRemoveMatch <==> old(self).matches_spec().count_of(expr@) == 1,
            !(r.1 is SendAddMatch),
            final(self).matches_spec().count_of(expr@) == if old(self).matches_spec().count_of(
                expr@,
            ) > 0 {
                old(self).matches_spec().count_of(expr@) - 1
            } else {
                0int
            },
            forall|e: Seq<char>|
                e != expr@ ==> #[trigger] final(self).matches_spec().count_of(e) == old(self).matches_spec().count_of(e),
            final(self).matches_spec().removes_sent() == old(self).matches_spec().removes_sent()
                + (
            if old(self).matches_spec().count_of(expr@) == 1 {
                1int
            } else {
                0int
            }),
            final(self).matches_spec().adds_sent() == old(self).matches_spec().adds_sent(),
            Connection::config_unchanged(*old(self), *final(self)),
            final(self).registered_spec() == old(self).registered_spec(),
            final(self).scope_spec() == old(self).scope_spec(),
            final(self).pending_removals_spec() == old(self).pending_removals_spec(),
            final(self).serial_spec() == old(self).serial_spec(),
            final(self).out_queue_spec() == old(self).out_queue_spec(),
    {
        self.matches.remove_match(expr)
    }

    /// Queues a match expression for removal from a drop path, which
    /// must not block: the caller's executor later drains the queue and
    /// performs the releases.
    pub fn queue_remove_match(&mut self, expr: String)
        requires
            old(self).wf(),
            old(self).pending_removals_spec().len() < usize::MAX,
        ensures
            final(self).wf(),
            final(self).pending_removals_spec() == old(self).pending_removals_spec().push(expr),
            Connection::config_unchanged(*old(self), *final(self)),
            final(self).registered_spec() == old(self).registered_spec(),
            final(self).matches_spec() == old(self).matches_spec(),
            final(self).scope_spec() == old(self).scope_spec(),
            final(self).serial_spec() == old(self).serial_spec(),
            final(self).out_queue_spec() == old(self).out_queue_spec(),
    {
        self.pending_match_removals.push(expr);
    }

    /// Takes the match expressions whose removal was queued, leaving the
    /// queue empty; the caller releases each through
    /// [`Connection::remove_match`].
    pub fn take_pending_match_removals(&mut self) -> (r: Vec<String>)
        requires
            old(self).wf(),
        ensures
            final(self).wf(),
            r@ == old(self).pending_removals_spec(),
            final(self).pending_removals_spec() == Seq::<String>::empty(),
            Connection::config_unchanged(*old(self), *final(self)),
            final(self).registered_spec() == old(self).registered_spec(),
            final(self).matches_spec() == old(self).matches_spec(),
            final(self).scope_spec() == old(self).scope_spec(),
            final(self).serial_spec() == old(self).serial_spec(),
            final(self).out_queue_spec() == old(self).out_queue_spec(),
    {
        let mut taken: Vec<String> = Vec::new();
        core::mem::swap(&mut taken, &mut self.pending_match_removals);
        taken
    }

    /// Registers a signal handler with the scope; on a bus connection
    /// its match expression is also reserved, and the returned action is
    /// the bus call the caller owes. The handler's stable key comes
    /// back with it.
    pub fn add_signal_handler(&mut self, h: HandlerEntry) -> (r: (u64, BusCall))
        requires
            old(self).wf(),
            old(self).scope_spec().n_handlers_spec() < 0xffff_fffc,
            old(self).matches_spec().count_of(h.match_expr@) < u64::MAX,
            old(self).matches_spec().entries_seq().len() < usize::MAX,
        ensures
            final(self).wf(),
            !old(self).scope_spec().handlers_map().dom().contains(r.0),
            final(self).scope_spec().handlers_map() == old(self).scope_spec().handlers_map().insert(r.0, h),
            final(self).scope_spec().replies_seq() == old(self).scope_spec().replies_seq(),
            old(self).is_bus_spec() ==> (final(self).matches_spec().count_of(h.match_expr@) == old(self).matches_spec().count_of(h.match_expr@) + 1 && (r.1 is SendAddMatch <==> !old(self).matches_spec().has_expr(h.match_expr@))),
            !old(self).is_bus_spec() ==> (final(self).matches_spec() == old(self).matches_spec()
                && r.1 is Nothing),
            !(r.1 is SendRemoveMatch),
            Connection::config_unchanged(*old(self), *final(self)),
            final(self).registered_spec() == old(self).registered_spec(),
            final(self).pending_removals_spec() == old(self).pending_removals_spec(),
            final(self).serial_spec() == old(self).serial_spec(),
            final(self).out_queue_spec() == old(self).out_queue_spec(),
    {
        let action = if self.bus_conn {
            self.matches.add_match(h.match_expr.clone())
        } else {
            BusCall::Nothing
        };
        let key = self.scope.add_handler(h);
        (key, action)
    }

    /// Removes the handler under a key; on a bus connection its match
    /// reservation is released, and the returned action is the bus call
    /// the caller owes, on the returned expression. A key that is not
    /// registered changes nothing.
    pub fn remove_signal_handler(&mut self, key: u64) -> (r: (Option<String>, BusCall))
        requires
            old(self).wf(),
        ensures
            final(self).wf(),
            (r.0 is Some) == old(self).scope_spec().handlers_map().dom().contains(key),
            r.0 matches Some(e) ==> (e == old(self).scope_spec().handlers_map()[key].match_expr
                && final(self).scope_spec().handlers_map() == old(
                self,
            ).scope_spec().handlers_map().remove(key)),
            r.0 is None ==> final(self).scope_spec().handlers_map() == old(self).scope_spec().handlers_map(),
            final(self).scope_spec().replies_seq() == old(self).scope_spec().replies_seq(),
            !(r.1 is SendAddMatch),
            (r.0 is Some && old(self).is_bus_spec()) ==> (r.1 is SendRemoveMatch <==> old(self).matches_spec().count_of(
                old(self).scope_spec().handlers_map()[key].match_expr@,
            ) == 1),
            !(r.0 is Some && old(self).is_bus_spec()) ==> (final(self).matches_spec() == old(self).matches_spec() && r.1 is Nothing),
            Connection::config_unchanged(*old(self), *final(self)),
            final(self).registered_spec() == old(self).registered_spec(),
            final(self).pending_removals_spec() == old(self).pending_removals_spec(),
            final(self).serial_spec() == old(self).serial_spec(),
            final(self).out_queue_spec() == old(self).out_queue_spec(),
    {
        match self.scope.remove_handler(key) {
            Some(h) => {
                if self.bus_conn {
                    let expr = h.match_expr.clone();
                    let (_, action) = self.matches.remove_match(h.match_expr);
                    (Some(expr), action)
                } else {
                    (Some(h.match_expr), BusCall::Nothing)
                }
            },
            None => (None, BusCall::Nothing),
        }
    }

    /// Decides what the scope runs for one inbound message; see
    /// [`Scope::route_message`].
    pub fn route_message(&mut self, msg: &Message) -> (d: Dispatch)
        requires
            old(self).wf(),
        ensures
            final(self).wf(),
            final(self).scope_spec().handlers_map() == old(self).scope_spec().handlers_map(),
            msg.msg_type is Signal ==> final(self).scope_spec().replies_seq() == old(self).scope_spec().replies_seq(),
            msg.msg_type is Signal ==> crate::scope::signal_dispatch_correct(
                d,
                old(self).scope_spec(),
                *msg,
            ),
            !(msg.msg_type is Signal) && (msg.reply_serial matches Some(s) && old(self).scope_spec().replies_has(s)) ==> (d matches Dispatch::RunReply { serial, token }
                && Some(serial) == msg.reply_serial && token == old(self).scope_spec().reply_token(serial) && !(final(self).scope_spec().replies_has(serial))),
            !(msg.msg_type is Signal) && !(msg.reply_serial matches Some(s) && old(self).scope_spec().replies_has(s)) ==> (d is Nothing && final(self).scope_spec().replies_seq()
                == old(self).scope_spec().replies_seq()),
            Connection::config_unchanged(*old(self), *final(self)),
            final(self).registered_spec() == old(self).registered_spec(),
            final(self).matches_spec() == old(self).matches_spec(),
            final(self).pending_removals_spec() == old(self).pending_removals_spec(),
            final(self).serial_spec() == old(self).serial_spec(),
            final(self).out_queue_spec() == old(self).out_queue_spec(),
    {
        self.scope.route_message(msg)
    }

    /// A fresh, independent callback-ordering scope: callbacks placed in
    /// it are serialized among themselves but run in parallel with the
    /// connection's own scope.
    pub fn new_scope(&self) -> (r: Scope)
        ensures
            r.wf(),
            r.handlers_map() == Map::<u64, HandlerEntry>::empty(),
            r.replies_seq() == Seq::<(u32, u64)>::empty(),
    {
        Scope::new()
    }

    fn clone_unique_name(&self) -> (r: Option<String>)
        ensures
            r == self.unique_name_spec(),
    {
        match &self.unique_name {
            Some(u) => Some(u.clone()),
            None => None,
        }
    }

    fn find_registered(&self, name: &String) -> (r: Option<usize>)
        requires
            distinct_name_list(self.registered_spec()),
        ensures
            r matches Some(i) ==> 0 <= i < self.registered_spec().len() && self.registered_spec()[
                i as int
            ]@ == name@,
            r is None ==> !name_list_has(self.registered_spec(), name@),
    {
        let n = self.registered_names.len();
        let mut i: usize = 0;
        while i < n
            invariant
                n == self.registered_spec().len(),
                0 <= i <= n,
                forall|j: int| 0 <= j < i ==> (#[trigger] self.registered_spec()[j])@ != name@,
            decreases n - i,
        {
            if names::str_eq(self.registered_names[i].as_str(), name.as_str()) {
                return Some(i);
            }
            i = i + 1;
        }
        None
    }
}

/// Appending a fresh name keeps the list duplicate-free and every other
/// name's membership.
proof fn lemma_name_list_push(pre: Seq<String>, post: Seq<String>)
    requires
        post.len() == pre.len() + 1,
        forall|i: int| 0 <= i < pre.len() ==> post[i] == pre[i],
        distinct_name_list(pre),
        !name_list_has(pre, post[pre.len() as int]@),
    ensures
        distinct_name_list(post),
        name_list_has(post, post[pre.len() as int]@),
        forall|n: Seq<char>|
            n != post[pre.len() as int]@ ==> ((#[trigger] name_list_has(post, n))
                <==> name_list_has(pre, n)),
{
    let x = post[pre.len() as int]@;
    assert forall|i: int, j: int| 0 <= i < j < post.len() implies (#[trigger] post[i])@ != (
    #[trigger] post[j])@ by {
        if j < pre.len() {
            assert(pre[i]@ != pre[j]@);
        } else {
            assert(post[i] == pre[i]);
            if post[i]@ == x {
                assert(name_list_has(pre, x));
            }
        }
    }
    assert forall|n: Seq<char>| n != x implies ((#[trigger] name_list_has(post, n))
        <==> name_list_has(pre, n)) by {
        if name_list_has(pre, n) {
            let i = choose|i: int| 0 <= i < pre.len() && (#[trigger] pre[i])@ == n;
            assert(post[i]@ == n);
        }
        if name_list_has(post, n) {
            let i = choose|i: int| 0 <= i < post.len() && (#[trigger] post[i])@ == n;
            if i < pre.len() {
                assert(pre[i]@ == n);
            }
        }
    }
}

/// Removing one name keeps the list duplicate-free, drops that name,
/// and keeps every other name's membership.
proof fn lemma_name_list_remove(pre: Seq<String>, post: Seq<String>, idx: int)
    requires
        0 <= idx < pre.len(),
        post == pre.remove(idx),
        distinct_name_list(pre),
    ensures
        distinct_name_list(post),
        !name_list_has(post, pre[idx]@),
        forall|n: Seq<char>|
            n != pre[idx]@ ==> ((#[trigger] name_list_has(post, n)) <==> name_list_has(pre, n)),
{
    assert(post.len() == pre.len() - 1);
    assert forall|i: int| 0 <= i < post.len() implies post[i] == (
    if i < idx {
        pre[i]
    } else {
        pre[i + 1]
    }) by {}
    assert forall|i: int, j: int| 0 <= i < j < post.len() implies (#[trigger] post[i])@ != (
    #[trigger] post[j])@ by {
        let pi = if i < idx { i } else { i + 1 };
        let pj = if j < idx { j } else { j + 1 };
        assert(pre[pi]@ != pre[pj]@);
    }
    if name_list_has(post, pre[idx]@) {
        let i = choose|i: int| 0 <= i < post.len() && (#[trigger] post[i])@ == pre[idx]@;
        let pi = if i < idx { i } else { i + 1 };
        assert(pre[pi]@ == pre[idx]@);
        if pi < idx {
            assert(pre[pi]@ != pre[idx]@);
        } else {
            assert(pre[idx]@ != pre[pi]@);
        }
    }
    assert forall|n: Seq<char>| n != pre[idx]@ implies ((#[trigger] name_list_has(post, n))
        <==> name_list_has(pre, n)) by {
        if name_list_has(pre, n) {
            let i = choose|i: int| 0 <= i < pre.len() && (#[trigger] pre[i])@ == n;
            assert(i != idx);
            let ni = if i < idx { i } else { i - 1 };
            assert(post[ni] == pre[i]);
        }
        if name_list_has(post, n) {
            let i = choose|i: int| 0 <= i < post.len() && (#[trigger] post[i])@ == n;
            let pi = if i < idx { i } else { i + 1 };
            assert(pre[pi]@ == n);
        }
    }
}

} // verus!
