//! The message model: type, header fields, serial, body and file-descriptor
//! count. The wire form of a message (marshalling, signatures) is the raw
//! connection's business; the core works on this decoded shape.

use vstd::prelude::*;
use crate::Error;
use crate::names;

verus! {

/// The four kinds of D-Bus message.
#[derive(Clone, Copy, Debug, PartialEq, Eq, Structural)]
pub enum MsgType {
    MethodCall,
    MethodReturn,
    Error,
    Signal,
}

/// A typed property value: the value's signature and its marshalled bytes.
/// The core stores and compares these opaquely; decoding them is the wire
/// codec's business.
#[derive(Debug)]
pub struct PropValue {
    pub signature: String,
    pub data: Vec<u8>,
}

impl PropValue {
    /// The value as a pair of character and byte sequences.
    pub open spec fn view(&self) -> (Seq<char>, Seq<u8>) {
        (self.signature@, self.data@)
    }
}

impl Clone for PropValue {
    fn clone(&self) -> (r: Self)
        ensures
            r@ == self@,
    {
        PropValue { signature: self.signature.clone(), data: self.data.clone() }
    }
}

/// A decoded message body, as far as the core needs to read it.
///
/// Bodies the core never inspects travel as `Raw` bytes. The structured
/// variants are the bodies the core logic reads: the reply to
/// `GetNameOwner` (a name string), the `NameOwnerChanged` signal, a
/// properties map (the `GetAll` reply) and the `PropertiesChanged` signal.
#[derive(Debug)]
pub enum Body {
    Unit,
    Str(String),
    StrU32(String, u32),
    StrPair(String, String),
    PropertySet(String, String, PropValue),
    OwnerChange { name: String, old_owner: Option<String>, new_owner: Option<String> },
    Props(Vec<(String, PropValue)>),
    PropsChanged {
        interface: String,
        changed: Vec<(String, PropValue)>,
        invalidated: Vec<String>,
    },
    Raw(Vec<u8>),
}

/// A D-Bus message: type, header fields, serial, body and the number of
/// file descriptors attached to it. Immutable once sent.
#[derive(Debug)]
pub struct Message {
    pub msg_type: MsgType,
    pub serial: Option<u32>,
    pub sender: Option<String>,
    pub destination: Option<String>,
    pub path: Option<String>,
    pub interface: Option<String>,
    pub member: Option<String>,
    pub error_name: Option<String>,
    pub reply_serial: Option<u32>,
    pub no_reply_expected: bool,
    pub body: Body,
    pub n_fds: u32,
}

impl Message {
    /// Header names, where present, follow their syntax rules, and the
    /// fields required by the message type are present.
    pub open spec fn wf(&self) -> bool {
        &&& (self.sender matches Some(s) ==> names::valid_unique_name(s@)
            || names::valid_well_known_name(s@))
        &&& (self.destination matches Some(d) ==> names::valid_unique_name(d@)
            || names::valid_well_known_name(d@))
        &&& (self.path matches Some(p) ==> names::valid_object_path(p@))
        &&& (self.interface matches Some(i) ==> names::valid_interface_name(i@))
        &&& (self.member matches Some(m) ==> names::valid_member_name(m@))
        &&& (self.error_name matches Some(e) ==> names::valid_error_name(e@))
        &&& (self.msg_type is MethodCall ==> self.path is Some && self.member is Some)
        &&& (self.msg_type is Signal ==> self.path is Some && self.interface is Some
            && self.member is Some)
        &&& (self.msg_type is MethodReturn ==> self.reply_serial is Some)
        &&& (self.msg_type is Error ==> self.error_name is Some && self.reply_serial is Some)
    }

    /// Builds a method call. Returns `Ok` exactly when every name given
    /// follows its syntax rules; the serial is left unassigned.
    pub fn method(
        sender: Option<String>,
        destination: Option<String>,
        path: String,
        interface: Option<String>,
        method_name: String,
        body: Body,
    ) -> (r: Result<Message, Error>)
        ensures
            ({
                &&& (sender matches Some(s) ==> names::valid_unique_name(s@)
                    || names::valid_well_known_name(s@))
                &&& (destination matches Some(d) ==> names::valid_unique_name(d@)
                    || names::valid_well_known_name(d@))
                &&& names::valid_object_path(path@)
                &&& (interface matches Some(i) ==> names::valid_interface_name(i@))
                &&& names::valid_member_name(method_name@)
            }) <==> r is Ok,
            r matches Ok(m) ==> ({
                &&& m.msg_type is MethodCall
                &&& m.serial is None
                &&& m.sender == sender
                &&& m.destination == destination
                &&& m.path == Some(path)
                &&& m.interface == interface
                &&& m.member == Some(method_name)
                &&& m.error_name is None
                &&& m.reply_serial is None
                &&& !m.no_reply_expected
                &&& m.body == body
                &&& m.n_fds == 0
                &&& m.wf()
            }),
            r matches Err(e) ==> e == Error::NameError,
    {
        if !Self::names_ok(&sender, &destination) {
            return Err(Error::NameError);
        }
        if !names::check_object_path(path.as_str()) {
            return Err(Error::NameError);
        }
        if let Some(i) = &interface {
            if !names::check_interface_name(i.as_str()) {
                return Err(Error::NameError);
            }
        }
        if !names::check_member_name(method_name.as_str()) {
            return Err(Error::NameError);
        }
        Ok(
            Message {
                msg_type: MsgType::MethodCall,
                serial: None,
                sender,
                destination,
                path: Some(path),
                interface,
                member: Some(method_name),
                error_name: None,
                reply_serial: None,
                no_reply_expected: false,
                body,
                n_fds: 0,
            },
        )
    }

    /// Builds a signal. Returns `Ok` exactly when every name given follows
    /// its syntax rules; the interface is required for signals.
    pub fn signal(
        sender: Option<String>,
        destination: Option<String>,
        path: String,
        interface: String,
        signal_name: String,
        body: Body,
    ) -> (r: Result<Message, Error>)
        ensures
            ({
                &&& (sender matches Some(s) ==> names::valid_unique_name(s@)
                    || names::valid_well_known_name(s@))
                &&& (destination matches Some(d) ==> names::valid_unique_name(d@)
                    || names::valid_well_known_name(d@))
                &&& names::valid_object_path(path@)
                &&& names::valid_interface_name(interface@)
                &&& names::valid_member_name(signal_name@)
            }) <==> r is Ok,
            r matches Ok(m) ==> ({
                &&& m.msg_type is Signal
                &&& m.serial is None
                &&& m.sender == sender
                &&& m.destination == destination
                &&& m.path == Some(path)
                &&& m.interface == Some(interface)
                &&& m.member == Some(signal_name)
                &&& m.error_name is None
                &&& m.reply_serial is None
                &&& !m.no_reply_expected
                &&& m.body == body
                &&& m.n_fds == 0
                &&& m.wf()
            }),
            r matches Err(e) ==> e == Error::NameError,
    {
        if !Self::names_ok(&sender, &destination) {
            return Err(Error::NameError);
        }
        if !names::check_object_path(path.as_str()) {
            return Err(Error::NameError);
        }
        if !names::check_interface_name(interface.as_str()) {
            return Err(Error::NameError);
        }
        if !names::check_member_name(signal_name.as_str()) {
            return Err(Error::NameError);
        }
        Ok(
            Message {
                msg_type: MsgType::Signal,
                serial: None,
                sender,
                destination,
                path: Some(path),
                interface: Some(interface),
                member: Some(signal_name),
                error_name: None,
                reply_serial: None,
                no_reply_expected: false,
                body,
                n_fds: 0,
            },
        )
    }

    /// Builds the successful reply to `call`: a method return addressed to
    /// the caller, correlated through the call's serial.
    pub fn method_reply(sender: Option<String>, call: &Message, body: Body) -> (r: Result<
        Message,
        Error,
    >)
        requires
            call.serial is Some,
        ensures
            ({
                &&& (sender matches Some(s) ==> names::valid_unique_name(s@)
                    || names::valid_well_known_name(s@))
                &&& (call.sender matches Some(d) ==> names::valid_unique_name(d@)
                    || names::valid_well_known_name(d@))
            }) <==> r is Ok,
            r matches Ok(m) ==> ({
                &&& m.msg_type is MethodReturn
                &&& m.serial is None
                &&& m.sender == sender
                &&& m.destination == call.sender
                &&& m.path is None
                &&& m.interface is None
                &&& m.member is None
                &&& m.reply_serial == call.serial
                &&& m.error_name is None
                &&& !m.no_reply_expected
                &&& m.body == body
                &&& m.n_fds == 0
                &&& m.wf()
            }),
            r matches Err(e) ==> e == Error::NameError,
    {
        let destination = Self::clone_opt_name(&call.sender);
        if !Self::names_ok(&sender, &destination) {
            return Err(Error::NameError);
        }
        Ok(
            Message {
                msg_type: MsgType::MethodReturn,
                serial: None,
                sender,
                destination,
                path: None,
                interface: None,
                member: None,
                error_name: None,
                reply_serial: Some(*call.serial.as_ref().unwrap()),
                no_reply_expected: false,
                body,
                n_fds: 0,
            },
        )
    }

    /// Builds the error reply to `call`, under the given error name.
    pub fn method_error(
        sender: Option<String>,
        call: &Message,
        error_name: String,
        body: Body,
    ) -> (r: Result<Message, Error>)
        requires
            call.serial is Some,
        ensures
            ({
                &&& (sender matches Some(s) ==> names::valid_unique_name(s@)
                    || names::valid_well_known_name(s@))
                &&& (call.sender matches Some(d) ==> names::valid_unique_name(d@)
                    || names::valid_well_known_name(d@))
                &&& names::valid_error_name(error_name@)
            }) <==> r is Ok,
            r matches Ok(m) ==> ({
                &&& m.msg_type is Error
                &&& m.serial is None
                &&& m.sender == sender
                &&& m.destination == call.sender
                &&& m.path is None
                &&& m.interface is None
                &&& m.member is None
                &&& m.reply_serial == call.serial
                &&& m.error_name == Some(error_name)
                &&& !m.no_reply_expected
                &&& m.body == body
                &&& m.n_fds == 0
                &&& m.wf()
            }),
            r matches Err(e) ==> e == Error::NameError,
    {
        if !names::check_error_name(error_name.as_str()) {
            return Err(Error::NameError);
        }
        let destination = Self::clone_opt_name(&call.sender);
        if !Self::names_ok(&sender, &destination) {
            return Err(Error::NameError);
        }
        Ok(
            Message {
                msg_type: MsgType::Error,
                serial: None,
                sender,
                destination,
                path: None,
                interface: None,
                member: None,
                error_name: Some(error_name),
                reply_serial: Some(*call.serial.as_ref().unwrap()),
                no_reply_expected: false,
                body,
                n_fds: 0,
            },
        )
    }

    fn clone_opt_name(name: &Option<String>) -> (r: Option<String>)
        ensures
            r == name,
    {
        match name {
            Some(n) => Some(n.clone()),
            None => None,
        }
    }

    fn names_ok(sender: &Option<String>, destination: &Option<String>) -> (r: bool)
        ensures
            r == ({
                &&& (sender matches Some(s) ==> names::valid_unique_name(s@)
                    || names::valid_well_known_name(s@))
                &&& (destination matches Some(d) ==> names::valid_unique_name(d@)
                    || names::valid_well_known_name(d@))
            }),
    {
        let sender_ok = match sender {
            Some(s) => names::check_unique_name(s.as_str()) || names::check_well_known_name(
                s.as_str(),
            ),
            None => true,
        };
        let dest_ok = match destination {
            Some(d) => names::check_unique_name(d.as_str()) || names::check_well_known_name(
                d.as_str(),
            ),
            None => true,
        };
        sender_ok && dest_ok
    }
}

} // verus!
