use zbus_core::connection::{classify_reply, ConnState, Connection, ReplyOutcome};
use zbus_core::matches::{BusCall, MatchRegistry};
use zbus_core::message::{Body, Message, MsgType, PropValue};
use zbus_core::names::{
    check_interface_name, check_member_name, check_object_path, check_unique_name,
    check_well_known_name, str_eq, BusName, OwnedBusName,
};
use zbus_core::scope::{Dispatch, HandlerEntry, Scope};
use zbus_core::Error;

fn s(v: &str) -> String {
    String::from(v)
}

fn plain_signal(path: &str, interface: &str, member: &str) -> Message {
    Message {
        msg_type: MsgType::Signal,
        serial: Some(7),
        sender: None,
        destination: None,
        path: Some(s(path)),
        interface: Some(s(interface)),
        member: Some(s(member)),
        error_name: None,
        reply_serial: None,
        no_reply_expected: false,
        body: Body::Unit,
        n_fds: 0,
    }
}

#[test]
fn bus_name_classification() {
    let name = BusName::try_from("org.gnome.Service-for_you").unwrap();
    assert!(matches!(name, BusName::WellKnown(_)));
    assert_eq!(name.as_str(), "org.gnome.Service-for_you");
    let name = BusName::try_from("a.very.loooooooooooooooooo-ooooooo_0000o0ng.Name").unwrap();
    assert!(matches!(name, BusName::WellKnown(_)));

    let name = BusName::try_from(":org.gnome.Service-for_you").unwrap();
    assert!(matches!(name, BusName::Unique(_)));
    assert_eq!(name.as_str(), ":org.gnome.Service-for_you");
    let name = BusName::try_from(":1.42").unwrap();
    assert!(matches!(name, BusName::Unique(_)));

    BusName::try_from("").unwrap_err();
    BusName::try_from("double..dots").unwrap_err();
    BusName::try_from(".").unwrap_err();
    BusName::try_from(".start.with.dot").unwrap_err();
    BusName::try_from("1start.with.digit").unwrap_err();
    BusName::try_from("no-dots").unwrap_err();
}

#[test]
fn bus_name_owned_round_trip() {
    let name = BusName::try_from("org.freedesktop.DBus").unwrap();
    let again = name.to_owned();
    assert_eq!(again.as_str(), "org.freedesktop.DBus");
    let moved = again.into_owned();
    assert_eq!(moved.as_str(), "org.freedesktop.DBus");
    let owned = OwnedBusName(moved);
    assert_eq!(owned.into_inner().as_str(), "org.freedesktop.DBus");
}

#[test]
fn name_syntax_rules() {
    assert!(check_unique_name(":1.42"));
    assert!(!check_unique_name("1.42"));
    assert!(!check_unique_name(":"));
    assert!(!check_unique_name(":nodots"));
    assert!(check_well_known_name("org.example.zbus.Test"));
    assert!(!check_well_known_name("org.example..zbus"));
    assert!(!check_well_known_name("org.example.9digit"));
    assert!(check_interface_name("org.zbus.p2p"));
    assert!(!check_interface_name("org.zbus-hyphen.p2p"));
    assert!(check_member_name("ASignalForYou"));
    assert!(!check_member_name("Bad.Member"));
    assert!(!check_member_name("9Lives"));
    assert!(check_object_path("/"));
    assert!(check_object_path("/org/freedesktop/DBus"));
    assert!(!check_object_path("/trailing/"));
    assert!(!check_object_path("//double"));
    assert!(!check_object_path("relative"));
    assert!(str_eq("same", "same"));
    assert!(!str_eq("same", "sane"));
}

#[test]
fn serial_monotonically_increases() {
    let mut c = Connection::new(s("guid"), true, false);
    let serial = c.next_serial() + 1;

    for next in serial..serial + 10 {
        assert_eq!(next, c.next_serial());
    }
}

#[test]
fn assign_serial_only_when_absent() {
    let mut c = Connection::new(s("guid"), true, false);
    let mut m = plain_signal("/", "org.zbus.p2p", "ASignalForYou");
    m.serial = None;
    let first = c.assign_serial_num(&mut m);
    assert_eq!(first, 1);
    assert_eq!(m.serial, Some(1));
    // a pre-assigned serial is kept
    let again = c.assign_serial_num(&mut m);
    assert_eq!(again, 1);
    let mut fresh = plain_signal("/", "org.zbus.p2p", "ASignalForYou");
    fresh.serial = None;
    assert_eq!(c.assign_serial_num(&mut fresh), 2);
}

#[test]
fn match_refcount_balance() {
    // S3: two subscriptions for one expression produce one AddMatch;
    // only the second drop produces the one RemoveMatch.
    let mut reg = MatchRegistry::new();
    let expr = "type='signal',sender='org.zbus',path='/',interface='org.zbus.p2p'";
    assert_eq!(reg.add_match(s(expr)), BusCall::SendAddMatch);
    assert_eq!(reg.add_match(s(expr)), BusCall::Nothing);
    assert_eq!(reg.remove_match(s(expr)), (true, BusCall::Nothing));
    assert_eq!(reg.remove_match(s(expr)), (true, BusCall::SendRemoveMatch));
    assert_eq!(reg.remove_match(s(expr)), (false, BusCall::Nothing));
    // a second expression is independent
    assert_eq!(reg.add_match(s("type='signal',member='Other'")), BusCall::SendAddMatch);
    assert_eq!(reg.add_match(s(expr)), BusCall::SendAddMatch);
}

#[test]
fn scope_routes_matching_handlers_once() {
    let mut scope = Scope::new();
    let broad = HandlerEntry {
        filter_path: Some(s("/")),
        filter_interface: Some(s("org.zbus.p2p")),
        filter_member: None,
        match_expr: s("expr-broad"),
    };
    let narrow = HandlerEntry {
        filter_path: Some(s("/")),
        filter_interface: Some(s("org.zbus.p2p")),
        filter_member: Some(s("ASignalForYou")),
        match_expr: s("expr-narrow"),
    };
    let other = HandlerEntry {
        filter_path: Some(s("/elsewhere")),
        filter_interface: Some(s("org.zbus.p2p")),
        filter_member: None,
        match_expr: s("expr-other"),
    };
    let k_broad = scope.add_handler(broad);
    let k_narrow = scope.add_handler(narrow);
    let k_other = scope.add_handler(other);
    assert_eq!(scope.handler_count(), 3);

    let msg = plain_signal("/", "org.zbus.p2p", "ASignalForYou");
    match scope.route_message(&msg) {
        Dispatch::RunHandlers(ks) => {
            assert_eq!(ks.len(), 2);
            assert!(ks.contains(&k_broad));
            assert!(ks.contains(&k_narrow));
            assert!(!ks.contains(&k_other));
        }
        _ => panic!("a signal must route to handlers"),
    }

    // removal by stable key, and absent keys are refused
    let removed = scope.remove_handler(k_narrow).unwrap();
    assert_eq!(removed.match_expr, "expr-narrow");
    assert!(scope.remove_handler(k_narrow).is_none());
    let msg2 = plain_signal("/", "org.zbus.p2p", "AnotherSignal");
    match scope.route_message(&msg2) {
        Dispatch::RunHandlers(ks) => assert_eq!(ks, vec![k_broad]),
        _ => panic!("a signal must route to handlers"),
    }
}

#[test]
fn scope_reply_slots_are_one_shot() {
    let mut scope = Scope::new();
    scope.register_reply(9, 77);
    let reply = Message {
        msg_type: MsgType::MethodReturn,
        serial: Some(3),
        sender: None,
        destination: None,
        path: None,
        interface: None,
        member: None,
        error_name: None,
        reply_serial: Some(9),
        no_reply_expected: false,
        body: Body::Str(s("yay")),
        n_fds: 0,
    };
    match scope.route_message(&reply) {
        Dispatch::RunReply { serial, token } => {
            assert_eq!(serial, 9);
            assert_eq!(token, 77);
        }
        _ => panic!("a registered reply must dispatch"),
    }
    assert!(matches!(scope.route_message(&reply), Dispatch::Nothing));
}

#[test]
fn classify_reply_by_serial_and_type() {
    let mut reply = Message {
        msg_type: MsgType::MethodReturn,
        serial: Some(3),
        sender: None,
        destination: None,
        path: None,
        interface: None,
        member: None,
        error_name: None,
        reply_serial: Some(5),
        no_reply_expected: false,
        body: Body::Unit,
        n_fds: 0,
    };
    assert_eq!(classify_reply(&reply, 5), ReplyOutcome::Return);
    assert_eq!(classify_reply(&reply, 6), ReplyOutcome::NotReply);
    reply.msg_type = MsgType::Error;
    reply.error_name = Some(s("org.freedesktop.DBus.Error.Failed"));
    assert_eq!(classify_reply(&reply, 5), ReplyOutcome::ErrorReply);
    reply.msg_type = MsgType::Signal;
    assert_eq!(classify_reply(&reply, 5), ReplyOutcome::NotReply);
}

#[test]
fn fd_gating_is_unsupported_and_harmless() {
    // S6: a message carrying an fd over a connection without fd-passing
    // fails with Unsupported and enqueues nothing.
    let mut c = Connection::new(s("guid"), false, false);
    let mut m = plain_signal("/", "org.zbus.p2p", "ASignalForYou");
    m.n_fds = 1;
    assert_eq!(c.send_message(m), Err(Error::Unsupported));
    assert!(c.take_out_queue().is_empty());

    // with fd-passing negotiated the same message is accepted
    let mut c2 = Connection::new(s("guid"), true, false);
    let mut m2 = plain_signal("/", "org.zbus.p2p", "ASignalForYou");
    m2.serial = None;
    m2.n_fds = 1;
    assert_eq!(c2.send_message(m2), Ok(1));
    assert_eq!(c2.take_out_queue().len(), 1);
}

#[test]
fn hello_sets_unique_name_once() {
    let mut c = Connection::new(s("guid"), true, true);
    assert!(c.is_bus());
    assert!(c.unique_name().is_none());
    assert_eq!(c.complete_hello(s("not a name")), Err(Error::NameError));
    c.complete_hello(s(":1.42")).unwrap();
    assert_eq!(c.unique_name().unwrap().as_str(), ":1.42");

    let mut p2p = Connection::new(s("guid"), true, false);
    assert!(!p2p.is_bus());
    assert!(p2p.unique_name().is_none());
}

#[test]
fn request_and_release_names() {
    // S2, the local half: the first registration owes the bus a
    // RequestName call, a repeat is a no-op, and release mirrors it.
    let mut c = Connection::new(s("guid"), true, true);
    c.complete_hello(s(":1.7")).unwrap();
    assert_eq!(c.request_name(s("org.example.zbus.Test")), Ok(true));
    assert_eq!(c.request_name(s("org.example.zbus.Test")), Ok(false));
    assert_eq!(c.request_name(s("not a name")), Err(Error::NameError));
    assert_eq!(c.release_name(s("org.example.zbus.Test")), Ok(true));
    assert_eq!(c.release_name(s("org.example.zbus.Test")), Ok(false));
}

#[test]
fn connection_defaults_and_state() {
    let mut c = Connection::new(s("guid-123"), true, false);
    assert_eq!(c.server_guid(), "guid-123");
    assert_eq!(c.max_queued(), 64);
    c.set_max_queued(128);
    assert_eq!(c.max_queued(), 128);
    c.close();

    let bus = Connection::new(s("guid"), true, true);
    let _ = ConnState::Authenticated;
    let fresh_scope = bus.new_scope();
    assert_eq!(fresh_scope.handler_count(), 0);
}

#[test]
fn queued_match_removals_drain() {
    let mut c = Connection::new(s("guid"), true, true);
    c.queue_remove_match(s("expr-a"));
    c.queue_remove_match(s("expr-b"));
    let drained = c.take_pending_match_removals();
    assert_eq!(drained, vec![s("expr-a"), s("expr-b")]);
    assert!(c.take_pending_match_removals().is_empty());
}

#[test]
fn error_descriptions_exist() {
    for e in [
        Error::Io,
        Error::Protocol,
        Error::NameError,
        Error::Unsupported,
        Error::InterfaceNotFound,
        Error::NoReply,
    ] {
        assert!(!e.describe().is_empty());
    }
    let _ = PropValue { signature: s("u"), data: vec![2, 0, 0, 0] };
}
