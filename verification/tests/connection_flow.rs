use zbus_core::connection::{classify_reply, Connection, ReplyOutcome};
use zbus_core::matches::BusCall;
use zbus_core::message::{Body, Message, MsgType, PropValue};
use zbus_core::names::BusName;
use zbus_core::proxy::{OwnerChangedStream, PropertyLookup, Proxy, REQUEST_NAME_FLAGS};
use zbus_core::signal_stream::SignalStream;
use zbus_core::Error;

fn s(v: &str) -> String {
    String::from(v)
}

fn u32_value(v: u32) -> PropValue {
    PropValue { signature: s("u"), data: v.to_le_bytes().to_vec() }
}

/// Carries a sent message over to the peer, as the socket would: the
/// peer sees the sender's queue entries in order.
fn deliver(from: &mut Connection) -> Vec<Message> {
    from.take_out_queue()
}

#[test]
fn p2p_call_and_reply() {
    // Construct a peer-to-peer pair. The client calls "Test", the
    // server replies "yay", and the client's call resolves to it.
    let mut client = Connection::new(s("guid"), true, false);
    let mut server = Connection::new(s("guid"), true, false);

    let serial = client
        .call_method(None, s("/"), Some(s("org.zbus.p2p")), s("Test"), Body::Unit)
        .unwrap();

    let mut inbound = deliver(&mut client);
    assert_eq!(inbound.len(), 1);
    let call = inbound.pop().unwrap();
    assert!(matches!(call.msg_type, MsgType::MethodCall));
    assert_eq!(call.member.as_deref(), Some("Test"));
    assert_eq!(call.serial, Some(serial));

    server.reply(&call, Body::Str(s("yay"))).unwrap();
    let mut back = deliver(&mut server);
    let reply = back.pop().unwrap();
    assert_eq!(reply.reply_serial, Some(serial));
    assert_eq!(classify_reply(&reply, serial), ReplyOutcome::Return);
    match reply.body {
        Body::Str(v) => assert_eq!(v, "yay"),
        _ => panic!("the reply must carry the string body"),
    }
}

#[test]
fn p2p_signal_arrives_while_call_pending() {
    // The server emits ASignalForYou before replying; the client's
    // subscription observes the signal and the call still resolves.
    let mut client = Connection::new(s("guid"), true, false);
    let mut server = Connection::new(s("guid"), true, false);

    let serial = client
        .call_method(None, s("/"), Some(s("org.zbus.p2p")), s("Test"), Body::Unit)
        .unwrap();
    let call = deliver(&mut client).pop().unwrap();

    server
        .emit_signal(None, s("/"), s("org.zbus.p2p"), s("ASignalForYou"), Body::Unit)
        .unwrap();
    server.reply(&call, Body::Str(s("yay"))).unwrap();
    let inbound = deliver(&mut server);
    assert_eq!(inbound.len(), 2);

    let mut stream = SignalStream {
        path: s("/"),
        interface: s("org.zbus.p2p"),
        member: None,
        expr: s("type='signal',path='/',interface='org.zbus.p2p'"),
        src_bus_name: None,
        src_query: None,
        src_unique_name: None,
    };
    let mut signal_seen = false;
    let mut reply_seen = false;
    for msg in inbound {
        if stream.filter(&msg).unwrap() {
            assert_eq!(msg.member.as_deref(), Some("ASignalForYou"));
            assert!(!reply_seen, "the signal must come out before the reply");
            signal_seen = true;
        }
        if classify_reply(&msg, serial) == ReplyOutcome::Return {
            reply_seen = true;
        }
    }
    assert!(signal_seen && reply_seen);
}

#[test]
fn get_id_call_shape() {
    // S1: GetId on org.freedesktop.DBus produces a single string reply.
    let mut conn = Connection::new(s("guid"), true, true);
    conn.complete_hello(s(":1.42")).unwrap();
    let serial = conn
        .call_method(
            Some(s("org.freedesktop.DBus")),
            s("/org/freedesktop/DBus"),
            Some(s("org.freedesktop.DBus")),
            s("GetId"),
            Body::Unit,
        )
        .unwrap();
    let call = deliver(&mut conn).pop().unwrap();
    assert_eq!(call.destination.as_deref(), Some("org.freedesktop.DBus"));
    assert_eq!(call.path.as_deref(), Some("/org/freedesktop/DBus"));
    assert_eq!(call.interface.as_deref(), Some("org.freedesktop.DBus"));
    assert_eq!(call.member.as_deref(), Some("GetId"));
    assert_eq!(call.sender.as_deref(), Some(":1.42"));

    let reply = Message {
        msg_type: MsgType::MethodReturn,
        serial: Some(1),
        sender: Some(s("org.freedesktop.DBus")),
        destination: Some(s(":1.42")),
        path: None,
        interface: None,
        member: None,
        error_name: None,
        reply_serial: Some(serial),
        no_reply_expected: false,
        body: Body::Str(s("77cd07951b8a6b3ae4ddcdd4cc6cd43b")),
        n_fds: 0,
    };
    assert_eq!(classify_reply(&reply, serial), ReplyOutcome::Return);
    match reply.body {
        Body::Str(id) => assert!(!id.is_empty()),
        _ => panic!("GetId must reply with one string"),
    }
}

#[test]
fn well_known_registration_signals() {
    // S2: after request_name, NameAcquired carries the name, and
    // NameOwnerChanged announces this connection as the new owner.
    let mut conn = Connection::new(s("guid"), true, true);
    conn.complete_hello(s(":1.7")).unwrap();
    assert_eq!(conn.request_name(s("org.example.zbus.Test")), Ok(true));
    assert_eq!(REQUEST_NAME_FLAGS, 6);

    let proxy = Proxy::new("org.example.zbus.Test", "/", "org.example.zbus", false).unwrap();
    let tracker: OwnerChangedStream = proxy.receive_owner_changed();
    assert_eq!(tracker.name().as_str(), "org.example.zbus.Test");

    let acquired = Message {
        msg_type: MsgType::Signal,
        serial: Some(3),
        sender: Some(s("org.freedesktop.DBus")),
        destination: Some(s(":1.7")),
        path: Some(s("/org/freedesktop/DBus")),
        interface: Some(s("org.freedesktop.DBus")),
        member: Some(s("NameAcquired")),
        error_name: None,
        reply_serial: None,
        no_reply_expected: false,
        body: Body::Str(s("org.example.zbus.Test")),
        n_fds: 0,
    };
    match &acquired.body {
        Body::Str(name) => assert_eq!(name, "org.example.zbus.Test"),
        _ => panic!("NameAcquired carries the name"),
    }

    let changed = Message {
        msg_type: MsgType::Signal,
        serial: Some(4),
        sender: Some(s("org.freedesktop.DBus")),
        destination: None,
        path: Some(s("/org/freedesktop/DBus")),
        interface: Some(s("org.freedesktop.DBus")),
        member: Some(s("NameOwnerChanged")),
        error_name: None,
        reply_serial: None,
        no_reply_expected: false,
        body: Body::OwnerChange {
            name: s("org.example.zbus.Test"),
            old_owner: None,
            new_owner: Some(s(":1.7")),
        },
        n_fds: 0,
    };
    assert_eq!(tracker.filter(&changed), Some(Some(s(":1.7"))));
    let unrelated = Message {
        body: Body::OwnerChange { name: s("org.example.Other"), old_owner: None, new_owner: None },
        ..changed
    };
    assert_eq!(tracker.filter(&unrelated), None);
}

#[test]
fn property_race_keeps_fresher_signal() {
    // S4: a PropertiesChanged{foo: 2} applied before the GetAll reply
    // {foo: 1, bar: 3} is not overwritten by it.
    let mut proxy = Proxy::new(":1.9", "/obj", "org.example.Iface", true).unwrap();
    let applied = proxy.handle_properties_changed(
        "org.example.Iface",
        &vec![(s("foo"), u32_value(2))],
        &vec![],
    );
    assert!(applied);
    let had_cache = proxy.handle_get_all_reply(&vec![
        (s("foo"), u32_value(1)),
        (s("bar"), u32_value(3)),
    ]);
    assert!(had_cache);
    assert!(proxy.cache_ready());
    assert_eq!(proxy.cached_property("foo").unwrap().data, 2u32.to_le_bytes().to_vec());
    assert_eq!(proxy.cached_property("bar").unwrap().data, 3u32.to_le_bytes().to_vec());
}

#[test]
fn property_cache_invalidation_and_refetch() {
    let mut proxy = Proxy::new(":1.9", "/obj", "org.example.Iface", true).unwrap();
    proxy.handle_get_all_reply(&vec![(s("foo"), u32_value(1))]);
    assert!(proxy.cached_property("foo").is_some());

    // an invalidation keeps the entry but forgets the value
    proxy.handle_properties_changed("org.example.Iface", &vec![], &vec![s("foo")]);
    assert!(proxy.cached_property("foo").is_none());

    // a notification for another interface is ignored
    let applied = proxy.handle_properties_changed(
        "org.example.OtherIface",
        &vec![(s("foo"), u32_value(9))],
        &vec![],
    );
    assert!(!applied);
    assert!(proxy.cached_property("foo").is_none());

    // the fall-back Get stores the fetched value again
    proxy.store_fetched_property("foo", u32_value(5));
    assert_eq!(proxy.cached_property("foo").unwrap().data, 5u32.to_le_bytes().to_vec());

    // a caching-disabled proxy never reports values
    let bare = Proxy::new(":1.9", "/obj", "org.example.Iface", false).unwrap();
    assert!(bare.cached_property("foo").is_none());
    assert!(!bare.cache_ready());
}

#[test]
fn properties_changed_invalidates_before_storing() {
    // within one notification the invalidations land first, so a name
    // both invalidated and changed ends up with the changed value
    let mut proxy = Proxy::new(":1.9", "/obj", "org.example.Iface", true).unwrap();
    proxy.handle_get_all_reply(&vec![(s("foo"), u32_value(1))]);
    proxy.handle_properties_changed(
        "org.example.Iface",
        &vec![(s("foo"), u32_value(2))],
        &vec![s("foo")],
    );
    assert_eq!(proxy.cached_property("foo").unwrap().data, 2u32.to_le_bytes().to_vec());

    // invalidating a name with no entry creates none
    proxy.handle_properties_changed("org.example.Iface", &vec![], &vec![s("ghost")]);
    assert!(proxy.cached_property("ghost").is_none());

    // a pre-registered change stream entry exists but holds no value
    proxy.receive_property_changed("watched");
    assert!(proxy.cached_property("watched").is_none());
    proxy.store_fetched_property("watched", u32_value(4));
    assert_eq!(proxy.cached_property("watched").unwrap().data, 4u32.to_le_bytes().to_vec());
}

#[test]
fn property_lookup_paths() {
    let mut conn = Connection::new(s("guid"), true, true);
    conn.complete_hello(s(":1.3")).unwrap();
    let mut proxy = Proxy::new("org.example.Svc", "/obj", "org.example.Iface", true).unwrap();

    // before population, a read goes to the bus
    match proxy.get_property(&mut conn, "Volume") {
        PropertyLookup::Fetch(serial) => {
            let call = conn.take_out_queue().pop().unwrap();
            assert_eq!(call.serial, Some(serial));
            assert_eq!(call.interface.as_deref(), Some("org.freedesktop.DBus.Properties"));
            assert_eq!(call.member.as_deref(), Some("Get"));
            match call.body {
                Body::StrPair(i, n) => {
                    assert_eq!(i, "org.example.Iface");
                    assert_eq!(n, "Volume");
                }
                _ => panic!("Get carries interface and property name"),
            }
        }
        PropertyLookup::Cached(_) => panic!("nothing is cached yet"),
    }

    proxy.handle_get_all_reply(&vec![(s("Volume"), u32_value(11))]);
    match proxy.get_property(&mut conn, "Volume") {
        PropertyLookup::Cached(v) => assert_eq!(v.data, 11u32.to_le_bytes().to_vec()),
        PropertyLookup::Fetch(_) => panic!("the populated cache must answer"),
    }

    let serial = proxy.set_property(&mut conn, "Volume", u32_value(12));
    let call = conn.take_out_queue().pop().unwrap();
    assert_eq!(call.serial, Some(serial));
    assert_eq!(call.member.as_deref(), Some("Set"));

    let serial = proxy.introspect(&mut conn);
    let call = conn.take_out_queue().pop().unwrap();
    assert_eq!(call.serial, Some(serial));
    assert_eq!(call.interface.as_deref(), Some("org.freedesktop.DBus.Introspectable"));
    assert_eq!(call.member.as_deref(), Some("Introspect"));
}

#[test]
fn subscription_installs_match_and_owner_query() {
    let mut conn = Connection::new(s("guid"), true, true);
    conn.complete_hello(s(":1.8")).unwrap();
    let mut proxy = Proxy::new("org.example.Svc", "/obj", "org.example.Iface", false).unwrap();

    // the owner watch is installed once
    let watch = proxy.destination_unique_name(&mut conn);
    assert_eq!(watch, BusCall::SendAddMatch);
    assert_eq!(proxy.destination_unique_name(&mut conn), BusCall::Nothing);

    let (stream, action) = proxy.receive_signal(&mut conn, s("Changed")).unwrap();
    assert_eq!(action, BusCall::SendAddMatch);
    assert_eq!(
        stream.expr,
        "type='signal',sender='org.example.Svc',path='/obj',interface='org.example.Iface',member='Changed'"
    );
    // a well-known destination sends GetNameOwner; the query serial is
    // the one on the enqueued call
    let call = conn.take_out_queue().pop().unwrap();
    assert_eq!(call.member.as_deref(), Some("GetNameOwner"));
    assert_eq!(call.serial, stream.src_query);
    match call.body {
        Body::Str(n) => assert_eq!(n, "org.example.Svc"),
        _ => panic!("GetNameOwner carries the name"),
    }

    // a second subscription to the same signal reuses the reservation
    let (_, action2) = proxy.receive_signal(&mut conn, s("Changed")).unwrap();
    assert_eq!(action2, BusCall::Nothing);

    // an invalid member is refused
    assert!(matches!(
        proxy.receive_signal(&mut conn, s("not a member")),
        Err(Error::NameError)
    ));

    // a unique destination seeds the stream directly
    let mut direct = Proxy::new(":1.77", "/obj", "org.example.Iface", false).unwrap();
    assert_eq!(direct.destination_unique_name(&mut conn), BusCall::Nothing);
    let (stream2, _) = direct.receive_all_signals(&mut conn);
    assert_eq!(stream2.src_unique_name.as_deref(), Some(":1.77"));
    assert!(stream2.src_query.is_none());

    // the PropertiesChanged subscription rides the same machinery
    let (props_stream, _) = proxy.receive_properties_changed(&mut conn);
    assert_eq!(props_stream.interface, "org.freedesktop.DBus.Properties");
    assert_eq!(props_stream.member.as_deref(), Some("PropertiesChanged"));

    // starting the cache sends GetAll once (this proxy has no cache)
    assert!(proxy.start_property_cache(&mut conn).is_none());
    let mut cached = Proxy::new("org.example.Svc", "/obj", "org.example.Iface", true).unwrap();
    let first = cached.start_property_cache(&mut conn);
    assert!(first.is_some());
    let call = conn.take_out_queue().pop().unwrap();
    assert_eq!(call.member.as_deref(), Some("GetAll"));
    match call.body {
        Body::Str(i) => assert_eq!(i, "org.example.Iface"),
        _ => panic!("GetAll carries the interface"),
    }
    assert!(cached.start_property_cache(&mut conn).is_none());
}

#[test]
fn signal_handler_registration_via_connection() {
    let mut conn = Connection::new(s("guid"), true, true);
    conn.complete_hello(s(":1.2")).unwrap();
    let proxy = Proxy::new("org.example.Svc", "/obj", "org.example.Iface", false).unwrap();

    let entry = proxy.signal_handler_entry(Some(s("Changed")));
    let expr = entry.match_expr.clone();
    let (key, action) = conn.add_signal_handler(entry);
    assert_eq!(action, BusCall::SendAddMatch);

    let entry2 = proxy.signal_handler_entry(Some(s("Changed")));
    let (key2, action2) = conn.add_signal_handler(entry2);
    assert_eq!(action2, BusCall::Nothing);
    assert_ne!(key, key2);

    let (removed, release) = conn.remove_signal_handler(key);
    assert_eq!(removed, Some(expr.clone()));
    assert_eq!(release, BusCall::Nothing);
    let (removed2, release2) = conn.remove_signal_handler(key2);
    assert_eq!(removed2, Some(expr));
    assert_eq!(release2, BusCall::SendRemoveMatch);
    let (removed3, _) = conn.remove_signal_handler(key2);
    assert!(removed3.is_none());

    // the dispatch path registers the one-shot reply under the serial
    let call = Message {
        msg_type: MsgType::MethodCall,
        serial: None,
        sender: None,
        destination: Some(s("org.example.Svc")),
        path: Some(s("/obj")),
        interface: Some(s("org.example.Iface")),
        member: Some(s("Ping")),
        error_name: None,
        reply_serial: None,
        no_reply_expected: false,
        body: Body::Unit,
        n_fds: 0,
    };
    let serial = conn.dispatch_call(call, 501).unwrap();
    let reply = Message {
        msg_type: MsgType::MethodReturn,
        serial: Some(77),
        sender: Some(s("org.example.Svc")),
        destination: Some(s(":1.2")),
        path: None,
        interface: None,
        member: None,
        error_name: None,
        reply_serial: Some(serial),
        no_reply_expected: false,
        body: Body::Unit,
        n_fds: 0,
    };
    match conn.route_message(&reply) {
        zbus_core::scope::Dispatch::RunReply { serial: got, token } => {
            assert_eq!(got, serial);
            assert_eq!(token, 501);
        }
        _ => panic!("the dispatched call's reply must run its callback"),
    }
}

#[test]
fn proxy_calls_use_its_selection() {
    let mut conn = Connection::new(s("guid"), true, true);
    conn.complete_hello(s(":1.4")).unwrap();
    let proxy = Proxy::new("org.example.Svc", "/obj", "org.example.Iface", false).unwrap();

    let serial = proxy.call_method(&mut conn, s("Frobnicate"), Body::Unit).unwrap();
    let call = conn.take_out_queue().pop().unwrap();
    assert_eq!(call.serial, Some(serial));
    assert_eq!(call.destination.as_deref(), Some("org.example.Svc"));
    assert_eq!(call.path.as_deref(), Some("/obj"));
    assert_eq!(call.interface.as_deref(), Some("org.example.Iface"));
    assert_eq!(call.member.as_deref(), Some("Frobnicate"));
    assert!(!call.no_reply_expected);

    proxy.call_noreply(&mut conn, s("FireAndForget"), Body::Unit).unwrap();
    let call = conn.take_out_queue().pop().unwrap();
    assert_eq!(call.member.as_deref(), Some("FireAndForget"));
    assert!(call.no_reply_expected);

    assert!(matches!(
        proxy.call_method(&mut conn, s("bad.member"), Body::Unit),
        Err(Error::NameError)
    ));

    // a prebuilt call goes out through the raw path unchanged
    let prebuilt = Message {
        msg_type: MsgType::MethodCall,
        serial: None,
        sender: None,
        destination: Some(s("org.example.Svc")),
        path: Some(s("/obj")),
        interface: Some(s("org.example.Iface")),
        member: Some(s("Raw")),
        error_name: None,
        reply_serial: None,
        no_reply_expected: false,
        body: Body::Unit,
        n_fds: 0,
    };
    let serial = conn.call_method_raw(prebuilt).unwrap();
    let sent = conn.take_out_queue().pop().unwrap();
    assert_eq!(sent.serial, Some(serial));
    assert_eq!(sent.member.as_deref(), Some("Raw"));
}

#[test]
fn error_replies_surface_method_errors() {
    let mut client = Connection::new(s("guid"), true, false);
    let mut server = Connection::new(s("guid"), true, false);
    let serial = client
        .call_method(None, s("/"), Some(s("org.zbus.p2p")), s("Test"), Body::Unit)
        .unwrap();
    let call = deliver(&mut client).pop().unwrap();
    server
        .reply_error(&call, s("org.zbus.Error.Failed"), Body::Str(s("nope")))
        .unwrap();
    let err_reply = deliver(&mut server).pop().unwrap();
    assert_eq!(classify_reply(&err_reply, serial), ReplyOutcome::ErrorReply);
    assert_eq!(err_reply.error_name.as_deref(), Some("org.zbus.Error.Failed"));

    // an invalid error name is refused before anything is enqueued
    let e = server.reply_error(&call, s("not an error name"), Body::Unit);
    assert!(matches!(e, Err(Error::NameError)));
    assert!(server.take_out_queue().is_empty());

    // an invalid destination name in a call is a NameError
    let mut c = Connection::new(s("guid"), true, false);
    let e = c.call_method(Some(s("..")), s("/"), None, s("Test"), Body::Unit);
    assert!(matches!(e, Err(Error::NameError)));

    // name payloads move through BusName values unchanged
    let n = BusName::Unique(s(":1.1"));
    assert_eq!(n.as_str(), ":1.1");
}
