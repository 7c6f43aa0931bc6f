use zbus_core::message::{Body, Message, MsgType};
use zbus_core::names::BusName;
use zbus_core::signal_stream::{name_watch_expr, signal_match_expr, SignalStream};
use zbus_core::Error;

fn s(v: &str) -> String {
    String::from(v)
}

fn signal_from(sender: Option<&str>, path: &str, interface: &str, member: &str) -> Message {
    Message {
        msg_type: MsgType::Signal,
        serial: Some(40),
        sender: sender.map(s),
        destination: None,
        path: Some(s(path)),
        interface: Some(s(interface)),
        member: Some(s(member)),
        error_name: None,
        reply_serial: None,
        no_reply_expected: false,
        body: Body::Unit,
        n_fds: 0,
    }
}

fn owner_changed(name: &str, old_owner: Option<&str>, new_owner: Option<&str>) -> Message {
    Message {
        msg_type: MsgType::Signal,
        serial: Some(41),
        sender: Some(s("org.freedesktop.DBus")),
        destination: None,
        path: Some(s("/org/freedesktop/DBus")),
        interface: Some(s("org.freedesktop.DBus")),
        member: Some(s("NameOwnerChanged")),
        error_name: None,
        reply_serial: None,
        no_reply_expected: false,
        body: Body::OwnerChange {
            name: s(name),
            old_owner: old_owner.map(s),
            new_owner: new_owner.map(s),
        },
        n_fds: 0,
    }
}

#[test]
fn match_expressions_are_exact() {
    let expr = signal_match_expr(
        "org.freedesktop.GeoClue2",
        "/org/freedesktop/GeoClue2/Manager",
        "org.freedesktop.GeoClue2.Manager",
        &Some(s("Updated")),
    );
    assert_eq!(
        expr,
        "type='signal',sender='org.freedesktop.GeoClue2',path='/org/freedesktop/GeoClue2/Manager',interface='org.freedesktop.GeoClue2.Manager',member='Updated'"
    );
    let broad = signal_match_expr(":1.5", "/", "org.zbus.p2p", &None);
    assert_eq!(broad, "type='signal',sender=':1.5',path='/',interface='org.zbus.p2p'");
    let watch = name_watch_expr("org.example.zbus.Test");
    assert_eq!(
        watch,
        "type='signal',sender='org.freedesktop.DBus',path='/org/freedesktop/DBus',interface='org.freedesktop.DBus',member='NameOwnerChanged',arg0='org.example.zbus.Test'"
    );
}

#[test]
fn stream_for_unique_destination_accepts_only_that_sender() {
    let dest = BusName::Unique(s(":1.5"));
    let mut stream = SignalStream::new(&dest, s("/"), s("org.zbus.p2p"), None, None);
    assert_eq!(stream.src_unique_name.as_deref(), Some(":1.5"));

    let good = signal_from(Some(":1.5"), "/", "org.zbus.p2p", "ASignalForYou");
    assert_eq!(stream.filter(&good), Ok(true));

    let spoofed = signal_from(Some(":1.66"), "/", "org.zbus.p2p", "ASignalForYou");
    assert_eq!(stream.filter(&spoofed), Ok(false));

    let wrong_path = signal_from(Some(":1.5"), "/obj", "org.zbus.p2p", "ASignalForYou");
    assert_eq!(stream.filter(&wrong_path), Ok(false));

    let wrong_iface = signal_from(Some(":1.5"), "/", "org.zbus.other", "ASignalForYou");
    assert_eq!(stream.filter(&wrong_iface), Ok(false));
}

#[test]
fn stream_owner_seeding_and_tracking() {
    // A well-known destination accepts nothing until the GetNameOwner
    // reply arrives, then exactly the owner it named.
    let dest = BusName::WellKnown(s("org.example.Service"));
    let mut stream = SignalStream::new(
        &dest,
        s("/obj"),
        s("org.example.Iface"),
        Some(s("Changed")),
        Some(11),
    );
    assert_eq!(stream.src_query, Some(11));
    assert!(stream.src_unique_name.is_none());

    let early = signal_from(Some(":1.9"), "/obj", "org.example.Iface", "Changed");
    assert_eq!(stream.filter(&early), Ok(false));

    let seed = Message {
        msg_type: MsgType::MethodReturn,
        serial: Some(90),
        sender: Some(s("org.freedesktop.DBus")),
        destination: None,
        path: None,
        interface: None,
        member: None,
        error_name: None,
        reply_serial: Some(11),
        no_reply_expected: false,
        body: Body::Str(s(":1.9")),
        n_fds: 0,
    };
    assert_eq!(stream.filter(&seed), Ok(false));
    assert!(stream.src_query.is_none());
    assert_eq!(stream.src_unique_name.as_deref(), Some(":1.9"));

    let now_good = signal_from(Some(":1.9"), "/obj", "org.example.Iface", "Changed");
    assert_eq!(stream.filter(&now_good), Ok(true));

    // the owner moves; the old sender is refused, the new accepted
    let moved = owner_changed("org.example.Service", Some(":1.9"), Some(":1.33"));
    assert_eq!(stream.filter(&moved), Ok(false));
    assert_eq!(stream.src_unique_name.as_deref(), Some(":1.33"));
    let old_sender = signal_from(Some(":1.9"), "/obj", "org.example.Iface", "Changed");
    assert_eq!(stream.filter(&old_sender), Ok(false));
    let new_sender = signal_from(Some(":1.33"), "/obj", "org.example.Iface", "Changed");
    assert_eq!(stream.filter(&new_sender), Ok(true));

    // the name is released: no sender matches any more
    let released = owner_changed("org.example.Service", Some(":1.33"), None);
    assert_eq!(stream.filter(&released), Ok(false));
    let after = signal_from(Some(":1.33"), "/obj", "org.example.Iface", "Changed");
    assert_eq!(stream.filter(&after), Ok(false));

    // a change of someone else's name leaves the owner alone
    let other = owner_changed("org.example.Other", None, Some(":1.50"));
    assert_eq!(stream.filter(&other), Ok(false));
    assert!(stream.src_unique_name.is_none());
}

#[test]
fn stream_rejects_malformed_bodies() {
    let dest = BusName::WellKnown(s("org.example.Service"));
    let mut stream = SignalStream::new(&dest, s("/obj"), s("org.example.Iface"), None, Some(4));

    let bad_seed = Message {
        msg_type: MsgType::MethodReturn,
        serial: Some(90),
        sender: None,
        destination: None,
        path: None,
        interface: None,
        member: None,
        error_name: None,
        reply_serial: Some(4),
        no_reply_expected: false,
        body: Body::Unit,
        n_fds: 0,
    };
    assert_eq!(stream.filter(&bad_seed), Err(Error::Protocol));
    assert!(stream.src_query.is_none());
    assert!(stream.src_unique_name.is_none());

    let mut bad_notice = owner_changed("org.example.Service", None, Some(":1.2"));
    bad_notice.body = Body::Raw(vec![1, 2, 3]);
    assert_eq!(stream.filter(&bad_notice), Err(Error::Protocol));
    assert!(stream.src_unique_name.is_none());
}

#[test]
fn p2p_stream_accepts_unnamed_senders() {
    // On a peer-to-peer link no owner is expected and messages carry no
    // sender; the stream still delivers the selection.
    let mut stream = SignalStream {
        path: s("/"),
        interface: s("org.zbus.p2p"),
        member: Some(s("ASignalForYou")),
        expr: signal_match_expr(":p2p", "/", "org.zbus.p2p", &Some(s("ASignalForYou"))),
        src_bus_name: None,
        src_query: None,
        src_unique_name: None,
    };
    let unnamed = signal_from(None, "/", "org.zbus.p2p", "ASignalForYou");
    assert_eq!(stream.filter(&unnamed), Ok(true));
    let named = signal_from(Some(":1.1"), "/", "org.zbus.p2p", "ASignalForYou");
    assert_eq!(stream.filter(&named), Ok(false));
}
