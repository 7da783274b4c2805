use chat_hub::{ChatServer, ClientMessage, Connect, Delivery, Disconnect};

fn s(text: &str) -> String {
    text.to_string()
}

fn join(hub: &mut ChatServer<u32>, id: &str, channel: &str, addr: u32) -> Delivery {
    hub.handle_connect(Connect { id: s(id), channel: s(channel), addr })
}

fn leave(hub: &mut ChatServer<u32>, id: &str, channel: &str) {
    hub.handle_disconnect(Disconnect { id: s(id), channel: s(channel) });
}

fn receivers(deliveries: &[Delivery]) -> Vec<String> {
    let mut out: Vec<String> = deliveries.iter().map(|d| d.to.clone()).collect();
    out.sort();
    out
}

#[test]
fn new_hub_has_no_channels() {
    let hub: ChatServer<u32> = ChatServer::new();
    assert!(!hub.contains_channel(&s("general")));
    assert!(hub.send_message("general", "hi").is_empty());
}

#[test]
fn connect_welcomes_only_the_new_member() {
    let mut hub = ChatServer::new();
    let first = join(&mut hub, "a", "general", 1);
    assert_eq!(first.to, "a");
    assert_eq!(first.msg.0, "Server: Joined");
    let second = join(&mut hub, "b", "general", 2);
    assert_eq!(second.to, "b");
    assert_eq!(second.msg.0, "Server: Joined");
}

#[test]
fn connect_creates_channel_on_first_join() {
    let mut hub = ChatServer::new();
    join(&mut hub, "a", "Room", 1);
    assert!(hub.contains_channel(&s("Room")));
    assert!(!hub.contains_channel(&s("room")));
    assert_eq!(hub.recipient(&s("Room"), &s("a")), Some(&1));
}

#[test]
fn reconnect_replaces_handle() {
    let mut hub = ChatServer::new();
    join(&mut hub, "a", "general", 1);
    join(&mut hub, "a", "general", 7);
    assert_eq!(hub.recipient(&s("general"), &s("a")), Some(&7));
    let out = hub.send_message("general", "once");
    assert_eq!(receivers(&out), vec![s("a")]);
}

#[test]
fn both_members_receive_text_including_sender() {
    let mut hub = ChatServer::new();
    join(&mut hub, "A", "general", 1);
    join(&mut hub, "B", "general", 2);
    let out = hub.handle_client_message(ClientMessage {
        id: s("A"),
        msg: s("hi"),
        channel: s("general"),
    });
    assert_eq!(receivers(&out), vec![s("A"), s("B")]);
    for d in &out {
        assert_eq!(d.msg.0, "hi");
    }
}

#[test]
fn broadcast_stays_inside_its_channel() {
    let mut hub = ChatServer::new();
    join(&mut hub, "a", "red", 1);
    join(&mut hub, "b", "red", 2);
    join(&mut hub, "c", "blue", 3);
    let out = hub.send_message("red", "ping");
    assert_eq!(out.len(), 2);
    assert_eq!(receivers(&out), vec![s("a"), s("b")]);
    let blue = hub.send_message("blue", "pong");
    assert_eq!(receivers(&blue), vec![s("c")]);
    assert_eq!(blue[0].msg.0, "pong");
}

#[test]
fn broadcast_to_missing_channel_is_noop() {
    let mut hub = ChatServer::new();
    join(&mut hub, "a", "red", 1);
    assert!(hub.send_message("green", "hello").is_empty());
}

#[test]
fn join_then_disconnect_leaves_no_channel() {
    let mut hub = ChatServer::new();
    join(&mut hub, "conn", "x", 1);
    assert!(hub.contains_channel(&s("x")));
    leave(&mut hub, "conn", "x");
    assert!(!hub.contains_channel(&s("x")));
    assert!(hub.send_message("x", "anyone?").is_empty());
}

#[test]
fn channel_present_while_it_has_members() {
    let mut hub = ChatServer::new();
    join(&mut hub, "a", "c", 1);
    join(&mut hub, "b", "c", 2);
    leave(&mut hub, "a", "c");
    assert!(hub.contains_channel(&s("c")));
    assert_eq!(receivers(&hub.send_message("c", "t")), vec![s("b")]);
    leave(&mut hub, "b", "c");
    assert!(!hub.contains_channel(&s("c")));
}

#[test]
fn disconnect_is_idempotent() {
    let mut hub = ChatServer::new();
    join(&mut hub, "a", "c", 1);
    join(&mut hub, "b", "c", 2);
    leave(&mut hub, "a", "c");
    leave(&mut hub, "a", "c");
    assert_eq!(hub.recipient(&s("c"), &s("a")), None);
    assert_eq!(hub.recipient(&s("c"), &s("b")), Some(&2));
}

#[test]
fn disconnect_unknown_is_noop() {
    let mut hub = ChatServer::new();
    join(&mut hub, "a", "c", 1);
    leave(&mut hub, "zz", "c");
    leave(&mut hub, "a", "other");
    assert_eq!(receivers(&hub.send_message("c", "t")), vec![s("a")]);
    assert!(!hub.contains_channel(&s("other")));
}

#[test]
fn disconnect_touches_only_its_channel() {
    let mut hub = ChatServer::new();
    join(&mut hub, "a", "one", 1);
    join(&mut hub, "a", "two", 2);
    leave(&mut hub, "a", "one");
    assert!(!hub.contains_channel(&s("one")));
    assert_eq!(hub.recipient(&s("two"), &s("a")), Some(&2));
}
