use vstd::prelude::*;

verus! {

/// A line of text handed to one connection.
#[derive(Debug, PartialEq, Eq)]
pub struct Message(pub String);

/// Text sent by connection `id`, to be relayed to everyone in `channel`.
#[derive(Debug, PartialEq, Eq)]
pub struct ClientMessage {
    pub id: String,
    pub msg: String,
    pub channel: String,
}

/// Asks the hub to register connection `id` under `channel`, reachable through `addr`.
pub struct Connect<H> {
    pub id: String,
    pub channel: String,
    pub addr: H,
}

/// Asks the hub to forget connection `id` in `channel`.
#[derive(Debug)]
pub struct Disconnect {
    pub id: String,
    pub channel: String,
}

/// One frame the hub wants pushed to the connection named `to`.
#[derive(Debug)]
pub struct Delivery {
    pub to: String,
    pub msg: Message,
}

} // verus!
