use vstd::prelude::*;

verus! {

/// An update addressed to a group. `update` holds the serialized update
/// value; the relay never looks inside it.
#[derive(Clone, Debug)]
pub struct UMessage {
    pub group_id: u32,
    pub packet_id: u32,
    pub update: String,
}

impl UMessage {
    /// The message that submits `update` to `group_id` as packet `packet_id`.
    pub fn new(group_id: u32, packet_id: u32, update: String) -> (r: UMessage)
        ensures
            r == (UMessage { group_id, packet_id, update }),
    {
        UMessage { group_id, packet_id, update }
    }

    /// A copy of this message.
    pub fn copy(&self) -> (r: UMessage)
        ensures
            r == *self,
    {
        UMessage { group_id: self.group_id, packet_id: self.packet_id, update: self.update.clone() }
    }
}

/// What a client sends to the relay.
#[derive(Clone, Debug)]
pub enum ClientMessage {
    /// Subscribes the connection to a group; must come first.
    JoinGroup(u32),
    /// Submits an update.
    Update(UMessage),
}

/// What the relay sends to a client.
#[derive(Clone, Debug)]
pub enum ServerMessage {
    /// An accepted update, broadcast to every subscriber of its group.
    Update(UMessage),
    /// The join, or the client's last submission, was accepted.
    Correct,
    /// The client's last submission was rejected.
    Error,
}

impl ServerMessage {
    /// A copy of this message.
    pub fn copy(&self) -> (r: ServerMessage)
        ensures
            r == *self,
    {
        match self {
            ServerMessage::Update(m) => ServerMessage::Update(m.copy()),
            ServerMessage::Correct => ServerMessage::Correct,
            ServerMessage::Error => ServerMessage::Error,
        }
    }
}

} // verus!
