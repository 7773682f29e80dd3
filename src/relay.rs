use vstd::prelude::*;
use crate::messages::{ClientMessage, ServerMessage, UMessage};

verus! {

/// Why the relay ended a connection.
#[derive(Debug)]
pub enum ServerError {
    CommunicationError(String),
    SendError(String),
    ReadError(String),
    LockError(String),
}

/// What the relay read from a connection: a message, bytes that are no
/// client message, the end of the stream, or a failed read.
#[derive(Debug)]
pub enum Incoming {
    Message(ClientMessage),
    Malformed,
    Closed,
    Failed,
}

/// The packet ids of a history are its indices.
pub open spec fn numbered(history: Seq<UMessage>) -> bool {
    forall|i: int| 0 <= i < history.len() ==> #[trigger] history[i].packet_id == i
}

/// Whether the relay accepts `m` from a group whose history is `history`:
/// `m` must claim the next slot, and the counter must have room to advance.
pub open spec fn accepts(history: Seq<UMessage>, m: UMessage) -> bool {
    m.packet_id == history.len() && history.len() < u32::MAX
}

/// The state the relay keeps for one group: the accepted updates in the
/// order they were accepted, and their count.
pub struct Group {
    packet_counter: u32,
    history: Vec<UMessage>,
}

impl View for Group {
    type V = Seq<UMessage>;

    closed spec fn view(&self) -> Seq<UMessage> {
        self.history@
    }
}

impl Group {
    #[verifier::type_invariant]
    spec fn wf(self) -> bool {
        &&& self.history@.len() == self.packet_counter
        &&& numbered(self.history@)
    }

    /// A group with no accepted update.
    pub fn new() -> (r: Group)
        ensures
            r@ == Seq::<UMessage>::empty(),
            numbered(r@),
    {
        Group { packet_counter: 0, history: Vec::new() }
    }

    /// The number of accepted updates, which is the packet id that the next
    /// submission must carry.
    pub fn packet_counter(&self) -> (r: u32)
        ensures
            r == self@.len(),
            numbered(self@),
    {
        proof {
            use_type_invariant(self);
        }
        self.packet_counter
    }

    /// The accepted updates, in order, as the messages that replay them.
    pub fn history(&self) -> (r: Vec<ServerMessage>)
        ensures
            numbered(self@),
            r@.len() == self@.len(),
            forall|i: int| 0 <= i < r@.len() ==> #[trigger] r@[i] == ServerMessage::Update(self@[i]),
    {
        proof {
            use_type_invariant(self);
        }
        let mut r: Vec<ServerMessage> = Vec::new();
        let mut i: usize = 0;
        while i < self.history.len()
            invariant
                i <= self.history@.len(),
                r@.len() == i,
                forall|j: int| 0 <= j < i ==> #[trigger] r@[j] == ServerMessage::Update(self.history@[j]),
            decreases self.history@.len() - i,
        {
            r.push(ServerMessage::Update(self.history[i].copy()));
            i += 1;
        }
        r
    }

    /// Arbitrates a submission: accepts it, appending it to the history,
    /// exactly when it claims the next slot; replies `Correct` or `Error`.
    pub fn submit(&mut self, m: UMessage) -> (r: ServerMessage)
        ensures
            numbered(final(self)@),
            accepts(old(self)@, m) ==> r == ServerMessage::Correct && final(self)@ == old(self)@.push(m),
            !accepts(old(self)@, m) ==> r == ServerMessage::Error && final(self)@ == old(self)@,
    {
        proof {
            use_type_invariant(&*self);
        }
        if m.packet_id == self.packet_counter && self.packet_counter < u32::MAX {
            let mut taken = Group::new();
            std::mem::swap(self, &mut taken);
            proof {
                use_type_invariant(&taken);
            }
            let Group { packet_counter, mut history } = taken;
            history.push(m);
            *self = Group { packet_counter: packet_counter + 1, history };
            ServerMessage::Correct
        } else {
            ServerMessage::Error
        }
    }
}

/// What a connection does next once the relay has handled what it read.
pub enum Step {
    /// Send `broadcast`, if any, to every subscriber of the group, and
    /// `response` to this client.
    Respond { broadcast: Option<ServerMessage>, response: ServerMessage },
    /// The client is gone: close the connection.
    Close,
}

/// The group that the first message of a connection joins. Anything else
/// than a `JoinGroup` ends the connection.
pub fn read_group_id(incoming: Incoming) -> (r: Result<u32, ServerError>)
    ensures
        match incoming {
            Incoming::Message(ClientMessage::JoinGroup(g)) => r == Ok::<u32, ServerError>(g),
            Incoming::Message(ClientMessage::Update(_)) => r matches Err(
                ServerError::CommunicationError(_),
            ),
            Incoming::Malformed => r matches Err(ServerError::CommunicationError(_)),
            Incoming::Closed => r matches Err(ServerError::CommunicationError(_)),
            Incoming::Failed => r matches Err(ServerError::ReadError(_)),
        },
{
    match incoming {
        Incoming::Message(ClientMessage::JoinGroup(group_id)) => Ok(group_id),
        Incoming::Message(ClientMessage::Update(_)) => Err(
            ServerError::CommunicationError(
                String::from_str("Unexpected message while reading Group ID"),
            ),
        ),
        Incoming::Malformed => Err(
            ServerError::CommunicationError(String::from_str("Failed to parse group ID")),
        ),
        Incoming::Closed => Err(
            ServerError::CommunicationError(
                String::from_str("Client disconnected while reading group ID"),
            ),
        ),
        Incoming::Failed => Err(ServerError::ReadError(String::from_str("Group ID"))),
    }
}

/// Handles what a joined connection read, under the group's lock: an update
/// is arbitrated by `Group::submit`, and an accepted one is broadcast.
pub fn handle_incoming_message(incoming: Incoming, group: &mut Group) -> (r: Result<
    Step,
    ServerError,
>)
    ensures
        numbered(final(group)@),
        match incoming {
            Incoming::Message(ClientMessage::Update(m)) => {
                if accepts(old(group)@, m) {
                    &&& final(group)@ == old(group)@.push(m)
                    &&& r == Ok::<Step, ServerError>(
                        Step::Respond {
                            broadcast: Some(ServerMessage::Update(m)),
                            response: ServerMessage::Correct,
                        },
                    )
                } else {
                    &&& final(group)@ == old(group)@
                    &&& r == Ok::<Step, ServerError>(
                        Step::Respond { broadcast: None, response: ServerMessage::Error },
                    )
                }
            },
            Incoming::Message(ClientMessage::JoinGroup(_)) => final(group)@ == old(group)@
                && r matches Err(ServerError::CommunicationError(_)),
            Incoming::Malformed => final(group)@ == old(group)@ && r matches Err(
                ServerError::ReadError(_),
            ),
            Incoming::Closed => final(group)@ == old(group)@ && r == Ok::<Step, ServerError>(
                Step::Close,
            ),
            Incoming::Failed => final(group)@ == old(group)@ && r matches Err(
                ServerError::ReadError(_),
            ),
        },
{
    proof {
        use_type_invariant(&*group);
    }
    match incoming {
        Incoming::Message(ClientMessage::Update(m)) => {
            let broadcast = ServerMessage::Update(m.copy());
            let response = group.submit(m);
            match response {
                ServerMessage::Correct => Ok(Step::Respond { broadcast: Some(broadcast), response }),
                _ => Ok(Step::Respond { broadcast: None, response }),
            }
        },
        Incoming::Message(ClientMessage::JoinGroup(_)) => Err(
            ServerError::CommunicationError(String::from_str("Unexpected message from client")),
        ),
        Incoming::Malformed => Err(
            ServerError::ReadError(String::from_str("Failed to deserialize message")),
        ),
        Incoming::Closed => Ok(Step::Close),
        Incoming::Failed => Err(ServerError::ReadError(String::from_str("Incoming message"))),
    }
}

} // verus!
