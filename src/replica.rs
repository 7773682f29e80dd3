use vstd::prelude::*;
use crate::messages::{ClientMessage, ServerMessage, UMessage};
use crate::update::Updatable;

verus! {

/// The errors a client sees.
#[derive(Debug)]
pub enum SError {
    /// Opening the connection or joining the group failed.
    ConnectionError(String),
    /// The relay closed the stream or broke the protocol.
    ServerError(String),
    /// Serialization, a channel, a lock or the replica failed.
    InternalError(String),
}

pub type Result<T> = core::result::Result<T, SError>;

/// A connection error with the given description.
pub fn to_connection_error(error: String) -> (r: SError)
    ensures
        r == SError::ConnectionError(error),
{
    SError::ConnectionError(error)
}

/// A server error with the given description.
pub fn to_server_error(error: String) -> (r: SError)
    ensures
        r == SError::ServerError(error),
{
    SError::ServerError(error)
}

/// An internal error with the given description.
pub fn to_internal_error(error: String) -> (r: SError)
    ensures
        r == SError::InternalError(error),
{
    SError::InternalError(error)
}

/// The outcome of a submission, as the reader hands it to the publisher.
#[derive(PartialEq, Eq, Structural, Debug, Clone, Copy)]
pub enum ResponseType {
    Accepted,
    Rejected,
}

/// The view of a replica after applying `us`, in order, to one whose view is `v`.
pub open spec fn replay<V: Updatable>(v: V::V, us: Seq<V::Update>) -> V::V
    decreases us.len(),
{
    if us.len() == 0 {
        v
    } else {
        V::updated(replay::<V>(v, us.drop_last()), us.last())
    }
}

/// Whether each of `us`, in order, is applicable to what the ones before it left.
pub open spec fn replayable<V: Updatable>(v: V::V, us: Seq<V::Update>) -> bool
    decreases us.len(),
{
    if us.len() == 0 {
        true
    } else {
        replayable::<V>(v, us.drop_last()) && V::can_update(replay::<V>(v, us.drop_last()), us.last())
    }
}

/// Replaying a history in two parts, the second from where the first left
/// the replica, is replaying the whole: a client that receives the replayed
/// history of its group and then the live updates reaches the state of one
/// that saw every update live.
pub proof fn lemma_replay_concat<V: Updatable>(v: V::V, a: Seq<V::Update>, b: Seq<V::Update>)
    ensures
        replay::<V>(v, a + b) == replay::<V>(replay::<V>(v, a), b),
        replayable::<V>(v, a + b) == (replayable::<V>(v, a) && replayable::<V>(
            replay::<V>(v, a),
            b,
        )),
    decreases b.len(),
{
    if b.len() == 0 {
        assert(a + b =~= a);
    } else {
        lemma_replay_concat::<V>(v, a, b.drop_last());
        assert((a + b).drop_last() =~= a + b.drop_last());
        assert((a + b).last() == b.last());
    }
}

/// A client's replica: the value, the updates applied to it (in the relay's
/// order), and `last_packet_number`, the packet id of the next update
/// expected from the relay.
pub struct ClientReplica<V: Updatable> {
    inner: V,
    last_packet_number: u32,
    applied: Ghost<Seq<V::Update>>,
}

impl<V: Updatable> ClientReplica<V> {
    #[verifier::type_invariant]
    spec fn wf(self) -> bool {
        &&& self.applied@.len() == self.last_packet_number
        &&& replayable::<V>(V::initial(), self.applied@)
        &&& self.inner@ == replay::<V>(V::initial(), self.applied@)
    }

    /// The updates applied so far; update `i` came with packet id `i`.
    pub closed spec fn history(&self) -> Seq<V::Update> {
        self.applied@
    }

    /// The view of the replica.
    pub closed spec fn state(&self) -> V::V {
        self.inner@
    }

    /// A replica of a fresh value, expecting packet 0.
    pub fn new() -> (r: Self)
        ensures
            r.history() == Seq::<V::Update>::empty(),
            r.state() == V::initial(),
    {
        ClientReplica { inner: V::fresh(), last_packet_number: 0, applied: Ghost(Seq::empty()) }
    }

    /// The packet id of the next update expected from the relay.
    pub fn last_packet_number(&self) -> (r: u32)
        ensures
            r == self.history().len(),
            self.state() == replay::<V>(V::initial(), self.history()),
    {
        proof {
            use_type_invariant(self);
        }
        self.last_packet_number
    }

    /// The replicated value.
    pub fn get(&self) -> (r: &V)
        ensures
            r@ == self.state(),
            self.state() == replay::<V>(V::initial(), self.history()),
    {
        proof {
            use_type_invariant(self);
        }
        &self.inner
    }

    /// Applies an update that the relay broadcast as packet `packet_id`.
    /// Packets must come in order; an update out of order, or one that
    /// cannot be applied (the replica has diverged), is an error and leaves
    /// the replica as it was.
    pub fn apply_remote(&mut self, packet_id: u32, update: V::Update) -> (r: Result<()>)
        ensures
            final(self).state() == replay::<V>(V::initial(), final(self).history()),
            old(self).history().len() <= final(self).history().len(),
            r is Ok <==> (packet_id == old(self).history().len() && packet_id < u32::MAX
                && V::can_update(old(self).state(), update)),
            r is Ok ==> final(self).history() == old(self).history().push(update)
                && final(self).state() == V::updated(old(self).state(), update),
            r is Err ==> final(self).history() == old(self).history() && final(self).state() == old(
                self,
            ).state(),
            packet_id != old(self).history().len() || packet_id == u32::MAX ==> r matches Err(
                SError::ServerError(_),
            ),
            packet_id == old(self).history().len() && packet_id < u32::MAX && !V::can_update(
                old(self).state(),
                update,
            ) ==> r matches Err(SError::InternalError(_)),
    {
        proof {
            use_type_invariant(&*self);
        }
        if packet_id != self.last_packet_number || packet_id == u32::MAX {
            return Err(SError::ServerError(String::from_str("Update out of order")));
        }
        let ghost u = update;
        let mut taken = ClientReplica {
            inner: V::fresh(),
            last_packet_number: 0,
            applied: Ghost(Seq::empty()),
        };
        std::mem::swap(self, &mut taken);
        proof {
            use_type_invariant(&taken);
        }
        let ClientReplica { mut inner, last_packet_number, applied } = taken;
        let ok = inner.apply_update(update);
        if ok {
            let ghost next = applied@.push(u);
            proof {
                assert(next.drop_last() =~= applied@);
            }
            *self = ClientReplica {
                inner,
                last_packet_number: last_packet_number + 1,
                applied: Ghost(next),
            };
            Ok(())
        } else {
            *self = ClientReplica { inner, last_packet_number, applied };
            Err(SError::InternalError(String::from_str("Update does not apply to the replica")))
        }
    }
}

/// The submission of `payload` to `group_id` as packet `packet_id`.
pub fn update_message(group_id: u32, packet_id: u32, payload: String) -> (r: ClientMessage)
    ensures
        r == ClientMessage::Update(UMessage { group_id, packet_id, update: payload }),
{
    ClientMessage::Update(UMessage::new(group_id, packet_id, payload))
}

/// Checks the relay's answer to a join: `Correct` admits the client; any
/// other message refuses it, and `None` (the relay closed the connection
/// before answering) fails the join too.
pub fn check_join_reply(reply: Option<ServerMessage>) -> (r: Result<()>)
    ensures
        match reply {
            Some(ServerMessage::Correct) => r is Ok,
            Some(_) => r matches Err(SError::ConnectionError(_)),
            None => r matches Err(SError::ConnectionError(_)),
        },
{
    match reply {
        Some(ServerMessage::Correct) => Ok(()),
        Some(_) => Err(SError::ConnectionError(String::from_str("Server didn't accept join request"))),
        None => Err(SError::ConnectionError(String::from_str("Connection closed before joining"))),
    }
}

/// What the publish loop does with what came out of the mailbox.
pub enum PublishStep {
    /// The submission was accepted.
    Done,
    /// The submission was rejected: resubmit with a fresh packet id.
    Retry,
    /// The mailbox is closed.
    Fail(SError),
}

/// The publish loop's decision on a mailbox event; `None` means that the
/// mailbox is closed.
pub fn publish_step(response: Option<ResponseType>) -> (r: PublishStep)
    ensures
        match response {
            Some(ResponseType::Accepted) => r is Done,
            Some(ResponseType::Rejected) => r is Retry,
            None => r matches PublishStep::Fail(SError::InternalError(_)),
        },
{
    match response {
        Some(ResponseType::Accepted) => PublishStep::Done,
        Some(ResponseType::Rejected) => PublishStep::Retry,
        None => PublishStep::Fail(SError::InternalError(String::from_str("Mailbox closed"))),
    }
}

} // verus!
