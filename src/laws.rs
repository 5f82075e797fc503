use crate::evaluator::{log_after, replies_to};
use crate::message::{is_request_type, MaelstromMessage, MaelstromMessageBody, MaelstromMessageBodyType};
use vstd::prelude::*;

verus! {

/// The log after the bodies `bodies` are evaluated in order, starting from `log`.
pub open spec fn log_after_all(bodies: Seq<MaelstromMessageBody>, log: Seq<i32>) -> Seq<i32>
    decreases bodies.len(),
{
    if bodies.len() == 0 {
        log
    } else {
        log_after(bodies.last(), log_after_all(bodies.drop_last(), log))
    }
}

/// The values that the `broadcast` bodies among `bodies` carry, in order.
pub open spec fn broadcast_values(bodies: Seq<MaelstromMessageBody>) -> Seq<i32>
    decreases bodies.len(),
{
    if bodies.len() == 0 {
        Seq::empty()
    } else if bodies.last().body_type == MaelstromMessageBodyType::Broadcast {
        broadcast_values(bodies.drop_last()).push(bodies.last().message.unwrap())
    } else {
        broadcast_values(bodies.drop_last())
    }
}

/// Evaluating a run of messages appends to the log exactly the broadcast
/// values, in the order in which they arrived; other messages, interleaved
/// anywhere, leave it alone.
pub proof fn lemma_log_records_broadcasts(bodies: Seq<MaelstromMessageBody>, log: Seq<i32>)
    ensures
        log_after_all(bodies, log) == log + broadcast_values(bodies),
    decreases bodies.len(),
{
    if bodies.len() > 0 {
        lemma_log_records_broadcasts(bodies.drop_last(), log);
        assert(log_after_all(bodies, log) =~= log + broadcast_values(bodies));
    } else {
        assert(log + broadcast_values(bodies) =~= log);
    }
}

/// After broadcasting `v1..vn` (with other messages in between) on an empty
/// log, the reply to a `read` lists exactly `v1..vn`, in that order.
pub proof fn lemma_read_after_broadcasts(
    bodies: Seq<MaelstromMessageBody>,
    read: MaelstromMessage,
    reply: MaelstromMessage,
)
    requires
        read.body.body_type == MaelstromMessageBodyType::Read,
        replies_to(read, reply, log_after_all(bodies, Seq::empty())),
    ensures
        reply.body.body_type == MaelstromMessageBodyType::ReadOK,
        reply.body.messages matches Some(m) && m@ == broadcast_values(bodies),
{
    lemma_log_records_broadcasts(bodies, Seq::empty());
    assert(Seq::<i32>::empty() + broadcast_values(bodies) =~= broadcast_values(bodies));
}

/// A reply goes back where the request came from: its sender is the request's
/// receiver and its receiver the request's sender.
pub proof fn lemma_reply_swaps_addresses(req: MaelstromMessage, rep: MaelstromMessage, log: Seq<i32>)
    requires
        replies_to(req, rep, log),
    ensures
        rep.src == req.dest,
        rep.dest == req.src,
{
}

/// The reply to a request refers back to it: `in_reply_to` is the request's
/// `msg_id`, and is absent where the request had none.
pub proof fn lemma_reply_refers_to_request(
    req: MaelstromMessage,
    rep: MaelstromMessage,
    log: Seq<i32>,
)
    requires
        is_request_type(req.body.body_type),
        replies_to(req, rep, log),
    ensures
        rep.body.in_reply_to == req.body.msg_id,
        req.body.msg_id is None ==> rep.body.in_reply_to is None,
{
}

/// An `echo` is answered by an `echo_ok` that carries the same payload.
pub proof fn lemma_echo_returns_payload(req: MaelstromMessage, rep: MaelstromMessage, log: Seq<i32>)
    requires
        req.body.body_type == MaelstromMessageBodyType::Echo,
        replies_to(req, rep, log),
    ensures
        rep.body.body_type == MaelstromMessageBodyType::EchoOK,
        rep.body.echo == req.body.echo,
{
}

/// A `topology` request is acknowledged by a `topology_ok` that carries no
/// topology.
pub proof fn lemma_topology_acknowledged(req: MaelstromMessage, rep: MaelstromMessage, log: Seq<i32>)
    requires
        req.body.body_type == MaelstromMessageBodyType::Topology,
        replies_to(req, rep, log),
    ensures
        rep.body.body_type == MaelstromMessageBodyType::TopologyOK,
        rep.body.topology is None,
{
}

} // verus!
