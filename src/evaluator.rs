use crate::message::{
    is_request_type, reply_type, MaelstromMessage, MaelstromMessageBody, MaelstromMessageBodyType,
};
use vstd::prelude::*;

verus! {

/// The log after a request with body `b` is evaluated on `log`: a `broadcast`
/// appends its value, every other message leaves the log as it was.
pub open spec fn log_after(b: MaelstromMessageBody, log: Seq<i32>) -> Seq<i32> {
    if b.body_type == MaelstromMessageBodyType::Broadcast {
        log.push(b.message.unwrap())
    } else {
        log
    }
}

/// `rep` is the body of the reply to the request body `req`, evaluated while
/// the log held `log`. The `id` of a `generate` reply is left open here.
pub open spec fn body_replies_to(
    req: MaelstromMessageBody,
    rep: MaelstromMessageBody,
    log: Seq<i32>,
) -> bool {
    match reply_type(req.body_type) {
        None => rep == req,
        Some(t) => {
            &&& rep.body_type == t
            &&& rep.msg_id == req.msg_id
            &&& rep.in_reply_to == req.msg_id
            &&& rep.echo == req.echo
            &&& req.body_type != MaelstromMessageBodyType::Generate ==> rep.id == req.id
            &&& rep.message == if req.body_type == MaelstromMessageBodyType::Broadcast {
                None
            } else {
                req.message
            }
            &&& if req.body_type == MaelstromMessageBodyType::Read {
                rep.messages.is_some() && rep.messages.unwrap()@ == log
            } else {
                rep.messages == req.messages
            }
            &&& rep.topology == if req.body_type == MaelstromMessageBodyType::Topology {
                None
            } else {
                req.topology
            }
        },
    }
}

/// `rep` is the reply to `req` evaluated while the log held `log`: it goes
/// back to the sender, and its body answers the request's body.
pub open spec fn replies_to(req: MaelstromMessage, rep: MaelstromMessage, log: Seq<i32>) -> bool {
    &&& rep.src == req.dest
    &&& rep.dest == req.src
    &&& body_replies_to(req.body, rep.body, log)
}

/// What becomes of one line of input.
pub enum Outcome {
    /// The reply to a request, to be written out.
    Reply(MaelstromMessage),
    /// A message whose type is a reply type, passed back with only its
    /// sender and receiver swapped; worth a diagnostic.
    Unrecognized(MaelstromMessage),
    /// The line did not hold a well-formed message: nothing is written and
    /// the log is left alone.
    Skipped,
}

/// Relies on uuid's `Uuid::new_v4` for a random identifier, and on its
/// `to_string`, which writes the 36-character hyphenated form.
#[verifier::external_body]
fn new_identifier() -> (r: String)
    ensures
        r@.len() == 36,
{
    uuid::Uuid::new_v4().to_string()
}

impl MaelstromMessage {
    /// Turns this request into its reply, with `fresh_id` as the identifier
    /// that a `generate` reply hands out, and records a broadcast value in
    /// `memory`. Returns whether the body's type was a request; a reply type
    /// is left as it is, apart from the swap of sender and receiver.
    pub fn eval_with_id(&mut self, memory: &mut Vec<i32>, fresh_id: String) -> (r: bool)
        requires
            old(self).body.well_formed(),
        ensures
            replies_to(*old(self), *final(self), old(memory)@),
            old(self).body.body_type == MaelstromMessageBodyType::Generate ==> final(self).body.id
                == Some(fresh_id),
            final(memory)@ == log_after(old(self).body, old(memory)@),
            r == is_request_type(old(self).body.body_type),
    {
        std::mem::swap(&mut self.src, &mut self.dest);
        match self.body.body_type {
            MaelstromMessageBodyType::Init => {
                self.body.body_type = MaelstromMessageBodyType::InitOK;
                self.body.in_reply_to = self.body.msg_id;
                true
            },
            MaelstromMessageBodyType::Echo => {
                self.body.body_type = MaelstromMessageBodyType::EchoOK;
                self.body.in_reply_to = self.body.msg_id;
                true
            },
            MaelstromMessageBodyType::Generate => {
                self.body.body_type = MaelstromMessageBodyType::GenerateOK;
                self.body.in_reply_to = self.body.msg_id;
                self.body.id = Some(fresh_id);
                true
            },
            MaelstromMessageBodyType::Broadcast => {
                self.body.body_type = MaelstromMessageBodyType::BroadcastOK;
                self.body.in_reply_to = self.body.msg_id;
                if let Some(v) = self.body.message {
                    memory.push(v);
                }
                self.body.message = None;
                true
            },
            MaelstromMessageBodyType::Read => {
                self.body.body_type = MaelstromMessageBodyType::ReadOK;
                self.body.in_reply_to = self.body.msg_id;
                let snapshot = memory.clone();
                self.body.messages = Some(snapshot);
                true
            },
            MaelstromMessageBodyType::Topology => {
                self.body.body_type = MaelstromMessageBodyType::TopologyOK;
                self.body.in_reply_to = self.body.msg_id;
                self.body.topology = None;
                true
            },
            _ => false,
        }
    }

    /// Turns this request into its reply and records a broadcast value in
    /// `memory`; a `generate` reply gets a new random identifier. Returns
    /// whether the body's type was a request.
    pub fn eval(&mut self, memory: &mut Vec<i32>) -> (r: bool)
        requires
            old(self).body.well_formed(),
        ensures
            replies_to(*old(self), *final(self), old(memory)@),
            old(self).body.body_type == MaelstromMessageBodyType::Generate ==> (
            final(self).body.id matches Some(id) && id@.len() == 36),
            final(memory)@ == log_after(old(self).body, old(memory)@),
            r == is_request_type(old(self).body.body_type),
    {
        let fresh_id = match self.body.body_type {
            MaelstromMessageBodyType::Generate => new_identifier(),
            _ => String::new(),
        };
        self.eval_with_id(memory, fresh_id)
    }
}

/// Handles one line of input, `None` standing for a line that did not parse:
/// a malformed line is skipped rather than ending the session.
pub fn respond(request: Option<MaelstromMessage>, memory: &mut Vec<i32>) -> (r: Outcome)
    ensures
        match request {
            Some(req) if req.body.well_formed() => {
                &&& final(memory)@ == log_after(req.body, old(memory)@)
                &&& match r {
                    Outcome::Reply(rep) => is_request_type(req.body.body_type) && replies_to(
                        req,
                        rep,
                        old(memory)@,
                    ) && (req.body.body_type == MaelstromMessageBodyType::Generate ==> (
                    rep.body.id matches Some(id) && id@.len() == 36)),
                    Outcome::Unrecognized(rep) => !is_request_type(req.body.body_type)
                        && replies_to(req, rep, old(memory)@),
                    Outcome::Skipped => false,
                }
            },
            _ => r is Skipped && final(memory)@ == old(memory)@,
        },
{
    match request {
        Some(mut message) => {
            if !message.body.is_well_formed() {
                return Outcome::Skipped;
            }
            if message.eval(memory) {
                Outcome::Reply(message)
            } else {
                Outcome::Unrecognized(message)
            }
        },
        None => Outcome::Skipped,
    }
}

} // verus!
