use std::collections::HashMap;
use vstd::prelude::*;

verus! {

/// The `type` tag of a message body: six requests and their six replies.
#[derive(Debug, Clone, Copy, PartialEq, Eq, Structural)]
pub enum MaelstromMessageBodyType {
    Init,
    InitOK,
    Echo,
    EchoOK,
    Generate,
    GenerateOK,
    Broadcast,
    BroadcastOK,
    Read,
    ReadOK,
    Topology,
    TopologyOK,
}

/// The typed payload of a message. Every field but the tag is optional.
#[derive(Debug, Clone)]
pub struct MaelstromMessageBody {
    pub body_type: MaelstromMessageBodyType,
    pub msg_id: Option<u32>,
    pub in_reply_to: Option<u32>,
    /// Payload of an `echo` request, carried back unchanged.
    pub echo: Option<String>,
    /// Identifier handed out by a `generate` reply.
    pub id: Option<String>,
    /// Value that a `broadcast` request asks to record.
    pub message: Option<i32>,
    /// Snapshot of the recorded values in a `read` reply.
    pub messages: Option<Vec<i32>>,
    /// Neighbours of each node, as given by a `topology` request.
    pub topology: Option<HashMap<String, Vec<String>>>,
}

/// The envelope: sender, receiver and body of one directed message.
#[derive(Debug, Clone)]
pub struct MaelstromMessage {
    pub src: String,
    pub dest: String,
    pub body: MaelstromMessageBody,
}

/// The reply tag owed to a request tag; `None` for a tag that is itself a reply.
pub open spec fn reply_type(t: MaelstromMessageBodyType) -> Option<MaelstromMessageBodyType> {
    match t {
        MaelstromMessageBodyType::Init => Some(MaelstromMessageBodyType::InitOK),
        MaelstromMessageBodyType::Echo => Some(MaelstromMessageBodyType::EchoOK),
        MaelstromMessageBodyType::Generate => Some(MaelstromMessageBodyType::GenerateOK),
        MaelstromMessageBodyType::Broadcast => Some(MaelstromMessageBodyType::BroadcastOK),
        MaelstromMessageBodyType::Read => Some(MaelstromMessageBodyType::ReadOK),
        MaelstromMessageBodyType::Topology => Some(MaelstromMessageBodyType::TopologyOK),
        _ => None,
    }
}

/// Whether a tag names one of the six requests.
pub open spec fn is_request_type(t: MaelstromMessageBodyType) -> bool {
    reply_type(t).is_some()
}

impl MaelstromMessageBody {
    /// A body can be evaluated: a `broadcast` request carries the value to record.
    pub open spec fn well_formed(&self) -> bool {
        self.body_type == MaelstromMessageBodyType::Broadcast ==> self.message.is_some()
    }

    /// Checks `well_formed`.
    pub fn is_well_formed(&self) -> (r: bool)
        ensures
            r == self.well_formed(),
    {
        match self.body_type {
            MaelstromMessageBodyType::Broadcast => self.message.is_some(),
            _ => true,
        }
    }
}

} // verus!
