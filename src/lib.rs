//! A single-node responder for a line-delimited JSON request/response
//! protocol: the message model and the evaluator that turns a request into
//! its reply while keeping a log of broadcast integers.

pub mod message;
pub mod evaluator;
pub mod laws;

pub use evaluator::{respond, Outcome};
pub use message::{MaelstromMessage, MaelstromMessageBody, MaelstromMessageBodyType};
