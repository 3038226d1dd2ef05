use vstd::prelude::*;

use crate::role::Role;

verus! {

/// One message of a generic completion request.
#[derive(Clone, Debug)]
pub struct Message {
    pub role: Role,
    pub content: String,
}

/// A generic, backend-independent completion request: an ordered sequence of
/// messages plus generation parameters.
///
/// The sampling temperature is carried in thousandths (`700` stands for a
/// temperature of 0.7), so that the request stays a plain integer value; the
/// transport layer converts when it writes the wire request.
#[derive(Clone, Debug)]
pub struct LanguageModelRequest {
    pub messages: Vec<Message>,
    pub stop: Vec<String>,
    pub temperature_milli: u32,
}

/// Total number of characters over all message contents of a request.
pub open spec fn total_chars(messages: Seq<Message>) -> nat
    decreases messages.len(),
{
    if messages.len() == 0 {
        0
    } else {
        total_chars(messages.drop_last()) + messages.last().content@.len()
    }
}

/// The documented heuristic token estimate for backends without a native
/// token-counting endpoint: total characters divided by four, rounded down.
pub open spec fn spec_token_estimate(messages: Seq<Message>) -> nat {
    total_chars(messages) / 4
}

} // verus!
