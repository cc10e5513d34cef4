//! The liveness responder: answers "ping" with "Pong!".

use vstd::prelude::*;

use crate::responder::{Responder, ResponderContext, ResponderResult};
use crate::text::{lower_of, lowercase, same_text, trim_text, trimmed};

verus! {

/// Whether a trimmed, lowercased message body is a ping command.
pub open spec fn is_ping_spec(folded: Seq<char>) -> bool {
    folded == "ping"@ || folded == "!ping"@
}

/// Whether a trimmed, lowercased message body is a ping command.
pub fn is_ping_command(folded: &str) -> (r: bool)
    ensures
        r == is_ping_spec(folded@),
{
    same_text(folded, "ping") || same_text(folded, "!ping")
}

/// Simple ping-pong responder for health checks.
pub struct PingPongResponder;

impl PingPongResponder {
    /// The liveness responder.
    pub fn new() -> (r: Self) {
        PingPongResponder
    }

    /// Answers every message it is given with "Pong!".
    pub fn handle(&self, context: &ResponderContext) -> (r: ResponderResult)
        ensures
            r matches ResponderResult::Handled(Some(t)) && t@ == "Pong!"@,
    {
        ResponderResult::Handled(Some(String::from_str("Pong!")))
    }
}

impl Responder for PingPongResponder {
    open spec fn spec_name(&self) -> Seq<char> {
        "PingPongResponder"@
    }

    open spec fn spec_priority(&self) -> i32 {
        100
    }

    open spec fn accepts(&self, context: ResponderContext) -> bool {
        is_ping_spec(lower_of(trimmed(context.message_body@)))
    }

    fn name(&self) -> (r: &str) {
        "PingPongResponder"
    }

    fn priority(&self) -> (r: i32) {
        100
    }

    fn should_handle(&self, context: &ResponderContext) -> (r: bool) {
        let folded = lowercase(trim_text(context.message_body.as_str()));
        is_ping_command(folded.as_str())
    }
}

} // verus!
