//! The agent responder: the default, lowest-priority responder, which
//! bridges every message it gets to the agent service.

use vstd::prelude::*;
use vstd::string::*;

use crate::bridge::{is_hyphenated_uuid_v4, GraphRequest};
use crate::responder::{Responder, ResponderContext, ResponderResult};

verus! {

/// The bus endpoint used when none is configured.
pub const DEFAULT_REDIS_URL: &'static str = "redis://localhost:6379";

/// How the bridge call for one message turned out.
pub enum BridgeOutcome {
    /// The bus could not be reached.
    Unreachable,
    /// The query failed (publishing, the subscription, or the deadline).
    Failed,
    /// The agent service answered with this reply text.
    Answered(String),
}

/// The reply sent when the bus cannot be reached: the message echoed back.
pub open spec fn offline_reply(body: Seq<char>) -> Seq<char> {
    "[Offline Mode - Redis unavailable]\nYou said: "@ + body
}

/// The reply sent when a query fails: the message echoed back.
pub open spec fn failure_reply(body: Seq<char>) -> Seq<char> {
    "[Error communicating with AI service]\nYou said: "@ + body
}

/// The agent responder, backed by the agent service on the bus.
pub struct VerjiAgentResponder {
    redis_url: String,
}

impl VerjiAgentResponder {
    /// The bus endpoint this responder connects to.
    pub closed spec fn endpoint(self) -> Seq<char> {
        self.redis_url@
    }

    /// An agent responder for the bus at `redis_url`, or at the default
    /// endpoint when none is given.
    pub fn new(redis_url: Option<String>) -> (r: Self)
        ensures
            r.endpoint() == match redis_url {
                Some(u) => u@,
                None => DEFAULT_REDIS_URL@,
            },
    {
        let redis_url = match redis_url {
            Some(u) => u,
            None => String::from_str(DEFAULT_REDIS_URL),
        };
        VerjiAgentResponder { redis_url }
    }

    /// The bus endpoint this responder connects to.
    pub fn redis_url(&self) -> (r: &str)
        ensures
            r@ == self.endpoint(),
    {
        self.redis_url.as_str()
    }

    /// Build session ID in format: {room_id}:{thread_id}:{user_id}, where the
    /// thread is "main" when there is none.
    pub fn build_session_id(room_id: &str, user_id: &str, thread_id: Option<&str>) -> (r: String)
        ensures
            r@ == room_id@ + ":"@ + match thread_id {
                Some(t) => t@,
                None => "main"@,
            } + ":"@ + user_id@,
    {
        let thread = match thread_id {
            Some(t) => t,
            None => "main",
        };
        String::from_str(room_id).concat(":").concat(thread).concat(":").concat(user_id)
    }

    /// The bus request for a message: its body as the query, from its room and
    /// sender, under a fresh request id.
    pub fn request_for(&self, context: &ResponderContext, timestamp: u64) -> (r: GraphRequest)
        ensures
            is_hyphenated_uuid_v4(r.request_id@),
            r.query@ == context.message_body@,
            r.metadata.room_id@ == context.room_id@,
            r.metadata.user_id@ == context.sender@,
            r.metadata.timestamp == timestamp,
    {
        GraphRequest::new(
            context.message_body.clone(),
            context.room_id.clone(),
            context.sender.clone(),
            timestamp,
        )
    }

    /// The result of handling a message, given how its bridge call turned
    /// out. A failure never escapes: it becomes a reply that echoes the
    /// message.
    pub fn conclude(&self, context: &ResponderContext, outcome: BridgeOutcome) -> (r:
        ResponderResult)
        ensures
            match outcome {
                BridgeOutcome::Unreachable => r matches ResponderResult::Handled(Some(t)) && t@
                    == offline_reply(context.message_body@),
                BridgeOutcome::Failed => r matches ResponderResult::Handled(Some(t)) && t@
                    == failure_reply(context.message_body@),
                BridgeOutcome::Answered(reply) => r == ResponderResult::Handled(Some(reply)),
            },
    {
        match outcome {
            BridgeOutcome::Unreachable => ResponderResult::Handled(
                Some(
                    String::from_str("[Offline Mode - Redis unavailable]\nYou said: ").concat(
                        context.message_body.as_str(),
                    ),
                ),
            ),
            BridgeOutcome::Failed => ResponderResult::Handled(
                Some(
                    String::from_str("[Error communicating with AI service]\nYou said: ").concat(
                        context.message_body.as_str(),
                    ),
                ),
            ),
            BridgeOutcome::Answered(reply) => ResponderResult::Handled(Some(reply)),
        }
    }
}

impl Responder for VerjiAgentResponder {
    open spec fn spec_name(&self) -> Seq<char> {
        "VerjiAgentResponder"@
    }

    open spec fn spec_priority(&self) -> i32 {
        10
    }

    open spec fn accepts(&self, context: ResponderContext) -> bool {
        true
    }

    fn name(&self) -> (r: &str) {
        "VerjiAgentResponder"
    }

    fn priority(&self) -> (r: i32) {
        10
    }

    fn should_handle(&self, context: &ResponderContext) -> (r: bool) {
        true
    }
}

} // verus!
