//! The responders this bot ships with, as one type the manager can hold.

use vstd::prelude::*;

use crate::pingpong::PingPongResponder;
use crate::responder::{Responder, ResponderContext};
use crate::verji_agent::VerjiAgentResponder;

verus! {

/// One of the bot's responders.
pub enum BotResponder {
    PingPong(PingPongResponder),
    VerjiAgent(VerjiAgentResponder),
}

impl Responder for BotResponder {
    open spec fn spec_name(&self) -> Seq<char> {
        match self {
            BotResponder::PingPong(r) => r.spec_name(),
            BotResponder::VerjiAgent(r) => r.spec_name(),
        }
    }

    open spec fn spec_priority(&self) -> i32 {
        match self {
            BotResponder::PingPong(r) => r.spec_priority(),
            BotResponder::VerjiAgent(r) => r.spec_priority(),
        }
    }

    open spec fn accepts(&self, context: ResponderContext) -> bool {
        match self {
            BotResponder::PingPong(r) => r.accepts(context),
            BotResponder::VerjiAgent(r) => r.accepts(context),
        }
    }

    fn name(&self) -> (r: &str) {
        match self {
            BotResponder::PingPong(r) => r.name(),
            BotResponder::VerjiAgent(r) => r.name(),
        }
    }

    fn priority(&self) -> (r: i32) {
        match self {
            BotResponder::PingPong(r) => r.priority(),
            BotResponder::VerjiAgent(r) => r.priority(),
        }
    }

    fn should_handle(&self, context: &ResponderContext) -> (r: bool) {
        match self {
            BotResponder::PingPong(r) => r.should_handle(context),
            BotResponder::VerjiAgent(r) => r.should_handle(context),
        }
    }
}

} // verus!
