//! The responder capability: a named, prioritised filter over incoming
//! messages, and the context each responder sees.

use vstd::prelude::*;

verus! {

/// What a responder sees of one incoming message.
pub struct ResponderContext {
    /// The conversation (room) the message arrived in.
    pub room_id: String,
    /// Identity of the message's sender.
    pub sender: String,
    /// The message text.
    pub message_body: String,
    /// Whether the bot was directly mentioned.
    pub is_direct_mention: bool,
    /// Every registered responder, as (name, priority), in dispatch order.
    pub registered_responders: Vec<(String, i32)>,
}

/// What a responder's handling step decided.
pub enum ResponderResult {
    /// The message was handled, optionally with a reply.
    Handled(Option<String>),
    /// The message was not handled; the next responder is tried.
    NotHandled,
}

/// A unit of message-handling policy.
///
/// A responder declares a name, a priority (higher is consulted first) and a
/// side-effect-free filter. Its handling step is its own: it may need outside
/// work, which the caller performs.
pub trait Responder {
    /// The responder's name.
    spec fn spec_name(&self) -> Seq<char>;

    /// The responder's priority.
    spec fn spec_priority(&self) -> i32;

    /// Whether the filter accepts a message in this context.
    spec fn accepts(&self, context: ResponderContext) -> bool;

    /// Returns the name of this responder.
    fn name(&self) -> (r: &str)
        ensures
            r@ == self.spec_name(),
    ;

    /// Returns the priority of this responder (higher is checked first).
    fn priority(&self) -> (r: i32)
        ensures
            r == self.spec_priority(),
    ;

    /// The fast filter consulted before handling.
    fn should_handle(&self, context: &ResponderContext) -> (r: bool)
        ensures
            r == self.accepts(*context),
    ;
}

} // verus!
