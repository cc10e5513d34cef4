use verji_vagent_bot::builtin::BotResponder;
use verji_vagent_bot::pingpong::PingPongResponder;
use verji_vagent_bot::responder::{Responder, ResponderContext, ResponderResult};
use verji_vagent_bot::responder_manager::{DispatchAction, DispatchEvent, ResponderManager};
use verji_vagent_bot::verji_agent::VerjiAgentResponder;

fn context(body: &str) -> ResponderContext {
    ResponderContext {
        room_id: "!room:example.org".to_string(),
        sender: "@alice:example.org".to_string(),
        message_body: body.to_string(),
        is_direct_mention: false,
        registered_responders: Vec::new(),
    }
}

fn bot_manager() -> ResponderManager<BotResponder> {
    let mut m = ResponderManager::new();
    m.register(BotResponder::VerjiAgent(VerjiAgentResponder::new(None)));
    m.register(BotResponder::PingPong(PingPongResponder::new()));
    m
}

#[test]
fn empty_manager_replies_nothing() {
    let m: ResponderManager<BotResponder> = ResponderManager::new();
    assert_eq!(m.count(), 0);
    assert!(m.list_responders().is_empty());
    match m.advance(&context("hello"), DispatchEvent::Start) {
        DispatchAction::Reply(r) => assert!(r.is_none()),
        DispatchAction::Handle(_) => panic!("nothing is registered"),
    }
}

#[test]
fn default_manager_is_empty() {
    let m: ResponderManager<BotResponder> = ResponderManager::default();
    assert_eq!(m.count(), 0);
}

#[test]
fn registration_sorts_by_descending_priority() {
    let m = bot_manager();
    assert_eq!(m.count(), 2);
    assert_eq!(
        m.list_responders(),
        vec![("PingPongResponder".to_string(), 100), ("VerjiAgentResponder".to_string(), 10)]
    );
}

#[test]
fn equal_priorities_keep_registration_order() {
    let mut m = ResponderManager::new();
    m.register(VerjiAgentResponder::new(Some("redis://first".to_string())));
    m.register(VerjiAgentResponder::new(Some("redis://second".to_string())));
    m.register(VerjiAgentResponder::new(Some("redis://third".to_string())));
    assert_eq!(m.get(0).redis_url(), "redis://first");
    assert_eq!(m.get(1).redis_url(), "redis://second");
    assert_eq!(m.get(2).redis_url(), "redis://third");
    match m.advance(&context("hello"), DispatchEvent::Start) {
        DispatchAction::Handle(i) => assert_eq!(i, 0),
        DispatchAction::Reply(_) => panic!("the agent accepts everything"),
    }
}

#[test]
fn ping_goes_to_the_liveness_responder() {
    let m = bot_manager();
    let ctx = context("ping");
    let first = m.advance(&ctx, DispatchEvent::Start);
    let i = match first {
        DispatchAction::Handle(i) => i,
        DispatchAction::Reply(_) => panic!("ping must be handled"),
    };
    assert_eq!(i, 0);
    let result = match m.get(i) {
        BotResponder::PingPong(p) => p.handle(&ctx),
        BotResponder::VerjiAgent(_) => panic!("ping must not reach the agent"),
    };
    match m.advance(&ctx, DispatchEvent::Outcome(i, result)) {
        DispatchAction::Reply(r) => assert_eq!(r, Some("Pong!".to_string())),
        DispatchAction::Handle(_) => panic!("a handled message ends dispatch"),
    }
}

#[test]
fn lowest_priority_is_reached_when_others_decline() {
    let m = bot_manager();
    let ctx = context("hello");
    match m.advance(&ctx, DispatchEvent::Start) {
        DispatchAction::Handle(i) => {
            assert_eq!(i, 1);
            assert_eq!(m.get(i).name(), "VerjiAgentResponder");
        }
        DispatchAction::Reply(_) => panic!("the agent accepts everything"),
    }
}

#[test]
fn not_handled_passes_to_the_next_responder() {
    let m = bot_manager();
    let ctx = context("ping");
    match m.advance(&ctx, DispatchEvent::Outcome(0, ResponderResult::NotHandled)) {
        DispatchAction::Handle(i) => assert_eq!(i, 1),
        DispatchAction::Reply(_) => panic!("the agent is still to be tried"),
    }
    match m.advance(&ctx, DispatchEvent::Outcome(1, ResponderResult::NotHandled)) {
        DispatchAction::Reply(r) => assert!(r.is_none()),
        DispatchAction::Handle(_) => panic!("no responder is left"),
    }
}

#[test]
fn handled_without_reply_ends_dispatch() {
    let m = bot_manager();
    match m.advance(&context("hello"), DispatchEvent::Outcome(1, ResponderResult::Handled(None))) {
        DispatchAction::Reply(r) => assert!(r.is_none()),
        DispatchAction::Handle(_) => panic!("a handled message ends dispatch"),
    }
}

#[test]
fn out_of_range_outcome_ends_dispatch() {
    let m = bot_manager();
    match m.advance(&context("hello"), DispatchEvent::Outcome(usize::MAX, ResponderResult::NotHandled)) {
        DispatchAction::Reply(r) => assert!(r.is_none()),
        DispatchAction::Handle(_) => panic!("no responder is left"),
    }
}

#[test]
fn builtin_responders_delegate() {
    let p = BotResponder::PingPong(PingPongResponder::new());
    let a = BotResponder::VerjiAgent(VerjiAgentResponder::new(None));
    assert_eq!(p.name(), "PingPongResponder");
    assert_eq!(p.priority(), 100);
    assert!(p.should_handle(&context(" PING ")));
    assert!(!p.should_handle(&context("hello")));
    assert_eq!(a.name(), "VerjiAgentResponder");
    assert_eq!(a.priority(), 10);
    assert!(a.should_handle(&context("hello")));
}
