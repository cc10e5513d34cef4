//! The agent bridge: the messages exchanged with the agent service over the
//! bus, and the correlation of bus traffic with one outstanding request.
//!
//! The caller subscribes to the response topic, publishes the request, and
//! then polls the subscription; `PendingQuery` decides what each poll means.

use vstd::prelude::*;
use vstd::string::*;

use crate::text::same_text;

verus! {

/// serde_json's `Value`: the opaque metadata a message may carry, passed
/// through untouched.
#[verifier::external_type_specification]
#[verifier::external_body]
pub struct ExJsonValue(serde_json::Value);

/// The bus topic requests are published on.
pub const REQUEST_CHANNEL: &'static str = "vagent:requests";

/// The bus topic the agent service answers on.
pub const RESPONSE_CHANNEL: &'static str = "vagent:responses";

/// How long a query waits for its terminal message, in milliseconds.
pub const QUERY_TIMEOUT_MS: u64 = 30000;

/// How long one poll of the subscription waits, in milliseconds.
pub const POLL_INTERVAL_MS: u64 = 1000;

/// Metadata about the request.
#[derive(Debug)]
pub struct RequestMetadata {
    pub room_id: String,
    pub user_id: String,
    pub timestamp: u64,
}

/// Message sent to the agent service for processing.
#[derive(Debug)]
pub struct GraphRequest {
    pub request_id: String,
    pub query: String,
    pub metadata: RequestMetadata,
}

/// Type of message from the agent service.
#[derive(Clone, Copy, Debug, PartialEq, Eq, Structural)]
pub enum GraphMessageType {
    /// Progress notification (streamed during execution).
    Progress,
    /// Final response (completed successfully).
    FinalResponse,
    /// Human-in-the-loop request (paused, needs user input).
    HitlRequest,
    /// Error occurred during processing.
    Error,
}

/// Message received from the agent service (streaming or final).
#[derive(Debug)]
pub struct GraphMessage {
    pub request_id: String,
    pub message_type: GraphMessageType,
    pub content: String,
    pub metadata: Option<serde_json::Value>,
}

/// Response shape of earlier agent services, still accepted on the bus.
#[derive(Debug)]
pub struct GraphResponse {
    pub request_id: String,
    pub response: String,
    pub status: String,
    pub error: Option<String>,
}

/// Whether `c` is a lowercase hexadecimal digit.
pub open spec fn is_lower_hex(c: char) -> bool {
    ('0' <= c && c <= '9') || ('a' <= c && c <= 'f')
}

/// Whether `s` is a random (version 4) UUID in hyphenated lowercase form.
pub open spec fn is_hyphenated_uuid_v4(s: Seq<char>) -> bool {
    &&& s.len() == 36
    &&& s[14] == '4'
    &&& forall|i: int|
        0 <= i < 36 ==> if i == 8 || i == 13 || i == 18 || i == 23 {
            s[i] == '-'
        } else {
            is_lower_hex(#[trigger] s[i])
        }
}

/// Relies on uuid's `Uuid::new_v4`, a random version-4 UUID, and on its
/// `Display`, which writes the hyphenated lowercase form.
#[verifier::external_body]
fn fresh_request_id() -> (r: String)
    ensures
        is_hyphenated_uuid_v4(r@),
{
    uuid::Uuid::new_v4().to_string()
}

impl GraphRequest {
    /// A request for `query` under a fresh random request id.
    pub fn new(query: String, room_id: String, user_id: String, timestamp: u64) -> (r: Self)
        ensures
            is_hyphenated_uuid_v4(r.request_id@),
            r.query == query,
            r.metadata.room_id == room_id,
            r.metadata.user_id == user_id,
            r.metadata.timestamp == timestamp,
    {
        GraphRequest {
            request_id: fresh_request_id(),
            query,
            metadata: RequestMetadata { room_id, user_id, timestamp },
        }
    }
}

impl GraphMessageType {
    /// Whether this kind of message ends the wait for a request.
    pub open spec fn is_terminal(self) -> bool {
        !(self is Progress)
    }
}

impl GraphResponse {
    /// Whether the legacy status reports an error.
    pub open spec fn is_error_spec(self) -> bool {
        self.status@ == "error"@
    }

    /// The message a legacy response stands for: an error carries the error
    /// text (or the response when there is none), anything else is a final
    /// response carrying the response text.
    pub open spec fn as_message(self) -> GraphMessage {
        if self.is_error_spec() {
            GraphMessage {
                request_id: self.request_id,
                message_type: GraphMessageType::Error,
                content: match self.error {
                    Some(e) => e,
                    None => self.response,
                },
                metadata: None,
            }
        } else {
            GraphMessage {
                request_id: self.request_id,
                message_type: GraphMessageType::FinalResponse,
                content: self.response,
                metadata: None,
            }
        }
    }

    /// Translate a legacy response into the message it stands for.
    pub fn into_message(self) -> (r: GraphMessage)
        ensures
            r == self.as_message(),
    {
        let is_error = same_text(self.status.as_str(), "error");
        let GraphResponse { request_id, response, status, error } = self;
        if is_error {
            let content = match error {
                Some(e) => e,
                None => response,
            };
            GraphMessage { request_id, message_type: GraphMessageType::Error, content, metadata: None }
        } else {
            GraphMessage {
                request_id,
                message_type: GraphMessageType::FinalResponse,
                content: response,
                metadata: None,
            }
        }
    }

    /// The legacy shape of a message: status "error" with the content as
    /// error text for an error, status "success" otherwise.
    pub fn from_message(msg: GraphMessage) -> (r: Self)
        ensures
            r.request_id == msg.request_id,
            r.response@ == msg.content@,
            r.status@ == (if msg.message_type == GraphMessageType::Error {
                "error"@
            } else {
                "success"@
            }),
            msg.message_type == GraphMessageType::Error ==> (r.error matches Some(e) && e@
                == msg.content@),
            msg.message_type != GraphMessageType::Error ==> r.error is None,
    {
        let is_error = msg.message_type == GraphMessageType::Error;
        let status = if is_error {
            String::from_str("error")
        } else {
            String::from_str("success")
        };
        let error = if is_error {
            Some(msg.content.clone())
        } else {
            None
        };
        GraphResponse { request_id: msg.request_id, response: msg.content, status, error }
    }
}

/// The message a bus payload carries: the current shape when it parsed as
/// one, else the legacy shape translated, else none.
pub open spec fn payload_message(
    primary: Option<GraphMessage>,
    legacy: Option<GraphResponse>,
) -> Option<GraphMessage> {
    match primary {
        Some(m) => Some(m),
        None => match legacy {
            Some(l) => Some(l.as_message()),
            None => None,
        },
    }
}

/// Pick the message a bus payload carries, from its parses as the current
/// shape and as the legacy shape.
pub fn interpret_payload(primary: Option<GraphMessage>, legacy: Option<GraphResponse>) -> (r:
    Option<GraphMessage>)
    ensures
        r == payload_message(primary, legacy),
{
    match primary {
        Some(m) => Some(m),
        None => match legacy {
            Some(l) => Some(l.into_message()),
            None => None,
        },
    }
}

/// The reply text of a terminal message: an error is marked as such.
pub open spec fn reply_text_spec(msg: GraphMessage) -> Seq<char> {
    if msg.message_type == GraphMessageType::Error {
        "Error: "@ + msg.content@
    } else {
        msg.content@
    }
}

/// The reply text of a terminal message.
pub fn reply_text(msg: GraphMessage) -> (r: String)
    ensures
        r@ == reply_text_spec(msg),
{
    if msg.message_type == GraphMessageType::Error {
        String::from_str("Error: ").concat(msg.content.as_str())
    } else {
        msg.content
    }
}

/// Why a query ended without a terminal message.
#[derive(Clone, Copy, Debug, PartialEq, Eq, Structural)]
pub enum WaitError {
    /// No terminal message arrived within the deadline.
    Timeout,
    /// The subscription ended.
    StreamEnded,
}

/// What one poll of the response subscription brought.
pub enum PollEvent {
    /// Nothing arrived within the poll interval.
    Quiet,
    /// The subscription ended.
    Closed,
    /// A payload arrived; this is the message it carries, if any.
    Delivered(Option<GraphMessage>),
}

/// What to do after a poll.
pub enum PollAction {
    /// Keep waiting.
    Wait,
    /// Relay this progress text, then keep waiting.
    Relay(String),
    /// The query is answered by this terminal message.
    Complete(GraphMessage),
    /// The query failed.
    Abort(WaitError),
}

/// One outstanding request, waiting for its answer on the response topic.
pub struct PendingQuery {
    /// The correlation key: only messages with this request id concern us.
    pub request_id: String,
    /// The deadline, in milliseconds since the request was prepared.
    pub timeout_ms: u64,
}

/// What the wait loop has done after a run of polls: the progress texts it
/// relayed, in order, and how the query ended (none while still waiting).
pub struct WaitRun {
    pub relayed: Seq<String>,
    pub end: Option<Result<GraphMessage, WaitError>>,
}

impl PendingQuery {
    /// Wait for the answer to `request` until `timeout_ms` have elapsed.
    pub fn new(request: &GraphRequest, timeout_ms: u64) -> (r: Self)
        ensures
            r.request_id@ == request.request_id@,
            r.timeout_ms == timeout_ms,
    {
        PendingQuery { request_id: request.request_id.clone(), timeout_ms }
    }

    /// Whether the deadline has passed.
    pub open spec fn expired_spec(self, elapsed_ms: u64) -> bool {
        elapsed_ms > self.timeout_ms
    }

    /// Whether the deadline has passed after `elapsed_ms`; checked before
    /// each poll.
    pub fn expired(&self, elapsed_ms: u64) -> (r: bool)
        ensures
            r == self.expired_spec(elapsed_ms),
    {
        elapsed_ms > self.timeout_ms
    }

    /// What a poll means for this query. Traffic for other requests and
    /// payloads that carry no message are passed over; progress is relayed;
    /// a terminal message answers the query.
    pub open spec fn react(self, event: PollEvent) -> PollAction {
        match event {
            PollEvent::Quiet => PollAction::Wait,
            PollEvent::Closed => PollAction::Abort(WaitError::StreamEnded),
            PollEvent::Delivered(None) => PollAction::Wait,
            PollEvent::Delivered(Some(m)) => if m.request_id@ != self.request_id@ {
                PollAction::Wait
            } else if m.message_type == GraphMessageType::Progress {
                PollAction::Relay(m.content)
            } else {
                PollAction::Complete(m)
            },
        }
    }

    /// Decide what a poll means for this query.
    pub fn on_event(&self, event: PollEvent) -> (r: PollAction)
        ensures
            r == self.react(event),
    {
        match event {
            PollEvent::Quiet => PollAction::Wait,
            PollEvent::Closed => PollAction::Abort(WaitError::StreamEnded),
            PollEvent::Delivered(None) => PollAction::Wait,
            PollEvent::Delivered(Some(m)) => {
                if m.request_id != self.request_id {
                    PollAction::Wait
                } else if m.message_type == GraphMessageType::Progress {
                    PollAction::Relay(m.content)
                } else {
                    PollAction::Complete(m)
                }
            },
        }
    }

    /// The wait loop over a run of polls, each given with the time elapsed
    /// when it began: the deadline is checked first, then the poll's event.
    pub open spec fn run(self, polls: Seq<(u64, PollEvent)>) -> WaitRun
        decreases polls.len(),
    {
        if polls.len() == 0 {
            WaitRun { relayed: Seq::empty(), end: None }
        } else if self.expired_spec(polls[0].0) {
            WaitRun { relayed: Seq::empty(), end: Some(Err(WaitError::Timeout)) }
        } else {
            match self.react(polls[0].1) {
                PollAction::Wait => self.run(polls.drop_first()),
                PollAction::Relay(text) => {
                    let rest = self.run(polls.drop_first());
                    WaitRun { relayed: seq![text] + rest.relayed, end: rest.end }
                },
                PollAction::Complete(m) => WaitRun { relayed: Seq::empty(), end: Some(Ok(m)) },
                PollAction::Abort(e) => WaitRun { relayed: Seq::empty(), end: Some(Err(e)) },
            }
        }
    }

    /// Progress messages for this request followed by one terminal message,
    /// all before the deadline: each progress text is relayed once, in
    /// arrival order, and the query ends with the terminal message alone.
    pub proof fn lemma_progress_then_terminal(
        self,
        polls: Seq<(u64, PollEvent)>,
        progress: Seq<GraphMessage>,
        last: GraphMessage,
    )
        requires
            polls.len() == progress.len() + 1,
            forall|i: int| 0 <= i < polls.len() ==> !self.expired_spec(#[trigger] polls[i].0),
            forall|i: int|
                0 <= i < progress.len() ==> #[trigger] polls[i].1 == PollEvent::Delivered(
                    Some(progress[i]),
                ),
            forall|i: int|
                0 <= i < progress.len() ==> (#[trigger] progress[i]).request_id@ == self.request_id@
                    && progress[i].message_type == GraphMessageType::Progress,
            polls[progress.len() as int].1 == PollEvent::Delivered(Some(last)),
            last.request_id@ == self.request_id@,
            last.message_type.is_terminal(),
        ensures
            self.run(polls).relayed == progress.map_values(|m: GraphMessage| m.content),
            self.run(polls).end == Some(Ok::<GraphMessage, WaitError>(last)),
        decreases progress.len(),
    {
        if progress.len() > 0 {
            let rest = polls.drop_first();
            self.lemma_progress_then_terminal(rest, progress.drop_first(), last);
            assert(progress.drop_first().map_values(|m: GraphMessage| m.content) =~= progress.map_values(
                |m: GraphMessage| m.content,
            ).drop_first());
            assert(self.run(polls).relayed =~= progress.map_values(|m: GraphMessage| m.content));
        }
    }

    /// A message for another request, even a terminal one, changes nothing:
    /// the wait goes on as if it had not arrived.
    pub proof fn lemma_foreign_message_ignored(
        self,
        elapsed_ms: u64,
        decoy: GraphMessage,
        rest: Seq<(u64, PollEvent)>,
    )
        requires
            decoy.request_id@ != self.request_id@,
            !self.expired_spec(elapsed_ms),
        ensures
            self.react(PollEvent::Delivered(Some(decoy))) == PollAction::Wait,
            self.run(seq![(elapsed_ms, PollEvent::Delivered(Some(decoy)))] + rest) == self.run(rest),
    {
        let polls = seq![(elapsed_ms, PollEvent::Delivered(Some(decoy)))] + rest;
        assert(polls.drop_first() =~= rest);
    }

    /// A legacy response with status "error" for this request ends the wait
    /// as an error message whose content is the error text, or the response
    /// text when there is none.
    pub proof fn lemma_legacy_error_is_terminal(self, legacy: GraphResponse)
        requires
            legacy.request_id@ == self.request_id@,
            legacy.status@ == "error"@,
        ensures
            ({
                let m = legacy.as_message();
                &&& payload_message(None, Some(legacy)) == Some(m)
                &&& m.message_type == GraphMessageType::Error
                &&& m.content == match legacy.error {
                    Some(e) => e,
                    None => legacy.response,
                }
                &&& self.react(PollEvent::Delivered(Some(m))) == PollAction::Complete(m)
            }),
    {
    }

    /// When the deadline passes before any terminal message for this request
    /// arrives, the wait ends with a timeout.
    pub proof fn lemma_deadline_ends_wait(self, polls: Seq<(u64, PollEvent)>)
        requires
            polls.len() > 0,
            self.expired_spec(polls.last().0),
            forall|i: int|
                0 <= i < polls.len() ==> {
                    let a = self.react(#[trigger] polls[i].1);
                    a is Wait || a is Relay
                },
        ensures
            self.run(polls).end == Some(Err::<GraphMessage, WaitError>(WaitError::Timeout)),
        decreases polls.len(),
    {
        if !self.expired_spec(polls[0].0) {
            let rest = polls.drop_first();
            assert(rest.last() == polls.last());
            assert forall|i: int| 0 <= i < rest.len() implies {
                let a = self.react(#[trigger] rest[i].1);
                a is Wait || a is Relay
            } by {
                assert(rest[i] == polls[i + 1]);
            }
            self.lemma_deadline_ends_wait(rest);
        }
    }
}

} // verus!
