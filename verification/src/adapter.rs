use vstd::prelude::*;

use crate::error::LanguageModelError;
use crate::role::Role;

verus! {

/// One message of the backend's wire protocol. The backend tags each message
/// with its own role tag; the adapter maps the generic [`Role`] onto these
/// tags bijectively.
#[derive(Clone, Debug)]
pub enum ChatMessage {
    System { content: String },
    User { content: String },
    Assistant { content: String },
}

/// The generation options carried inside a wire request. The temperature is
/// in thousandths, as in the generic request.
#[derive(Clone, Debug)]
pub struct ChatOptions {
    pub num_ctx: Option<usize>,
    pub stop: Option<Vec<String>>,
    pub temperature_milli: Option<u32>,
}

/// The backend-specific wire request a generic request is translated into.
#[derive(Clone, Debug)]
pub struct ChatRequest {
    pub model: String,
    pub messages: Vec<ChatMessage>,
    pub keep_alive: String,
    pub stream: bool,
    pub options: Option<ChatOptions>,
}

/// One role-tagged incremental event of the backend's response stream.
#[derive(Clone, Debug)]
pub struct ChatResponseDelta {
    pub message: ChatMessage,
    pub done: bool,
}

/// The generic role a wire message's tag stands for.
pub open spec fn spec_role_of(m: ChatMessage) -> Role {
    match m {
        ChatMessage::System { .. } => Role::System,
        ChatMessage::User { .. } => Role::User,
        ChatMessage::Assistant { .. } => Role::Assistant,
    }
}

/// The text carried by a wire message, whatever its role tag.
pub open spec fn spec_message_string(m: ChatMessage) -> String {
    match m {
        ChatMessage::System { content } => content,
        ChatMessage::User { content } => content,
        ChatMessage::Assistant { content } => content,
    }
}

/// The wire message a generic role and content translate to.
pub open spec fn spec_to_chat_message(role: Role, content: String) -> ChatMessage {
    match role {
        Role::System => ChatMessage::System { content },
        Role::User => ChatMessage::User { content },
        Role::Assistant => ChatMessage::Assistant { content },
    }
}

/// Translate one generic message into the backend's wire shape.
pub fn to_chat_message(role: Role, content: String) -> (m: ChatMessage)
    ensures
        m == spec_to_chat_message(role, content),
{
    match role {
        Role::System => ChatMessage::System { content },
        Role::User => ChatMessage::User { content },
        Role::Assistant => ChatMessage::Assistant { content },
    }
}

/// The role mapping into the wire shape loses nothing: the wire message built
/// from a role and a content carries exactly that role tag and that content.
pub proof fn lemma_role_mapping_faithful(role: Role, content: String)
    ensures
        spec_role_of(spec_to_chat_message(role, content)) == role,
        spec_message_string(spec_to_chat_message(role, content)) == content,
{
}

/// The role mapping is onto the wire tags: rebuilding a wire message from its
/// own tag and content gives the message back, so generic roles and wire tags
/// correspond one to one.
pub proof fn lemma_role_mapping_round_trip(m: ChatMessage)
    ensures
        spec_to_chat_message(spec_role_of(m), spec_message_string(m)) == m,
{
}

/// Extract the text of one wire message, whatever its role tag.
pub fn flatten_message(m: ChatMessage) -> (content: String)
    ensures
        content == spec_message_string(m),
{
    match m {
        ChatMessage::System { content } => content,
        ChatMessage::User { content } => content,
        ChatMessage::Assistant { content } => content,
    }
}

/// One event arriving from the backend while a completion stream is open:
/// an incremental delta, a backend-reported error, or the normal end of the
/// response body.
pub enum StreamEvent {
    Delta(ChatResponseDelta),
    Fault(LanguageModelError),
    Finished,
}

/// One normalized item handed to the consumer of a completion stream: a plain
/// text delta, or the stream's terminal error.
#[derive(Clone, Debug)]
pub enum StreamItem {
    Text(String),
    Fail(LanguageModelError),
}

/// The normalized items a whole sequence of backend events flattens to:
/// deltas in arrival order; a backend error, delivered once, ends the stream;
/// nothing follows the first terminal event.
pub open spec fn spec_normalize(events: Seq<StreamEvent>) -> Seq<StreamItem>
    decreases events.len(),
{
    if events.len() == 0 {
        Seq::empty()
    } else {
        match events.first() {
            StreamEvent::Delta(d) => seq![StreamItem::Text(spec_message_string(d.message))]
                + spec_normalize(events.drop_first()),
            StreamEvent::Fault(e) => seq![StreamItem::Fail(e)],
            StreamEvent::Finished => Seq::empty(),
        }
    }
}

/// The consumer-facing side of one streaming completion: a state machine fed
/// with backend events, emitting normalized items until it terminates. Once
/// terminated — normally or by an error — it emits nothing further.
///
/// The stream's owner holds one rate-limiter permit for the stream's whole
/// lifetime; the permit is released by the owning model's `finish_stream`,
/// which the driving loop must call when the stream is drained, failed, or
/// abandoned.
pub struct CompletionStream {
    terminated: bool,
}

impl CompletionStream {
    /// Whether the stream has ended (normally or with its terminal error).
    pub closed spec fn is_terminated(&self) -> bool {
        self.terminated
    }

    pub fn new() -> (s: CompletionStream)
        ensures
            !s.is_terminated(),
    {
        CompletionStream { terminated: false }
    }

    /// Feed one backend event. A live stream emits a text delta for each
    /// incoming delta, emits a backend error once and terminates, or
    /// terminates silently at the end of the body. A terminated stream
    /// ignores every further event and emits nothing.
    pub fn step(&mut self, event: StreamEvent) -> (out: Option<StreamItem>)
        ensures
            old(self).is_terminated() ==> out is None && final(self).is_terminated(),
            !old(self).is_terminated() ==> match event {
                StreamEvent::Delta(d) => {
                    out == Some(StreamItem::Text(spec_message_string(d.message)))
                        && !final(self).is_terminated()
                },
                StreamEvent::Fault(e) => {
                    out == Some(StreamItem::Fail(e)) && final(self).is_terminated()
                },
                StreamEvent::Finished => out is None && final(self).is_terminated(),
            },
    {
        if self.terminated {
            return None;
        }
        match event {
            StreamEvent::Delta(d) => Some(StreamItem::Text(flatten_message(d.message))),
            StreamEvent::Fault(e) => {
                self.terminated = true;
                Some(StreamItem::Fail(e))
            },
            StreamEvent::Finished => {
                self.terminated = true;
                None
            },
        }
    }

    /// Feed a whole sequence of backend events to a fresh stream and collect
    /// everything the consumer observes, in order.
    pub fn drain(&mut self, events: Vec<StreamEvent>) -> (out: Vec<StreamItem>)
        requires
            !old(self).is_terminated(),
        ensures
            out@ == spec_normalize(events@),
    {
        let mut out: Vec<StreamItem> = Vec::new();
        let n = events.len();
        let mut events = events;
        let ghost all_events = events@;
        let mut i: usize = 0;
        // Events are consumed from the front; `events` keeps the tail.
        while i < n
            invariant
                n == all_events.len(),
                i <= n,
                events@ == all_events.skip(i as int),
                spec_normalize(all_events) == out@ + if self.is_terminated() {
                    Seq::<StreamItem>::empty()
                } else {
                    spec_normalize(all_events.skip(i as int))
                },
            decreases n - i,
        {
            let event = events.remove(0);
            proof {
                assert(all_events.skip(i as int).drop_first() =~= all_events.skip(i + 1));
            }
            let item = self.step(event);
            match item {
                Some(item) => out.push(item),
                None => (),
            }
            i = i + 1;
        }
        out
    }
}

} // verus!
