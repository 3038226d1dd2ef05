use vstd::prelude::*;
use vstd::string::StringExecFns;

use crate::adapter::{
    spec_to_chat_message, to_chat_message, ChatMessage, ChatOptions, ChatRequest, CompletionStream,
};
use crate::error::LanguageModelError;
use crate::ids::{LanguageModelId, LanguageModelName, LanguageModelProviderId,
    LanguageModelProviderName};
use crate::rate_limiter::RateLimiter;
use crate::request::{spec_token_estimate, total_chars, LanguageModelRequest, Message};
use crate::state::{OllamaModel, OllamaSettings};

verus! {

/// How many completion calls one model instance lets run at once.
pub const MAX_CONCURRENT_REQUESTS: usize = 4;

/// A structured output a caller can ask a backend to produce in place of free
/// text. Hosts implement this for their own result types; the name and the
/// description are handed to the backend along with the type's schema.
pub trait LanguageModelTool {
    fn name() -> String;

    fn description() -> String;
}

/// `serde_json::Value` carries a tool call's schema and its structured result
/// through the library as an opaque value; the library never looks inside it.
#[verifier::external_type_specification]
#[verifier::external_body]
pub struct ExValue(serde_json::Value);

/// Count the characters of one piece of text.
fn str_char_count(s: &str) -> (n: usize)
    requires
        s@.len() <= usize::MAX,
    ensures
        n == s@.len(),
{
    broadcast use vstd::string::axiom_spec_iter;
    broadcast use vstd::string::next_postcondition;

    let mut it = s.chars();
    let mut n: usize = 0;
    loop
        invariant
            s@.len() <= usize::MAX,
            n <= s@.len(),
            vstd::std_specs::iter::IteratorSpec::remaining(&it) == s@.skip(n as int),
        ensures
            n == s@.len(),
        decreases s@.len() - n,
    {
        let c = it.next();
        match c {
            Some(_) => {
                proof {
                    assert(s@.skip(n as int).drop_first() =~= s@.skip(n as int + 1));
                }
                n = n + 1;
            },
            None => {
                proof {
                    assert(s@.skip(n as int).len() == 0);
                }
                break ;
            },
        }
    }
    n
}

/// Each prefix of a message sequence holds at most as many characters as the
/// whole sequence.
pub proof fn lemma_total_chars_take(messages: Seq<Message>, i: int)
    requires
        0 <= i <= messages.len(),
    ensures
        total_chars(messages.take(i)) <= total_chars(messages),
    decreases messages.len() - i,
{
    if i < messages.len() {
        assert(messages.take(i + 1).drop_last() =~= messages.take(i));
        lemma_total_chars_take(messages, i + 1);
    } else {
        assert(messages.take(i) =~= messages);
    }
}

/// Whether a wire request is the faithful translation of a generic request
/// for the given model: same messages with roles mapped onto the backend's
/// own tags, the model's name and context window, the caller's stop sequences
/// and temperature carried over, and streaming switched on.
pub open spec fn spec_wire_request(
    model: OllamaModel,
    request: LanguageModelRequest,
    r: ChatRequest,
) -> bool {
    &&& r.model@ == model.name@
    &&& r.stream == true
    &&& (match model.keep_alive {
        Some(k) => r.keep_alive@ == k@,
        None => r.keep_alive@ == Seq::<char>::empty(),
    })
    &&& r.messages@.len() == request.messages@.len()
    &&& (forall|i: int|
        0 <= i < request.messages@.len() ==> r.messages@[i] == spec_to_chat_message(
            request.messages@[i].role,
            #[trigger] request.messages@[i].content,
        ))
    &&& (match r.options {
        Some(o) => {
            &&& o.num_ctx == Some(model.max_tokens)
            &&& o.stop == Some(request.stop)
            &&& o.temperature_milli == Some(request.temperature_milli)
        },
        None => false,
    })
}

/// The outcome of asking to start one streaming completion.
pub enum CompletionStart {
    /// Admitted: the wire request to issue, and the stream that will
    /// normalize the backend's events. One rate-limiter permit is now held
    /// until `finish_stream`.
    Ready { wire: ChatRequest, stream: CompletionStream },
    /// The model already runs as many calls as it admits; retry after one of
    /// them releases its permit. Nothing was changed.
    Wait,
    /// A synchronous setup failure: reported at once, never as a one-item
    /// error stream. Nothing was changed.
    Failed(LanguageModelError),
}

/// One usable backend model instance: its identity and metadata, the
/// translation of generic requests into its wire shape, and the admission
/// gate bounding its concurrent completion calls.
pub struct OllamaLanguageModel {
    pub id: LanguageModelId,
    pub model: OllamaModel,
    pub request_limiter: RateLimiter,
}

impl OllamaLanguageModel {
    /// The instance's invariant: its admission gate is well formed.
    pub open spec fn wf(&self) -> bool {
        self.request_limiter.wf()
    }

    pub fn new(model: OllamaModel) -> (r: OllamaLanguageModel)
        ensures
            r.wf(),
            r.id.0@ == model.name@,
            r.model == model,
            r.request_limiter.capacity() == MAX_CONCURRENT_REQUESTS,
            r.request_limiter.in_flight() == 0,
    {
        let id = LanguageModelId(model.name.clone());
        OllamaLanguageModel { id, model, request_limiter: RateLimiter::new(MAX_CONCURRENT_REQUESTS) }
    }

    pub fn id(&self) -> (r: LanguageModelId)
        ensures
            r.0@ == self.id.0@,
    {
        LanguageModelId(self.id.0.clone())
    }

    /// The model's display name is its backend name.
    pub fn name(&self) -> (r: LanguageModelName)
        ensures
            r.0@ == self.model.name@,
    {
        LanguageModelName(self.model.name.clone())
    }

    pub fn provider_id(&self) -> (r: LanguageModelProviderId)
        ensures
            r.0@ == "ollama"@,
    {
        LanguageModelProviderId(String::from_str("ollama"))
    }

    pub fn provider_name(&self) -> (r: LanguageModelProviderName)
        ensures
            r.0@ == "Ollama"@,
    {
        LanguageModelProviderName(String::from_str("Ollama"))
    }

    /// The stable identifier this model reports in telemetry.
    pub fn telemetry_id(&self) -> (r: String)
        ensures
            r@ == "ollama/"@ + self.model.name@,
    {
        String::from_str("ollama/").concat(self.model.name.as_str())
    }

    /// The backend-declared context window.
    pub fn max_token_count(&self) -> (r: usize)
        ensures
            r == self.model.max_tokens,
    {
        self.model.max_tokens
    }

    /// Estimate the token usage of a request. The backend has no native
    /// token-counting endpoint, so the documented heuristic fallback is used:
    /// total characters over all messages, divided by four.
    pub fn count_tokens(&self, request: &LanguageModelRequest) -> (n: usize)
        requires
            total_chars(request.messages@) <= usize::MAX,
        ensures
            n == spec_token_estimate(request.messages@),
    {
        let messages = &request.messages;
        let len = messages.len();
        let mut total: usize = 0;
        let mut i: usize = 0;
        while i < len
            invariant
                len == messages@.len(),
                i <= len,
                total_chars(messages@) <= usize::MAX,
                total == total_chars(messages@.take(i as int)),
            decreases len - i,
        {
            proof {
                assert(messages@.take(i as int + 1).drop_last() =~= messages@.take(i as int));
                assert(messages@.take(i as int + 1).last() == messages@[i as int]);
                lemma_total_chars_take(messages@, i as int + 1);
            }
            total = total + str_char_count(messages[i].content.as_str());
            i = i + 1;
        }
        proof {
            assert(messages@.take(len as int) =~= messages@);
        }
        total / 4
    }

    /// Translate a generic request into this model's wire request.
    pub fn to_ollama_request(&self, request: LanguageModelRequest) -> (r: ChatRequest)
        ensures
            spec_wire_request(self.model, request, r),
    {
        let LanguageModelRequest { messages, stop, temperature_milli } = request;
        let ghost all_messages = messages@;
        let mut messages = messages;
        let mut wire_messages: Vec<ChatMessage> = Vec::new();
        let len = messages.len();
        let mut i: usize = 0;
        // Messages are consumed from the front; `messages` keeps the tail.
        while i < len
            invariant
                len == all_messages.len(),
                i <= len,
                messages@ == all_messages.skip(i as int),
                wire_messages@.len() == i,
                forall|j: int|
                    0 <= j < i ==> wire_messages@[j] == spec_to_chat_message(
                        all_messages[j].role,
                        #[trigger] all_messages[j].content,
                    ),
            decreases len - i,
        {
            proof {
                assert(all_messages.skip(i as int).drop_first() =~= all_messages.skip(
                    i as int + 1,
                ));
            }
            let msg = messages.remove(0);
            wire_messages.push(to_chat_message(msg.role, msg.content));
            i = i + 1;
        }
        let keep_alive = match &self.model.keep_alive {
            Some(k) => k.clone(),
            None => String::new(),
        };
        ChatRequest {
            model: self.model.name.clone(),
            messages: wire_messages,
            keep_alive,
            stream: true,
            options: Some(
                ChatOptions {
                    num_ctx: Some(self.model.max_tokens),
                    stop: Some(stop),
                    temperature_milli: Some(temperature_milli),
                },
            ),
        }
    }

    /// Ask to start one streaming completion. With the host's settings at
    /// hand and a free permit, the call is admitted: the caller gets the wire
    /// request to issue and a fresh stream, and holds one permit until
    /// `finish_stream`. With every permit taken the caller must wait and ask
    /// again. A host shutting down mid-call (no settings left) is a
    /// synchronous setup failure, reported at once.
    pub fn start_stream_completion(
        &mut self,
        request: LanguageModelRequest,
        settings: Option<&OllamaSettings>,
    ) -> (r: CompletionStart)
        requires
            old(self).wf(),
        ensures
            final(self).wf(),
            final(self).id == old(self).id,
            final(self).model == old(self).model,
            final(self).request_limiter.capacity() == old(self).request_limiter.capacity(),
            match r {
                CompletionStart::Ready { wire, stream } => {
                    &&& settings is Some
                    &&& old(self).request_limiter.can_admit()
                    &&& spec_wire_request(old(self).model, request, wire)
                    &&& !stream.is_terminated()
                    &&& final(self).request_limiter.in_flight() == old(
                        self,
                    ).request_limiter.in_flight() + 1
                },
                CompletionStart::Wait => {
                    &&& settings is Some
                    &&& !old(self).request_limiter.can_admit()
                    &&& final(self).request_limiter.in_flight() == old(
                        self,
                    ).request_limiter.in_flight()
                },
                CompletionStart::Failed(e) => {
                    &&& settings is None
                    &&& e == LanguageModelError::BackendUnreachable
                    &&& final(self).request_limiter.in_flight() == old(
                        self,
                    ).request_limiter.in_flight()
                },
            },
    {
        if settings.is_none() {
            return CompletionStart::Failed(LanguageModelError::BackendUnreachable);
        }
        let wire = self.to_ollama_request(request);
        if self.request_limiter.try_acquire() {
            CompletionStart::Ready { wire, stream: CompletionStream::new() }
        } else {
            CompletionStart::Wait
        }
    }

    /// Release the permit a completion stream held, whether the stream was
    /// drained to its end, ended in its terminal error, or was abandoned by
    /// its consumer. The driving loop calls this exactly once per admitted
    /// stream, on every exit path.
    pub fn finish_stream(&mut self, stream: CompletionStream)
        requires
            old(self).wf(),
            1 <= old(self).request_limiter.in_flight(),
        ensures
            final(self).wf(),
            final(self).id == old(self).id,
            final(self).model == old(self).model,
            final(self).request_limiter.capacity() == old(self).request_limiter.capacity(),
            final(self).request_limiter.in_flight() == old(self).request_limiter.in_flight() - 1,
    {
        let _ = stream;
        self.request_limiter.release();
    }

    /// Ask the backend to produce output conforming to a schema. This backend
    /// implements no tool calling, so the call reports `UnsupportedOperation`
    /// at once — it never reaches the network and never blocks.
    pub fn use_any_tool(
        &self,
        request: LanguageModelRequest,
        name: String,
        description: String,
        schema: serde_json::Value,
    ) -> (r: Result<serde_json::Value, LanguageModelError>)
        ensures
            r is Err && r->Err_0 == LanguageModelError::UnsupportedOperation,
    {
        let _ = (request, name, description, schema);
        Err(LanguageModelError::UnsupportedOperation)
    }
}

} // verus!
