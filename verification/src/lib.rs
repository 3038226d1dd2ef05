//! A unification layer for chat-style language-model backends.
//!
//! A host application issues generic completion and tool-invocation requests
//! against independent backend services through one interface. The library
//! covers the generic request model, the concurrency-admission primitive that
//! bounds in-flight operations per model, the translation of a generic
//! request into a backend wire request, the normalization of the backend's
//! streamed events into plain text deltas, the provider state snapshot with
//! its authentication rule, and the provider registry.
//!
//! All I/O (HTTP transport, settings storage, UI) stays outside: callers hand
//! the library plain values and drive the event loop themselves.

pub mod adapter;
pub mod error;
pub mod ids;
pub mod model;
pub mod provider;
pub mod rate_limiter;
pub mod registry;
pub mod request;
pub mod role;
pub mod state;

pub use adapter::{
    ChatMessage, ChatOptions, ChatRequest, ChatResponseDelta, CompletionStream, StreamEvent,
    StreamItem,
};
pub use error::LanguageModelError;
pub use ids::{
    LanguageModelId, LanguageModelName, LanguageModelProviderId, LanguageModelProviderName,
};
pub use model::{CompletionStart, LanguageModelTool, OllamaLanguageModel, MAX_CONCURRENT_REQUESTS};
pub use provider::{AuthAction, OllamaLanguageModelProvider};
pub use rate_limiter::RateLimiter;
pub use registry::LanguageModelRegistry;
pub use request::{LanguageModelRequest, Message};
pub use role::Role;
pub use state::{OllamaModel, OllamaSettings, State};
