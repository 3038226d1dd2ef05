use language_model::{
    ChatMessage, ChatResponseDelta, CompletionStart, LanguageModelError, LanguageModelId,
    LanguageModelProviderId, LanguageModelRegistry, LanguageModelRequest, Message, OllamaModel,
    OllamaLanguageModel, OllamaLanguageModelProvider, OllamaSettings, RateLimiter, Role,
    StreamEvent, StreamItem, MAX_CONCURRENT_REQUESTS,
};
use language_model::adapter::{flatten_message, to_chat_message, CompletionStream};
use language_model::provider::AuthAction;
use language_model::state::normalize_models;

fn request_with(messages: Vec<Message>, stop: Vec<String>, temperature_milli: u32) -> LanguageModelRequest {
    LanguageModelRequest { messages, stop, temperature_milli }
}

fn user_message(text: &str) -> Message {
    Message { role: Role::User, content: String::from(text) }
}

fn settings() -> OllamaSettings {
    OllamaSettings { api_url: String::from("http://localhost:11434"), low_speed_timeout_ms: None }
}

fn test_model(name: &str) -> OllamaLanguageModel {
    OllamaLanguageModel::new(OllamaModel::new(String::from(name)))
}

#[test]
fn limiter_admits_at_most_capacity() {
    let mut limiter = RateLimiter::new(2);
    assert!(limiter.try_acquire());
    assert!(limiter.try_acquire());
    // The third concurrent operation is not admitted while two run.
    assert!(!limiter.try_acquire());
    assert!(!limiter.try_acquire());
    // It starts only after one of the first two finishes.
    limiter.release();
    assert!(limiter.try_acquire());
}

#[test]
fn stream_holds_permit_for_full_lifetime() {
    let mut model = test_model("llama2");
    let s = settings();
    let mut streams = Vec::new();
    for _ in 0..MAX_CONCURRENT_REQUESTS {
        match model.start_stream_completion(request_with(vec![user_message("hi")], vec![], 700), Some(&s)) {
            CompletionStart::Ready { stream, .. } => streams.push(stream),
            _ => panic!("expected admission below capacity"),
        }
    }
    // One extra stream call blocks while the others are merely open (not drained).
    match model.start_stream_completion(request_with(vec![user_message("hi")], vec![], 700), Some(&s)) {
        CompletionStart::Wait => {}
        _ => panic!("expected the extra stream to wait"),
    }
    // Draining (or dropping) one stream releases its permit; the waiter proceeds.
    let done = streams.pop().unwrap();
    model.finish_stream(done);
    match model.start_stream_completion(request_with(vec![user_message("hi")], vec![], 700), Some(&s)) {
        CompletionStart::Ready { .. } => {}
        _ => panic!("expected admission after a release"),
    }
}

#[test]
fn setup_failure_is_immediate_error() {
    let mut model = test_model("llama2");
    match model.start_stream_completion(request_with(vec![user_message("hi")], vec![], 700), None) {
        CompletionStart::Failed(e) => assert_eq!(e, LanguageModelError::BackendUnreachable),
        _ => panic!("expected an immediate setup error"),
    }
}

#[test]
fn count_tokens_divides_characters_by_four() {
    let model = test_model("llama2");
    // Exactly 4k characters yield k tokens.
    let req = request_with(vec![user_message("abcdabcd")], vec![], 700);
    assert_eq!(model.count_tokens(&req), 2);
    let req = request_with(vec![user_message("abcdabcdabcd")], vec![], 700);
    assert_eq!(model.count_tokens(&req), 3);
}

#[test]
fn count_tokens_sums_all_messages() {
    let model = test_model("llama2");
    let req = request_with(
        vec![
            Message { role: Role::System, content: String::from("Hello") },
            user_message("abc"),
        ],
        vec![],
        700,
    );
    // 5 + 3 characters, divided by four with integer division.
    assert_eq!(model.count_tokens(&req), 2);
}

#[test]
fn count_tokens_counts_characters_not_bytes() {
    let model = test_model("llama2");
    let req = request_with(vec![user_message("h\u{e9}llo")], vec![], 700);
    // Five characters, although the accented one takes two bytes.
    assert_eq!(model.count_tokens(&req), 1);
}

#[test]
fn unauthenticated_provider_fails_fast() {
    let provider = OllamaLanguageModelProvider::new();
    assert!(!provider.is_authenticated());
    assert!(provider.provided_models().is_empty());
    match provider.state.check_authenticated() {
        Err(e) => assert_eq!(e, LanguageModelError::AuthenticationRequired),
        Ok(()) => panic!("an empty snapshot must not pass the completion gate"),
    }
}

#[test]
fn hello_scenario_streams_two_deltas_then_ends() {
    let mut model = test_model("llama2");
    let s = settings();
    let req = request_with(vec![user_message("Hello")], vec![], 700);
    let (wire, mut stream) = match model.start_stream_completion(req, Some(&s)) {
        CompletionStart::Ready { wire, stream } => (wire, stream),
        _ => panic!("expected admission"),
    };
    assert_eq!(wire.model, "llama2");
    assert!(wire.stream);
    assert_eq!(wire.messages.len(), 1);
    match &wire.messages[0] {
        ChatMessage::User { content } => assert_eq!(content, "Hello"),
        _ => panic!("the user role must map to the user wire tag"),
    }
    let options = wire.options.expect("options are always carried");
    assert_eq!(options.stop, Some(vec![]));
    assert_eq!(options.temperature_milli, Some(700));
    assert_eq!(options.num_ctx, Some(2048));

    let events = vec![
        StreamEvent::Delta(ChatResponseDelta {
            message: ChatMessage::Assistant { content: String::from("Hi") },
            done: false,
        }),
        StreamEvent::Delta(ChatResponseDelta {
            message: ChatMessage::Assistant { content: String::from(" there") },
            done: true,
        }),
        StreamEvent::Finished,
    ];
    let items = stream.drain(events);
    assert_eq!(items.len(), 2);
    match &items[0] {
        StreamItem::Text(t) => assert_eq!(t, "Hi"),
        _ => panic!("expected a text delta first"),
    }
    match &items[1] {
        StreamItem::Text(t) => assert_eq!(t, " there"),
        _ => panic!("expected a text delta second"),
    }
    // Normal termination: nothing follows.
    assert!(stream.step(StreamEvent::Delta(ChatResponseDelta {
        message: ChatMessage::Assistant { content: String::from("late") },
        done: false,
    })).is_none());
    model.finish_stream(stream);
}

#[test]
fn mid_stream_error_is_terminal() {
    let mut stream = CompletionStream::new();
    let events = vec![
        StreamEvent::Delta(ChatResponseDelta {
            message: ChatMessage::Assistant { content: String::from("Hi") },
            done: false,
        }),
        StreamEvent::Fault(LanguageModelError::Timeout),
        StreamEvent::Delta(ChatResponseDelta {
            message: ChatMessage::Assistant { content: String::from("never seen") },
            done: false,
        }),
    ];
    let items = stream.drain(events);
    // Exactly one successful delta, then the terminal error, then nothing.
    assert_eq!(items.len(), 2);
    match &items[0] {
        StreamItem::Text(t) => assert_eq!(t, "Hi"),
        _ => panic!("expected the delta before the error"),
    }
    match &items[1] {
        StreamItem::Fail(e) => assert_eq!(*e, LanguageModelError::Timeout),
        _ => panic!("expected the terminal error"),
    }
    assert!(stream.step(StreamEvent::Finished).is_none());
}

#[test]
fn use_any_tool_reports_unsupported_operation() {
    let model = test_model("llama2");
    let req = request_with(vec![user_message("hi")], vec![], 700);
    let r = model.use_any_tool(
        req,
        String::from("lookup"),
        String::from("look a thing up"),
        serde_json::Value::Null,
    );
    match r {
        Err(e) => assert_eq!(e, LanguageModelError::UnsupportedOperation),
        Ok(_) => panic!("this backend implements no tool calling"),
    }
}

#[test]
fn authenticate_sorts_discovered_models_by_name() {
    let mut provider = OllamaLanguageModelProvider::new();
    assert_eq!(provider.authenticate_action(), AuthAction::Probe);
    let outcome = provider.apply_probe_result(Ok(vec![String::from("b"), String::from("a")]));
    assert!(outcome.is_ok());
    let models = provider.provided_models();
    let names: Vec<String> = models.iter().map(|m| m.model.name.clone()).collect();
    assert_eq!(names, vec![String::from("a"), String::from("b")]);
    // Authenticating again is an idempotent no-op success.
    assert_eq!(provider.authenticate_action(), AuthAction::AlreadyAuthenticated);
    assert!(provider.is_authenticated());
}

#[test]
fn failed_probe_leaves_the_snapshot_unchanged() {
    let mut provider = OllamaLanguageModelProvider::new();
    provider
        .apply_probe_result(Ok(vec![String::from("m1")]))
        .expect("a successful probe replaces the snapshot");
    let outcome = provider.apply_probe_result(Err(LanguageModelError::BackendUnreachable));
    assert_eq!(outcome, Err(LanguageModelError::BackendUnreachable));
    assert!(provider.is_authenticated());
    assert_eq!(provider.provided_models().len(), 1);
}

#[test]
fn embedding_models_are_filtered_out() {
    let models = normalize_models(vec![
        String::from("nomic-embed-text"),
        String::from("llama2"),
        String::from("mxbai-embed-large"),
    ]);
    assert_eq!(models.len(), 1);
    assert_eq!(models[0].name, "llama2");
    assert_eq!(models[0].max_tokens, 2048);
}

#[test]
fn registry_keeps_insertion_order_and_replaces_on_reuse() {
    let mut registry: LanguageModelRegistry<u32> = LanguageModelRegistry::new();
    registry.register(LanguageModelProviderId(String::from("ollama")), 1);
    registry.register(LanguageModelProviderId(String::from("other")), 2);
    let listed = registry.list();
    assert_eq!(listed.len(), 2);
    assert_eq!(listed[0].0 .0, "ollama");
    assert_eq!(listed[1].0 .0, "other");

    // Last writer wins, and the slot keeps its position.
    registry.register(LanguageModelProviderId(String::from("ollama")), 3);
    let listed = registry.list();
    assert_eq!(listed.len(), 2);
    assert_eq!(listed[0].0 .0, "ollama");
    assert_eq!(registry.lookup(&LanguageModelProviderId(String::from("ollama"))), Some(&3));
    assert_eq!(registry.lookup(&LanguageModelProviderId(String::from("other"))), Some(&2));
    assert_eq!(registry.lookup(&LanguageModelProviderId(String::from("missing"))), None);
}

#[test]
fn metadata_reports_the_backend_identity() {
    let model = test_model("llama2");
    assert_eq!(model.id().0, "llama2");
    assert_eq!(model.name().0, "llama2");
    assert_eq!(model.provider_id().0, "ollama");
    assert_eq!(model.provider_name().0, "Ollama");
    assert_eq!(model.telemetry_id(), "ollama/llama2");
    assert_eq!(model.max_token_count(), 2048);

    let provider = OllamaLanguageModelProvider::new();
    assert_eq!(provider.id().0, "ollama");
    assert_eq!(provider.name().0, "Ollama");
    assert_eq!(provider.reset_credentials_action(), AuthAction::Probe);
}

#[test]
fn every_role_maps_onto_its_own_wire_tag() {
    let sys = to_chat_message(Role::System, String::from("s"));
    let user = to_chat_message(Role::User, String::from("u"));
    let asst = to_chat_message(Role::Assistant, String::from("a"));
    assert!(matches!(sys, ChatMessage::System { .. }));
    assert!(matches!(user, ChatMessage::User { .. }));
    assert!(matches!(asst, ChatMessage::Assistant { .. }));
    assert_eq!(flatten_message(sys), "s");
    assert_eq!(flatten_message(user), "u");
    assert_eq!(flatten_message(asst), "a");
}

#[test]
fn identifiers_compare_by_value() {
    let a = LanguageModelId::from(String::from("m"));
    let b = LanguageModelId::from(String::from("m"));
    let c = LanguageModelId::from(String::from("n"));
    assert_eq!(a, b);
    assert!(a != c);
    assert_eq!(a.0, "m");
}

#[test]
fn error_kinds_report_their_nature() {
    assert!(LanguageModelError::BackendUnreachable.is_retryable());
    assert!(LanguageModelError::Timeout.is_retryable());
    assert!(!LanguageModelError::AuthenticationRequired.is_retryable());
    assert!(!LanguageModelError::UnsupportedOperation.is_retryable());
    assert!(!LanguageModelError::SchemaViolation.is_retryable());
    assert!(!LanguageModelError::InvalidResponse.is_retryable());
    assert_eq!(LanguageModelError::AuthenticationRequired.message(), "authentication required");
    assert_eq!(LanguageModelError::Timeout.message(), "timed out waiting for data");
}

#[test]
fn keep_alive_is_carried_into_the_wire_request() {
    let model = OllamaLanguageModel::new(OllamaModel {
        name: String::from("llama2"),
        max_tokens: 4096,
        keep_alive: Some(String::from("5m")),
    });
    let wire = model.to_ollama_request(request_with(vec![user_message("hi")], vec![String::from("\n")], 250));
    assert_eq!(wire.keep_alive, "5m");
    let options = wire.options.expect("options are always carried");
    assert_eq!(options.num_ctx, Some(4096));
    assert_eq!(options.stop, Some(vec![String::from("\n")]));
    assert_eq!(options.temperature_milli, Some(250));
}

#[test]
fn normalization_sorts_and_keeps_duplicates() {
    let models = normalize_models(vec![
        String::from("c"),
        String::from("a"),
        String::from("b"),
        String::from("a"),
    ]);
    let names: Vec<&str> = models.iter().map(|m| m.name.as_str()).collect();
    assert_eq!(names, vec!["a", "a", "b", "c"]);
}
