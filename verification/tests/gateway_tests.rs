use mistral_ollama_proxy::config::{Config, DEFAULT_MODEL_SIZE};
use mistral_ollama_proxy::convert::{build_chat_request, build_generate_request};
use mistral_ollama_proxy::error::AppError;
use mistral_ollama_proxy::listing::{build_model_listing, fallback_models};
use mistral_ollama_proxy::mistral::{MistralMessage, MistralModel};
use mistral_ollama_proxy::ollama::OllamaMessage;

#[test]
fn test_ollama_message_conversion() {
    let ollama_msg = OllamaMessage {
        role: "user".to_string(),
        content: "Hello, world!".to_string(),
    };

    let mistral_msg: MistralMessage = ollama_msg.into();
    assert_eq!(mistral_msg.role, "user");
    assert_eq!(mistral_msg.content, "Hello, world!");
}

#[test]
fn generate_requests_wrap_the_prompt_in_a_user_message() {
    let req = build_generate_request(
        "mistral:latest",
        "Why is the sky blue?".to_string(),
        Some(true),
        Some(100),
        Some(42),
    );
    assert_eq!(req.model, "mistral-7b");
    assert_eq!(req.messages.len(), 1);
    assert_eq!(req.messages[0].role, "user");
    assert_eq!(req.messages[0].content, "Why is the sky blue?");
    assert_eq!(req.stream, Some(true));
    assert_eq!(req.max_tokens, Some(100));
    assert_eq!(req.random_seed, Some(42));
}

#[test]
fn chat_requests_carry_every_message_over_in_order() {
    let messages = vec![
        OllamaMessage { role: "system".to_string(), content: "be brief".to_string() },
        OllamaMessage { role: "user".to_string(), content: "hi".to_string() },
    ];
    let req = build_chat_request("mixtral:8x7b", messages, None, None, None);
    assert_eq!(req.model, "mixtral-8x7b");
    assert_eq!(req.messages.len(), 2);
    assert_eq!(req.messages[0].role, "system");
    assert_eq!(req.messages[0].content, "be brief");
    assert_eq!(req.messages[1].role, "user");
    assert_eq!(req.messages[1].content, "hi");
    assert_eq!(req.stream, None);
}

#[test]
fn errors_map_to_their_status_codes_and_labels() {
    let request = AppError::request_error("http://backend".to_string(), "refused".to_string());
    let json = AppError::json_error("bad body");
    let streaming = AppError::streaming_error("boom".to_string(), "/api/chat");
    let internal = AppError::internal_error("oops");

    assert_eq!(request.status_code(), 502);
    assert_eq!(json.status_code(), 400);
    assert_eq!(streaming.status_code(), 500);
    assert_eq!(internal.status_code(), 500);

    assert_eq!(request.error_type(), "request");
    assert_eq!(json.error_type(), "json");
    assert_eq!(streaming.error_type(), "streaming");
    assert_eq!(internal.error_type(), "internal");

    assert_eq!(
        request.response_message(),
        "Backend request failed: refused (URL: http://backend)"
    );
    assert_eq!(json.response_message(), "JSON parsing error: bad body");
    assert_eq!(
        streaming.response_message(),
        "Streaming error: boom (endpoint: /api/chat)"
    );
    assert_eq!(internal.response_message(), "Internal server error: oops");
}

#[test]
fn request_timeout_holds_the_configured_seconds() {
    let config = Config {
        mistral_url: "http://mistral:8080".to_string(),
        bind_address: "0.0.0.0:11434".to_string(),
        request_timeout_secs: 300,
        channel_buffer_size: 100,
        max_line_length: 1_000_000,
        cors_allowed_origins: vec!["http://localhost:3000".to_string()],
    };
    assert_eq!(config.request_timeout().as_secs(), 300);
}

#[test]
fn backend_failure_falls_back_to_the_fixed_two_entry_listing() {
    let models = fallback_models();
    assert_eq!(models.len(), 2);
    assert_eq!(models[0].name, "mistral:latest");
    assert_eq!(models[1].name, "mistral:7b");
    assert_eq!(models[0].size, DEFAULT_MODEL_SIZE);
    assert_eq!(models[1].size, DEFAULT_MODEL_SIZE);
    assert_eq!(models[0].digest, "default");
    assert_eq!(models[1].digest, "default");
}

#[test]
fn listings_map_names_sizes_and_digests() {
    let backend = vec![
        MistralModel {
            id: "mistral-7b".to_string(),
            object: "model".to_string(),
            created: 0,
            owned_by: "mistralai".to_string(),
        },
        MistralModel {
            id: "custom-mixtral-8x7b-finetune".to_string(),
            object: "model".to_string(),
            created: 0,
            owned_by: "me".to_string(),
        },
    ];
    let listing = build_model_listing(&backend);
    assert_eq!(listing.models.len(), 2);
    assert_eq!(listing.models[0].name, "mistral:latest");
    assert_eq!(listing.models[0].size, 4_100_000_000);
    assert_eq!(listing.models[0].digest, "sha256:mistral-7b");
    assert_eq!(listing.models[1].name, "custom-mixtral-8x7b-finetune");
    assert_eq!(listing.models[1].size, 47_000_000_000);
    assert_eq!(listing.models[1].digest, "sha256:custom-mixtral-8x7b-finetune");
}
