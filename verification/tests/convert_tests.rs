use mistral_ollama_proxy::convert::{
    convert_mistral_to_ollama_chat, convert_mistral_to_ollama_generate,
};
use mistral_ollama_proxy::mistral::{
    MistralChatResponse, MistralChoice, MistralMessage, MistralUsage,
};
use mistral_ollama_proxy::render::{create_done_chunk, create_streaming_chunk};

const TS: &str = "2024-01-01T00:00:00+00:00";

#[test]
fn test_convert_mistral_to_ollama_chat() {
    let mistral_response = MistralChatResponse {
        id: "test-id".to_string(),
        object: "chat.completion".to_string(),
        created: 1234567890,
        model: "mistral-7b".to_string(),
        choices: vec![MistralChoice {
            index: 0,
            message: Some(MistralMessage {
                role: "assistant".to_string(),
                content: "Hello!".to_string(),
            }),
            delta: None,
            finish_reason: Some("stop".to_string()),
        }],
        usage: Some(MistralUsage {
            prompt_tokens: 10,
            completion_tokens: 5,
            total_tokens: 15,
        }),
    };

    let ollama_response =
        convert_mistral_to_ollama_chat(mistral_response, "mistral:latest".to_string());

    assert_eq!(ollama_response.model, "mistral:latest");
    assert_eq!(ollama_response.message.role, "assistant");
    assert_eq!(ollama_response.message.content, "Hello!");
    assert!(ollama_response.done);
    assert_eq!(ollama_response.prompt_eval_count, Some(10));
    assert_eq!(ollama_response.eval_count, Some(5));
}

#[test]
fn test_convert_mistral_to_ollama_generate() {
    let mistral_response = MistralChatResponse {
        id: "test-id".to_string(),
        object: "chat.completion".to_string(),
        created: 1234567890,
        model: "mistral-7b".to_string(),
        choices: vec![MistralChoice {
            index: 0,
            message: Some(MistralMessage {
                role: "assistant".to_string(),
                content: "Generated text".to_string(),
            }),
            delta: None,
            finish_reason: Some("stop".to_string()),
        }],
        usage: Some(MistralUsage {
            prompt_tokens: 20,
            completion_tokens: 15,
            total_tokens: 35,
        }),
    };

    let ollama_response =
        convert_mistral_to_ollama_generate(mistral_response, "mistral:latest".to_string());

    assert_eq!(ollama_response.model, "mistral:latest");
    assert_eq!(ollama_response.response, "Generated text");
    assert!(ollama_response.done);
    assert_eq!(ollama_response.prompt_eval_count, Some(20));
    assert_eq!(ollama_response.eval_count, Some(15));
}

#[test]
fn test_create_streaming_chunk_chat() {
    let bytes = create_streaming_chunk("mistral:latest", "Hello", "assistant", true, TS);
    let chunk: serde_json::Value = serde_json::from_slice(&bytes).unwrap();

    assert_eq!(chunk["model"], "mistral:latest");
    assert_eq!(chunk["message"]["role"], "assistant");
    assert_eq!(chunk["message"]["content"], "Hello");
    assert_eq!(chunk["done"], false);
}

#[test]
fn test_create_streaming_chunk_generate() {
    let bytes = create_streaming_chunk("mistral:latest", "Generated", "assistant", false, TS);
    let chunk: serde_json::Value = serde_json::from_slice(&bytes).unwrap();

    assert_eq!(chunk["model"], "mistral:latest");
    assert_eq!(chunk["response"], "Generated");
    assert_eq!(chunk["done"], false);
}

#[test]
fn test_create_done_chunk() {
    let bytes = create_done_chunk("mistral:latest", TS);
    let chunk: serde_json::Value = serde_json::from_slice(&bytes).unwrap();

    assert_eq!(chunk["model"], "mistral:latest");
    assert_eq!(chunk["done"], true);
    assert!(chunk["created_at"].is_string());
}

#[test]
fn chat_conversion_with_empty_choices_yields_empty_assistant_message() {
    let mistral_response = MistralChatResponse {
        id: "id".to_string(),
        object: "chat.completion".to_string(),
        created: 0,
        model: "mistral-7b".to_string(),
        choices: vec![],
        usage: None,
    };

    let ollama_response =
        convert_mistral_to_ollama_chat(mistral_response, "mistral:latest".to_string());

    assert_eq!(ollama_response.message.role, "assistant");
    assert_eq!(ollama_response.message.content, "");
    assert!(ollama_response.done);
    assert_eq!(ollama_response.prompt_eval_count, None);
    assert_eq!(ollama_response.eval_count, None);
}

#[test]
fn generate_conversion_with_empty_choices_yields_empty_response() {
    let mistral_response = MistralChatResponse {
        id: "id".to_string(),
        object: "chat.completion".to_string(),
        created: 0,
        model: "mistral-7b".to_string(),
        choices: vec![],
        usage: None,
    };

    let ollama_response =
        convert_mistral_to_ollama_generate(mistral_response, "mistral:latest".to_string());

    assert_eq!(ollama_response.response, "");
    assert!(ollama_response.done);
}

#[test]
fn chunk_serialization_is_byte_exact() {
    let chat = create_streaming_chunk("m", "Hi", "assistant", true, "T");
    assert_eq!(
        String::from_utf8(chat).unwrap(),
        "{\"created_at\":\"T\",\"done\":false,\"message\":{\"content\":\"Hi\",\"role\":\"assistant\"},\"model\":\"m\"}"
    );
    let generate = create_streaming_chunk("m", "Hi", "assistant", false, "T");
    assert_eq!(
        String::from_utf8(generate).unwrap(),
        "{\"created_at\":\"T\",\"done\":false,\"model\":\"m\",\"response\":\"Hi\"}"
    );
    let done = create_done_chunk("m", "T");
    assert_eq!(
        String::from_utf8(done).unwrap(),
        "{\"created_at\":\"T\",\"done\":true,\"model\":\"m\"}"
    );
}

#[test]
fn streaming_chunk_escapes_string_fields() {
    let bytes = create_streaming_chunk("m", "a\"b\nc", "assistant", true, TS);
    let text = String::from_utf8(bytes.clone()).unwrap();
    assert!(text.contains("a\\\"b\\nc"));
    let chunk: serde_json::Value = serde_json::from_slice(&bytes).unwrap();
    assert_eq!(chunk["message"]["content"], "a\"b\nc");
}
