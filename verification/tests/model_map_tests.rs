use mistral_ollama_proxy::config::{DEFAULT_MODEL_SIZE, MODEL_70B_SIZE, MODEL_7B_SIZE,
    MODEL_8X7B_SIZE};
use mistral_ollama_proxy::model_map::{client_model_name, estimate_model_size,
    translate_model_name};

#[test]
fn test_translate_model_name() {
    assert_eq!(translate_model_name("mistral:latest"), "mistral-7b");
    assert_eq!(translate_model_name("mistral:7b"), "mistral-7b");
    assert_eq!(translate_model_name("mixtral:latest"), "mixtral-8x7b");
    assert_eq!(translate_model_name("mixtral:8x7b"), "mixtral-8x7b");
    assert_eq!(translate_model_name("custom-model"), "custom-model");
}

#[test]
fn client_model_name_maps_known_identifiers() {
    assert_eq!(client_model_name("mistral-7b"), "mistral:latest");
    assert_eq!(client_model_name("mixtral-8x7b"), "mixtral:latest");
    assert_eq!(client_model_name("other-model"), "other-model");
}

#[test]
fn model_name_round_trips_for_canonical_and_unknown_names() {
    for name in ["mistral:latest", "mixtral:latest", "my-model", "llama:70b"] {
        assert_eq!(client_model_name(&translate_model_name(name)), name);
    }
    for id in ["mistral-7b", "mixtral-8x7b", "other-model"] {
        assert_eq!(translate_model_name(&client_model_name(id)), id);
    }
}

#[test]
fn estimate_model_size_matches_most_specific_pattern_first() {
    assert_eq!(
        estimate_model_size("custom-mixtral-8x7b-finetune"),
        MODEL_8X7B_SIZE
    );
    assert_eq!(estimate_model_size("mistral-7b"), MODEL_7B_SIZE);
    assert_eq!(estimate_model_size("llama-70b"), MODEL_70B_SIZE);
    assert_eq!(estimate_model_size("unknown"), DEFAULT_MODEL_SIZE);
}
