use mistral_ollama_proxy::decode::{decode_frame, BackendEvent};

#[test]
fn sentinel_payload_decodes_to_terminal() {
    assert!(matches!(decode_frame(b"data: [DONE]"), BackendEvent::Terminal));
}

#[test]
fn delta_with_role_and_content_decodes_to_delta() {
    let ev = decode_frame(b"data: {\"choices\":[{\"delta\":{\"role\":\"assistant\",\"content\":\"x\"}}]}");
    match ev {
        BackendEvent::Delta { role, content } => {
            assert_eq!(role, b"assistant".to_vec());
            assert_eq!(content, b"x".to_vec());
        }
        other => panic!("expected a delta, got {other:?}"),
    }
}

#[test]
fn missing_role_defaults_to_empty() {
    let ev = decode_frame(b"data: {\"choices\":[{\"delta\":{\"content\":\"hi\"}}]}");
    match ev {
        BackendEvent::Delta { role, content } => {
            assert_eq!(role, Vec::<u8>::new());
            assert_eq!(content, b"hi".to_vec());
        }
        other => panic!("expected a delta, got {other:?}"),
    }
}

#[test]
fn frames_without_the_data_prefix_are_not_events() {
    assert!(matches!(decode_frame(b"ping"), BackendEvent::Unrecognized));
    assert!(matches!(decode_frame(b": comment"), BackendEvent::Unrecognized));
}

#[test]
fn malformed_json_payloads_are_unrecognized() {
    assert!(matches!(decode_frame(b"data: {oops"), BackendEvent::Unrecognized));
}

#[test]
fn payloads_without_an_actionable_delta_are_unrecognized() {
    assert!(matches!(decode_frame(b"data: {\"choices\":[]}"), BackendEvent::Unrecognized));
    assert!(matches!(decode_frame(b"data: {\"other\":1}"), BackendEvent::Unrecognized));
    assert!(matches!(
        decode_frame(b"data: {\"choices\":[{\"message\":{\"content\":\"x\"}}]}"),
        BackendEvent::Unrecognized
    ));
    assert!(matches!(
        decode_frame(b"data: {\"choices\":[{\"delta\":{\"content\":7}}]}"),
        BackendEvent::Unrecognized
    ));
    assert!(matches!(
        decode_frame(b"data: {\"choices\":[{\"delta\":{\"role\":\"assistant\"}}]}"),
        BackendEvent::Unrecognized
    ));
}
