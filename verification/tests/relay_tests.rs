use mistral_ollama_proxy::relay::{RelayStatus, StreamRelay};
use mistral_ollama_proxy::render::sse_frame;

const TS: &str = "2024-01-01T00:00:00+00:00";

fn parse(record: &[u8]) -> serde_json::Value {
    serde_json::from_slice(record).unwrap()
}

#[test]
fn chat_stream_scenario_emits_partial_then_final() {
    let mut relay = StreamRelay::new(true, b"mistral:latest".to_vec(), 1_000_000);
    let mut records: Vec<Vec<u8>> = Vec::new();

    let step = relay.on_chunk(
        b"data: {\"choices\":[{\"delta\":{\"role\":\"assistant\",\"content\":\"Hel",
        TS.as_bytes(),
    );
    assert_eq!(step.status, RelayStatus::Running);
    records.extend(step.records);

    let step = relay.on_chunk(b"lo\"}}]}\ndata: [DONE]\n", TS.as_bytes());
    assert_eq!(step.status, RelayStatus::Finished);
    records.extend(step.records);

    assert_eq!(records.len(), 2);
    let first = parse(&records[0]);
    assert_eq!(first["done"], false);
    assert_eq!(first["message"]["role"], "assistant");
    assert_eq!(first["message"]["content"], "Hello");
    assert_eq!(first["model"], "mistral:latest");
    let second = parse(&records[1]);
    assert_eq!(second["done"], true);
    assert_eq!(second["model"], "mistral:latest");
}

#[test]
fn nothing_is_emitted_after_the_terminal_sentinel() {
    let mut relay = StreamRelay::new(true, b"m".to_vec(), 1_000_000);
    let step = relay.on_chunk(
        b"data: {\"choices\":[{\"delta\":{\"content\":\"Hi\"}}]}\ndata: [DONE]\ndata: {\"choices\":[{\"delta\":{\"content\":\"Bye\"}}]}\n",
        TS.as_bytes(),
    );
    assert_eq!(step.status, RelayStatus::Finished);
    assert_eq!(step.records.len(), 2);
    assert_eq!(parse(&step.records[0])["message"]["content"], "Hi");
    assert_eq!(parse(&step.records[1])["done"], true);
    let finals = step
        .records
        .iter()
        .filter(|r| parse(r)["done"] == true)
        .count();
    assert_eq!(finals, 1);
}

#[test]
fn partial_contents_concatenate_to_the_full_text() {
    let mut relay = StreamRelay::new(false, b"m".to_vec(), 1_000_000);
    let mut text = String::new();
    for content in ["He", "llo", " wor", "ld"] {
        let chunk = format!(
            "data: {{\"choices\":[{{\"delta\":{{\"content\":\"{content}\"}}}}]}}\n"
        );
        let step = relay.on_chunk(chunk.as_bytes(), TS.as_bytes());
        assert_eq!(step.status, RelayStatus::Running);
        for record in &step.records {
            let value = parse(record);
            assert_eq!(value["done"], false);
            text.push_str(value["response"].as_str().unwrap());
        }
    }
    assert_eq!(text, "Hello world");
}

#[test]
fn oversized_chunk_aborts_the_stream_with_no_records() {
    let mut relay = StreamRelay::new(true, b"m".to_vec(), 8);
    let step = relay.on_chunk(b"data: {\"choices\":[]}\n", TS.as_bytes());
    assert_eq!(step.status, RelayStatus::Overflow);
    assert!(step.records.is_empty());
}

#[test]
fn unrecognized_and_unprefixed_frames_produce_no_records() {
    let mut relay = StreamRelay::new(true, b"m".to_vec(), 1_000_000);
    let step = relay.on_chunk(
        b"ping\ndata: not json\ndata: {\"choices\":[]}\ndata: {\"other\":1}\n",
        TS.as_bytes(),
    );
    assert_eq!(step.status, RelayStatus::Running);
    assert!(step.records.is_empty());
}

#[test]
fn generate_mode_uses_flat_response_payloads() {
    let mut relay = StreamRelay::new(false, b"mistral-7b".to_vec(), 1_000_000);
    let step = relay.on_chunk(
        b"data: {\"choices\":[{\"delta\":{\"content\":\"G\"}}]}\n",
        TS.as_bytes(),
    );
    let value = parse(&step.records[0]);
    assert_eq!(value["response"], "G");
    assert_eq!(value["done"], false);
    assert!(value.get("message").is_none());
}

#[test]
fn sse_frame_wraps_records_in_event_stream_framing() {
    assert_eq!(sse_frame(b"{\"done\":true}"), b"data: {\"done\":true}\n\n");
}
