use nanogpt_core::api::{DeltaMessage, StreamChoice, StreamChunk};
use nanogpt_core::stream::{collect_deltas, StreamDecoder};

fn chunk_with(content: Option<&str>) -> StreamChunk {
    StreamChunk {
        id: None,
        object: None,
        created: None,
        model: None,
        choices: vec![StreamChoice {
            index: 0,
            delta: DeltaMessage { role: None, content: content.map(|s| s.to_string()) },
            finish_reason: None,
        }],
    }
}

#[test]
fn decoder_yields_payloads_then_terminates() {
    let mut dec = StreamDecoder::new();
    let input = b"data: {\"a\":1}\ndata: {\"b\":2}\ndata: {\"c\":3}\ndata: [DONE]\n";
    let out = dec.feed(input);
    assert_eq!(out.len(), 3);
    assert_eq!(out[0], b"{\"a\":1}".to_vec());
    assert_eq!(out[1], b"{\"b\":2}".to_vec());
    assert_eq!(out[2], b"{\"c\":3}".to_vec());
    assert!(dec.finished());
    let after = dec.feed(b"data: {\"d\":4}\n");
    assert!(after.is_empty());
}

#[test]
fn decoder_keeps_partial_lines_across_feeds() {
    let mut dec = StreamDecoder::new();
    let out1 = dec.feed(b"data: {\"he");
    assert!(out1.is_empty());
    let out2 = dec.feed(b"llo\":1}\nda");
    assert_eq!(out2, vec![b"{\"hello\":1}".to_vec()]);
    let out3 = dec.feed(b"ta: [DONE]\n");
    assert!(out3.is_empty());
    assert!(dec.finished());
}

#[test]
fn decoder_strips_carriage_returns_and_skips_other_lines() {
    let mut dec = StreamDecoder::new();
    let out = dec.feed(b"event: ping\r\n\r\ndata: {\"x\":1}\r\nnoise\ndata: [DONE]\r\n");
    assert_eq!(out, vec![b"{\"x\":1}".to_vec()]);
    assert!(dec.finished());
}

#[test]
fn decoder_without_sentinel_is_not_finished() {
    let mut dec = StreamDecoder::new();
    let out = dec.feed(b"data: {\"x\":1}\n");
    assert_eq!(out.len(), 1);
    assert!(!dec.finished());
}

#[test]
fn delta_content_takes_the_first_choice() {
    let c = chunk_with(Some("Hel"));
    assert_eq!(c.delta_content(), Some("Hel".to_string()));
    let none = chunk_with(None);
    assert_eq!(none.delta_content(), None);
    let empty = StreamChunk { id: None, object: None, created: None, model: None, choices: vec![] };
    assert_eq!(empty.delta_content(), None);
}

#[test]
fn malformed_events_are_skipped_without_affecting_output() {
    let parsed = vec![
        Some(chunk_with(Some("Hel"))),
        None,
        Some(chunk_with(Some("lo"))),
        Some(chunk_with(None)),
        Some(chunk_with(Some("!"))),
    ];
    let deltas = collect_deltas(&parsed);
    assert_eq!(deltas, vec!["Hel".to_string(), "lo".to_string(), "!".to_string()]);
    let text: String = deltas.concat();
    assert_eq!(text, "Hello!");
}
