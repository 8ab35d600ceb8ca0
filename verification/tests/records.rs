use ollama_client::error::OllamaError;
use ollama_client::record::{decode_line, RecordStep};
use ollama_client::stream::{SourceEvent, StreamDecoder};

/// Drives the decoder over the given chunks (then end-of-input),
/// collecting every per-record outcome.
fn collect_records(chunks: Vec<&[u8]>) -> (Vec<Result<serde_json::Value, OllamaError>>, Option<OllamaError>) {
    let mut dec = StreamDecoder::new();
    let mut pending: Vec<Vec<u8>> = chunks.into_iter().map(|c| c.to_vec()).collect();
    pending.reverse();
    let mut out = Vec::new();
    loop {
        match dec.poll_record() {
            RecordStep::Item(r) => out.push(r),
            RecordStep::NeedInput => match pending.pop() {
                Some(c) => dec.on_event(SourceEvent::Chunk(c)),
                None => dec.on_event(SourceEvent::End),
            },
            RecordStep::Fatal(e) => return (out, Some(e)),
            RecordStep::Done => return (out, None),
        }
    }
}

#[test]
fn decode_line_accepts_one_json_document() {
    let line = b"{\"status\":\"pulling\"}".to_vec();
    let v = decode_line(&line).unwrap();
    assert_eq!(v.get("status").and_then(|s| s.as_str()), Some("pulling"));
}

#[test]
fn decode_line_rejects_malformed_json() {
    let line = b"{\"status\":".to_vec();
    match decode_line(&line) {
        Err(OllamaError::InvalidResponseFormat(_)) => {}
        _ => panic!("malformed JSON must fail with InvalidResponseFormat"),
    }
}

#[test]
fn decode_line_rejects_invalid_utf8() {
    let line = vec![0xffu8, 0xfe, 0x7b];
    match decode_line(&line) {
        Err(OllamaError::InvalidResponse(_)) => {}
        _ => panic!("invalid UTF-8 must fail with InvalidResponse"),
    }
}

#[test]
fn decode_line_is_pure() {
    let line = b"{\"a\":[1,2,3]}".to_vec();
    assert_eq!(decode_line(&line).unwrap(), decode_line(&line).unwrap());
}

#[test]
fn two_records_across_a_chunk_boundary() {
    // schema {a: number}: the two chunks decode to records a=1 and a=2
    let (got, fatal) = collect_records(vec![b"{\"a\":1}\n{\"a\"", b":2}\n"]);
    assert_eq!(fatal, None);
    assert_eq!(got.len(), 2);
    let first = got[0].as_ref().unwrap();
    let second = got[1].as_ref().unwrap();
    assert_eq!(first.get("a").and_then(|x| x.as_i64()), Some(1));
    assert_eq!(second.get("a").and_then(|x| x.as_i64()), Some(2));
}

#[test]
fn round_trip_preserves_records_and_order() {
    // encode five records as NDJSON, decode them back whole and byte by byte
    let records: Vec<serde_json::Value> = (0..5)
        .map(|i| serde_json::from_str(&format!("{{\"n\":{},\"tag\":\"r{}\"}}", i, i)).unwrap())
        .collect();
    let mut body = String::new();
    for r in &records {
        body.push_str(&r.to_string());
        body.push('\n');
    }
    let (whole, fatal) = collect_records(vec![body.as_bytes()]);
    assert_eq!(fatal, None);
    let whole: Vec<serde_json::Value> = whole.into_iter().map(|r| r.unwrap()).collect();
    assert_eq!(whole, records);

    let byte_chunks: Vec<&[u8]> = body.as_bytes().chunks(1).collect();
    let (bytewise, fatal) = collect_records(byte_chunks);
    assert_eq!(fatal, None);
    let bytewise: Vec<serde_json::Value> = bytewise.into_iter().map(|r| r.unwrap()).collect();
    assert_eq!(bytewise, records);
}

#[test]
fn one_malformed_line_fails_alone() {
    // three lines, the middle one malformed: two successes and exactly one
    // item-level failure, in the malformed line's position
    let (got, fatal) = collect_records(vec![b"{\"n\":1}\nnot json\n{\"n\":3}\n"]);
    assert_eq!(fatal, None);
    assert_eq!(got.len(), 3);
    assert!(got[0].is_ok());
    match &got[1] {
        Err(OllamaError::InvalidResponseFormat(_)) => {}
        _ => panic!("the malformed line must fail with InvalidResponseFormat"),
    }
    assert!(got[2].is_ok());
    assert_eq!(got[2].as_ref().unwrap().get("n").and_then(|x| x.as_i64()), Some(3));
}

#[test]
fn item_failure_does_not_end_the_stream() {
    let (got, fatal) = collect_records(vec![b"\xff\xfe\n{\"ok\":true}\n"]);
    assert_eq!(fatal, None);
    assert_eq!(got.len(), 2);
    match &got[0] {
        Err(OllamaError::InvalidResponse(_)) => {}
        _ => panic!("the non-UTF-8 line must fail with InvalidResponse"),
    }
    assert_eq!(got[1].as_ref().unwrap().get("ok").and_then(|x| x.as_bool()), Some(true));
}
