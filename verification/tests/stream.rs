use ollama_client::error::OllamaError;
use ollama_client::stream::{SourceEvent, Step, StreamDecoder};

/// A chunk source that records how many times it was read.
struct CountingSource {
    chunks: Vec<Vec<u8>>,
    next: usize,
    reads: usize,
}

impl CountingSource {
    fn new(chunks: Vec<&[u8]>) -> CountingSource {
        CountingSource { chunks: chunks.into_iter().map(|c| c.to_vec()).collect(), next: 0, reads: 0 }
    }

    fn next_event(&mut self) -> SourceEvent {
        self.reads += 1;
        if self.next < self.chunks.len() {
            let c = self.chunks[self.next].clone();
            self.next += 1;
            SourceEvent::Chunk(c)
        } else {
            SourceEvent::End
        }
    }
}

/// Drives the decoder to completion, collecting every framed line.
fn collect_lines(src: &mut CountingSource) -> (Vec<Vec<u8>>, Option<OllamaError>) {
    let mut dec = StreamDecoder::new();
    let mut out = Vec::new();
    loop {
        match dec.poll() {
            Step::Line(l) => out.push(l),
            Step::NeedInput => {
                assert!(dec.is_active());
                let ev = src.next_event();
                dec.on_event(ev);
            }
            Step::Fatal(e) => return (out, Some(e)),
            Step::Done => return (out, None),
        }
    }
}

#[test]
fn lines_cross_chunk_boundaries() {
    let mut src = CountingSource::new(vec![b"{\"a\":1}\n{\"a\"", b":2}\n"]);
    let (got, fatal) = collect_lines(&mut src);
    assert_eq!(got, vec![b"{\"a\":1}".to_vec(), b"{\"a\":2}".to_vec()]);
    assert_eq!(fatal, None);
}

#[test]
fn end_of_input_flushes_unterminated_tail() {
    let mut src = CountingSource::new(vec![b"first\nsecon", b"d"]);
    let (got, fatal) = collect_lines(&mut src);
    assert_eq!(got, vec![b"first".to_vec(), b"second".to_vec()]);
    assert_eq!(fatal, None);
}

#[test]
fn transport_failure_keeps_framed_lines_and_ends_stream() {
    // two chunks arrive, then the transport fails: exactly the lines framed
    // from those chunks come out, then one fatal error, then nothing.
    let mut dec = StreamDecoder::new();
    let mut got: Vec<Vec<u8>> = Vec::new();
    let mut fatal: Option<OllamaError> = None;
    let mut chunks: Vec<Option<Vec<u8>>> = vec![
        Some(b"{\"n\":1}\n{\"n\"".to_vec()),
        Some(b":2}\n{\"n\":3".to_vec()),
        None, // the failure
    ];
    chunks.reverse();
    loop {
        match dec.poll() {
            Step::Line(l) => got.push(l),
            Step::NeedInput => match chunks.pop().unwrap() {
                Some(c) => dec.on_event(SourceEvent::Chunk(c)),
                None => dec.on_event(SourceEvent::Failure(OllamaError::RequestFailed(
                    "connection reset".to_string(),
                ))),
            },
            Step::Fatal(e) => {
                fatal = Some(e);
                break;
            }
            Step::Done => break,
        }
    }
    assert_eq!(got, vec![b"{\"n\":1}".to_vec(), b"{\"n\":2}".to_vec()]);
    assert_eq!(
        fatal,
        Some(OllamaError::RequestFailed("connection reset".to_string()))
    );
    // the partial third record was discarded, and the stream stays done
    assert!(matches!(dec.poll(), Step::Done));
    assert!(matches!(dec.poll(), Step::Done));
}

#[test]
fn fatal_error_is_delivered_exactly_once() {
    let mut dec = StreamDecoder::new();
    dec.on_event(SourceEvent::Failure(OllamaError::Timeout));
    assert!(matches!(dec.poll(), Step::Fatal(OllamaError::Timeout)));
    assert!(matches!(dec.poll(), Step::Done));
    assert!(matches!(dec.poll(), Step::Done));
}

#[test]
fn api_error_passes_through_as_fatal() {
    let mut dec = StreamDecoder::new();
    dec.on_event(SourceEvent::Failure(OllamaError::ApiError(
        "Status: 500, Error: boom".to_string(),
    )));
    match dec.poll() {
        Step::Fatal(OllamaError::ApiError(msg)) => {
            assert_eq!(msg, "Status: 500, Error: boom");
        }
        other => panic!("expected a fatal error, got {:?}", std::mem::discriminant(&other)),
    }
}

#[test]
fn cancel_prevents_further_chunk_reads() {
    let mut src = CountingSource::new(vec![b"{\"a\":1}\n", b"{\"a\":2}\n", b"{\"a\":3}\n"]);
    let mut dec = StreamDecoder::new();
    let mut first: Option<Vec<u8>> = None;
    loop {
        match dec.poll() {
            Step::Line(l) => {
                first = Some(l);
                break;
            }
            Step::NeedInput => {
                let ev = src.next_event();
                dec.on_event(ev);
            }
            Step::Fatal(_) | Step::Done => panic!("stream ended before the first record"),
        }
    }
    assert_eq!(first, Some(b"{\"a\":1}".to_vec()));
    let reads_at_cancel = src.reads;
    dec.cancel();
    assert!(!dec.is_active());
    // every later pull is Done, so the driver never reads the source again
    for _ in 0..5 {
        match dec.poll() {
            Step::Done => {}
            _ => panic!("a cancelled stream produced an item"),
        }
    }
    assert_eq!(src.reads, reads_at_cancel);
}

#[test]
fn done_source_terminates_stream() {
    let mut src = CountingSource::new(vec![]);
    let (got, fatal) = collect_lines(&mut src);
    assert_eq!(got, Vec::<Vec<u8>>::new());
    assert_eq!(fatal, None);
}
