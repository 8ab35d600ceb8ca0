use ollama_client::assembler::LineAssembler;

fn lines(v: Vec<Vec<u8>>) -> Vec<String> {
    v.into_iter().map(|l| String::from_utf8(l).unwrap()).collect()
}

#[test]
fn single_line_in_one_chunk() {
    let mut a = LineAssembler::new();
    let out = a.feed(b"{\"a\":1}\n");
    assert_eq!(lines(out), vec!["{\"a\":1}".to_string()]);
    assert_eq!(a.finish(), None);
}

#[test]
fn line_spanning_two_chunks() {
    let mut a = LineAssembler::new();
    let out1 = a.feed(b"{\"a\":1}\n{\"a\"");
    assert_eq!(lines(out1), vec!["{\"a\":1}".to_string()]);
    let out2 = a.feed(b":2}\n");
    assert_eq!(lines(out2), vec!["{\"a\":2}".to_string()]);
    assert_eq!(a.finish(), None);
}

#[test]
fn chunking_does_not_matter() {
    let body: &[u8] = b"alpha\nbeta\r\n\ngamma";
    // one whole-body chunk
    let mut whole = LineAssembler::new();
    let mut got_whole = lines(whole.feed(body));
    if let Some(tail) = whole.finish() {
        got_whole.push(String::from_utf8(tail).unwrap());
    }
    // one-byte chunks
    let mut single = LineAssembler::new();
    let mut got_single: Vec<String> = Vec::new();
    for b in body {
        got_single.extend(lines(single.feed(std::slice::from_ref(b))));
    }
    if let Some(tail) = single.finish() {
        got_single.push(String::from_utf8(tail).unwrap());
    }
    // an uneven split
    let mut uneven = LineAssembler::new();
    let mut got_uneven = lines(uneven.feed(&body[..7]));
    got_uneven.extend(lines(uneven.feed(&body[7..11])));
    got_uneven.extend(lines(uneven.feed(&body[11..])));
    if let Some(tail) = uneven.finish() {
        got_uneven.push(String::from_utf8(tail).unwrap());
    }
    let expected = vec!["alpha".to_string(), "beta".to_string(), "gamma".to_string()];
    assert_eq!(got_whole, expected);
    assert_eq!(got_single, expected);
    assert_eq!(got_uneven, expected);
}

#[test]
fn terminators_only_emit_nothing() {
    let mut a = LineAssembler::new();
    let out = a.feed(b"\n\n\n");
    assert_eq!(out.len(), 0);
    assert_eq!(a.finish(), None);
}

#[test]
fn unterminated_tail_becomes_final_line() {
    let mut a = LineAssembler::new();
    let out = a.feed(b"last record \t");
    assert_eq!(out.len(), 0);
    assert_eq!(a.finish(), Some(b"last record".to_vec()));
}

#[test]
fn carriage_return_is_trimmed() {
    let mut a = LineAssembler::new();
    let out = a.feed(b"abc\r\n");
    assert_eq!(lines(out), vec!["abc".to_string()]);
}

#[test]
fn blank_lines_are_filtered() {
    let mut a = LineAssembler::new();
    let out = a.feed(b"a\n\n \t\r\nb\n");
    assert_eq!(lines(out), vec!["a".to_string(), "b".to_string()]);
}

#[test]
fn terminator_as_first_byte_emits_nothing() {
    let mut a = LineAssembler::new();
    let out = a.feed(b"\nx\n");
    assert_eq!(lines(out), vec!["x".to_string()]);
}

#[test]
fn finish_on_fresh_assembler_is_none() {
    let mut a = LineAssembler::new();
    assert_eq!(a.finish(), None);
}

#[test]
fn whitespace_only_tail_is_filtered_at_finish() {
    let mut a = LineAssembler::new();
    let out = a.feed(b"  \t ");
    assert_eq!(out.len(), 0);
    assert_eq!(a.finish(), None);
}

#[test]
fn reset_discards_buffered_bytes() {
    let mut a = LineAssembler::new();
    let out = a.feed(b"partial");
    assert_eq!(out.len(), 0);
    a.reset();
    let out = a.feed(b"x\n");
    assert_eq!(lines(out), vec!["x".to_string()]);
}
