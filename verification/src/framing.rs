use vstd::prelude::*;

verus! {

/// The line terminator byte, `\n`.
pub const TERMINATOR: u8 = 10;

/// ASCII whitespace as trimmed from the end of an assembled line:
/// tab, line feed, vertical tab, form feed, carriage return, space.
pub open spec fn is_line_ws(b: u8) -> bool {
    b == 9 || b == 10 || b == 11 || b == 12 || b == 13 || b == 32
}

/// A byte sequence with its trailing whitespace removed.
pub open spec fn trim_end_bytes(s: Seq<u8>) -> Seq<u8>
    decreases s.len(),
{
    if s.len() > 0 && is_line_ws(s.last()) {
        trim_end_bytes(s.drop_last())
    } else {
        s
    }
}

/// What the assembler emits for one raw line: its trimmed form,
/// unless trimming leaves nothing (empty lines are filtered, not emitted).
pub open spec fn emit(line: Seq<u8>) -> Seq<Seq<u8>> {
    if trim_end_bytes(line).len() == 0 {
        Seq::empty()
    } else {
        seq![trim_end_bytes(line)]
    }
}

/// The lines completed in `s` when `acc` holds the bytes accumulated
/// before `s`, walking `s` one byte at a time: each terminator closes
/// the accumulated line, every other byte extends it.
pub open spec fn split_lines(acc: Seq<u8>, s: Seq<u8>) -> Seq<Seq<u8>>
    decreases s.len(),
{
    if s.len() == 0 {
        Seq::empty()
    } else if s[0] == TERMINATOR {
        emit(acc) + split_lines(Seq::empty(), s.skip(1))
    } else {
        split_lines(acc.push(s[0]), s.skip(1))
    }
}

/// The bytes left after the last terminator of `s`, with `acc` as the
/// bytes accumulated before `s`.
pub open spec fn split_pending(acc: Seq<u8>, s: Seq<u8>) -> Seq<u8>
    decreases s.len(),
{
    if s.len() == 0 {
        acc
    } else if s[0] == TERMINATOR {
        split_pending(Seq::empty(), s.skip(1))
    } else {
        split_pending(acc.push(s[0]), s.skip(1))
    }
}

/// The trimmed, non-empty lines whose terminator lies within `s`.
pub open spec fn complete_lines(s: Seq<u8>) -> Seq<Seq<u8>> {
    split_lines(Seq::empty(), s)
}

/// The unterminated tail of `s`: the bytes after its last terminator.
pub open spec fn pending_of(s: Seq<u8>) -> Seq<u8> {
    split_pending(Seq::empty(), s)
}

/// Every line of `s`, the unterminated tail included: what an assembler
/// emits over `feed` calls covering `s` followed by one `finish`.
pub open spec fn all_lines(s: Seq<u8>) -> Seq<Seq<u8>> {
    complete_lines(s) + emit(pending_of(s))
}

/// The bytes of a chunk sequence, in order.
pub open spec fn concat_chunks(chunks: Seq<Seq<u8>>) -> Seq<u8>
    decreases chunks.len(),
{
    if chunks.len() == 0 {
        Seq::empty()
    } else {
        concat_chunks(chunks.drop_last()) + chunks.last()
    }
}

/// The lines emitted by feeding `chunks` one after the other into a fresh
/// assembler, mirroring the contract of `LineAssembler::feed`.
pub open spec fn fed_lines(chunks: Seq<Seq<u8>>) -> Seq<Seq<u8>>
    decreases chunks.len(),
{
    if chunks.len() == 0 {
        Seq::empty()
    } else {
        fed_lines(chunks.drop_last()) + complete_lines(
            fed_buffer(chunks.drop_last()) + chunks.last(),
        )
    }
}

/// The assembler's buffer after feeding `chunks` into a fresh assembler,
/// mirroring the contract of `LineAssembler::feed`.
pub open spec fn fed_buffer(chunks: Seq<Seq<u8>>) -> Seq<u8>
    decreases chunks.len(),
{
    if chunks.len() == 0 {
        Seq::empty()
    } else {
        pending_of(fed_buffer(chunks.drop_last()) + chunks.last())
    }
}

/// A byte sequence free of terminators.
pub open spec fn no_terminator(s: Seq<u8>) -> bool {
    forall|i: int| 0 <= i < s.len() ==> s[i] != TERMINATOR
}

/// Splitting one byte stream at any point commutes with line assembly:
/// the lines of `s + t` are the lines completed within `s` followed by
/// the lines found when the tail of `s` is continued by `t`, and the
/// pending tails agree likewise.
pub proof fn lemma_split_append(acc: Seq<u8>, s: Seq<u8>, t: Seq<u8>)
    ensures
        split_lines(acc, s + t) == split_lines(acc, s) + split_lines(split_pending(acc, s), t),
        split_pending(acc, s + t) == split_pending(split_pending(acc, s), t),
    decreases s.len(),
{
    if s.len() == 0 {
        assert(s + t =~= t);
    } else {
        let st = s + t;
        assert(st[0] == s[0]);
        assert(st.skip(1) =~= s.skip(1) + t);
        if s[0] == TERMINATOR {
            lemma_split_append(Seq::empty(), s.skip(1), t);
            assert(split_lines(acc, st) =~= split_lines(acc, s) + split_lines(
                split_pending(acc, s),
                t,
            ));
        } else {
            lemma_split_append(acc.push(s[0]), s.skip(1), t);
        }
    }
}

/// A terminator-free byte sequence completes no line and only extends
/// the accumulated tail.
pub proof fn lemma_no_terminator(acc: Seq<u8>, s: Seq<u8>)
    requires
        no_terminator(s),
    ensures
        split_lines(acc, s) == Seq::<Seq<u8>>::empty(),
        split_pending(acc, s) == acc + s,
    decreases s.len(),
{
    if s.len() == 0 {
        assert(acc + s =~= acc);
    } else {
        assert(s[0] != TERMINATOR);
        assert(no_terminator(s.skip(1)));
        lemma_no_terminator(acc.push(s[0]), s.skip(1));
        assert(acc.push(s[0]) + s.skip(1) =~= acc + s);
    }
}

/// The accumulated tail never contains a terminator, provided the
/// starting accumulator did not.
pub proof fn lemma_pending_no_terminator(acc: Seq<u8>, s: Seq<u8>)
    requires
        no_terminator(acc),
    ensures
        no_terminator(split_pending(acc, s)),
    decreases s.len(),
{
    if s.len() == 0 {
    } else if s[0] == TERMINATOR {
        lemma_pending_no_terminator(Seq::empty(), s.skip(1));
    } else {
        assert(no_terminator(acc.push(s[0])));
        lemma_pending_no_terminator(acc.push(s[0]), s.skip(1));
    }
}

/// Chunk boundaries carry no meaning: feeding a byte stream chunk by
/// chunk emits exactly the lines of the concatenated stream, and leaves
/// exactly its unterminated tail buffered.
pub proof fn lemma_chunks_assemble_whole(chunks: Seq<Seq<u8>>)
    ensures
        fed_lines(chunks) == complete_lines(concat_chunks(chunks)),
        fed_buffer(chunks) == pending_of(concat_chunks(chunks)),
    decreases chunks.len(),
{
    if chunks.len() == 0 {
    } else {
        let dl = chunks.drop_last();
        let c = chunks.last();
        lemma_chunks_assemble_whole(dl);
        let whole = concat_chunks(dl);
        lemma_split_append(Seq::empty(), whole, c);
        // the buffered tail holds no terminator, so assembling it afresh
        // in front of `c` equals continuing with accumulator `pending_of(whole)`
        lemma_pending_no_terminator(Seq::empty(), whole);
        lemma_split_append(Seq::empty(), pending_of(whole), c);
        lemma_no_terminator(Seq::empty(), pending_of(whole));
        assert(Seq::<u8>::empty() + pending_of(whole) =~= pending_of(whole));
        assert(fed_lines(chunks) =~= complete_lines(concat_chunks(chunks)));
    }
}

/// For all splits of a byte stream into arbitrary chunk boundaries, the
/// assembler emits the identical sequence of trimmed non-empty lines —
/// both before and after the final `finish`.
pub proof fn lemma_chunking_invariance(a: Seq<Seq<u8>>, b: Seq<Seq<u8>>)
    requires
        concat_chunks(a) == concat_chunks(b),
    ensures
        fed_lines(a) == fed_lines(b),
        fed_lines(a) + emit(fed_buffer(a)) == fed_lines(b) + emit(fed_buffer(b)),
        fed_lines(a) + emit(fed_buffer(a)) == all_lines(concat_chunks(a)),
{
    lemma_chunks_assemble_whole(a);
    lemma_chunks_assemble_whole(b);
}

/// A chunk holding only terminator bytes completes only empty lines,
/// all filtered: nothing is emitted and nothing stays buffered.
pub proof fn lemma_only_terminators(c: Seq<u8>)
    requires
        forall|i: int| 0 <= i < c.len() ==> c[i] == TERMINATOR,
    ensures
        complete_lines(c) == Seq::<Seq<u8>>::empty(),
        pending_of(c) == Seq::<u8>::empty(),
{
    lemma_split_only_terminators(Seq::empty(), c);
}

proof fn lemma_split_only_terminators(acc: Seq<u8>, s: Seq<u8>)
    requires
        trim_end_bytes(acc).len() == 0,
        forall|i: int| 0 <= i < s.len() ==> s[i] == TERMINATOR,
    ensures
        split_lines(acc, s) == Seq::<Seq<u8>>::empty(),
        split_pending(acc, s) == (if s.len() == 0 {
            acc
        } else {
            Seq::<u8>::empty()
        }),
    decreases s.len(),
{
    if s.len() == 0 {
    } else {
        assert(s[0] == TERMINATOR);
        lemma_split_only_terminators(Seq::empty(), s.skip(1));
        assert(split_lines(acc, s) =~= Seq::<Seq<u8>>::empty());
    }
}

/// A terminator-free tail completes no line; after `finish` it becomes
/// exactly one final line, its trimmed self, provided trimming leaves
/// something.
pub proof fn lemma_unterminated_tail(s: Seq<u8>)
    requires
        no_terminator(s),
    ensures
        complete_lines(s) == Seq::<Seq<u8>>::empty(),
        pending_of(s) == s,
        all_lines(s) == emit(s),
        trim_end_bytes(s).len() > 0 ==> all_lines(s) == seq![trim_end_bytes(s)],
{
    lemma_no_terminator(Seq::empty(), s);
    assert(Seq::<u8>::empty() + s =~= s);
    assert(all_lines(s) =~= emit(s));
}

/// A line already in the form the assembler emits: non-empty, free of
/// terminators, and fixed under trimming.
pub open spec fn canonical_line(l: Seq<u8>) -> bool {
    l.len() > 0 && trim_end_bytes(l) == l && no_terminator(l)
}

/// `lines` rendered as NDJSON: each line followed by one terminator.
pub open spec fn encode_ndjson(lines: Seq<Seq<u8>>) -> Seq<u8>
    decreases lines.len(),
{
    if lines.len() == 0 {
        Seq::empty()
    } else {
        encode_ndjson(lines.drop_last()) + lines.last() + seq![TERMINATOR]
    }
}

/// Round trip: encoding canonical lines as NDJSON and assembling the
/// result yields the same lines in the same order, with nothing left
/// buffered.
pub proof fn lemma_ndjson_round_trip(lines: Seq<Seq<u8>>)
    requires
        forall|k: int| 0 <= k < lines.len() ==> canonical_line(#[trigger] lines[k]),
    ensures
        complete_lines(encode_ndjson(lines)) == lines,
        pending_of(encode_ndjson(lines)) == Seq::<u8>::empty(),
    decreases lines.len(),
{
    if lines.len() == 0 {
        assert(complete_lines(encode_ndjson(lines)) =~= lines);
    } else {
        let dl = lines.drop_last();
        let l = lines.last();
        lemma_ndjson_round_trip(dl);
        let tail = l + seq![TERMINATOR];
        assert(encode_ndjson(lines) =~= encode_ndjson(dl) + tail);
        lemma_split_append(Seq::empty(), encode_ndjson(dl), tail);
        lemma_split_append(Seq::empty(), l, seq![TERMINATOR]);
        assert(canonical_line(l));
        lemma_no_terminator(Seq::empty(), l);
        assert(Seq::<u8>::empty() + l =~= l);
        assert(split_lines(l, seq![TERMINATOR]) =~= emit(l) + split_lines(
            Seq::empty(),
            seq![TERMINATOR].skip(1),
        ));
        assert(seq![TERMINATOR].skip(1) =~= Seq::<u8>::empty());
        assert(emit(l) == seq![l]);
        assert(complete_lines(tail) =~= seq![l]);
        assert(split_pending(l, seq![TERMINATOR]) == split_pending(
            Seq::<u8>::empty(),
            seq![TERMINATOR].skip(1),
        ));
        assert(complete_lines(encode_ndjson(lines)) =~= lines);
    }
}

} // verus!
