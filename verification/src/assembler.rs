use crate::framing::{
    complete_lines, emit, is_line_ws, lemma_no_terminator, lemma_split_append, no_terminator,
    pending_of, split_lines, split_pending, trim_end_bytes, TERMINATOR,
};
use vstd::prelude::*;

verus! {

/// The views of a vector of emitted lines.
pub open spec fn lines_view(q: Seq<Vec<u8>>) -> Seq<Seq<u8>> {
    q.map_values(|l: Vec<u8>| l@)
}

/// Whether `b` is trimmed from the end of a line.
fn is_ws_byte(b: u8) -> (r: bool)
    ensures
        r == is_line_ws(b),
{
    b == 9 || b == 10 || b == 11 || b == 12 || b == 13 || b == 32
}

/// Removes trailing ASCII whitespace from `line`.
fn trim_end_in_place(line: &mut Vec<u8>)
    ensures
        final(line)@ == trim_end_bytes(old(line)@),
{
    while line.len() > 0 && is_ws_byte(line[line.len() - 1])
        invariant
            trim_end_bytes(line@) == trim_end_bytes(old(line)@),
        decreases line@.len(),
    {
        let ghost prev = line@;
        line.pop();
        proof {
            assert(prev.drop_last() =~= line@);
            assert(is_line_ws(prev.last()));
        }
    }
}

/// Buffers partial data across chunk boundaries and emits complete,
/// trimmed, non-empty lines in the order their terminators arrive.
/// Pure framing: it knows nothing of what the lines mean.
pub struct LineAssembler {
    buf: Vec<u8>,
}

impl View for LineAssembler {
    type V = Seq<u8>;

    closed spec fn view(&self) -> Seq<u8> {
        self.buf@
    }
}

impl LineAssembler {
    /// The buffer never holds a terminator: a line is emitted as soon as
    /// its terminator arrives, so the buffer only ever holds the bytes
    /// after the last terminator seen.
    pub open spec fn wf(self) -> bool {
        no_terminator(self@)
    }

    /// A fresh assembler with an empty buffer.
    pub fn new() -> (a: LineAssembler)
        ensures
            a.wf(),
            a@ == Seq::<u8>::empty(),
    {
        LineAssembler { buf: Vec::new() }
    }

    /// Appends `chunk` to the buffer and emits every line completed by
    /// it: for each terminator, the bytes up to it, trimmed, if trimming
    /// leaves anything.  Bytes after the last terminator stay buffered.
    pub fn feed(&mut self, chunk: &[u8]) -> (out: Vec<Vec<u8>>)
        requires
            old(self).wf(),
        ensures
            final(self).wf(),
            lines_view(out@) == complete_lines(old(self)@ + chunk@),
            final(self)@ == pending_of(old(self)@ + chunk@),
    {
        let ghost acc0 = self.buf@;
        let mut out: Vec<Vec<u8>> = Vec::new();
        let n = chunk.len();
        let mut i: usize = 0;
        proof {
            assert(chunk@.skip(0) =~= chunk@);
            assert(lines_view(out@) =~= Seq::<Seq<u8>>::empty());
            assert(lines_view(out@) + split_lines(self.buf@, chunk@.skip(0)) =~= split_lines(
                acc0,
                chunk@,
            ));
        }
        while i < n
            invariant
                i <= n,
                n == chunk@.len(),
                acc0 == old(self)@,
                no_terminator(self.buf@),
                lines_view(out@) + split_lines(self.buf@, chunk@.skip(i as int)) == split_lines(
                    acc0,
                    chunk@,
                ),
                split_pending(self.buf@, chunk@.skip(i as int)) == split_pending(acc0, chunk@),
            decreases n - i,
        {
            let b = chunk[i];
            let ghost rest = chunk@.skip(i as int);
            proof {
                assert(rest[0] == b);
                assert(rest.skip(1) =~= chunk@.skip(i as int + 1));
            }
            if b == TERMINATOR {
                let ghost buf_pre = self.buf@;
                let mut line: Vec<u8> = Vec::new();
                core::mem::swap(&mut self.buf, &mut line);
                trim_end_in_place(&mut line);
                let ghost out_pre = out@;
                if line.len() > 0 {
                    out.push(line);
                }
                proof {
                    assert(lines_view(out@) =~= lines_view(out_pre) + emit(buf_pre));
                    assert(lines_view(out@) + split_lines(self.buf@, rest.skip(1)) =~= split_lines(
                        acc0,
                        chunk@,
                    ));
                }
            } else {
                self.buf.push(b);
            }
            i = i + 1;
        }
        proof {
            assert(chunk@.skip(n as int) =~= Seq::<u8>::empty());
            assert(lines_view(out@) + split_lines(self.buf@, Seq::<u8>::empty()) =~= lines_view(
                out@,
            ));
            lemma_split_append(Seq::empty(), acc0, chunk@);
            lemma_no_terminator(Seq::empty(), acc0);
            assert(Seq::<u8>::empty() + acc0 =~= acc0);
        }
        out
    }

    /// Called once after end-of-input: an unterminated trailing byte
    /// sequence becomes one final line under the same trim / non-empty
    /// rule; the buffer empties either way.
    pub fn finish(&mut self) -> (out: Option<Vec<u8>>)
        requires
            old(self).wf(),
        ensures
            final(self).wf(),
            final(self)@ == Seq::<u8>::empty(),
            (match out {
                Some(l) => emit(old(self)@) == seq![l@],
                None => emit(old(self)@) == Seq::<Seq<u8>>::empty(),
            }),
    {
        let mut line: Vec<u8> = Vec::new();
        core::mem::swap(&mut self.buf, &mut line);
        trim_end_in_place(&mut line);
        if line.len() > 0 {
            Some(line)
        } else {
            None
        }
    }

    /// Discards whatever is buffered, leaving the assembler fresh.
    pub fn reset(&mut self)
        ensures
            final(self).wf(),
            final(self)@ == Seq::<u8>::empty(),
    {
        self.buf.clear();
    }
}

} // verus!
