use crate::assembler::{lines_view, LineAssembler};
use crate::error::OllamaError;
use crate::framing::{
    all_lines, complete_lines, concat_chunks, emit, fed_buffer, fed_lines,
    lemma_chunks_assemble_whole, no_terminator, pending_of,
};
use vstd::prelude::*;

verus! {

/// One answer from the chunk source, as the driving loop reports it:
/// the next chunk, normal exhaustion, or a transport failure.
pub enum SourceEvent {
    /// The next chunk of body bytes, in arrival order.  Chunk boundaries
    /// carry no meaning: a record may span several chunks and a chunk may
    /// hold several records.
    Chunk(Vec<u8>),
    /// The source is exhausted normally.
    End,
    /// The transport failed; no further chunks will arrive.
    Failure(OllamaError),
}

/// The phases of one stream decode.
pub enum Phase {
    /// Still pulling from the source.
    Active,
    /// A fatal error occurred and is still to be delivered.
    Failed,
    /// Terminal: no more items will ever be produced.
    Done,
}

/// What one pull yields at the framing level.
pub enum Step {
    /// A framed line, ready for record decoding.
    Line(Vec<u8>),
    /// Nothing is buffered: fetch the next source event and report it
    /// through `on_event`.
    NeedInput,
    /// The stream failed; this is its last item.
    Fatal(OllamaError),
    /// The stream has ended; nothing follows.
    Done,
}

/// The decoder's abstract state.
#[verifier::ext_equal]
pub struct DecoderModel {
    /// Framed lines not yet delivered, oldest first.
    pub lines: Seq<Seq<u8>>,
    /// Bytes after the last terminator, awaiting further input.
    pub buffered: Seq<u8>,
    /// Whether the decoder still pulls, owes a fatal error, or is done.
    pub phase: Phase,
    /// The fatal error still to be delivered, in phase `Failed` only.
    pub fatal: Option<OllamaError>,
}

impl DecoderModel {
    pub open spec fn wf(self) -> bool {
        &&& (self.phase is Failed) <==> (self.fatal is Some)
        &&& !(self.phase is Active) ==> self.buffered.len() == 0
        &&& no_terminator(self.buffered)
    }
}

/// The abstract shape of one pull's outcome.
pub enum StepModel {
    Line(Seq<u8>),
    NeedInput,
    Fatal(OllamaError),
    Done,
}

/// The abstract shape of a concrete step.
pub open spec fn step_view(s: Step) -> StepModel {
    match s {
        Step::Line(l) => StepModel::Line(l@),
        Step::NeedInput => StepModel::NeedInput,
        Step::Fatal(e) => StepModel::Fatal(e),
        Step::Done => StepModel::Done,
    }
}

/// One chunk arrives: its bytes continue the buffered tail, every line
/// completed by them is queued, and the new tail stays buffered.
pub open spec fn chunk_step(m: DecoderModel, bytes: Seq<u8>) -> DecoderModel {
    DecoderModel {
        lines: m.lines + complete_lines(m.buffered + bytes),
        buffered: pending_of(m.buffered + bytes),
        ..m
    }
}

/// The source is exhausted normally: the buffered tail closes as one
/// final line under the trim / non-empty rule, and the stream is done.
pub open spec fn end_step(m: DecoderModel) -> DecoderModel {
    DecoderModel {
        lines: m.lines + emit(m.buffered),
        buffered: Seq::empty(),
        phase: Phase::Done,
        fatal: None,
    }
}

/// The transport fails: the partial tail is discarded, the lines already
/// framed stay deliverable, and the fatal error is owed.
pub open spec fn failure_step(m: DecoderModel, e: OllamaError) -> DecoderModel {
    DecoderModel { lines: m.lines, buffered: Seq::empty(), phase: Phase::Failed, fatal: Some(e) }
}

/// The decoder's reaction to one source event, in phase `Active`.
pub open spec fn event_step(m: DecoderModel, ev: SourceEvent) -> DecoderModel {
    match ev {
        SourceEvent::Chunk(c) => chunk_step(m, c@),
        SourceEvent::End => end_step(m),
        SourceEvent::Failure(e) => failure_step(m, e),
    }
}

/// The decoder after one pull: the oldest line leaves the queue; with
/// the queue empty, delivering the fatal error moves `Failed` to `Done`;
/// otherwise nothing changes.
pub open spec fn poll_step(m: DecoderModel) -> DecoderModel {
    if m.lines.len() > 0 {
        DecoderModel { lines: m.lines.skip(1), ..m }
    } else {
        match m.phase {
            Phase::Active => m,
            Phase::Failed => DecoderModel { phase: Phase::Done, fatal: None, ..m },
            Phase::Done => m,
        }
    }
}

/// What one pull yields: the oldest queued line; else, input is needed,
/// the owed fatal error comes out, or the stream is done.
pub open spec fn poll_out(m: DecoderModel) -> StepModel {
    if m.lines.len() > 0 {
        StepModel::Line(m.lines[0])
    } else {
        match m.phase {
            Phase::Active => StepModel::NeedInput,
            Phase::Failed => match m.fatal {
                Some(e) => StepModel::Fatal(e),
                None => StepModel::Done,
            },
            Phase::Done => StepModel::Done,
        }
    }
}

/// The state a cancelled decoder rests in: everything released, done.
pub open spec fn cancelled_model() -> DecoderModel {
    DecoderModel {
        lines: Seq::empty(),
        buffered: Seq::empty(),
        phase: Phase::Done,
        fatal: None,
    }
}

/// The state a fresh decoder starts in: nothing queued, nothing
/// buffered, pulling.
pub open spec fn initial_model() -> DecoderModel {
    DecoderModel {
        lines: Seq::empty(),
        buffered: Seq::empty(),
        phase: Phase::Active,
        fatal: None,
    }
}

/// The decoder's state after the chunks of `chunks` arrived in order.
pub open spec fn feed_all(m: DecoderModel, chunks: Seq<Seq<u8>>) -> DecoderModel
    decreases chunks.len(),
{
    if chunks.len() == 0 {
        m
    } else {
        chunk_step(feed_all(m, chunks.drop_last()), chunks.last())
    }
}

/// Composes source events, the line assembler and delivery into one
/// pull-based stream: the caller pulls with `poll`, and answers each
/// `NeedInput` by fetching one source event and reporting it through
/// `on_event`.  Lines come out in exactly the byte order of the source.
pub struct StreamDecoder {
    assembler: LineAssembler,
    queue: Vec<Vec<u8>>,
    phase: Phase,
    fatal: Option<OllamaError>,
}

impl View for StreamDecoder {
    type V = DecoderModel;

    closed spec fn view(&self) -> DecoderModel {
        DecoderModel {
            lines: lines_view(self.queue@),
            buffered: self.assembler@,
            phase: self.phase,
            fatal: self.fatal,
        }
    }
}

impl StreamDecoder {
    /// A fresh decoder: nothing buffered, nothing queued, pulling.
    pub fn new() -> (d: StreamDecoder)
        ensures
            d@.wf(),
            d@ == initial_model(),
    {
        let d = StreamDecoder {
            assembler: LineAssembler::new(),
            queue: Vec::new(),
            phase: Phase::Active,
            fatal: None,
        };
        proof {
            assert(d@ =~= initial_model());
        }
        d
    }

    /// True while the decoder still pulls from the source: the one phase
    /// in which `on_event` may be called.
    pub fn is_active(&self) -> (r: bool)
        ensures
            r == (self@.phase is Active),
    {
        match self.phase {
            Phase::Active => true,
            Phase::Failed => false,
            Phase::Done => false,
        }
    }

    /// Reports one source event, answering a `NeedInput` from `poll`.
    pub fn on_event(&mut self, ev: SourceEvent)
        requires
            old(self)@.wf(),
            old(self)@.phase is Active,
        ensures
            final(self)@.wf(),
            final(self)@ == event_step(old(self)@, ev),
    {
        let ghost ev0 = ev;
        match ev {
            SourceEvent::Chunk(c) => {
                let mut emitted = self.assembler.feed(c.as_slice());
                let ghost q_pre = self.queue@;
                let ghost em_pre = emitted@;
                self.queue.append(&mut emitted);
                proof {
                    assert(lines_view(self.queue@) =~= lines_view(q_pre) + lines_view(em_pre));
                    assert(self@ =~= event_step(old(self)@, ev0));
                }
            },
            SourceEvent::End => {
                let last = self.assembler.finish();
                let ghost q_pre = self.queue@;
                match last {
                    Some(l) => {
                        self.queue.push(l);
                        proof {
                            assert(lines_view(self.queue@) =~= lines_view(q_pre) + emit(
                                old(self)@.buffered,
                            ));
                        }
                    },
                    None => {
                        proof {
                            assert(lines_view(self.queue@) =~= lines_view(q_pre) + emit(
                                old(self)@.buffered,
                            ));
                        }
                    },
                }
                self.phase = Phase::Done;
                self.fatal = None;
                proof {
                    assert(self@ =~= event_step(old(self)@, ev0));
                }
            },
            SourceEvent::Failure(e) => {
                self.assembler.reset();
                self.phase = Phase::Failed;
                self.fatal = Some(e);
                proof {
                    assert(self@ =~= event_step(old(self)@, ev0));
                }
            },
        }
    }

    /// Pulls once: the oldest framed line, a request for input, the owed
    /// fatal error (delivered exactly once), or the end of the stream.
    pub fn poll(&mut self) -> (r: Step)
        requires
            old(self)@.wf(),
        ensures
            final(self)@.wf(),
            final(self)@ == poll_step(old(self)@),
            step_view(r) == poll_out(old(self)@),
    {
        if self.queue.len() > 0 {
            let ghost q_pre = self.queue@;
            let l = self.queue.remove(0);
            proof {
                assert(l@ == lines_view(q_pre)[0]);
                assert(lines_view(self.queue@) =~= lines_view(q_pre).skip(1));
                assert(self@ =~= poll_step(old(self)@));
            }
            Step::Line(l)
        } else {
            proof {
                assert(lines_view(self.queue@).len() == 0);
            }
            match self.phase {
                Phase::Active => Step::NeedInput,
                Phase::Failed => {
                    self.phase = Phase::Done;
                    let f = self.fatal.take();
                    proof {
                        assert(self@ =~= poll_step(old(self)@));
                    }
                    match f {
                        Some(e) => Step::Fatal(e),
                        None => {
                            proof {
                                assert(false);
                            }
                            Step::Done
                        },
                    }
                },
                Phase::Done => Step::Done,
            }
        }
    }

    /// Cancellation: releases the queue and the buffer at once and goes
    /// terminal.  Every later pull yields `Done`, so a driver that reads
    /// the source only on `NeedInput` never reads it again.
    pub fn cancel(&mut self)
        ensures
            final(self)@.wf(),
            final(self)@ == cancelled_model(),
    {
        self.queue.clear();
        self.assembler.reset();
        self.phase = Phase::Done;
        self.fatal = None;
        proof {
            assert(self@ =~= cancelled_model());
        }
    }
}

/// The outputs a decoder still delivers once the source is gone (phase
/// `Failed` or `Done`): the queued lines, oldest first, then the fatal
/// error where one is owed, then nothing.
pub open spec fn remaining_outputs(m: DecoderModel) -> Seq<StepModel>
    decreases m.lines.len() + (if m.phase is Failed {
        1int
    } else {
        0int
    }),
{
    if m.lines.len() > 0 {
        seq![StepModel::Line(m.lines[0])] + remaining_outputs(poll_step(m))
    } else if m.phase is Failed {
        seq![poll_out(m)] + remaining_outputs(poll_step(m))
    } else {
        Seq::empty()
    }
}

/// Once done with an empty queue, always done: pulling again changes
/// nothing and yields no further item.
pub proof fn lemma_done_stays_done(m: DecoderModel)
    requires
        m.phase is Done,
        m.lines.len() == 0,
    ensures
        poll_step(m) == m,
        poll_out(m) is Done,
        remaining_outputs(m) == Seq::<StepModel>::empty(),
{
}

proof fn lemma_drain_failed(m: DecoderModel, e: OllamaError)
    requires
        m.phase is Failed,
        m.fatal == Some(e),
    ensures
        remaining_outputs(m) == m.lines.map_values(|l: Seq<u8>| StepModel::Line(l)) + seq![
            StepModel::Fatal(e),
        ],
    decreases m.lines.len(),
{
    let f = |l: Seq<u8>| StepModel::Line(l);
    if m.lines.len() > 0 {
        lemma_drain_failed(poll_step(m), e);
        assert(remaining_outputs(m) =~= m.lines.map_values(f) + seq![StepModel::Fatal(e)]);
    } else {
        assert(poll_step(m).lines.len() == 0 && poll_step(m).phase is Done);
        assert(remaining_outputs(poll_step(m)) == Seq::<StepModel>::empty());
        assert(remaining_outputs(m) =~= m.lines.map_values(f) + seq![StepModel::Fatal(e)]);
    }
}

proof fn lemma_drain_done(m: DecoderModel)
    requires
        m.phase is Done,
    ensures
        remaining_outputs(m) == m.lines.map_values(|l: Seq<u8>| StepModel::Line(l)),
    decreases m.lines.len(),
{
    let f = |l: Seq<u8>| StepModel::Line(l);
    if m.lines.len() > 0 {
        lemma_drain_done(poll_step(m));
        assert(remaining_outputs(m) =~= m.lines.map_values(f));
    } else {
        assert(remaining_outputs(m) =~= m.lines.map_values(f));
    }
}

/// A transport failure ends the stream: the lines already framed are
/// still delivered, in order; then the fatal error, exactly once; then
/// the stream is done for good.  The partially buffered tail is
/// discarded, never replayed.
pub proof fn lemma_transport_failure_terminal(m: DecoderModel, e: OllamaError)
    requires
        m.wf(),
        m.phase is Active,
    ensures
        failure_step(m, e).lines == m.lines,
        remaining_outputs(failure_step(m, e)) == m.lines.map_values(|l: Seq<u8>| StepModel::Line(l))
            + seq![StepModel::Fatal(e)],
{
    lemma_drain_failed(failure_step(m, e), e);
}

/// Normal exhaustion drains the stream: every queued line comes out, the
/// buffered tail closes as one final trimmed line where it is non-empty,
/// and nothing follows.
pub proof fn lemma_end_of_input_drains(m: DecoderModel)
    requires
        m.wf(),
        m.phase is Active,
    ensures
        remaining_outputs(end_step(m)) == (m.lines + emit(m.buffered)).map_values(
            |l: Seq<u8>| StepModel::Line(l),
        ),
{
    lemma_drain_done(end_step(m));
}

proof fn lemma_feed_all_frames(chunks: Seq<Seq<u8>>)
    ensures
        feed_all(initial_model(), chunks).lines == fed_lines(chunks),
        feed_all(initial_model(), chunks).buffered == fed_buffer(chunks),
        feed_all(initial_model(), chunks).phase is Active,
        feed_all(initial_model(), chunks).fatal is None,
    decreases chunks.len(),
{
    if chunks.len() == 0 {
    } else {
        lemma_feed_all_frames(chunks.drop_last());
    }
}

/// A whole run: a fresh decoder fed any chunking of a byte stream and
/// then end-of-input delivers exactly the lines of the concatenated
/// stream — its trimmed, non-empty lines, the unterminated tail included
/// — in order, and then nothing.  Chunk boundaries leave no trace.
pub proof fn lemma_full_run(chunks: Seq<Seq<u8>>)
    ensures
        remaining_outputs(end_step(feed_all(initial_model(), chunks))) == all_lines(
            concat_chunks(chunks),
        ).map_values(|l: Seq<u8>| StepModel::Line(l)),
{
    lemma_feed_all_frames(chunks);
    lemma_chunks_assemble_whole(chunks);
    let after = end_step(feed_all(initial_model(), chunks));
    lemma_drain_done(after);
    assert(after.lines =~= all_lines(concat_chunks(chunks)));
}

/// A transport failure after any number of chunks yields exactly the
/// lines framed from those chunks, then the one fatal error, then
/// nothing: what was decodable is delivered, the partial tail is not.
pub proof fn lemma_failure_after_chunks(chunks: Seq<Seq<u8>>, e: OllamaError)
    ensures
        remaining_outputs(failure_step(feed_all(initial_model(), chunks), e)) == complete_lines(
            concat_chunks(chunks),
        ).map_values(|l: Seq<u8>| StepModel::Line(l)) + seq![StepModel::Fatal(e)],
{
    lemma_feed_all_frames(chunks);
    lemma_chunks_assemble_whole(chunks);
    lemma_drain_failed(failure_step(feed_all(initial_model(), chunks), e), e);
}

/// Cancelling is immediate and permanent: the cancelled decoder holds no
/// lines and no buffer, never again asks for input, and yields `Done` on
/// every pull — so no further chunk is ever read from the source.
pub proof fn lemma_cancel_stops_reads()
    ensures
        poll_out(cancelled_model()) is Done,
        poll_step(cancelled_model()) == cancelled_model(),
        remaining_outputs(cancelled_model()) == Seq::<StepModel>::empty(),
{
}

} // verus!
