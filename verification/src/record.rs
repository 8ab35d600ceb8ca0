use crate::error::OllamaError;
use crate::stream::{poll_out, poll_step, Step, StepModel, StreamDecoder};
use vstd::prelude::*;

verus! {

/// `serde_json`'s generic JSON document type, carried opaquely: the
/// library frames lines and checks that each is one well-formed JSON
/// document; what stands inside a document is the caller's business.
#[verifier::external_type_specification]
#[verifier::external_body]
pub struct ExValue(serde_json::Value);

/// The decoding of `bytes` as UTF-8: its characters, if the bytes are
/// well-formed.  Names what `core::str::from_utf8` returns, a function
/// of the bytes alone.
pub uninterp spec fn utf8_decode(bytes: Seq<u8>) -> Option<Seq<char>>;

/// Whether `text` is one well-formed JSON document.  Names the success
/// of `serde_json::from_str::<serde_json::Value>`, a function of the
/// text alone.
pub uninterp spec fn json_ok(text: Seq<char>) -> bool;

/// Relies on core::str::from_utf8: `Ok` exactly when the bytes are
/// well-formed UTF-8, and then the string holds their decoding.
#[verifier::external_body]
fn line_to_string(line: &Vec<u8>) -> (r: Result<String, OllamaError>)
    ensures
        r is Ok <==> utf8_decode(line@) is Some,
        (match r {
            Ok(s) => utf8_decode(line@) == Some(s@),
            Err(e) => e matches OllamaError::InvalidResponse(_),
        }),
{
    match core::str::from_utf8(line.as_slice()) {
        Ok(s) => Ok(s.to_string()),
        Err(e) => Err(OllamaError::InvalidResponse(e.to_string())),
    }
}

/// Relies on serde_json::from_str::<serde_json::Value>: `Ok` exactly
/// when the text parses as one JSON document.
#[verifier::external_body]
fn parse_json_value(text: &str) -> (r: Result<serde_json::Value, OllamaError>)
    ensures
        r is Ok <==> json_ok(text@),
        (match r {
            Ok(_) => true,
            Err(e) => e matches OllamaError::InvalidResponseFormat(_),
        }),
{
    match serde_json::from_str::<serde_json::Value>(text) {
        Ok(v) => Ok(v),
        Err(e) => Err(OllamaError::InvalidResponseFormat(e.to_string())),
    }
}

/// A line decodes to a record exactly when it is UTF-8 and its text is
/// one JSON document.
pub open spec fn line_decodes(line: Seq<u8>) -> bool {
    match utf8_decode(line) {
        Some(text) => json_ok(text),
        None => false,
    }
}

/// Parses one framed line into one JSON record.  Stateless and pure: the
/// outcome is a function of the line alone.  A line that is not UTF-8
/// fails with `InvalidResponse`; UTF-8 text that is not one JSON
/// document fails with `InvalidResponseFormat`; both carry diagnostic
/// text, and neither is fatal to a stream.
pub fn decode_line(line: &Vec<u8>) -> (r: Result<serde_json::Value, OllamaError>)
    ensures
        r is Ok <==> line_decodes(line@),
        (match r {
            Ok(_) => true,
            Err(e) => {
                &&& !e.is_fatal()
                &&& (utf8_decode(line@) is None ==> e matches OllamaError::InvalidResponse(_))
                &&& (utf8_decode(line@) is Some ==> e matches OllamaError::InvalidResponseFormat(
                    _,
                ))
            },
        }),
{
    match line_to_string(line) {
        Ok(text) => parse_json_value(text.as_str()),
        Err(e) => Err(e),
    }
}

/// What one pull on the composed decoder yields: one per-record outcome,
/// a request for input, the one fatal error, or the end of the stream.
pub enum RecordStep {
    /// One line's decode outcome.  An `Err` here is item-level: the
    /// stream goes on and later lines may still succeed.
    Item(Result<serde_json::Value, OllamaError>),
    /// Nothing is buffered: fetch the next source event and report it
    /// through `on_event`.
    NeedInput,
    /// The stream failed; this is its last item.
    Fatal(OllamaError),
    /// The stream has ended; nothing follows.
    Done,
}

impl StreamDecoder {
    /// Pulls the next framed line and runs it through the record
    /// decoder.  A malformed line is one failed item and nothing more:
    /// the decoder's state advances exactly as `poll`'s does, so the
    /// stream leaves `Active` only on end-of-input, failure or `cancel`.
    pub fn poll_record(&mut self) -> (r: RecordStep)
        requires
            old(self)@.wf(),
        ensures
            final(self)@.wf(),
            final(self)@ == poll_step(old(self)@),
            (match poll_out(old(self)@) {
                StepModel::Line(l) => r matches RecordStep::Item(res) && ((res is Ok)
                    <==> line_decodes(l)) && (res matches Err(e) ==> !e.is_fatal()),
                StepModel::NeedInput => r is NeedInput,
                StepModel::Fatal(e) => r == RecordStep::Fatal(e),
                StepModel::Done => r is Done,
            }),
    {
        match self.poll() {
            Step::Line(l) => RecordStep::Item(decode_line(&l)),
            Step::NeedInput => RecordStep::NeedInput,
            Step::Fatal(e) => RecordStep::Fatal(e),
            Step::Done => RecordStep::Done,
        }
    }
}

/// The per-line outcomes of a line sequence: `true` where the line
/// decodes to a record, `false` where it is malformed.
pub open spec fn decode_outcomes(lines: Seq<Seq<u8>>) -> Seq<bool> {
    lines.map_values(|l: Seq<u8>| line_decodes(l))
}

/// A single malformed line inside an otherwise-valid stream of `n` lines
/// yields `n - 1` successes and exactly one item-level failure, in the
/// malformed line's position: decoding is per-line, so one bad record
/// never touches its neighbours, and `poll_record` leaves the stream
/// running on an item failure.
pub proof fn lemma_single_malformed_line(lines: Seq<Seq<u8>>, k: int)
    requires
        0 <= k < lines.len(),
        !line_decodes(lines[k]),
        forall|j: int| 0 <= j < lines.len() && j != k ==> line_decodes(#[trigger] lines[j]),
    ensures
        decode_outcomes(lines).len() == lines.len(),
        !decode_outcomes(lines)[k],
        forall|j: int| 0 <= j < lines.len() && j != k ==> decode_outcomes(lines)[j],
{
    assert forall|j: int| 0 <= j < lines.len() && j != k implies decode_outcomes(lines)[j] by {
        assert(line_decodes(lines[j]));
    }
}

} // verus!
