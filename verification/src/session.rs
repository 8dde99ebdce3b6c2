//! The duplex chat session: one connection, a reader task and a writer
//! task, moving text in both directions.
//!
//! The two tasks run independently and share nothing but their own half of
//! the connection; each one's loop lives outside the library and consults
//! a step function here for every event.  The reader turns received bytes
//! into text for the local user and stops on close or error; the writer
//! turns each line of local input into its bytes for the wire and stops on
//! a failed write.  Neither task ends the session: that is the liveness
//! monitor's job alone.

use crate::text::{lossy_decoded, lossy_to_string};
use vstd::prelude::*;
use vstd::string::StringSliceAdditionalSpecFns;
use vstd::utf8::{decode_utf8, encode_utf8, valid_utf8};

verus! {

/// How many bytes the reader asks for at most in one read.
pub const READ_CHUNK_BYTES: usize = 1024;

/// The outcome of one read on the session's receiving half.
pub enum ReadEvent {
    /// Some bytes arrived.
    Data(Vec<u8>),
    /// A read of zero bytes: the peer closed its sending half gracefully.
    Closed,
    /// The read itself failed.
    Failed,
}

/// What the reader task does with one read outcome.
pub enum ReaderAction {
    /// Show this text to the local user and read on.
    Emit(String),
    /// Stop the reader task, silently.
    Stop,
}

/// One step of the reader task: received bytes are decoded as text,
/// lossily, and emitted; a graceful close or a read error stops the task
/// and nothing else.
pub fn reader_step(event: ReadEvent) -> (action: ReaderAction)
    ensures
        event matches ReadEvent::Data(bytes) ==> (action matches ReaderAction::Emit(text)
            && text@ == lossy_decoded(bytes@) && (valid_utf8(bytes@) ==> text@ == decode_utf8(
            bytes@,
        ))),
        event is Closed ==> action is Stop,
        event is Failed ==> action is Stop,
{
    match event {
        ReadEvent::Data(bytes) => ReaderAction::Emit(lossy_to_string(bytes.as_slice())),
        ReadEvent::Closed => ReaderAction::Stop,
        ReadEvent::Failed => ReaderAction::Stop,
    }
}

/// The outcome of one write on the session's sending half.
#[derive(Clone, Copy, Debug, PartialEq, Eq, Structural)]
pub enum WriteOutcome {
    /// The whole payload went out.
    Sent,
    /// The write failed.
    Failed,
}

/// What the writer task does after one write.
#[derive(Clone, Copy, Debug, PartialEq, Eq, Structural)]
pub enum WriterAction {
    /// Block for the next line of local input.
    Continue,
    /// Stop the writer task, silently.
    Stop,
}

/// The bytes the writer sends for one line of local input: the line's
/// UTF-8 bytes verbatim, trailing newline included, with no framing.
pub fn writer_payload(line: &str) -> (bytes: Vec<u8>)
    ensures
        bytes@ == encode_utf8(line@),
{
    vstd::slice::slice_to_vec(line.as_bytes())
}

/// One step of the writer task: it goes on exactly as long as its writes
/// succeed.
pub fn writer_step(outcome: WriteOutcome) -> (action: WriterAction)
    ensures
        action is Continue <==> outcome is Sent,
{
    match outcome {
        WriteOutcome::Sent => WriterAction::Continue,
        WriteOutcome::Failed => WriterAction::Stop,
    }
}

/// A line of text one peer writes is observed byte-for-byte, as decoded
/// text, by the other peer's reader: what [`writer_payload`] puts on the
/// wire is valid UTF-8, and decoding it yields the written line itself.
/// The claim is symmetric, since both peers run the same two tasks.
pub proof fn lemma_line_delivered_verbatim(line: Seq<char>)
    ensures
        valid_utf8(encode_utf8(line)),
        decode_utf8(encode_utf8(line)) == line,
{
    vstd::utf8::encode_utf8_valid_utf8(line);
    vstd::utf8::encode_utf8_decode_utf8(line);
}

} // verus!
