//! The line-delimited request reader.
//!
//! A request is the prefix of an inbound byte stream up to its first blank
//! line: lines are separated by line feeds, a carriage return directly
//! before a line feed is stripped, and a final fragment without a line
//! feed still counts as a line.  Collection stops at the first blank line
//! and ignores everything after it.  A line that is not valid UTF-8 is a
//! reported, recoverable error, never a crash.

use crate::text::utf8_to_string;
use vstd::prelude::*;
use vstd::utf8::{decode_utf8, valid_utf8};

verus! {

/// A line as it leaves the stream: a carriage return directly before the
/// line feed is not part of the line.
pub open spec fn strip_cr(line: Seq<u8>) -> Seq<u8> {
    if line.len() > 0 && line.last() == 0x0d {
        line.drop_last()
    } else {
        line
    }
}

/// The request lines in `bytes` when `cur` has already been read of the
/// current line: walk the bytes one by one; a line feed ends a line, an
/// empty line ends the request, and the stream's end turns a non-empty
/// fragment into a last line (kept byte for byte: a trailing carriage
/// return is stripped only when a line feed follows it).
pub open spec fn lines_from(bytes: Seq<u8>, cur: Seq<u8>) -> Seq<Seq<u8>>
    decreases bytes.len(),
{
    if bytes.len() == 0 {
        if cur.len() == 0 {
            seq![]
        } else {
            seq![cur]
        }
    } else if bytes[0] == 0x0a {
        let line = strip_cr(cur);
        if line.len() == 0 {
            seq![]
        } else {
            seq![line] + lines_from(bytes.drop_first(), seq![])
        }
    } else {
        lines_from(bytes.drop_first(), cur.push(bytes[0]))
    }
}

/// The ordered request lines of an inbound stream: every line before the
/// first blank one.
pub open spec fn request_lines(bytes: Seq<u8>) -> Seq<Seq<u8>> {
    lines_from(bytes, seq![])
}

/// Whether the stream, with `cur` already read of the current line, still
/// reaches a blank line — the request's terminator.
pub open spec fn terminated_from(bytes: Seq<u8>, cur: Seq<u8>) -> bool
    decreases bytes.len(),
{
    if bytes.len() == 0 {
        false
    } else if bytes[0] == 0x0a {
        strip_cr(cur).len() == 0 || terminated_from(bytes.drop_first(), seq![])
    } else {
        terminated_from(bytes.drop_first(), cur.push(bytes[0]))
    }
}

/// Whether the bytes read so far already hold the blank line that ends a
/// request; once they do, reading further is pointless.
pub open spec fn request_terminated(bytes: Seq<u8>) -> bool {
    terminated_from(bytes, seq![])
}

/// A failure while reading one request.
#[derive(Clone, Copy, Debug, PartialEq, Eq, Structural)]
pub enum RequestError {
    /// The request line with this index (counting from zero) is not valid
    /// UTF-8.
    InvalidText(usize),
}

/// True when the bytes read so far already hold the request's terminating
/// blank line; the caller can stop reading then.
pub fn request_complete(input: &Vec<u8>) -> (r: bool)
    ensures
        r == request_terminated(input@),
{
    let mut i: usize = 0;
    let mut cur_len: usize = 0;
    let mut cur_first: u8 = 0;
    let ghost mut cur: Seq<u8> = seq![];
    assert(input@.subrange(0, input@.len() as int) =~= input@);
    loop
        invariant
            0 <= i <= input@.len(),
            cur.len() == cur_len,
            cur_len > 0 ==> cur[0] == cur_first,
            cur_len <= i,
            request_terminated(input@) == terminated_from(input@.subrange(i as int, input@.len() as int), cur),
        decreases input@.len() - i,
    {
        if i == input.len() {
            assert(input@.subrange(i as int, input@.len() as int).len() == 0);
            return false;
        }
        let b = input[i];
        proof {
            let rest = input@.subrange(i as int, input@.len() as int);
            assert(rest[0] == input@[i as int]);
            assert(rest.drop_first() =~= input@.subrange(i + 1, input@.len() as int));
        }
        if b == 0x0a {
            let blank = cur_len == 0 || (cur_len == 1 && cur_first == 0x0d);
            proof {
                if cur.len() == 1 {
                    assert(strip_cr(cur).len() == 0 <==> cur[0] == 0x0d);
                }
            }
            if blank {
                return true;
            }
            cur_len = 0;
            proof {
                cur = seq![];
            }
        } else {
            if cur_len == 0 {
                cur_first = b;
            }
            cur_len = cur_len + 1;
            proof {
                cur = cur.push(b);
            }
        }
        i = i + 1;
    }
}

/// Read one request from the bytes an inbound connection delivered: the
/// ordered sequence of lines before the first blank line, each decoded as
/// UTF-8 text.  Succeeds exactly when every such line is valid UTF-8;
/// otherwise reports the index of the first line that is not — a
/// recoverable error, never a crash.
pub fn collect_request_lines(input: &Vec<u8>) -> (r: Result<Vec<String>, RequestError>)
    ensures
        r is Ok <==> (forall|k: int|
            0 <= k < request_lines(input@).len() ==> valid_utf8(#[trigger] request_lines(input@)[k])),
        r matches Ok(out) ==> {
            &&& out@.len() == request_lines(input@).len()
            &&& forall|k: int|
                0 <= k < out@.len() ==> #[trigger] out@[k]@ == decode_utf8(request_lines(input@)[k])
        },
        r matches Err(e) ==> {
            &&& e matches RequestError::InvalidText(k)
            &&& 0 <= k < request_lines(input@).len()
            &&& !valid_utf8(request_lines(input@)[k as int])
            &&& forall|j: int|
                0 <= j < k ==> valid_utf8(#[trigger] request_lines(input@)[j])
        },
{
    let mut out: Vec<String> = Vec::new();
    let mut cur: Vec<u8> = Vec::new();
    let ghost mut done: Seq<Seq<u8>> = seq![];
    let mut i: usize = 0;
    assert(input@.subrange(0, input@.len() as int) =~= input@);
    loop
        invariant
            0 <= i <= input@.len(),
            cur@.len() <= i,
            request_lines(input@) == done + lines_from(
                input@.subrange(i as int, input@.len() as int),
                cur@,
            ),
            out@.len() == done.len(),
            forall|k: int| 0 <= k < done.len() ==> valid_utf8(#[trigger] done[k]),
            forall|k: int| 0 <= k < done.len() ==> #[trigger] out@[k]@ == decode_utf8(done[k]),
        decreases input@.len() - i,
    {
        let ghost rest = input@.subrange(i as int, input@.len() as int);
        let ghost cur0 = cur@;
        proof {
            if rest.len() > 0 {
                assert(rest[0] == input@[i as int]);
                assert(rest.drop_first() =~= input@.subrange(i + 1, input@.len() as int));
            }
        }
        let at_end = i == input.len();
        if at_end || input[i] == 0x0a {
            if !at_end {
                // a line feed ended the line: strip one carriage return
                if cur.len() > 0 && cur[cur.len() - 1] == 0x0d {
                    let _stripped = cur.pop();
                }
                assert(cur@ =~= strip_cr(cur0));
            }
            if cur.len() == 0 {
                // blank line, or stream end with nothing pending: done
                assert(lines_from(rest, cur0) =~= Seq::<Seq<u8>>::empty());
                assert(request_lines(input@) =~= done);
                return Ok(out);
            }
            let ghost line = cur@;
            proof {
                if at_end {
                    assert(lines_from(rest, cur0) =~= seq![line]);
                } else {
                    assert(lines_from(rest, cur0) =~= seq![line] + lines_from(
                        rest.drop_first(),
                        seq![],
                    ));
                }
                assert(request_lines(input@)[done.len() as int] == line);
            }
            let line_index = out.len();
            let decoded = utf8_to_string(cur);
            match decoded {
                Some(text) => {
                    out.push(text);
                    proof {
                        done = done.push(line);
                    }
                },
                None => {
                    assert(!valid_utf8(request_lines(input@)[line_index as int]));
                    return Err(RequestError::InvalidText(line_index));
                },
            }
            if at_end {
                assert(request_lines(input@) =~= done);
                return Ok(out);
            }
            proof {
                assert(done + lines_from(rest.drop_first(), Seq::<u8>::empty()) =~= done.drop_last()
                    + lines_from(rest, cur0));
            }
            cur = Vec::new();
        } else {
            let b = input[i];
            cur.push(b);
        }
        i = i + 1;
    }
}

/// Everything after the terminating blank line is dead to the reader:
/// once a byte stream holds its blank line, appending anything leaves the
/// collected request lines — and the terminator itself — unchanged.
pub proof fn lemma_reader_stops_at_blank_line(bytes: Seq<u8>, extra: Seq<u8>)
    requires
        request_terminated(bytes),
    ensures
        request_terminated(bytes + extra),
        request_lines(bytes + extra) == request_lines(bytes),
{
    lemma_lines_from_append(bytes, extra, seq![]);
}

proof fn lemma_lines_from_append(bytes: Seq<u8>, extra: Seq<u8>, cur: Seq<u8>)
    requires
        terminated_from(bytes, cur),
    ensures
        terminated_from(bytes + extra, cur),
        lines_from(bytes + extra, cur) == lines_from(bytes, cur),
    decreases bytes.len(),
{
    assert(bytes.len() > 0);
    assert((bytes + extra)[0] == bytes[0]);
    assert((bytes + extra).drop_first() =~= bytes.drop_first() + extra);
    if bytes[0] == 0x0a {
        if strip_cr(cur).len() == 0 {
        } else {
            lemma_lines_from_append(bytes.drop_first(), extra, seq![]);
        }
    } else {
        lemma_lines_from_append(bytes.drop_first(), extra, cur.push(bytes[0]));
    }
}

} // verus!
