//! The liveness monitor: detecting peer disconnection without consuming
//! application bytes.
//!
//! The monitor repeatedly peeks one byte on the connection.  A peek that
//! returns zero bytes, or fails, means the peer is gone, and the monitor
//! then ends the whole session — it is the sole authority for doing so.
//! The polling loop runs outside the library; each iteration hands its
//! peek outcome to [`assess_peek`].

use vstd::prelude::*;

verus! {

/// The outcome of one non-destructive peek on the connection.
#[derive(Clone, Copy, Debug, PartialEq, Eq, Structural)]
pub enum PeekOutcome {
    /// The peek returned this many bytes; zero means the peer closed the
    /// connection.
    Bytes(usize),
    /// The peek itself failed.
    Failed,
}

/// The monitor's reading of one peek outcome.
#[derive(Clone, Copy, Debug, PartialEq, Eq, Structural)]
pub enum PeerState {
    /// The connection is still up: poll again.
    Alive,
    /// The peer has disconnected: end the whole session now.
    Disconnected,
}

/// Whether one peek outcome signals that the peer is gone: a peek of zero
/// bytes, or any peek error.
pub open spec fn peer_gone(outcome: PeekOutcome) -> bool {
    match outcome {
        PeekOutcome::Bytes(n) => n == 0,
        PeekOutcome::Failed => true,
    }
}

/// Judge one peek outcome.  The session ends exactly when this returns
/// [`PeerState::Disconnected`].
pub fn assess_peek(outcome: PeekOutcome) -> (v: PeerState)
    ensures
        v is Disconnected <==> peer_gone(outcome),
{
    match outcome {
        PeekOutcome::Bytes(n) => if n == 0 {
            PeerState::Disconnected
        } else {
            PeerState::Alive
        },
        PeekOutcome::Failed => PeerState::Disconnected,
    }
}

/// How many poll iterations the monitor runs over the given peek outcomes:
/// the index of the first outcome that signals disconnection, or the trace
/// length if none does (the monitor is still polling then).
pub open spec fn polls_until_detection(outcomes: Seq<PeekOutcome>) -> int
    decreases outcomes.len(),
{
    if outcomes.len() == 0 {
        0
    } else if peer_gone(outcomes[0]) {
        0
    } else {
        1 + polls_until_detection(outcomes.drop_first())
    }
}

/// The number of peek outcomes the monitor would consume before ending the
/// session, over a recorded trace of outcomes.
pub fn scan_for_disconnect(outcomes: &Vec<PeekOutcome>) -> (r: Option<usize>)
    ensures
        r matches Some(i) ==> i == polls_until_detection(outcomes@) && i < outcomes@.len(),
        r is None ==> polls_until_detection(outcomes@) == outcomes@.len(),
{
    let mut i: usize = 0;
    assert(outcomes@.subrange(0, outcomes@.len() as int) =~= outcomes@);
    loop
        invariant
            0 <= i <= outcomes@.len(),
            polls_until_detection(outcomes@) == i + polls_until_detection(
                outcomes@.subrange(i as int, outcomes@.len() as int),
            ),
            forall|j: int| 0 <= j < i ==> !peer_gone(#[trigger] outcomes@[j]),
        decreases outcomes@.len() - i,
    {
        let ghost rest = outcomes@.subrange(i as int, outcomes@.len() as int);
        proof {
            if rest.len() > 0 {
                assert(rest[0] == outcomes@[i as int]);
                assert(rest.drop_first() =~= outcomes@.subrange(i + 1, outcomes@.len() as int));
            }
        }
        if i == outcomes.len() {
            return None;
        }
        let v = assess_peek(outcomes[i]);
        match v {
            PeerState::Disconnected => {
                return Some(i);
            },
            PeerState::Alive => {
                i = i + 1;
            },
        }
    }
}

/// Detection is eventual and bounded: if the peer disconnects — some peek
/// outcome signals it — the monitor ends the session at the first such
/// outcome, having polled no more than that outcome's index; and it never
/// ends the session while every outcome so far showed the peer alive.
pub proof fn lemma_detection_bounded(outcomes: Seq<PeekOutcome>, i: int)
    requires
        0 <= i < outcomes.len(),
        peer_gone(outcomes[i]),
        forall|j: int| 0 <= j < i ==> !peer_gone(#[trigger] outcomes[j]),
    ensures
        polls_until_detection(outcomes) == i,
    decreases i,
{
    if i > 0 {
        assert(!peer_gone(outcomes[0]));
        let rest = outcomes.drop_first();
        assert(rest[i - 1] == outcomes[i]);
        assert(forall|j: int| 0 <= j < i - 1 ==> #[trigger] rest[j] == outcomes[j + 1]);
        lemma_detection_bounded(rest, i - 1);
    }
}

} // verus!
