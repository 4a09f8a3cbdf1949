//! The three-valued outcome of a match attempt, and its combination algebra.

use vstd::prelude::*;

verus! {

/// Outcome of evaluating a rule, a pre-handler, or a whole matcher against an
/// event. `NotMatch` is an expected routing miss, never an error.
#[derive(Clone, Copy, Debug, PartialEq, Eq, Structural)]
pub enum Signal {
    /// The matcher claims the event exclusively: later matchers are skipped.
    MatchAndBlock,
    /// The matcher fires, but later matchers still see the event.
    Matched,
    /// The matcher does not fire.
    NotMatch,
}

impl Signal {
    /// The conjunction used to require two conditions at once: a miss on
    /// either side is a miss; otherwise both sides matched, and a block on
    /// either side is kept.
    pub open spec fn spec_bitand(self, rhs: Signal) -> Signal {
        match (self, rhs) {
            (Signal::MatchAndBlock, Signal::MatchAndBlock) => Signal::MatchAndBlock,
            (Signal::MatchAndBlock, Signal::Matched) => Signal::MatchAndBlock,
            (Signal::Matched, Signal::MatchAndBlock) => Signal::MatchAndBlock,
            (Signal::Matched, Signal::Matched) => Signal::Matched,
            _ => Signal::NotMatch,
        }
    }

    /// The disjunction used to join two alternative conditions whose side
    /// effects must both run: a block on either side dominates, then a match
    /// on either side, and only two misses stay a miss.
    pub open spec fn spec_bitor(self, rhs: Signal) -> Signal {
        match (self, rhs) {
            (Signal::MatchAndBlock, _) => Signal::MatchAndBlock,
            (_, Signal::MatchAndBlock) => Signal::MatchAndBlock,
            (Signal::Matched, _) => Signal::Matched,
            (_, Signal::Matched) => Signal::Matched,
            _ => Signal::NotMatch,
        }
    }

    /// Conjunction of two signals; see [`Signal::spec_bitand`].
    pub fn bitand(self, rhs: Signal) -> (r: Signal)
        ensures
            r == self.spec_bitand(rhs),
    {
        match (self, rhs) {
            (Signal::MatchAndBlock, Signal::MatchAndBlock) => Signal::MatchAndBlock,
            (Signal::MatchAndBlock, Signal::Matched) => Signal::MatchAndBlock,
            (Signal::Matched, Signal::MatchAndBlock) => Signal::MatchAndBlock,
            (Signal::Matched, Signal::Matched) => Signal::Matched,
            _ => Signal::NotMatch,
        }
    }

    /// Disjunction of two signals; see [`Signal::spec_bitor`].
    pub fn bitor(self, rhs: Signal) -> (r: Signal)
        ensures
            r == self.spec_bitor(rhs),
    {
        match (self, rhs) {
            (Signal::MatchAndBlock, _) => Signal::MatchAndBlock,
            (_, Signal::MatchAndBlock) => Signal::MatchAndBlock,
            (Signal::Matched, _) => Signal::Matched,
            (_, Signal::Matched) => Signal::Matched,
            _ => Signal::NotMatch,
        }
    }
}

/// The full table of the conjunction: nine pair cases, three outcomes.
/// A block beside a block or a match keeps blocking; two matches fire
/// without blocking; a miss on either side is a miss.
pub proof fn lemma_signal_and_table()
    ensures
        Signal::MatchAndBlock.spec_bitand(Signal::MatchAndBlock) == Signal::MatchAndBlock,
        Signal::MatchAndBlock.spec_bitand(Signal::Matched) == Signal::MatchAndBlock,
        Signal::Matched.spec_bitand(Signal::MatchAndBlock) == Signal::MatchAndBlock,
        Signal::Matched.spec_bitand(Signal::Matched) == Signal::Matched,
        Signal::MatchAndBlock.spec_bitand(Signal::NotMatch) == Signal::NotMatch,
        Signal::NotMatch.spec_bitand(Signal::MatchAndBlock) == Signal::NotMatch,
        Signal::Matched.spec_bitand(Signal::NotMatch) == Signal::NotMatch,
        Signal::NotMatch.spec_bitand(Signal::Matched) == Signal::NotMatch,
        Signal::NotMatch.spec_bitand(Signal::NotMatch) == Signal::NotMatch,
{
}

/// The conjunction is commutative and associative, with a match as its
/// identity and a miss absorbing; the disjunction is commutative and
/// associative likewise.
pub proof fn lemma_signal_algebra(a: Signal, b: Signal, c: Signal)
    ensures
        a.spec_bitand(b) == b.spec_bitand(a),
        a.spec_bitand(b).spec_bitand(c) == a.spec_bitand(b.spec_bitand(c)),
        a.spec_bitand(Signal::Matched) == a,
        a.spec_bitand(Signal::NotMatch) == Signal::NotMatch,
        a.spec_bitor(b) == b.spec_bitor(a),
        a.spec_bitor(b).spec_bitor(c) == a.spec_bitor(b.spec_bitor(c)),
{
}

} // verus!
