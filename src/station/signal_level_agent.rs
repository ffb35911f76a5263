//! Signal-level thresholds and the ranges they delimit.

use vstd::prelude::*;

verus! {

/// One end of a signal-strength range, in dBm.
#[derive(Debug, Clone, Copy, PartialEq, Eq, Structural)]
pub enum LevelBound {
    Included(i16),
    Excluded(i16),
    Unbounded,
}

/// The range of signal strengths that one level stands for: `min` is the
/// lower end, `max` the upper end.
#[derive(Debug, Clone, Copy, PartialEq, Eq, Structural)]
pub struct SignalLevelRange {
    pub min: LevelBound,
    pub max: LevelBound,
}

/// The range of level `index` for descending thresholds `levels`: level 0 is
/// unbounded above, level `i > 0` is below `levels[i - 1]`, and level `i` is
/// at or above `levels[i]` while that threshold exists.
pub open spec fn spec_level_range(levels: Seq<i16>, index: int) -> SignalLevelRange {
    SignalLevelRange {
        min: if 0 <= index < levels.len() {
            LevelBound::Included(levels[index])
        } else {
            LevelBound::Unbounded
        },
        max: if 1 <= index <= levels.len() {
            LevelBound::Excluded(levels[index - 1])
        } else {
            LevelBound::Unbounded
        },
    }
}

/// The range of signal strengths that level `level_idx` stands for.
pub fn signal_level_range(levels: &[i16], level_idx: u8) -> (r: SignalLevelRange)
    ensures
        r == spec_level_range(levels@, level_idx as int),
{
    let index = level_idx as usize;
    let max = if index >= 1 && index - 1 < levels.len() {
        LevelBound::Excluded(levels[index - 1])
    } else {
        LevelBound::Unbounded
    };
    let min = if index < levels.len() {
        LevelBound::Included(levels[index])
    } else {
        LevelBound::Unbounded
    };
    SignalLevelRange { min, max }
}

/// The thresholds run from the strongest to the weakest.
pub open spec fn is_descending(levels: Seq<i16>) -> bool {
    forall|i: int, j: int| 0 <= i < j < levels.len() ==> levels[i] >= levels[j]
}

/// The thresholds in descending order: the same values, each as often as
/// before.
pub fn sort_descending(levels: Vec<i16>) -> (r: Vec<i16>)
    ensures
        is_descending(r@),
        r@.to_multiset() == levels@.to_multiset(),
{
    broadcast use vstd::seq_lib::group_to_multiset_ensures;

    let mut out: Vec<i16> = Vec::new();
    let n = levels.len();
    let mut i: usize = 0;
    while i < n
        invariant
            n == levels@.len(),
            i <= n,
            is_descending(out@),
            out@.to_multiset() == levels@.subrange(0, i as int).to_multiset(),
        decreases n - i,
    {
        let x = levels[i];
        let mut pos: usize = 0;
        while pos < out.len() && out[pos] >= x
            invariant
                pos <= out@.len(),
                forall|k: int| 0 <= k < pos ==> out@[k] >= x,
            decreases out@.len() - pos,
        {
            pos = pos + 1;
        }
        proof {
            assert(pos < out@.len() ==> out@[pos as int] < x);
            vstd::seq_lib::to_multiset_insert(out@, pos as int, x);
            vstd::seq_lib::to_multiset_build(levels@.subrange(0, i as int), x);
            assert(levels@.subrange(0, i + 1) =~= levels@.subrange(0, i as int).push(x));
        }
        let ghost before = out@;
        out.insert(pos, x);
        proof {
            assert(out@ =~= before.insert(pos as int, x));
            assert forall|a: int, b: int| 0 <= a < b < out@.len() implies out@[a] >= out@[b] by {
                if b < pos {
                } else if b == pos {
                } else if a < pos {
                    assert(out@[b] == before[b - 1]);
                    if pos < before.len() {
                        assert(before[pos as int] >= before[b - 1]);
                    }
                } else if a == pos {
                    assert(before[pos as int] < x);
                    assert(before[pos as int] >= before[b - 1] || b - 1 == pos);
                } else {
                }
            }
        }
        i = i + 1;
    }
    proof {
        assert(levels@.subrange(0, n as int) =~= levels@);
    }
    out
}

} // verus!
