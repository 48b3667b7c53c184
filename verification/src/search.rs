//! The three-tier lookup-and-apply model shared by the correction store and
//! the absolute-time resolver.
//!
//! Given a source instant and a desired destination scale, the search tries,
//! in order: entries correcting source to destination (direct-forward),
//! entries correcting destination to source (direct-reverse), and pairs of
//! entries composing through a shared intermediate scale (indirect, forward
//! then forward or backward then backward). The first tier with an eligible
//! candidate wins; within the direct tiers, ties are broken toward the
//! candidate whose reference instant is nearest to the source instant, the
//! earliest such entry on equal distances; within the indirect tier the
//! first eligible pair in scan order wins, forward pairs scanned before
//! backward pairs.

use vstd::prelude::*;

use crate::correction::{applies_at, ref_distance, TimeCorrection};
use crate::epoch::{Epoch, MAX_DT_NANOS};
use crate::polynomial::offset_nanos;
use crate::timescale::TimeScale;

verus! {

/// An entry is eligible at instant `t` when its values lie in the supported
/// range and, under strict validity, `t` falls within its validity window.
/// In a lenient store every in-range entry is perpetually applicable.
pub open spec fn usable(c: TimeCorrection, t: Epoch, strict: bool) -> bool {
    &&& c.in_range()
    &&& t.in_range()
    &&& (!strict || applies_at(c, t))
}

/// The signed time elapsed from the entry's reference instant to `t`,
/// in nanoseconds.
pub open spec fn dt_nanos_at(c: TimeCorrection, t: Epoch) -> int {
    t.nanos - c.ref_epoch.nanos
}

/// Forward application of an entry: relabel `t` into the target scale and
/// subtract the polynomial offset evaluated at `t`'s distance from the
/// entry's reference instant.
pub open spec fn apply_forward(c: TimeCorrection, t: Epoch, target: TimeScale) -> Epoch {
    Epoch {
        time_scale: target,
        nanos: (t.nanos - offset_nanos(c.polynomial, dt_nanos_at(c, t))) as i128,
    }
}

/// Reverse application of an entry: relabel `t` into the target scale and
/// add the polynomial offset, the exact sign-negation of the forward
/// application at the same instant difference.
pub open spec fn apply_reverse(c: TimeCorrection, t: Epoch, target: TimeScale) -> Epoch {
    Epoch {
        time_scale: target,
        nanos: (t.nanos + offset_nanos(c.polynomial, dt_nanos_at(c, t))) as i128,
    }
}

/// The eligibility test of the direct-forward tier: the entry corrects the
/// source scale into the target scale and is usable at `t`.
pub open spec fn fwd_pred(strict: bool, t: Epoch, target: TimeScale) -> spec_fn(
    TimeCorrection,
) -> bool {
    |c: TimeCorrection|
        c.lhs_timescale == t.time_scale && c.rhs_timescale == target && usable(c, t, strict)
}

/// The eligibility test of the direct-reverse tier: the entry corrects the
/// target scale into the source scale and is usable at `t`.
pub open spec fn rev_pred(strict: bool, t: Epoch, target: TimeScale) -> spec_fn(
    TimeCorrection,
) -> bool {
    |c: TimeCorrection|
        c.lhs_timescale == target && c.rhs_timescale == t.time_scale && usable(c, t, strict)
}

/// The index of the entry selected among `entries` by predicate `p`: the
/// eligible entry whose reference instant is nearest to `t`, the earliest
/// such entry on equal distances.
pub open spec fn nearest_in(
    entries: Seq<TimeCorrection>,
    p: spec_fn(TimeCorrection) -> bool,
    t: Epoch,
) -> Option<int>
    decreases entries.len(),
{
    if entries.len() == 0 {
        None
    } else {
        let last = entries.len() - 1;
        let prior = nearest_in(entries.drop_last(), p, t);
        if p(entries[last]) {
            match prior {
                None => Some(last as int),
                Some(j) => if ref_distance(entries[last], t) < ref_distance(entries[j], t) {
                    Some(last as int)
                } else {
                    Some(j)
                },
            }
        } else {
            prior
        }
    }
}

/// The instant `t` lands on after the first hop of a forward-forward pair.
pub open spec fn mid_nanos_ff(e1: TimeCorrection, t: Epoch) -> int {
    t.nanos - offset_nanos(e1.polynomial, dt_nanos_at(e1, t))
}

/// The instant `t` lands on after the first hop of a backward-backward pair.
pub open spec fn mid_nanos_bb(e1: TimeCorrection, t: Epoch) -> int {
    t.nanos + offset_nanos(e1.polynomial, dt_nanos_at(e1, t))
}

/// Eligibility of an ordered pair for forward-forward composition: `e1`
/// corrects the source scale into an intermediate scale, `e2` corrects that
/// intermediate scale into the target, both are usable at `t`, and the
/// intermediate instant's distance to `e2`'s reference stays within the
/// supported evaluation range.
pub open spec fn ff_pred(strict: bool, t: Epoch, target: TimeScale) -> spec_fn(
    TimeCorrection,
    TimeCorrection,
) -> bool {
    |e1: TimeCorrection, e2: TimeCorrection|
        {
            &&& e1.lhs_timescale == t.time_scale
            &&& e2.lhs_timescale == e1.rhs_timescale
            &&& e2.rhs_timescale == target
            &&& usable(e1, t, strict)
            &&& usable(e2, t, strict)
            &&& -MAX_DT_NANOS <= mid_nanos_ff(e1, t) - e2.ref_epoch.nanos <= MAX_DT_NANOS
        }
}

/// Eligibility of an ordered pair for backward-backward composition: `e1`
/// corrects an intermediate scale into the source scale, `e2` corrects the
/// target into that intermediate scale, both are usable at `t`, and the
/// intermediate instant's distance to `e2`'s reference stays within the
/// supported evaluation range.
pub open spec fn bb_pred(strict: bool, t: Epoch, target: TimeScale) -> spec_fn(
    TimeCorrection,
    TimeCorrection,
) -> bool {
    |e1: TimeCorrection, e2: TimeCorrection|
        {
            &&& e1.rhs_timescale == t.time_scale
            &&& e2.rhs_timescale == e1.lhs_timescale
            &&& e2.lhs_timescale == target
            &&& usable(e1, t, strict)
            &&& usable(e2, t, strict)
            &&& -MAX_DT_NANOS <= mid_nanos_bb(e1, t) - e2.ref_epoch.nanos <= MAX_DT_NANOS
        }
}

/// Forward-forward composition: both hops applied forward, the second hop
/// evaluated at the intermediate instant the first hop produced, so that
/// composing equals correcting through the intermediate scale in two calls.
pub open spec fn apply_ff(
    e1: TimeCorrection,
    e2: TimeCorrection,
    t: Epoch,
    target: TimeScale,
) -> Epoch {
    let mid = mid_nanos_ff(e1, t);
    Epoch {
        time_scale: target,
        nanos: (mid - offset_nanos(e2.polynomial, mid - e2.ref_epoch.nanos)) as i128,
    }
}

/// Backward-backward composition: both hops applied in reverse, the second
/// hop evaluated at the intermediate instant the first hop produced.
pub open spec fn apply_bb(
    e1: TimeCorrection,
    e2: TimeCorrection,
    t: Epoch,
    target: TimeScale,
) -> Epoch {
    let mid = mid_nanos_bb(e1, t);
    Epoch {
        time_scale: target,
        nanos: (mid + offset_nanos(e2.polynomial, mid - e2.ref_epoch.nanos)) as i128,
    }
}

/// The first index `j` (in scan order) such that `q(e1, entries[j])` holds.
pub open spec fn first_j(
    entries: Seq<TimeCorrection>,
    e1: TimeCorrection,
    q: spec_fn(TimeCorrection, TimeCorrection) -> bool,
) -> Option<int>
    decreases entries.len(),
{
    if entries.len() == 0 {
        None
    } else {
        let last = entries.len() - 1;
        match first_j(entries.drop_last(), e1, q) {
            Some(j) => Some(j),
            None => if q(e1, entries[last]) {
                Some(last as int)
            } else {
                None
            },
        }
    }
}

/// The first pair `(i, j)` in lexicographic scan order, starting at row `i`,
/// such that `q(entries[i], entries[j])` holds.
pub open spec fn first_pair_at(
    entries: Seq<TimeCorrection>,
    i: int,
    q: spec_fn(TimeCorrection, TimeCorrection) -> bool,
) -> Option<(int, int)>
    decreases entries.len() - i,
{
    if i < 0 || i >= entries.len() {
        None
    } else {
        match first_j(entries, entries[i], q) {
            Some(j) => Some((i, j)),
            None => first_pair_at(entries, i + 1, q),
        }
    }
}

/// The first pair `(i, j)` in lexicographic scan order such that
/// `q(entries[i], entries[j])` holds.
pub open spec fn first_pair(
    entries: Seq<TimeCorrection>,
    q: spec_fn(TimeCorrection, TimeCorrection) -> bool,
) -> Option<(int, int)> {
    first_pair_at(entries, 0, q)
}

/// The three-tier lookup: the corrected instant that a store with strictness
/// `strict` and entry sequence `entries` produces for source instant `t` and
/// destination scale `target`, or `None` when no eligible path exists.
///
/// Correcting an instant to its own scale returns it unchanged, bit for bit,
/// at zero cost.
pub open spec fn lookup(
    strict: bool,
    entries: Seq<TimeCorrection>,
    t: Epoch,
    target: TimeScale,
) -> Option<Epoch> {
    if t.time_scale == target {
        Some(t)
    } else {
        match nearest_in(entries, fwd_pred(strict, t, target), t) {
            Some(i) => Some(apply_forward(entries[i], t, target)),
            None => match nearest_in(entries, rev_pred(strict, t, target), t) {
                Some(i) => Some(apply_reverse(entries[i], t, target)),
                None => match first_pair(entries, ff_pred(strict, t, target)) {
                    Some(p) => Some(apply_ff(entries[p.0], entries[p.1], t, target)),
                    None => match first_pair(entries, bb_pred(strict, t, target)) {
                        Some(p) => Some(apply_bb(entries[p.0], entries[p.1], t, target)),
                        None => None,
                    },
                },
            },
        }
    }
}

/// True when the store can serve the request at all: the degenerate case or
/// at least one tier holding an eligible candidate. [`lookup`] succeeds
/// exactly on these inputs.
pub open spec fn correction_reachable(
    strict: bool,
    entries: Seq<TimeCorrection>,
    t: Epoch,
    target: TimeScale,
) -> bool {
    ||| t.time_scale == target
    ||| nearest_in(entries, fwd_pred(strict, t, target), t) is Some
    ||| nearest_in(entries, rev_pred(strict, t, target), t) is Some
    ||| first_pair(entries, ff_pred(strict, t, target)) is Some
    ||| first_pair(entries, bb_pred(strict, t, target)) is Some
}

/// [`lookup`] succeeds exactly when [`correction_reachable`] holds, and its
/// result always carries the requested scale tag.
pub proof fn lemma_lookup_reachable(
    strict: bool,
    entries: Seq<TimeCorrection>,
    t: Epoch,
    target: TimeScale,
)
    ensures
        lookup(strict, entries, t, target) is Some <==> correction_reachable(
            strict,
            entries,
            t,
            target,
        ),
        lookup(strict, entries, t, target) matches Some(e) ==> e.time_scale == target,
{
    if t.time_scale == target {
        assert(lookup(strict, entries, t, target) == Some(t));
    }
}

/// A selected index denotes an entry that satisfies the selection predicate,
/// and no eligible entry sits strictly nearer to the instant.
pub proof fn lemma_nearest_in_props(
    entries: Seq<TimeCorrection>,
    p: spec_fn(TimeCorrection) -> bool,
    t: Epoch,
)
    ensures
        nearest_in(entries, p, t) matches Some(j) ==> {
            &&& 0 <= j < entries.len()
            &&& p(entries[j])
            &&& forall|k: int|
                0 <= k < entries.len() && p(entries[k]) ==> ref_distance(entries[j], t)
                    <= #[trigger] ref_distance(entries[k], t)
        },
        nearest_in(entries, p, t) is None ==> forall|k: int|
            0 <= k < entries.len() ==> !p(#[trigger] entries[k]),
    decreases entries.len(),
{
    if entries.len() > 0 {
        lemma_nearest_in_props(entries.drop_last(), p, t);
        assert forall|k: int| 0 <= k < entries.len() - 1 implies entries.drop_last()[k]
            == entries[k] by {}
    }
}

/// A selected pair denotes entries that satisfy the pair predicate.
pub proof fn lemma_first_j_props(
    entries: Seq<TimeCorrection>,
    e1: TimeCorrection,
    q: spec_fn(TimeCorrection, TimeCorrection) -> bool,
)
    ensures
        first_j(entries, e1, q) matches Some(j) ==> 0 <= j < entries.len() && q(e1, entries[j]),
        first_j(entries, e1, q) is None ==> forall|k: int|
            0 <= k < entries.len() ==> !q(e1, #[trigger] entries[k]),
    decreases entries.len(),
{
    if entries.len() > 0 {
        lemma_first_j_props(entries.drop_last(), e1, q);
        assert forall|k: int| 0 <= k < entries.len() - 1 implies entries.drop_last()[k]
            == entries[k] by {}
    }
}

/// A selected pair denotes entries that satisfy the pair predicate; absence
/// of a pair means no pair of entries satisfies it.
pub proof fn lemma_first_pair_at_props(
    entries: Seq<TimeCorrection>,
    i: int,
    q: spec_fn(TimeCorrection, TimeCorrection) -> bool,
)
    requires
        0 <= i,
    ensures
        first_pair_at(entries, i, q) matches Some(pair) ==> {
            &&& i <= pair.0 < entries.len()
            &&& 0 <= pair.1 < entries.len()
            &&& q(entries[pair.0], entries[pair.1])
        },
        first_pair_at(entries, i, q) is None ==> forall|a: int, b: int|
            i <= a < entries.len() && 0 <= b < entries.len() ==> !q(
                #[trigger] entries[a],
                #[trigger] entries[b],
            ),
    decreases entries.len() - i,
{
    if 0 <= i < entries.len() {
        lemma_first_j_props(entries, entries[i], q);
        lemma_first_pair_at_props(entries, i + 1, q);
    }
}

} // verus!
