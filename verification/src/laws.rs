//! The laws of the correction store, each proved once and for all: sign
//! symmetry of direct application, exact round trips, agreement of indirect
//! composition with two direct corrections, the strict-validity gate, and
//! the content of merged stores.

use vstd::prelude::*;

use vstd::seq_lib::lemma_multiset_commutative;

use crate::correction::{applies_at, TimeCorrection};
use crate::epoch::{Epoch, MAX_DT_NANOS, MAX_INSTANT_NANOS};
use crate::merge::Merge;
use crate::polynomial::{lemma_offset_nanos_bound, lemma_tdiv_1g_close, offset_nanos, tdiv_1g};
use crate::search::{
    apply_ff, apply_forward, apply_reverse, bb_pred, dt_nanos_at, ff_pred, first_j, first_pair_at,
    fwd_pred, lookup, mid_nanos_ff, nearest_in, rev_pred, usable,
};
use crate::timescale::TimeScale;

verus! {

/// A polynomial without rate and acceleration terms prescribes its constant
/// offset at every instant difference.
pub proof fn lemma_constant_offset(p: crate::Polynomial, dt_nanos: int)
    requires
        p.rate == 0,
        p.accel == 0,
    ensures
        offset_nanos(p, dt_nanos) == p.constant,
{
    assert(p.rate * dt_nanos == 0) by (nonlinear_arith)
        requires
            p.rate == 0,
    ;
    assert(p.accel * tdiv_1g(dt_nanos * dt_nanos) == 0) by (nonlinear_arith)
        requires
            p.accel == 0,
    ;
    assert(tdiv_1g(0) == 0);
}

/// Reverse symmetry: at the same instant difference, the forward and
/// reverse applications of one entry displace the instant by exact
/// sign-negations of each other, and both relabel it into the target scale.
pub proof fn lemma_reverse_symmetry(c: TimeCorrection, t: Epoch, target: TimeScale)
    requires
        c.in_range(),
        t.in_range(),
    ensures
        apply_forward(c, t, target).nanos == t.nanos - offset_nanos(c.polynomial, dt_nanos_at(c, t)),
        apply_reverse(c, t, target).nanos == t.nanos + offset_nanos(c.polynomial, dt_nanos_at(c, t)),
        apply_forward(c, t, target).nanos - t.nanos == -(apply_reverse(c, t, target).nanos
            - t.nanos),
        apply_forward(c, t, target).time_scale == target,
        apply_reverse(c, t, target).time_scale == target,
{
    lemma_offset_nanos_bound(c.polynomial, dt_nanos_at(c, t));
}

/// In a one-entry store matching the request directly, the lenient search
/// selects that entry and applies it forward.
pub proof fn lemma_single_forward(c: TimeCorrection, t: Epoch, target: TimeScale, strict: bool)
    requires
        c.lhs_timescale == t.time_scale,
        c.rhs_timescale == target,
        t.time_scale != target,
        usable(c, t, strict),
    ensures
        lookup(strict, seq![c], t, target) == Some(apply_forward(c, t, target)),
{
    let entries = seq![c];
    assert(entries.drop_last() =~= Seq::<TimeCorrection>::empty());
    assert(nearest_in(Seq::<TimeCorrection>::empty(), fwd_pred(strict, t, target), t) is None);
    assert(fwd_pred(strict, t, target)(c));
    assert(entries[0] == c);
    assert(nearest_in(entries, fwd_pred(strict, t, target), t) == Some(0int));
}

/// In a one-entry store matching the request in reverse, the search selects
/// that entry and applies it in reverse.
pub proof fn lemma_single_reverse(c: TimeCorrection, t: Epoch, target: TimeScale, strict: bool)
    requires
        c.lhs_timescale == target,
        c.rhs_timescale == t.time_scale,
        t.time_scale != target,
        target != t.time_scale,
        usable(c, t, strict),
    ensures
        lookup(strict, seq![c], t, target) == Some(apply_reverse(c, t, target)),
{
    let entries = seq![c];
    assert(entries.drop_last() =~= Seq::<TimeCorrection>::empty());
    assert(entries[0] == c);
    assert(nearest_in(Seq::<TimeCorrection>::empty(), fwd_pred(strict, t, target), t) is None);
    assert(!fwd_pred(strict, t, target)(c));
    assert(nearest_in(entries, fwd_pred(strict, t, target), t) is None);
    assert(nearest_in(Seq::<TimeCorrection>::empty(), rev_pred(strict, t, target), t) is None);
    assert(rev_pred(strict, t, target)(c));
    assert(nearest_in(entries, rev_pred(strict, t, target), t) == Some(0int));
}

/// Strict validity: for an entry whose validity window has lapsed at `t`,
/// the strict store reports no correction available while the lenient store
/// succeeds, all other inputs held equal.
pub proof fn lemma_strict_validity(c: TimeCorrection, t: Epoch, target: TimeScale)
    requires
        c.in_range(),
        t.in_range(),
        c.lhs_timescale == t.time_scale,
        c.rhs_timescale == target,
        t.time_scale != target,
        !applies_at(c, t),
    ensures
        lookup(true, seq![c], t, target) is None,
        lookup(false, seq![c], t, target) == Some(apply_forward(c, t, target)),
{
    let entries = seq![c];
    assert(entries.drop_last() =~= Seq::<TimeCorrection>::empty());
    assert(entries[0] == c);
    assert(!usable(c, t, true));
    assert(nearest_in(Seq::<TimeCorrection>::empty(), fwd_pred(true, t, target), t) is None);
    assert(!fwd_pred(true, t, target)(c));
    assert(nearest_in(entries, fwd_pred(true, t, target), t) is None);
    assert(nearest_in(Seq::<TimeCorrection>::empty(), rev_pred(true, t, target), t) is None);
    assert(!rev_pred(true, t, target)(c));
    assert(nearest_in(entries, rev_pred(true, t, target), t) is None);
    assert(first_j(Seq::<TimeCorrection>::empty(), c, ff_pred(true, t, target)) is None);
    assert(!ff_pred(true, t, target)(c, c));
    assert(first_j(entries, c, ff_pred(true, t, target)) is None);
    assert(first_pair_at(entries, 1, ff_pred(true, t, target)) is None);
    assert(first_pair_at(entries, 0, ff_pred(true, t, target)) is None);
    assert(first_j(Seq::<TimeCorrection>::empty(), c, bb_pred(true, t, target)) is None);
    assert(!bb_pred(true, t, target)(c, c));
    assert(first_j(entries, c, bb_pred(true, t, target)) is None);
    assert(first_pair_at(entries, 1, bb_pred(true, t, target)) is None);
    assert(first_pair_at(entries, 0, bb_pred(true, t, target)) is None);
    lemma_single_forward(c, t, target, false);
}

/// Direct round trip: with a single constant entry correcting the source
/// scale into the target, correcting forward and then back recovers the
/// original instant unchanged, bit for bit.
pub proof fn lemma_direct_round_trip(c: TimeCorrection, t: Epoch, target: TimeScale)
    requires
        c.in_range(),
        t.in_range(),
        c.polynomial.rate == 0,
        c.polynomial.accel == 0,
        c.lhs_timescale == t.time_scale,
        c.rhs_timescale == target,
        t.time_scale != target,
        -MAX_INSTANT_NANOS <= t.nanos - c.polynomial.constant <= MAX_INSTANT_NANOS,
    ensures
        ({
            let forward = lookup(false, seq![c], t, target);
            &&& forward == Some(
                Epoch { time_scale: target, nanos: (t.nanos - c.polynomial.constant) as i128 },
            )
            &&& lookup(false, seq![c], forward.unwrap(), t.time_scale) == Some(t)
        }),
{
    let entries = seq![c];
    lemma_constant_offset(c.polynomial, dt_nanos_at(c, t));
    lemma_single_forward(c, t, target, false);
    let mid = apply_forward(c, t, target);
    assert(mid.nanos == t.nanos - c.polynomial.constant);
    assert(mid.in_range());
    lemma_constant_offset(c.polynomial, dt_nanos_at(c, mid));
    lemma_single_reverse(c, mid, t.time_scale, false);
    assert(apply_reverse(c, mid, t.time_scale).nanos == t.nanos);
    assert(apply_reverse(c, mid, t.time_scale) == t);
}

/// A polynomial without an acceleration term prescribes its constant plus
/// the truncated rate term.
pub proof fn lemma_linear_offset(p: crate::Polynomial, dt_nanos: int)
    requires
        p.accel == 0,
    ensures
        offset_nanos(p, dt_nanos) == p.constant + tdiv_1g(p.rate * dt_nanos),
{
    assert(p.accel * tdiv_1g(dt_nanos * dt_nanos) == 0) by (nonlinear_arith)
        requires
            p.accel == 0,
    ;
    assert(tdiv_1g(0) == 0);
}

/// Direct round trip under drift: with a single acceleration-free entry
/// whose rate term moves by less than one nanosecond across the first
/// correction's own displacement, correcting forward and then back recovers
/// the original instant to within one nanosecond.
pub proof fn lemma_direct_round_trip_drift(c: TimeCorrection, t: Epoch, target: TimeScale)
    requires
        c.in_range(),
        t.in_range(),
        c.polynomial.accel == 0,
        c.lhs_timescale == t.time_scale,
        c.rhs_timescale == target,
        t.time_scale != target,
        -MAX_INSTANT_NANOS <= t.nanos - offset_nanos(c.polynomial, dt_nanos_at(c, t))
            <= MAX_INSTANT_NANOS,
        -1_000_000_000 < c.polynomial.rate * offset_nanos(c.polynomial, dt_nanos_at(c, t))
            < 1_000_000_000,
    ensures
        ({
            let off = offset_nanos(c.polynomial, dt_nanos_at(c, t));
            let forward = lookup(false, seq![c], t, target);
            let back = lookup(false, seq![c], forward.unwrap(), t.time_scale);
            &&& forward == Some(Epoch { time_scale: target, nanos: (t.nanos - off) as i128 })
            &&& back is Some
            &&& back.unwrap().time_scale == t.time_scale
            &&& -1 <= back.unwrap().nanos - t.nanos <= 1
        }),
{
    let off1 = offset_nanos(c.polynomial, dt_nanos_at(c, t));
    let d1 = dt_nanos_at(c, t);
    lemma_single_forward(c, t, target, false);
    let mid = apply_forward(c, t, target);
    assert(mid.nanos == t.nanos - off1);
    assert(mid.in_range());
    lemma_single_reverse(c, mid, t.time_scale, false);
    let d2 = dt_nanos_at(c, mid);
    let off2 = offset_nanos(c.polynomial, d2);
    lemma_offset_nanos_bound(c.polynomial, d2);
    let back = apply_reverse(c, mid, t.time_scale);
    assert(back.nanos == mid.nanos + off2);
    lemma_linear_offset(c.polynomial, d1);
    lemma_linear_offset(c.polynomial, d2);
    assert(d2 == d1 - off1);
    assert(c.polynomial.rate * d2 - c.polynomial.rate * d1 == -(c.polynomial.rate * off1))
        by (nonlinear_arith)
        requires
            d2 == d1 - off1,
    ;
    lemma_tdiv_1g_close(c.polynomial.rate * d2, c.polynomial.rate * d1);
}

/// Indirect composition: with entries correcting A into B and B into C and
/// no direct A-to-C model, correcting A to C directly composes through the
/// intermediate scale and equals correcting A to B and then B to C, exactly.
pub proof fn lemma_indirect_composition(c1: TimeCorrection, c2: TimeCorrection, t: Epoch)
    requires
        c1.in_range(),
        c2.in_range(),
        t.in_range(),
        c1.lhs_timescale == t.time_scale,
        c2.lhs_timescale == c1.rhs_timescale,
        t.time_scale != c1.rhs_timescale,
        c1.rhs_timescale != c2.rhs_timescale,
        t.time_scale != c2.rhs_timescale,
        -MAX_INSTANT_NANOS <= mid_nanos_ff(c1, t) <= MAX_INSTANT_NANOS,
    ensures
        ({
            let db = seq![c1, c2];
            let hop = lookup(false, db, t, c1.rhs_timescale);
            let direct = lookup(false, db, t, c2.rhs_timescale);
            &&& hop == Some(apply_forward(c1, t, c1.rhs_timescale))
            &&& direct == Some(apply_forward(c2, hop.unwrap(), c2.rhs_timescale))
            &&& direct == lookup(false, db, hop.unwrap(), c2.rhs_timescale)
        }),
{
    let target = c2.rhs_timescale;
    let inter = c1.rhs_timescale;
    let db = seq![c1, c2];
    let s1 = db.drop_last();
    assert(s1 =~= seq![c1]);
    assert(s1.drop_last() =~= Seq::<TimeCorrection>::empty());
    assert(db[0] == c1 && db[1] == c2);
    assert(s1[0] == c1);

    // Tier one and two of the direct A-to-C request find no candidate.
    let fp = fwd_pred(false, t, target);
    assert(!fp(c1) && !fp(c2));
    assert(nearest_in(Seq::<TimeCorrection>::empty(), fp, t) is None);
    assert(nearest_in(s1, fp, t) is None);
    assert(nearest_in(db, fp, t) is None);
    let rp = rev_pred(false, t, target);
    assert(!rp(c1) && !rp(c2));
    assert(nearest_in(Seq::<TimeCorrection>::empty(), rp, t) is None);
    assert(nearest_in(s1, rp, t) is None);
    assert(nearest_in(db, rp, t) is None);

    // The forward-forward scan selects the pair (c1, c2).
    let q = ff_pred(false, t, target);
    assert(usable(c1, t, false) && usable(c2, t, false));
    assert(-MAX_DT_NANOS <= mid_nanos_ff(c1, t) - c2.ref_epoch.nanos <= MAX_DT_NANOS);
    assert(q(c1, c2));
    assert(!q(c1, c1));
    assert(first_j(Seq::<TimeCorrection>::empty(), c1, q) is None);
    assert(first_j(s1, c1, q) is None);
    assert(s1 =~= db.drop_last());
    assert(first_j(db, c1, q) == Some(1int)) by {
        assert(first_j(db.drop_last(), c1, q) is None);
        assert(db.last() == c2);
    }
    assert(first_pair_at(db, 0, q) == Some((0int, 1int)));
    assert(lookup(false, db, t, target) == Some(apply_ff(c1, c2, t, target)));

    // The first hop alone: a direct forward correction by c1.
    let p_hop = fwd_pred(false, t, inter);
    assert(p_hop(c1));
    assert(!p_hop(c2));
    assert(nearest_in(Seq::<TimeCorrection>::empty(), p_hop, t) is None);
    assert(nearest_in(s1, p_hop, t) == Some(0int));
    assert(nearest_in(db, p_hop, t) == Some(0int));
    let m = apply_forward(c1, t, inter);
    assert(lookup(false, db, t, inter) == Some(m));

    // The second hop alone: a direct forward correction by c2 at the
    // intermediate instant.
    assert(m.nanos == mid_nanos_ff(c1, t));
    assert(m.in_range());
    let p_snd = fwd_pred(false, m, target);
    assert(p_snd(c2));
    assert(!p_snd(c1));
    assert(nearest_in(Seq::<TimeCorrection>::empty(), p_snd, m) is None);
    assert(nearest_in(s1, p_snd, m) is None);
    assert(nearest_in(db, p_snd, m) == Some(1int));
    assert(lookup(false, db, m, target) == Some(apply_forward(c2, m, target)));

    // Composing once equals the two direct corrections in sequence.
    lemma_offset_nanos_bound(c2.polynomial, m.nanos - c2.ref_epoch.nanos);
    assert(apply_ff(c1, c2, t, target) == apply_forward(c2, m, target));
}

/// Merge content law: under the [`Merge`] contract, the merged value's
/// entry multiset is exactly the union of the operands' entry multisets.
pub proof fn lemma_merge_content_law<M: Merge>(a: &M, b: &M, merged: &M)
    requires
        merged.merge_seq() == a.merge_seq() + b.merge_seq(),
    ensures
        merged.merge_seq().to_multiset() == a.merge_seq().to_multiset().add(
            b.merge_seq().to_multiset(),
        ),
{
    lemma_multiset_commutative(a.merge_seq(), b.merge_seq());
}

/// Merge associativity: merging three values in either grouping yields the
/// same entry multiset (indeed the same entry sequence).
pub proof fn lemma_merge_associative<M: Merge>(a: &M, b: &M, c: &M, left: &M, right: &M)
    requires
        left.merge_seq() == (a.merge_seq() + b.merge_seq()) + c.merge_seq(),
        right.merge_seq() == a.merge_seq() + (b.merge_seq() + c.merge_seq()),
    ensures
        left.merge_seq() == right.merge_seq(),
        left.merge_seq().to_multiset() == right.merge_seq().to_multiset(),
{
    assert((a.merge_seq() + b.merge_seq()) + c.merge_seq() =~= a.merge_seq() + (b.merge_seq()
        + c.merge_seq()));
}

} // verus!
