//! The correction store: an owned collection of [`TimeCorrection`] entries
//! with insertion, age-based eviction, and the three-tier lookup.

use vstd::prelude::*;

use crate::correction::{ref_distance, TimeCorrection};
use crate::epoch::{Epoch, MAX_DT_NANOS};
use crate::merge::{Merge, MergeError};
use crate::polynomial::{eval_offset_nanos, Polynomial, MAX_COEF_NANOS};
use crate::search::{
    apply_bb, apply_ff, apply_forward, apply_reverse, bb_pred, correction_reachable, ff_pred,
    first_j, first_pair, first_pair_at, fwd_pred, lemma_lookup_reachable, lookup, mid_nanos_bb,
    mid_nanos_ff, nearest_in, rev_pred, usable,
};
use crate::timescale::TimeScale;

verus! {

/// Nanoseconds in seven days: the horizon of [`TimeCorrectionsDB::outdate_weekly`].
pub const WEEK_NANOS: i128 = 604_800_000_000_000;

/// The retention test of [`TimeCorrectionsDB::outdate_past`]: the entry's
/// reference instant lies strictly after the cutoff.
pub open spec fn kept_past(instant: Epoch) -> spec_fn(TimeCorrection) -> bool {
    |c: TimeCorrection| c.ref_epoch.nanos > instant.nanos
}

/// The retention test of [`TimeCorrectionsDB::outdate_weekly`]: the entry's
/// reference instant lies strictly after `instant` minus seven days.
pub open spec fn kept_weekly(instant: Epoch) -> spec_fn(TimeCorrection) -> bool {
    |c: TimeCorrection| c.ref_epoch.nanos - instant.nanos > -WEEK_NANOS
}

/// A database of [`TimeCorrection`] entries for applications that need exact
/// time-scale states. Entries are appended by the caller and only ever
/// removed by the explicit eviction methods; the store never edits an
/// entry's fields, never evicts on its own, and accepts several entries for
/// the same scale pair over different windows.
///
/// By default the store is lenient: every entry is treated as perpetually
/// applicable, extrapolation included. A store obtained through
/// [`TimeCorrectionsDB::strict_validity`] instead rejects candidates whose
/// validity window does not cover the corrected instant.
#[derive(Clone)]
pub struct TimeCorrectionsDB {
    /// Whether the validity window gates candidate selection.
    pub(crate) strict: bool,
    /// The owned entry collection.
    pub(crate) corrections: Vec<TimeCorrection>,
}

impl Default for TimeCorrectionsDB {
    /// An empty, lenient store.
    fn default() -> (r: TimeCorrectionsDB)
        ensures
            !r.is_strict(),
            r.entries() == Seq::<TimeCorrection>::empty(),
    {
        TimeCorrectionsDB { strict: false, corrections: Vec::new() }
    }
}

/// True when every coefficient of `p` lies in the supported range; the
/// executable counterpart of [`Polynomial::in_range`].
fn poly_in_range(p: &Polynomial) -> (b: bool)
    ensures
        b == p.in_range(),
{
    -MAX_COEF_NANOS <= p.constant && p.constant <= MAX_COEF_NANOS && -MAX_COEF_NANOS <= p.rate
        && p.rate <= MAX_COEF_NANOS && -MAX_COEF_NANOS <= p.accel && p.accel <= MAX_COEF_NANOS
}

/// True when entry `c` is eligible at instant `t`; the executable
/// counterpart of [`usable`].
fn entry_usable(c: &TimeCorrection, t: &Epoch, strict: bool) -> (b: bool)
    ensures
        b == usable(*c, *t, strict),
{
    c.ref_epoch.is_in_range() && poly_in_range(&c.polynomial) && t.is_in_range() && (!strict
        || c.applies(*t))
}

/// The absolute distance from `t` to the entry's reference instant; the
/// executable counterpart of [`ref_distance`].
fn distance_of(c: &TimeCorrection, t: &Epoch) -> (d: i128)
    requires
        c.ref_epoch.in_range(),
        t.in_range(),
    ensures
        d == ref_distance(*c, *t),
{
    if t.nanos >= c.ref_epoch.nanos {
        t.nanos - c.ref_epoch.nanos
    } else {
        c.ref_epoch.nanos - t.nanos
    }
}

/// Applies entry `c` forward at instant `t`; the executable counterpart of
/// [`apply_forward`].
fn apply_forward_exec(c: &TimeCorrection, t: &Epoch, target: TimeScale) -> (r: Epoch)
    requires
        c.in_range(),
        t.in_range(),
    ensures
        r == apply_forward(*c, *t, target),
{
    let dt = t.nanos - c.ref_epoch.nanos;
    let off = eval_offset_nanos(&c.polynomial, dt);
    Epoch { time_scale: target, nanos: t.nanos - off }
}

/// Applies entry `c` in reverse at instant `t`; the executable counterpart
/// of [`apply_reverse`].
fn apply_reverse_exec(c: &TimeCorrection, t: &Epoch, target: TimeScale) -> (r: Epoch)
    requires
        c.in_range(),
        t.in_range(),
    ensures
        r == apply_reverse(*c, *t, target),
{
    let dt = t.nanos - c.ref_epoch.nanos;
    let off = eval_offset_nanos(&c.polynomial, dt);
    Epoch { time_scale: target, nanos: t.nanos + off }
}

/// Composes a forward-forward pair at instant `t`; the executable
/// counterpart of [`apply_ff`].
fn apply_ff_exec(e1: &TimeCorrection, e2: &TimeCorrection, t: &Epoch, target: TimeScale) -> (r:
    Epoch)
    requires
        e1.in_range(),
        e2.in_range(),
        t.in_range(),
        -MAX_DT_NANOS <= mid_nanos_ff(*e1, *t) - e2.ref_epoch.nanos <= MAX_DT_NANOS,
    ensures
        r == apply_ff(*e1, *e2, *t, target),
{
    let dt1 = t.nanos - e1.ref_epoch.nanos;
    let off1 = eval_offset_nanos(&e1.polynomial, dt1);
    let mid = t.nanos - off1;
    let dt2 = mid - e2.ref_epoch.nanos;
    let off2 = eval_offset_nanos(&e2.polynomial, dt2);
    Epoch { time_scale: target, nanos: mid - off2 }
}

/// Composes a backward-backward pair at instant `t`; the executable
/// counterpart of [`apply_bb`].
fn apply_bb_exec(e1: &TimeCorrection, e2: &TimeCorrection, t: &Epoch, target: TimeScale) -> (r:
    Epoch)
    requires
        e1.in_range(),
        e2.in_range(),
        t.in_range(),
        -MAX_DT_NANOS <= mid_nanos_bb(*e1, *t) - e2.ref_epoch.nanos <= MAX_DT_NANOS,
    ensures
        r == apply_bb(*e1, *e2, *t, target),
{
    let dt1 = t.nanos - e1.ref_epoch.nanos;
    let off1 = eval_offset_nanos(&e1.polynomial, dt1);
    let mid = t.nanos + off1;
    let dt2 = mid - e2.ref_epoch.nanos;
    let off2 = eval_offset_nanos(&e2.polynomial, dt2);
    Epoch { time_scale: target, nanos: mid + off2 }
}

/// Whether the ordered pair `(e1, e2)` is eligible for two-hop composition
/// at `t`; the executable counterpart of [`ff_pred`] (`backward` false) or
/// [`bb_pred`] (`backward` true).
fn pair_matches(
    e1: &TimeCorrection,
    e2: &TimeCorrection,
    t: &Epoch,
    target: TimeScale,
    strict: bool,
    backward: bool,
) -> (b: bool)
    ensures
        !backward ==> b == ff_pred(strict, *t, target)(*e1, *e2),
        backward ==> b == bb_pred(strict, *t, target)(*e1, *e2),
{
    let scales_ok = if backward {
        e1.rhs_timescale == t.time_scale && e2.rhs_timescale == e1.lhs_timescale
            && e2.lhs_timescale == target
    } else {
        e1.lhs_timescale == t.time_scale && e2.lhs_timescale == e1.rhs_timescale
            && e2.rhs_timescale == target
    };
    if !scales_ok {
        return false;
    }
    if !entry_usable(e1, t, strict) || !entry_usable(e2, t, strict) {
        return false;
    }
    let dt1 = t.nanos - e1.ref_epoch.nanos;
    let off1 = eval_offset_nanos(&e1.polynomial, dt1);
    let mid = if backward {
        t.nanos + off1
    } else {
        t.nanos - off1
    };
    let dt2 = mid - e2.ref_epoch.nanos;
    -MAX_DT_NANOS <= dt2 && dt2 <= MAX_DT_NANOS
}

/// Scans `entries` for the eligible direct candidate whose reference
/// instant is nearest to `t`, in the forward (`reverse` false) or reverse
/// (`reverse` true) direction.
fn find_nearest(
    entries: &Vec<TimeCorrection>,
    t: &Epoch,
    target: TimeScale,
    strict: bool,
    reverse: bool,
) -> (r: Option<usize>)
    ensures
        ({
            let p = if reverse {
                rev_pred(strict, *t, target)
            } else {
                fwd_pred(strict, *t, target)
            };
            match r {
                Some(i) => i < entries@.len() && nearest_in(entries@, p, *t) == Some(i as int),
                None => nearest_in(entries@, p, *t) is None,
            }
        }),
{
    let ghost p = if reverse {
        rev_pred(strict, *t, target)
    } else {
        fwd_pred(strict, *t, target)
    };
    let mut best: Option<usize> = None;
    let mut i: usize = 0;
    while i < entries.len()
        invariant
            i <= entries@.len(),
            p == if reverse {
                rev_pred(strict, *t, target)
            } else {
                fwd_pred(strict, *t, target)
            },
            match best {
                Some(b) => b < i && nearest_in(entries@.take(i as int), p, *t) == Some(b as int)
                    && entries@[b as int].ref_epoch.in_range() && t.in_range(),
                None => nearest_in(entries@.take(i as int), p, *t) is None,
            },
        decreases entries@.len() - i,
    {
        let c = &entries[i];
        let candidate_ok = if reverse {
            c.lhs_timescale == target && c.rhs_timescale == t.time_scale && entry_usable(
                c,
                t,
                strict,
            )
        } else {
            c.lhs_timescale == t.time_scale && c.rhs_timescale == target && entry_usable(
                c,
                t,
                strict,
            )
        };
        proof {
            assert(entries@.take(i + 1 as int).drop_last() =~= entries@.take(i as int));
            assert(entries@.take(i + 1 as int).last() == entries@[i as int]);
            assert(candidate_ok == p(entries@[i as int]));
        }
        if candidate_ok {
            match best {
                None => {
                    best = Some(i);
                },
                Some(b) => {
                    let d_new = distance_of(c, t);
                    let d_best = distance_of(&entries[b], t);
                    if d_new < d_best {
                        best = Some(i);
                    }
                },
            }
        }
        i = i + 1;
    }
    proof {
        assert(entries@.take(entries@.len() as int) =~= entries@);
    }
    best
}

/// Scans all ordered entry pairs, rows outermost, for the first pair
/// eligible for two-hop composition at `t`, forward-forward (`backward`
/// false) or backward-backward (`backward` true).
fn find_first_pair(
    entries: &Vec<TimeCorrection>,
    t: &Epoch,
    target: TimeScale,
    strict: bool,
    backward: bool,
) -> (r: Option<(usize, usize)>)
    ensures
        ({
            let q = if backward {
                bb_pred(strict, *t, target)
            } else {
                ff_pred(strict, *t, target)
            };
            match r {
                Some(pair) => pair.0 < entries@.len() && pair.1 < entries@.len() && first_pair(
                    entries@,
                    q,
                ) == Some((pair.0 as int, pair.1 as int)),
                None => first_pair(entries@, q) is None,
            }
        }),
{
    let ghost q = if backward {
        bb_pred(strict, *t, target)
    } else {
        ff_pred(strict, *t, target)
    };
    let mut i: usize = 0;
    while i < entries.len()
        invariant
            i <= entries@.len(),
            q == if backward {
                bb_pred(strict, *t, target)
            } else {
                ff_pred(strict, *t, target)
            },
            first_pair_at(entries@, 0, q) == first_pair_at(entries@, i as int, q),
        decreases entries@.len() - i,
    {
        let e1 = &entries[i];
        let mut j: usize = 0;
        while j < entries.len()
            invariant
                i < entries@.len(),
                j <= entries@.len(),
                e1 == &entries@[i as int],
                q == if backward {
                    bb_pred(strict, *t, target)
                } else {
                    ff_pred(strict, *t, target)
                },
                first_pair_at(entries@, 0, q) == first_pair_at(entries@, i as int, q),
                first_j(entries@.take(j as int), entries@[i as int], q) is None,
            decreases entries@.len() - j,
        {
            let hit = pair_matches(e1, &entries[j], t, target, strict, backward);
            proof {
                assert(entries@.take(j + 1 as int).drop_last() =~= entries@.take(j as int));
                assert(entries@.take(j + 1 as int).last() == entries@[j as int]);
            }
            if hit {
                proof {
                    lemma_first_j_from_prefix(entries@, entries@[i as int], q, j as int);
                    assert(first_pair_at(entries@, i as int, q) == Some((i as int, j as int)));
                }
                return Some((i, j));
            }
            j = j + 1;
        }
        proof {
            assert(entries@.take(entries@.len() as int) =~= entries@);
            assert(first_j(entries@, entries@[i as int], q) is None);
            assert(first_pair_at(entries@, i as int, q) == first_pair_at(entries@, i + 1, q));
        }
        i = i + 1;
    }
    proof {
        assert(first_pair_at(entries@, i as int, q) is None);
    }
    None
}

/// A match at `j`, with no match before it, makes `j` the first match of the
/// whole sequence.
proof fn lemma_first_j_from_prefix(
    entries: Seq<TimeCorrection>,
    e1: TimeCorrection,
    q: spec_fn(TimeCorrection, TimeCorrection) -> bool,
    j: int,
)
    requires
        0 <= j < entries.len(),
        first_j(entries.take(j), e1, q) is None,
        q(e1, entries[j]),
    ensures
        first_j(entries, e1, q) == Some(j),
    decreases entries.len(),
{
    if entries.len() - 1 == j {
        assert(entries.drop_last() =~= entries.take(j));
    } else {
        assert(entries.drop_last().take(j) =~= entries.take(j));
        lemma_first_j_from_prefix(entries.drop_last(), e1, q, j);
    }
}

impl TimeCorrectionsDB {
    /// The store's entry sequence, in insertion order.
    pub open(crate) spec fn entries(self) -> Seq<TimeCorrection> {
        self.corrections@
    }

    /// Whether the store enforces validity windows strictly.
    pub open(crate) spec fn is_strict(self) -> bool {
        self.strict
    }

    /// A copy of this store that respects each entry's validity period
    /// strictly: it proposes no correction outside an entry's window.
    pub fn strict_validity(&self) -> (r: TimeCorrectionsDB)
        ensures
            r.is_strict(),
            r.entries() == self.entries(),
    {
        let mut copied: Vec<TimeCorrection> = Vec::new();
        let mut i: usize = 0;
        while i < self.corrections.len()
            invariant
                i <= self.corrections@.len(),
                copied@ == self.corrections@.take(i as int),
            decreases self.corrections@.len() - i,
        {
            copied.push(self.corrections[i]);
            proof {
                assert(self.corrections@.take(i + 1 as int) =~= self.corrections@.take(
                    i as int,
                ).push(self.corrections@[i as int]));
            }
            i = i + 1;
        }
        proof {
            assert(self.corrections@.take(self.corrections@.len() as int) =~= self.corrections@);
        }
        TimeCorrectionsDB { strict: true, corrections: copied }
    }

    /// Adds a new entry. Entries already stored for the same scale pair are
    /// kept: the store accumulates history.
    pub fn add(&mut self, correction: TimeCorrection)
        ensures
            final(self).entries() == old(self).entries().push(correction),
            final(self).is_strict() == old(self).is_strict(),
    {
        self.corrections.push(correction);
    }

    /// Discards entries whose reference instant is at or before `instant`.
    /// Afterwards every remaining entry's reference instant is strictly
    /// later than the cutoff.
    pub fn outdate_past(&mut self, instant: Epoch)
        ensures
            final(self).entries() == old(self).entries().filter(kept_past(instant)),
            final(self).is_strict() == old(self).is_strict(),
            forall|k: int|
                0 <= k < final(self).entries().len() ==> (#[trigger] final(self).entries()[k])
                    .ref_epoch.nanos > instant.nanos,
    {
        let ghost pred = kept_past(instant);
        proof {
            reveal(Seq::<_>::filter);
            assert(self.corrections@.take(0).filter(pred) =~= Seq::<TimeCorrection>::empty());
        }
        let mut kept: Vec<TimeCorrection> = Vec::new();
        let mut i: usize = 0;
        while i < self.corrections.len()
            invariant
                i <= self.corrections@.len(),
                pred == kept_past(instant),
                kept@ == self.corrections@.take(i as int).filter(pred),
            decreases self.corrections@.len() - i,
        {
            proof {
                reveal(Seq::<_>::filter);
                assert(self.corrections@.take(i + 1 as int).drop_last() =~= self.corrections@.take(
                    i as int,
                ));
                assert(self.corrections@.take(i + 1 as int).last() == self.corrections@[i as int]);
                assert(pred(self.corrections@[i as int]) == (self.corrections@[i as int]
                    .ref_epoch.nanos > instant.nanos));
            }
            if self.corrections[i].ref_epoch.nanos > instant.nanos {
                kept.push(self.corrections[i]);
            }
            i = i + 1;
        }
        proof {
            assert(self.corrections@.take(self.corrections@.len() as int) =~= self.corrections@);
        }
        self.corrections = kept;
        proof {
            broadcast use vstd::seq_lib::group_filter_ensures;

            assert forall|k: int| 0 <= k < self.entries().len() implies (#[trigger] self
                .entries()[k]).ref_epoch.nanos > instant.nanos by {
                assert(pred(self.entries()[k]));
            }
        }
    }

    /// Discards entries whose reference instant precedes `instant` by seven
    /// days or more: entries published before the week leading up to
    /// `instant` are dropped.
    pub fn outdate_weekly(&mut self, instant: Epoch)
        ensures
            final(self).entries() == old(self).entries().filter(kept_weekly(instant)),
            final(self).is_strict() == old(self).is_strict(),
    {
        let ghost pred = kept_weekly(instant);
        proof {
            reveal(Seq::<_>::filter);
            assert(self.corrections@.take(0).filter(pred) =~= Seq::<TimeCorrection>::empty());
        }
        let mut kept: Vec<TimeCorrection> = Vec::new();
        let mut i: usize = 0;
        while i < self.corrections.len()
            invariant
                i <= self.corrections@.len(),
                pred == kept_weekly(instant),
                kept@ == self.corrections@.take(i as int).filter(pred),
            decreases self.corrections@.len() - i,
        {
            proof {
                reveal(Seq::<_>::filter);
                assert(self.corrections@.take(i + 1 as int).drop_last() =~= self.corrections@.take(
                    i as int,
                ));
                assert(self.corrections@.take(i + 1 as int).last() == self.corrections@[i as int]);
                assert(pred(self.corrections@[i as int]) == (self.corrections@[i as int]
                    .ref_epoch.nanos - instant.nanos > -WEEK_NANOS));
            }
            let keep = match self.corrections[i].ref_epoch.nanos.checked_sub(instant.nanos) {
                Some(diff) => diff > -WEEK_NANOS,
                None => self.corrections[i].ref_epoch.nanos > instant.nanos,
            };
            if keep {
                kept.push(self.corrections[i]);
            }
            i = i + 1;
        }
        proof {
            assert(self.corrections@.take(self.corrections@.len() as int) =~= self.corrections@);
        }
        self.corrections = kept;
    }

    /// Interpolates and corrects instant `t` into the desired target scale:
    /// the three-tier search of [`lookup`], returning `None` when no
    /// eligible direct or composable indirect entry connects the scales.
    ///
    /// Success and failure are exactly characterised: the call returns
    /// `Some` precisely on the inputs [`correction_reachable`] describes,
    /// and the corrected instant always carries the requested scale tag.
    /// Correcting an instant into its own scale returns it unchanged.
    pub fn precise_epoch_correction(&self, t: Epoch, target: TimeScale) -> (r: Option<Epoch>)
        ensures
            r == lookup(self.is_strict(), self.entries(), t, target),
            r is Some <==> correction_reachable(self.is_strict(), self.entries(), t, target),
            r matches Some(e) ==> e.time_scale == target,
            t.time_scale == target ==> r == Some(t),
    {
        proof {
            lemma_lookup_reachable(self.is_strict(), self.entries(), t, target);
        }
        if t.time_scale == target {
            return Some(t);
        }
        if let Some(i) = find_nearest(&self.corrections, &t, target, self.strict, false) {
            proof {
                crate::search::lemma_nearest_in_props(
                    self.entries(),
                    fwd_pred(self.is_strict(), t, target),
                    t,
                );
            }
            return Some(apply_forward_exec(&self.corrections[i], &t, target));
        }
        if let Some(i) = find_nearest(&self.corrections, &t, target, self.strict, true) {
            proof {
                crate::search::lemma_nearest_in_props(
                    self.entries(),
                    rev_pred(self.is_strict(), t, target),
                    t,
                );
            }
            return Some(apply_reverse_exec(&self.corrections[i], &t, target));
        }
        if let Some(pair) = find_first_pair(&self.corrections, &t, target, self.strict, false) {
            proof {
                crate::search::lemma_first_pair_at_props(
                    self.entries(),
                    0,
                    ff_pred(self.is_strict(), t, target),
                );
            }
            return Some(
                apply_ff_exec(&self.corrections[pair.0], &self.corrections[pair.1], &t, target),
            );
        }
        if let Some(pair) = find_first_pair(&self.corrections, &t, target, self.strict, true) {
            proof {
                crate::search::lemma_first_pair_at_props(
                    self.entries(),
                    0,
                    bb_pred(self.is_strict(), t, target),
                );
            }
            return Some(
                apply_bb_exec(&self.corrections[pair.0], &self.corrections[pair.1], &t, target),
            );
        }
        None
    }
}

} // verus!

verus! {

/// Under the [`Merge`] contract the store combines exactly its entry
/// sequence: [`Merge::merge_seq`] and [`TimeCorrectionsDB::entries`] agree.
pub broadcast proof fn lemma_db_merge_seq(db: &TimeCorrectionsDB)
    ensures
        #[trigger] db.merge_seq() == db.entries(),
{
}

impl Merge for TimeCorrectionsDB {
    type Entry = TimeCorrection;

    /// The store's entry sequence; identical to [`TimeCorrectionsDB::entries`].
    closed spec fn merge_seq(&self) -> Seq<TimeCorrection> {
        self.corrections@
    }

    /// A new store holding `self`'s entries followed by `rhs`'s, with
    /// `self`'s strictness. Merging never fails and never inspects entry
    /// contents.
    fn merge(&self, rhs: &Self) -> (r: Result<Self, MergeError>)
        ensures
            r matches Ok(merged) && merged.is_strict() == self.is_strict(),
    {
        let mut combined: Vec<TimeCorrection> = Vec::new();
        let mut i: usize = 0;
        while i < self.corrections.len()
            invariant
                i <= self.corrections@.len(),
                combined@ == self.corrections@.take(i as int),
            decreases self.corrections@.len() - i,
        {
            combined.push(self.corrections[i]);
            proof {
                assert(self.corrections@.take(i + 1 as int) =~= self.corrections@.take(
                    i as int,
                ).push(self.corrections@[i as int]));
            }
            i = i + 1;
        }
        proof {
            assert(self.corrections@.take(self.corrections@.len() as int) =~= self.corrections@);
        }
        let mut j: usize = 0;
        while j < rhs.corrections.len()
            invariant
                j <= rhs.corrections@.len(),
                combined@ == self.corrections@ + rhs.corrections@.take(j as int),
            decreases rhs.corrections@.len() - j,
        {
            combined.push(rhs.corrections[j]);
            proof {
                assert(self.corrections@ + rhs.corrections@.take(j + 1 as int) =~= (
                self.corrections@ + rhs.corrections@.take(j as int)).push(
                    rhs.corrections@[j as int],
                ));
            }
            j = j + 1;
        }
        proof {
            assert(self.corrections@ + rhs.corrections@.take(rhs.corrections@.len() as int)
                =~= self.corrections@ + rhs.corrections@);
        }
        Ok(TimeCorrectionsDB { strict: self.strict, corrections: combined })
    }

    /// Appends `rhs`'s entries to this store, keeping its strictness.
    /// Merging never fails and never inspects entry contents.
    fn merge_mut(&mut self, rhs: &Self) -> (r: Result<(), MergeError>)
        ensures
            final(self).is_strict() == old(self).is_strict(),
    {
        let mut j: usize = 0;
        while j < rhs.corrections.len()
            invariant
                j <= rhs.corrections@.len(),
                self.corrections@ == old(self).corrections@ + rhs.corrections@.take(j as int),
                self.strict == old(self).strict,
            decreases rhs.corrections@.len() - j,
        {
            self.corrections.push(rhs.corrections[j]);
            proof {
                assert(old(self).corrections@ + rhs.corrections@.take(j + 1 as int) =~= (old(
                    self,
                ).corrections@ + rhs.corrections@.take(j as int)).push(rhs.corrections@[j as int]));
            }
            j = j + 1;
        }
        proof {
            assert(old(self).corrections@ + rhs.corrections@.take(rhs.corrections@.len() as int)
                =~= old(self).corrections@ + rhs.corrections@);
        }
        Ok(())
    }
}

} // verus!
