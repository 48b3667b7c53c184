//! The absolute-time resolver: a simplified store of validity-free
//! correction models with overwrite-on-add insertion.

use vstd::prelude::*;

use crate::database::{TimeCorrectionsDB, WEEK_NANOS};
use crate::epoch::Epoch;
use crate::merge::{Merge, MergeError};
use crate::search::{correction_reachable, lookup};
use crate::time_polynomial::TimePolynomial;
use crate::timescale::TimeScale;

verus! {

/// The entry sequence of the equivalent lenient correction store: each
/// model re-read as a [`crate::TimeCorrection`] with a zero-width window.
pub open spec fn resolver_entries(s: Seq<TimePolynomial>) -> Seq<crate::TimeCorrection> {
    s.map_values(|tp: TimePolynomial| tp.as_correction())
}

/// The retention test of [`GnssAbsoluteTime::add`]: the stored model serves
/// a different scale pair than the incoming one.
pub open spec fn other_scale_pair(tp: TimePolynomial) -> spec_fn(TimePolynomial) -> bool {
    |p: TimePolynomial|
        !(p.lhs_timescale == tp.lhs_timescale && p.rhs_timescale == tp.rhs_timescale)
}

/// The retention test of [`GnssAbsoluteTime::outdate_past`]: the model's
/// reference instant lies strictly after the cutoff.
pub open spec fn model_kept_past(instant: Epoch) -> spec_fn(TimePolynomial) -> bool {
    |p: TimePolynomial| p.ref_epoch.nanos > instant.nanos
}

/// The retention test of [`GnssAbsoluteTime::outdate_weekly`]: the model's
/// reference instant lies strictly after `instant` minus seven days.
pub open spec fn model_kept_weekly(instant: Epoch) -> spec_fn(TimePolynomial) -> bool {
    |p: TimePolynomial| p.ref_epoch.nanos - instant.nanos > -WEEK_NANOS
}

/// A resolver describing the actual state of one or several time scales:
/// the same three-tier search as [`TimeCorrectionsDB`], always lenient (no
/// validity gating), over validity-free models. Adding a model for a scale
/// pair already present replaces the stored models for that exact pair, so
/// the resolver holds the current best-known state rather than a history.
#[derive(Clone)]
pub struct GnssAbsoluteTime {
    /// The owned model collection.
    pub polynomials: Vec<TimePolynomial>,
}

impl Default for GnssAbsoluteTime {
    /// An empty resolver.
    fn default() -> (r: GnssAbsoluteTime)
        ensures
            r.polynomials@ == Seq::<TimePolynomial>::empty(),
    {
        GnssAbsoluteTime { polynomials: Vec::new() }
    }
}

impl GnssAbsoluteTime {
    /// Creates a new resolver from the current model knowledge.
    pub fn new(polynomials: &[TimePolynomial]) -> (r: GnssAbsoluteTime)
        ensures
            r.polynomials@ == polynomials@,
    {
        let mut copied: Vec<TimePolynomial> = Vec::new();
        let mut i: usize = 0;
        while i < polynomials.len()
            invariant
                i <= polynomials@.len(),
                copied@ == polynomials@.take(i as int),
            decreases polynomials@.len() - i,
        {
            copied.push(*vstd::slice::slice_index_get(polynomials, i));
            proof {
                assert(polynomials@.take(i + 1 as int) =~= polynomials@.take(i as int).push(
                    polynomials@[i as int],
                ));
            }
            i = i + 1;
        }
        proof {
            assert(polynomials@.take(polynomials@.len() as int) =~= polynomials@);
        }
        GnssAbsoluteTime { polynomials: copied }
    }

    /// Adds a model, discarding any stored model for the same
    /// (source scale, destination scale) pair first: insertion overwrites
    /// rather than accumulating history.
    pub fn add(&mut self, polynomial: TimePolynomial)
        ensures
            final(self).polynomials@ == old(self).polynomials@.filter(
                other_scale_pair(polynomial),
            ).push(polynomial),
    {
        let ghost pred = other_scale_pair(polynomial);
        proof {
            reveal(Seq::<_>::filter);
        }
        let mut kept: Vec<TimePolynomial> = Vec::new();
        let mut i: usize = 0;
        while i < self.polynomials.len()
            invariant
                i <= self.polynomials@.len(),
                pred == other_scale_pair(polynomial),
                kept@ == self.polynomials@.take(i as int).filter(pred),
            decreases self.polynomials@.len() - i,
        {
            proof {
                reveal(Seq::<_>::filter);
                assert(self.polynomials@.take(i + 1 as int).drop_last() =~= self.polynomials@.take(
                    i as int,
                ));
                assert(self.polynomials@.take(i + 1 as int).last() == self.polynomials@[i as int]);
                assert(pred(self.polynomials@[i as int]) == !(self.polynomials@[i as int]
                    .lhs_timescale == polynomial.lhs_timescale && self.polynomials@[i as int]
                    .rhs_timescale == polynomial.rhs_timescale));
            }
            let p = &self.polynomials[i];
            if !(p.lhs_timescale == polynomial.lhs_timescale && p.rhs_timescale
                == polynomial.rhs_timescale) {
                let copy = self.polynomials[i];
                kept.push(copy);
            }
            i = i + 1;
        }
        proof {
            assert(self.polynomials@.take(self.polynomials@.len() as int) =~= self.polynomials@);
        }
        kept.push(polynomial);
        self.polynomials = kept;
    }

    /// Discards models whose reference instant is at or before `instant`.
    /// Afterwards every remaining model's reference instant is strictly
    /// later than the cutoff.
    pub fn outdate_past(&mut self, instant: Epoch)
        ensures
            final(self).polynomials@ == old(self).polynomials@.filter(model_kept_past(instant)),
            forall|k: int|
                0 <= k < final(self).polynomials@.len() ==> (#[trigger] final(self).polynomials@[k])
                    .ref_epoch.nanos > instant.nanos,
    {
        let ghost pred = model_kept_past(instant);
        proof {
            reveal(Seq::<_>::filter);
        }
        let mut kept: Vec<TimePolynomial> = Vec::new();
        let mut i: usize = 0;
        while i < self.polynomials.len()
            invariant
                i <= self.polynomials@.len(),
                pred == model_kept_past(instant),
                kept@ == self.polynomials@.take(i as int).filter(pred),
            decreases self.polynomials@.len() - i,
        {
            proof {
                reveal(Seq::<_>::filter);
                assert(self.polynomials@.take(i + 1 as int).drop_last() =~= self.polynomials@.take(
                    i as int,
                ));
                assert(self.polynomials@.take(i + 1 as int).last() == self.polynomials@[i as int]);
                assert(pred(self.polynomials@[i as int]) == (self.polynomials@[i as int]
                    .ref_epoch.nanos > instant.nanos));
            }
            if self.polynomials[i].ref_epoch.nanos > instant.nanos {
                let copy = self.polynomials[i];
                kept.push(copy);
            }
            i = i + 1;
        }
        proof {
            assert(self.polynomials@.take(self.polynomials@.len() as int) =~= self.polynomials@);
        }
        self.polynomials = kept;
        proof {
            broadcast use vstd::seq_lib::group_filter_ensures;

            assert forall|k: int| 0 <= k < self.polynomials@.len() implies (#[trigger] self
                .polynomials@[k]).ref_epoch.nanos > instant.nanos by {
                assert(pred(self.polynomials@[k]));
            }
        }
    }

    /// Discards models whose reference instant precedes `instant` by seven
    /// days or more.
    pub fn outdate_weekly(&mut self, instant: Epoch)
        ensures
            final(self).polynomials@ == old(self).polynomials@.filter(model_kept_weekly(instant)),
    {
        let ghost pred = model_kept_weekly(instant);
        proof {
            reveal(Seq::<_>::filter);
        }
        let mut kept: Vec<TimePolynomial> = Vec::new();
        let mut i: usize = 0;
        while i < self.polynomials.len()
            invariant
                i <= self.polynomials@.len(),
                pred == model_kept_weekly(instant),
                kept@ == self.polynomials@.take(i as int).filter(pred),
            decreases self.polynomials@.len() - i,
        {
            proof {
                reveal(Seq::<_>::filter);
                assert(self.polynomials@.take(i + 1 as int).drop_last() =~= self.polynomials@.take(
                    i as int,
                ));
                assert(self.polynomials@.take(i + 1 as int).last() == self.polynomials@[i as int]);
                assert(pred(self.polynomials@[i as int]) == (self.polynomials@[i as int]
                    .ref_epoch.nanos - instant.nanos > -WEEK_NANOS));
            }
            let keep = match self.polynomials[i].ref_epoch.nanos.checked_sub(instant.nanos) {
                Some(diff) => diff > -WEEK_NANOS,
                None => self.polynomials[i].ref_epoch.nanos > instant.nanos,
            };
            if keep {
                let copy = self.polynomials[i];
                kept.push(copy);
            }
            i = i + 1;
        }
        proof {
            assert(self.polynomials@.take(self.polynomials@.len() as int) =~= self.polynomials@);
        }
        self.polynomials = kept;
    }

    /// Interpolates and corrects instant `t` into the desired target scale:
    /// the three-tier search of [`lookup`], always lenient, over the
    /// equivalent [`resolver_entries`]. Success and failure are exactly
    /// characterised by [`correction_reachable`] over those entries.
    pub fn precise_epoch_correction(&self, t: Epoch, target: TimeScale) -> (r: Option<Epoch>)
        ensures
            r == lookup(false, resolver_entries(self.polynomials@), t, target),
            r is Some <==> correction_reachable(
                false,
                resolver_entries(self.polynomials@),
                t,
                target,
            ),
            r matches Some(e) ==> e.time_scale == target,
            t.time_scale == target ==> r == Some(t),
    {
        let mut converted: Vec<crate::TimeCorrection> = Vec::new();
        let mut i: usize = 0;
        while i < self.polynomials.len()
            invariant
                i <= self.polynomials@.len(),
                converted@ == resolver_entries(self.polynomials@.take(i as int)),
            decreases self.polynomials@.len() - i,
        {
            let p = self.polynomials[i];
            converted.push(
                crate::TimeCorrection {
                    lhs_timescale: p.lhs_timescale,
                    rhs_timescale: p.rhs_timescale,
                    ref_epoch: p.ref_epoch,
                    validity_period: crate::Duration { nanos: 0 },
                    polynomial: p.polynomial,
                },
            );
            proof {
                assert(resolver_entries(self.polynomials@.take(i + 1 as int)) =~= resolver_entries(
                    self.polynomials@.take(i as int),
                ).push(self.polynomials@[i as int].as_correction()));
            }
            i = i + 1;
        }
        proof {
            assert(self.polynomials@.take(self.polynomials@.len() as int) =~= self.polynomials@);
        }
        let db = TimeCorrectionsDB { strict: false, corrections: converted };
        db.precise_epoch_correction(t, target)
    }
}

impl Merge for GnssAbsoluteTime {
    type Entry = TimePolynomial;

    /// The resolver's model sequence.
    closed spec fn merge_seq(&self) -> Seq<TimePolynomial> {
        self.polynomials@
    }

    /// A new resolver holding `self`'s models followed by `rhs`'s. Merging
    /// concatenates without deduplication: the overwrite policy applies only
    /// at [`GnssAbsoluteTime::add`] time.
    fn merge(&self, rhs: &Self) -> (r: Result<Self, MergeError>) {
        let mut combined = GnssAbsoluteTime::new(self.polynomials.as_slice());
        let mut j: usize = 0;
        while j < rhs.polynomials.len()
            invariant
                j <= rhs.polynomials@.len(),
                combined.polynomials@ == self.polynomials@ + rhs.polynomials@.take(j as int),
            decreases rhs.polynomials@.len() - j,
        {
            combined.polynomials.push(rhs.polynomials[j]);
            proof {
                assert(self.polynomials@ + rhs.polynomials@.take(j + 1 as int) =~= (
                self.polynomials@ + rhs.polynomials@.take(j as int)).push(
                    rhs.polynomials@[j as int],
                ));
            }
            j = j + 1;
        }
        proof {
            assert(self.polynomials@ + rhs.polynomials@.take(rhs.polynomials@.len() as int)
                =~= self.polynomials@ + rhs.polynomials@);
            assert(self.polynomials@ + rhs.polynomials@.take(0) =~= self.polynomials@);
        }
        Ok(combined)
    }

    /// Appends `rhs`'s models to this resolver, in place.
    fn merge_mut(&mut self, rhs: &Self) -> (r: Result<(), MergeError>) {
        let mut j: usize = 0;
        while j < rhs.polynomials.len()
            invariant
                j <= rhs.polynomials@.len(),
                self.polynomials@ == old(self).polynomials@ + rhs.polynomials@.take(j as int),
            decreases rhs.polynomials@.len() - j,
        {
            self.polynomials.push(rhs.polynomials[j]);
            proof {
                assert(old(self).polynomials@ + rhs.polynomials@.take(j + 1 as int) =~= (old(
                    self,
                ).polynomials@ + rhs.polynomials@.take(j as int)).push(rhs.polynomials@[j as int]));
            }
            j = j + 1;
        }
        proof {
            assert(old(self).polynomials@ + rhs.polynomials@.take(rhs.polynomials@.len() as int)
                =~= old(self).polynomials@ + rhs.polynomials@);
            assert(old(self).polynomials@ + rhs.polynomials@.take(0) =~= old(self).polynomials@);
        }
        Ok(())
    }
}

/// Under the [`Merge`] contract the resolver combines exactly its model
/// sequence: [`Merge::merge_seq`] and the `polynomials` field agree.
pub broadcast proof fn lemma_resolver_merge_seq(g: &GnssAbsoluteTime)
    ensures
        #[trigger] g.merge_seq() == g.polynomials@,
{
}

} // verus!
