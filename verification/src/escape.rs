//! Escape-time bookkeeping for one point of the complex plane.
//!
//! The quadratic iteration z <- z^2 + c runs on floating-point state outside
//! the verified core. After each completed step the driver reports whether the
//! squared modulus exceeded the escape radius, and `EscapeState` decides when
//! the run stops and what escape index it returns: the index of the first
//! escaping step, capped at the iteration bound. A point whose run exhausts
//! the bound without escaping is presumed in the set and gets the bound
//! itself as its index.

use vstd::prelude::*;

verus! {

/// One escape-time run: how many steps survived so far, the iteration bound,
/// whether the run is finished, and (for the proofs) the escape flags seen.
pub struct EscapeState {
    iter_index: u32,
    max_iteration: u32,
    done: bool,
    history: Ghost<Seq<bool>>,
}

impl EscapeState {
    /// The escape flags reported so far, in step order.
    pub closed spec fn history(self) -> Seq<bool> {
        self.history@
    }

    /// The escape index reached so far.
    pub closed spec fn count(self) -> u32 {
        self.iter_index
    }

    /// The iteration bound the run was started with.
    pub closed spec fn bound(self) -> u32 {
        self.max_iteration
    }

    /// Whether the run has stopped.
    pub closed spec fn finished(self) -> bool {
        self.done
    }

    /// Well-formedness: the count never passes the bound, every step counted
    /// survived, and a finished run stopped either on its first escaping step
    /// or on exhausting the bound with no escape at all.
    pub open spec fn wf(self) -> bool {
        &&& self.count() <= self.bound()
        &&& (forall|j: int| 0 <= j < self.count() ==> !self.history()[j])
        &&& (if self.finished() {
            ||| (self.history().len() == self.count() + 1 && self.history()[self.count() as int])
            ||| (self.history().len() == self.count() && self.count() == self.bound())
        } else {
            self.history().len() == self.count() && self.count() < self.bound()
        })
    }

    /// Start a run under the given iteration bound. A bound of zero finishes
    /// at once with index zero.
    pub fn new(max_iteration: u32) -> (s: Self)
        ensures
            s.wf(),
            s.bound() == max_iteration,
            s.count() == 0,
            s.history() == Seq::<bool>::empty(),
            s.finished() <==> max_iteration == 0,
    {
        EscapeState {
            iter_index: 0,
            max_iteration,
            done: max_iteration == 0,
            history: Ghost(Seq::empty()),
        }
    }

    /// Record the escape test of one completed iteration step. An escaping
    /// step finishes the run without being counted; a surviving step is
    /// counted, and the run finishes when the count reaches the bound.
    pub fn advance(&mut self, escaped: bool)
        requires
            old(self).wf(),
            !old(self).finished(),
        ensures
            final(self).wf(),
            final(self).bound() == old(self).bound(),
            final(self).history() == old(self).history().push(escaped),
            escaped ==> final(self).finished() && final(self).count() == old(self).count(),
            !escaped ==> final(self).count() == old(self).count() + 1 && (final(self).finished()
                <==> final(self).count() == final(self).bound()),
    {
        self.history = Ghost(self.history@.push(escaped));
        if escaped {
            self.done = true;
        } else {
            self.iter_index = self.iter_index + 1;
            if self.iter_index == self.max_iteration {
                self.done = true;
            }
        }
    }

    /// Whether the run has stopped.
    pub fn is_finished(&self) -> (b: bool)
        ensures
            b == self.finished(),
    {
        self.done
    }

    /// The escape index reached so far; for a finished run, the result of the
    /// whole escape-time computation.
    pub fn escape_index(&self) -> (r: u32)
        ensures
            r == self.count(),
    {
        self.iter_index
    }
}

/// Law: an escape run never returns an index below zero or above its
/// iteration bound.
pub proof fn lemma_escape_index_bounded(s: EscapeState)
    requires
        s.wf(),
    ensures
        s.count() <= s.bound(),
{
}

/// Law: a finished run none of whose steps escaped returns exactly the
/// iteration bound — in particular, a point of the set, whose orbit never
/// leaves the escape radius, always gets the bound as its index.
pub proof fn lemma_in_set_full_count(s: EscapeState)
    requires
        s.wf(),
        s.finished(),
        forall|j: int| 0 <= j < s.history().len() ==> !s.history()[j],
    ensures
        s.count() == s.bound(),
{
}

/// Law: a finished run whose first escaping step was step `k` returns
/// exactly `k`.
pub proof fn lemma_first_escape_is_index(s: EscapeState, k: int)
    requires
        s.wf(),
        s.finished(),
        0 <= k < s.history().len(),
        s.history()[k],
        forall|j: int| 0 <= j < k ==> !s.history()[j],
    ensures
        s.count() == k,
{
}

} // verus!
