//! The store that owns all archetypes: the reset operation that clears every
//! flag in every column, and store-wide tracker queries that skip archetypes
//! not storing the tracked type.

use vstd::prelude::*;

use crate::archetype::Archetype;
use crate::trackers::{Added, Changed, Mutated, added_flag, changed_flag, mutated_flag};

verus! {

/// What one store-wide tracker query reports for one archetype: `None` when
/// the archetype does not store the tracked type (the archetype is skipped,
/// its rows yield nothing — not false), otherwise one boolean per row,
/// described row by row by `flag`.
pub open spec fn archetype_result_ok(
    a: Archetype,
    ty: u64,
    o: Option<Vec<bool>>,
    flag: spec_fn(Archetype, u64, int) -> bool,
) -> bool {
    match o {
        None => !a.has_type(ty),
        Some(v) => a.has_type(ty) && v@.len() == a.rows() && (forall|r: int|
            0 <= r < a.rows() ==> v@[r] == flag(a, ty, r)),
    }
}

/// The owner of all archetypes.
pub struct World {
    pub archetypes: Vec<Archetype>,
}

impl World {
    /// Every archetype is well-formed.
    pub open spec fn wf(self) -> bool {
        forall|i: int|
            0 <= i < self.archetypes@.len() ==> (#[trigger] self.archetypes@[i]).wf()
    }

    /// An empty store.
    pub fn new() -> (w: World)
        ensures
            w.wf(),
            w.archetypes@.len() == 0,
    {
        World { archetypes: Vec::new() }
    }

    /// Add one archetype; its index in the store is returned.
    pub fn add_archetype(&mut self, a: Archetype) -> (idx: usize)
        requires
            old(self).wf(),
            a.wf(),
        ensures
            final(self).wf(),
            final(self).archetypes@ == old(self).archetypes@.push(a),
            idx == old(self).archetypes@.len(),
    {
        let idx = self.archetypes.len();
        self.archetypes.push(a);
        idx
    }

    /// Reset: clear every `added` and `mutated` flag of every column of
    /// every archetype. Types, values and row counts are untouched, and
    /// flags stay false until the next creation or exclusive access.
    pub fn clear_trackers(&mut self)
        requires
            old(self).wf(),
        ensures
            final(self).wf(),
            final(self).archetypes@.len() == old(self).archetypes@.len(),
            forall|i: int| 0 <= i < old(self).archetypes@.len() ==> {
                let a_old = old(self).archetypes@[i];
                let a_new = #[trigger] final(self).archetypes@[i];
                &&& a_new.type_ids@ == a_old.type_ids@
                &&& a_new.rows() == a_old.rows()
                &&& a_new.columns@.len() == a_old.columns@.len()
                &&& forall|j: int| 0 <= j < a_old.columns@.len() ==> {
                    &&& (#[trigger] a_new.columns@[j]).values@ == a_old.columns@[j].values@
                    &&& a_new.columns@[j].added@ =~= Seq::new(a_old.rows(), |r: int| false)
                    &&& a_new.columns@[j].mutated@ =~= Seq::new(a_old.rows(), |r: int| false)
                }
            },
    {
        let n = self.archetypes.len();
        let mut i: usize = 0;
        while i < n
            invariant
                i <= n,
                n == self.archetypes@.len(),
                n == old(self).archetypes@.len(),
                old(self).wf(),
                forall|k: int| i <= k < n
                    ==> #[trigger] self.archetypes@[k] == old(self).archetypes@[k],
                forall|k: int| 0 <= k < i ==> (#[trigger] self.archetypes@[k]).wf(),
                forall|k: int| 0 <= k < i ==> {
                    let a_old = old(self).archetypes@[k];
                    let a_new = #[trigger] self.archetypes@[k];
                    &&& a_new.type_ids@ == a_old.type_ids@
                    &&& a_new.rows() == a_old.rows()
                    &&& a_new.columns@.len() == a_old.columns@.len()
                    &&& forall|j: int| 0 <= j < a_old.columns@.len() ==> {
                        &&& (#[trigger] a_new.columns@[j]).values@ == a_old.columns@[j].values@
                        &&& a_new.columns@[j].added@ =~= Seq::new(a_old.rows(), |r: int| false)
                        &&& a_new.columns@[j].mutated@ =~= Seq::new(a_old.rows(), |r: int| false)
                    }
                },
            decreases n - i,
        {
            let a = &mut self.archetypes[i];
            a.clear_trackers();
            i += 1;
        }
    }

    /// Run an `Added` query over the whole store: one entry per archetype,
    /// in order; `None` for archetypes not storing the tracked type (their
    /// rows never appear in the results), otherwise the added flag of each
    /// row in order.
    pub fn query_added(&self, q: &Added) -> (out: Vec<Option<Vec<bool>>>)
        requires
            self.wf(),
        ensures
            out@.len() == self.archetypes@.len(),
            forall|i: int| 0 <= i < self.archetypes@.len()
                ==> archetype_result_ok(
                    self.archetypes@[i],
                    q.type_id,
                    #[trigger] out@[i],
                    |a: Archetype, ty: u64, r: int| added_flag(a, ty, r),
                ),
    {
        let n = self.archetypes.len();
        let mut out: Vec<Option<Vec<bool>>> = Vec::new();
        let mut i: usize = 0;
        while i < n
            invariant
                i <= n,
                n == self.archetypes@.len(),
                self.wf(),
                out@.len() == i,
                forall|k: int| 0 <= k < i
                    ==> archetype_result_ok(
                        self.archetypes@[k],
                        q.type_id,
                        #[trigger] out@[k],
                        |a: Archetype, ty: u64, r: int| added_flag(a, ty, r),
                    ),
            decreases n - i,
        {
            out.push(q.run(&self.archetypes[i]));
            i += 1;
        }
        out
    }

    /// Run a `Mutated` query over the whole store: as `query_added`, with
    /// the mutated flag of each row.
    pub fn query_mutated(&self, q: &Mutated) -> (out: Vec<Option<Vec<bool>>>)
        requires
            self.wf(),
        ensures
            out@.len() == self.archetypes@.len(),
            forall|i: int| 0 <= i < self.archetypes@.len()
                ==> archetype_result_ok(
                    self.archetypes@[i],
                    q.type_id,
                    #[trigger] out@[i],
                    |a: Archetype, ty: u64, r: int| mutated_flag(a, ty, r),
                ),
    {
        let n = self.archetypes.len();
        let mut out: Vec<Option<Vec<bool>>> = Vec::new();
        let mut i: usize = 0;
        while i < n
            invariant
                i <= n,
                n == self.archetypes@.len(),
                self.wf(),
                out@.len() == i,
                forall|k: int| 0 <= k < i
                    ==> archetype_result_ok(
                        self.archetypes@[k],
                        q.type_id,
                        #[trigger] out@[k],
                        |a: Archetype, ty: u64, r: int| mutated_flag(a, ty, r),
                    ),
            decreases n - i,
        {
            out.push(q.run(&self.archetypes[i]));
            i += 1;
        }
        out
    }

    /// Run a `Changed` query over the whole store: as `query_added`, with
    /// each row's added-or-mutated disjunction.
    pub fn query_changed(&self, q: &Changed) -> (out: Vec<Option<Vec<bool>>>)
        requires
            self.wf(),
        ensures
            out@.len() == self.archetypes@.len(),
            forall|i: int| 0 <= i < self.archetypes@.len()
                ==> archetype_result_ok(
                    self.archetypes@[i],
                    q.type_id,
                    #[trigger] out@[i],
                    |a: Archetype, ty: u64, r: int| changed_flag(a, ty, r),
                ),
    {
        let n = self.archetypes.len();
        let mut out: Vec<Option<Vec<bool>>> = Vec::new();
        let mut i: usize = 0;
        while i < n
            invariant
                i <= n,
                n == self.archetypes@.len(),
                self.wf(),
                out@.len() == i,
                forall|k: int| 0 <= k < i
                    ==> archetype_result_ok(
                        self.archetypes@[k],
                        q.type_id,
                        #[trigger] out@[k],
                        |a: Archetype, ty: u64, r: int| changed_flag(a, ty, r),
                    ),
            decreases n - i,
        {
            out.push(q.run(&self.archetypes[i]));
            i += 1;
        }
        out
    }
}

} // verus!

