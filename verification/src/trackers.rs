//! The three tracker query shapes — `Added`, `Mutated`, `Changed` — and the
//! bound fetch values they produce.
//!
//! The surrounding query engine drives each tracker through the same
//! protocol, per archetype: `access` declares the conflict-relevant access
//! (always shared, or none when the type is absent); `prepare` resolves an
//! opaque state token if and only if the archetype stores the type;
//! `execute` binds to the column's flag array(s) for one iteration pass;
//! `get` then reads one row's boolean per matching row. `borrow` and
//! `release` are the protocol's runtime borrow-guard hooks, no-ops here.
//! Trackers never set or clear a flag; only
//! [`crate::world::World::clear_trackers`] does.

use vstd::prelude::*;

use crate::archetype::Archetype;

verus! {

/// The conflict-relevant access level a query term declares on a component
/// type. Trackers only ever declare `Read`: reading a flag array never needs
/// exclusive access to the component data, even though the `mutated` flag
/// exists because some other term took `Write` access to the data.
#[derive(Clone, Copy, PartialEq, Eq, Structural, Debug)]
pub enum Access {
    Read,
    Write,
}

/// The added flag of one row of the column storing type `ty`.
pub open spec fn added_flag(a: Archetype, ty: u64, row: int) -> bool {
    a.col_of(ty).added@[row]
}

/// The mutated flag of one row of the column storing type `ty`.
pub open spec fn mutated_flag(a: Archetype, ty: u64, row: int) -> bool {
    a.col_of(ty).mutated@[row]
}

/// Changed means added or mutated: the two underlying signals are combined,
/// not separately observable through the `Changed` tracker.
pub open spec fn changed_flag(a: Archetype, ty: u64, row: int) -> bool {
    added_flag(a, ty, row) || mutated_flag(a, ty, row)
}

/// Query retrieving the added state of the component with type id `type_id`:
/// true for rows whose component was newly attached since the last reset,
/// false for rows whose component was only written to.
pub struct Added {
    pub type_id: u64,
}

/// Query retrieving the mutated state of the component with type id
/// `type_id`: true for rows whose component was obtained through an
/// exclusive (write) accessor since the last reset; a component that was
/// only added reads false.
pub struct Mutated {
    pub type_id: u64,
}

/// Query retrieving the changed state of the component with type id
/// `type_id`: true for rows whose component was either added or mutated
/// since the last reset.
pub struct Changed {
    pub type_id: u64,
}

/// `Added`'s fetch: bound to the `added` flag array of one archetype's
/// column for one iteration pass, or still unbound (the placeholder state a
/// dangling fetch starts in, never read).
pub struct FetchAdded<'a> {
    pub flags: Option<&'a Vec<bool>>,
}

/// `Mutated`'s fetch: bound to the `mutated` flag array of one archetype's
/// column for one iteration pass, or still unbound.
pub struct FetchMutated<'a> {
    pub flags: Option<&'a Vec<bool>>,
}

/// `Changed`'s fetch: bound to both flag arrays (`mutated`, then `added`) of
/// one archetype's column for one iteration pass, or still unbound.
pub struct FetchChanged<'a> {
    pub flags: Option<(&'a Vec<bool>, &'a Vec<bool>)>,
}

impl<'a> FetchAdded<'a> {
    /// Whether this fetch was bound by `execute`.
    pub open spec fn is_bound(self) -> bool {
        self.flags is Some
    }

    /// The flag array this fetch reads (meaningful only when bound).
    pub open spec fn flag_seq(self) -> Seq<bool> {
        self.flags->0@
    }

    /// The placeholder a fetch holds before any binding: explicitly unbound,
    /// never dereferenced.
    pub fn dangling() -> (f: Self)
        ensures
            !f.is_bound(),
    {
        FetchAdded { flags: None }
    }

    /// Read one row's boolean. The caller guarantees the fetch is bound and
    /// the row is within the bound archetype's row range.
    pub fn get(&self, n: usize) -> (r: bool)
        requires
            self.is_bound(),
            n < self.flag_seq().len(),
        ensures
            r == self.flag_seq()[n as int],
    {
        match self.flags {
            Some(flags) => flags[n],
            None => false,
        }
    }
}

impl<'a> FetchMutated<'a> {
    /// Whether this fetch was bound by `execute`.
    pub open spec fn is_bound(self) -> bool {
        self.flags is Some
    }

    /// The flag array this fetch reads (meaningful only when bound).
    pub open spec fn flag_seq(self) -> Seq<bool> {
        self.flags->0@
    }

    /// The placeholder a fetch holds before any binding: explicitly unbound,
    /// never dereferenced.
    pub fn dangling() -> (f: Self)
        ensures
            !f.is_bound(),
    {
        FetchMutated { flags: None }
    }

    /// Read one row's boolean. The caller guarantees the fetch is bound and
    /// the row is within the bound archetype's row range.
    pub fn get(&self, n: usize) -> (r: bool)
        requires
            self.is_bound(),
            n < self.flag_seq().len(),
        ensures
            r == self.flag_seq()[n as int],
    {
        match self.flags {
            Some(flags) => flags[n],
            None => false,
        }
    }
}

impl<'a> FetchChanged<'a> {
    /// Whether this fetch was bound by `execute`.
    pub open spec fn is_bound(self) -> bool {
        self.flags is Some
    }

    /// The mutated flag array this fetch reads (meaningful only when bound).
    pub open spec fn mutated_seq(self) -> Seq<bool> {
        (self.flags->0).0@
    }

    /// The added flag array this fetch reads (meaningful only when bound).
    pub open spec fn added_seq(self) -> Seq<bool> {
        (self.flags->0).1@
    }

    /// The placeholder a fetch holds before any binding: explicitly unbound,
    /// never dereferenced.
    pub fn dangling() -> (f: Self)
        ensures
            !f.is_bound(),
    {
        FetchChanged { flags: None }
    }

    /// Read one row's boolean: the disjunction of the row's mutated and
    /// added flags. The caller guarantees the fetch is bound and the row is
    /// within the bound archetype's row range.
    pub fn get(&self, n: usize) -> (r: bool)
        requires
            self.is_bound(),
            n < self.mutated_seq().len(),
            n < self.added_seq().len(),
        ensures
            r == (self.mutated_seq()[n as int] || self.added_seq()[n as int]),
    {
        match self.flags {
            Some((mutated, added)) => mutated[n] || added[n],
            None => false,
        }
    }
}

impl Added {
    /// A tracker for the component with the given type id.
    pub fn new(type_id: u64) -> (q: Self)
        ensures
            q.type_id == type_id,
    {
        Added { type_id }
    }

    /// Declare the access this tracker needs on a candidate archetype:
    /// shared read when the type is present, none (skip the archetype) when
    /// it is absent — never exclusive access.
    pub fn access(&self, archetype: &Archetype) -> (r: Option<Access>)
        ensures
            r == if archetype.has_type(self.type_id) {
                Some(Access::Read)
            } else {
                None::<Access>
            },
    {
        if archetype.has(self.type_id) {
            Some(Access::Read)
        } else {
            None
        }
    }

    /// Acquire a runtime borrow guard: a no-op, flag reads take no lock.
    pub fn borrow(&self, _archetype: &Archetype, _state: usize) {
    }

    /// Column resolution: a state token if and only if the archetype stores
    /// the tracked type.
    pub fn prepare(&self, archetype: &Archetype) -> (r: Option<usize>)
        requires
            archetype.wf(),
        ensures
            r is Some <==> archetype.has_type(self.type_id),
            r matches Some(s) ==> archetype.valid_state(s)
                && s == archetype.index_of_type(self.type_id),
    {
        archetype.get_state(self.type_id)
    }

    /// Bind to the `added` flag array of the resolved column for one
    /// iteration pass over this archetype. The token must have been resolved
    /// from this same archetype.
    pub fn execute<'a>(&self, archetype: &'a Archetype, state: usize) -> (f: FetchAdded<'a>)
        requires
            archetype.valid_state(state),
        ensures
            f.is_bound(),
            f.flag_seq() == archetype.col(state).added@,
    {
        FetchAdded { flags: Some(archetype.get_added(state)) }
    }

    /// Release the runtime borrow guard: a no-op, as `borrow` is.
    pub fn release(&self, _archetype: &Archetype, _state: usize) {
    }

    /// The one (type id, needs-unique-borrow) pair this query term reports
    /// to the conflict checker: the borrow is never unique, flag reads are
    /// shared.
    pub fn borrows(&self) -> (r: (u64, bool))
        ensures
            r.0 == self.type_id,
            r.1 == false,
    {
        (self.type_id, false)
    }

    /// Run the whole protocol over one archetype, as the query engine does:
    /// resolve, bind, then read every row in order. `None` exactly when the
    /// archetype does not store the tracked type — it is skipped, no row
    /// yields false.
    pub fn run(&self, archetype: &Archetype) -> (out: Option<Vec<bool>>)
        requires
            archetype.wf(),
        ensures
            out is Some <==> archetype.has_type(self.type_id),
            out matches Some(v) ==> v@.len() == archetype.rows()
                && forall|r: int| 0 <= r < archetype.rows()
                    ==> v@[r] == added_flag(*archetype, self.type_id, r),
    {
        let state = match self.prepare(archetype) {
            Some(s) => s,
            None => {
                return None;
            },
        };
        let fetch = self.execute(archetype, state);
        let rows = archetype.len();
        let mut v: Vec<bool> = Vec::new();
        let mut r: usize = 0;
        while r < rows
            invariant
                r <= rows,
                rows == archetype.rows(),
                archetype.wf(),
                archetype.valid_state(state),
                state == archetype.index_of_type(self.type_id),
                fetch.is_bound(),
                fetch.flag_seq() == archetype.col(state).added@,
                v@.len() == r,
                forall|k: int| 0 <= k < r ==> v@[k] == added_flag(*archetype, self.type_id, k),
            decreases rows - r,
        {
            v.push(fetch.get(r));
            r += 1;
        }
        Some(v)
    }
}

impl Mutated {
    /// A tracker for the component with the given type id.
    pub fn new(type_id: u64) -> (q: Self)
        ensures
            q.type_id == type_id,
    {
        Mutated { type_id }
    }

    /// Declare the access this tracker needs on a candidate archetype:
    /// shared read when the type is present, none (skip the archetype) when
    /// it is absent — never exclusive access.
    pub fn access(&self, archetype: &Archetype) -> (r: Option<Access>)
        ensures
            r == if archetype.has_type(self.type_id) {
                Some(Access::Read)
            } else {
                None::<Access>
            },
    {
        if archetype.has(self.type_id) {
            Some(Access::Read)
        } else {
            None
        }
    }

    /// Acquire a runtime borrow guard: a no-op, flag reads take no lock.
    pub fn borrow(&self, _archetype: &Archetype, _state: usize) {
    }

    /// Column resolution: a state token if and only if the archetype stores
    /// the tracked type.
    pub fn prepare(&self, archetype: &Archetype) -> (r: Option<usize>)
        requires
            archetype.wf(),
        ensures
            r is Some <==> archetype.has_type(self.type_id),
            r matches Some(s) ==> archetype.valid_state(s)
                && s == archetype.index_of_type(self.type_id),
    {
        archetype.get_state(self.type_id)
    }

    /// Bind to the `mutated` flag array of the resolved column for one
    /// iteration pass over this archetype. The token must have been resolved
    /// from this same archetype.
    pub fn execute<'a>(&self, archetype: &'a Archetype, state: usize) -> (f: FetchMutated<'a>)
        requires
            archetype.valid_state(state),
        ensures
            f.is_bound(),
            f.flag_seq() == archetype.col(state).mutated@,
    {
        FetchMutated { flags: Some(archetype.get_mutated(state)) }
    }

    /// Release the runtime borrow guard: a no-op, as `borrow` is.
    pub fn release(&self, _archetype: &Archetype, _state: usize) {
    }

    /// The one (type id, needs-unique-borrow) pair this query term reports
    /// to the conflict checker: the borrow is never unique, flag reads are
    /// shared.
    pub fn borrows(&self) -> (r: (u64, bool))
        ensures
            r.0 == self.type_id,
            r.1 == false,
    {
        (self.type_id, false)
    }

    /// Run the whole protocol over one archetype, as the query engine does:
    /// resolve, bind, then read every row in order. `None` exactly when the
    /// archetype does not store the tracked type — it is skipped, no row
    /// yields false.
    pub fn run(&self, archetype: &Archetype) -> (out: Option<Vec<bool>>)
        requires
            archetype.wf(),
        ensures
            out is Some <==> archetype.has_type(self.type_id),
            out matches Some(v) ==> v@.len() == archetype.rows()
                && forall|r: int| 0 <= r < archetype.rows()
                    ==> v@[r] == mutated_flag(*archetype, self.type_id, r),
    {
        let state = match self.prepare(archetype) {
            Some(s) => s,
            None => {
                return None;
            },
        };
        let fetch = self.execute(archetype, state);
        let rows = archetype.len();
        let mut v: Vec<bool> = Vec::new();
        let mut r: usize = 0;
        while r < rows
            invariant
                r <= rows,
                rows == archetype.rows(),
                archetype.wf(),
                archetype.valid_state(state),
                state == archetype.index_of_type(self.type_id),
                fetch.is_bound(),
                fetch.flag_seq() == archetype.col(state).mutated@,
                v@.len() == r,
                forall|k: int| 0 <= k < r ==> v@[k] == mutated_flag(*archetype, self.type_id, k),
            decreases rows - r,
        {
            v.push(fetch.get(r));
            r += 1;
        }
        Some(v)
    }
}

impl Changed {
    /// A tracker for the component with the given type id.
    pub fn new(type_id: u64) -> (q: Self)
        ensures
            q.type_id == type_id,
    {
        Changed { type_id }
    }

    /// Declare the access this tracker needs on a candidate archetype:
    /// shared read when the type is present, none (skip the archetype) when
    /// it is absent — never exclusive access.
    pub fn access(&self, archetype: &Archetype) -> (r: Option<Access>)
        ensures
            r == if archetype.has_type(self.type_id) {
                Some(Access::Read)
            } else {
                None::<Access>
            },
    {
        if archetype.has(self.type_id) {
            Some(Access::Read)
        } else {
            None
        }
    }

    /// Acquire a runtime borrow guard: a no-op, flag reads take no lock.
    pub fn borrow(&self, _archetype: &Archetype, _state: usize) {
    }

    /// Column resolution: a state token if and only if the archetype stores
    /// the tracked type.
    pub fn prepare(&self, archetype: &Archetype) -> (r: Option<usize>)
        requires
            archetype.wf(),
        ensures
            r is Some <==> archetype.has_type(self.type_id),
            r matches Some(s) ==> archetype.valid_state(s)
                && s == archetype.index_of_type(self.type_id),
    {
        archetype.get_state(self.type_id)
    }

    /// Bind to both flag arrays (`mutated` and `added`) of the resolved
    /// column for one iteration pass over this archetype. The token must
    /// have been resolved from this same archetype.
    pub fn execute<'a>(&self, archetype: &'a Archetype, state: usize) -> (f: FetchChanged<'a>)
        requires
            archetype.valid_state(state),
        ensures
            f.is_bound(),
            f.mutated_seq() == archetype.col(state).mutated@,
            f.added_seq() == archetype.col(state).added@,
    {
        FetchChanged {
            flags: Some((archetype.get_mutated(state), archetype.get_added(state))),
        }
    }

    /// Release the runtime borrow guard: a no-op, as `borrow` is.
    pub fn release(&self, _archetype: &Archetype, _state: usize) {
    }

    /// The one (type id, needs-unique-borrow) pair this query term reports
    /// to the conflict checker: the borrow is never unique, flag reads are
    /// shared.
    pub fn borrows(&self) -> (r: (u64, bool))
        ensures
            r.0 == self.type_id,
            r.1 == false,
    {
        (self.type_id, false)
    }

    /// Run the whole protocol over one archetype, as the query engine does:
    /// resolve, bind, then read every row in order. `None` exactly when the
    /// archetype does not store the tracked type — it is skipped, no row
    /// yields false.
    pub fn run(&self, archetype: &Archetype) -> (out: Option<Vec<bool>>)
        requires
            archetype.wf(),
        ensures
            out is Some <==> archetype.has_type(self.type_id),
            out matches Some(v) ==> v@.len() == archetype.rows()
                && forall|r: int| 0 <= r < archetype.rows()
                    ==> v@[r] == changed_flag(*archetype, self.type_id, r),
    {
        let state = match self.prepare(archetype) {
            Some(s) => s,
            None => {
                return None;
            },
        };
        let fetch = self.execute(archetype, state);
        let rows = archetype.len();
        let mut v: Vec<bool> = Vec::new();
        let mut r: usize = 0;
        while r < rows
            invariant
                r <= rows,
                rows == archetype.rows(),
                archetype.wf(),
                archetype.valid_state(state),
                state == archetype.index_of_type(self.type_id),
                fetch.is_bound(),
                fetch.mutated_seq() == archetype.col(state).mutated@,
                fetch.added_seq() == archetype.col(state).added@,
                v@.len() == r,
                forall|k: int| 0 <= k < r ==> v@[k] == changed_flag(*archetype, self.type_id, k),
            decreases rows - r,
        {
            v.push(fetch.get(r));
            r += 1;
        }
        Some(v)
    }
}

/// For every row of every column, the changed flag is the disjunction of the
/// added and mutated flags, at every point in time: the `Changed` tracker
/// reads exactly what `Added` and `Mutated` read, combined with `||`.
pub proof fn lemma_changed_is_added_or_mutated(a: Archetype, ty: u64, row: int)
    requires
        a.wf(),
        a.has_type(ty),
        0 <= row < a.rows(),
    ensures
        changed_flag(a, ty, row) == (added_flag(a, ty, row) || mutated_flag(a, ty, row)),
{
}

} // verus!
