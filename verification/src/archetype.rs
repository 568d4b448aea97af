//! The columnar storage an archetype owns: one data column plus two parallel
//! boolean flag arrays ("added" and "mutated") per component type, all
//! index-aligned, one row per entity.

use vstd::prelude::*;

verus! {

/// One component column of an archetype: the per-row data values and the two
/// flag arrays, all of the same length as the archetype's row count.
pub struct Column {
    /// The component value of each row.
    pub values: Vec<u64>,
    /// `added[r]` is true exactly when the component was newly attached to
    /// row `r` since the last reset.
    pub added: Vec<bool>,
    /// `mutated[r]` is true exactly when row `r`'s component was obtained
    /// through an exclusive (write) accessor since the last reset.
    pub mutated: Vec<bool>,
}

impl Column {
    /// The three arrays are index-aligned: one entry per row.
    pub open spec fn wf(self, rows: nat) -> bool {
        &&& self.values@.len() == rows
        &&& self.added@.len() == rows
        &&& self.mutated@.len() == rows
    }
}

/// A table of entities sharing one component-type set, stored column-wise.
/// Component types are identified by their numeric type id; `type_ids[i]`
/// names the type stored in `columns[i]`.
pub struct Archetype {
    pub type_ids: Vec<u64>,
    pub columns: Vec<Column>,
    pub row_count: usize,
}

impl Archetype {
    /// Number of rows (entities) currently stored.
    pub open spec fn rows(self) -> nat {
        self.row_count as nat
    }

    /// Number of component columns.
    pub open spec fn n_cols(self) -> nat {
        self.type_ids@.len()
    }

    /// Well-formedness: one column per type id, no type id twice, and every
    /// column index-aligned with the row count.
    pub open spec fn wf(self) -> bool {
        &&& self.columns@.len() == self.type_ids@.len()
        &&& forall|i: int, j: int|
            0 <= i < j < self.type_ids@.len() ==> self.type_ids@[i] != self.type_ids@[j]
        &&& forall|i: int|
            0 <= i < self.columns@.len() ==> (#[trigger] self.columns@[i]).wf(self.rows())
    }

    /// Whether this archetype stores a column for the given component type.
    pub open spec fn has_type(self, ty: u64) -> bool {
        self.type_ids@.contains(ty)
    }

    /// A state token is valid when it indexes a column of this archetype.
    pub open spec fn valid_state(self, state: usize) -> bool {
        state < self.columns@.len()
    }

    /// The index of the column that stores the given type (meaningful only
    /// when `has_type(ty)`; unique in a well-formed archetype).
    pub open spec fn index_of_type(self, ty: u64) -> int {
        choose|i: int| 0 <= i < self.type_ids@.len() && self.type_ids@[i] == ty
    }

    /// The column a state token resolves to.
    pub open spec fn col(self, state: usize) -> Column {
        self.columns@[state as int]
    }

    /// The column that stores the given type.
    pub open spec fn col_of(self, ty: u64) -> Column {
        self.columns@[self.index_of_type(ty)]
    }

    /// In a well-formed archetype a type is stored in at most one column, so
    /// any column index holding `ty` equals `index_of_type(ty)`.
    pub proof fn lemma_state_unique(self, ty: u64, s: int)
        requires
            self.wf(),
            0 <= s < self.type_ids@.len(),
            self.type_ids@[s] == ty,
        ensures
            self.index_of_type(ty) == s,
            self.has_type(ty),
    {
        assert(self.has_type(ty));
        let i = self.index_of_type(ty);
        assert(0 <= i < self.type_ids@.len() && self.type_ids@[i] == ty);
        if i != s {
            if i < s {
                assert(self.type_ids@[i] != self.type_ids@[s]);
            } else {
                assert(self.type_ids@[s] != self.type_ids@[i]);
            }
        }
    }

    /// Build an empty archetype for the given component-type set.
    pub fn new(type_ids: Vec<u64>) -> (a: Archetype)
        requires
            forall|i: int, j: int|
                0 <= i < j < type_ids@.len() ==> type_ids@[i] != type_ids@[j],
        ensures
            a.wf(),
            a.type_ids@ == type_ids@,
            a.rows() == 0,
    {
        let n = type_ids.len();
        let mut columns: Vec<Column> = Vec::new();
        let mut i: usize = 0;
        while i < n
            invariant
                i <= n,
                columns@.len() == i,
                forall|k: int| 0 <= k < i ==> (#[trigger] columns@[k]).wf(0),
            decreases n - i,
        {
            columns.push(Column { values: Vec::new(), added: Vec::new(), mutated: Vec::new() });
            i += 1;
        }
        Archetype { type_ids, columns, row_count: 0 }
    }

    /// Whether a column for the given type is present: the "contains type"
    /// predicate the trackers consult before resolving a state token.
    pub fn has(&self, ty: u64) -> (r: bool)
        ensures
            r == self.has_type(ty),
    {
        let n = self.type_ids.len();
        let mut i: usize = 0;
        while i < n
            invariant
                i <= n,
                n == self.type_ids@.len(),
                forall|k: int| 0 <= k < i ==> self.type_ids@[k] != ty,
            decreases n - i,
        {
            if self.type_ids[i] == ty {
                return true;
            }
            i += 1;
        }
        false
    }

    /// Column resolution: an opaque state token if and only if the archetype
    /// contains a column for the type; absence is not an error.
    pub fn get_state(&self, ty: u64) -> (r: Option<usize>)
        requires
            self.wf(),
        ensures
            r is Some <==> self.has_type(ty),
            r matches Some(s) ==> self.valid_state(s) && self.type_ids@[s as int] == ty
                && s == self.index_of_type(ty),
    {
        let n = self.type_ids.len();
        let mut i: usize = 0;
        while i < n
            invariant
                i <= n,
                n == self.type_ids@.len(),
                self.wf(),
                forall|k: int| 0 <= k < i ==> self.type_ids@[k] != ty,
            decreases n - i,
        {
            if self.type_ids[i] == ty {
                proof {
                    self.lemma_state_unique(ty, i as int);
                }
                return Some(i);
            }
            i += 1;
        }
        None
    }

    /// The "added" flag array of the column a state token resolves to.
    pub fn get_added(&self, state: usize) -> (r: &Vec<bool>)
        requires
            self.valid_state(state),
        ensures
            r@ == self.col(state).added@,
    {
        &self.columns[state].added
    }

    /// The "mutated" flag array of the column a state token resolves to.
    pub fn get_mutated(&self, state: usize) -> (r: &Vec<bool>)
        requires
            self.valid_state(state),
        ensures
            r@ == self.col(state).mutated@,
    {
        &self.columns[state].mutated
    }

    /// Number of rows currently stored.
    pub fn len(&self) -> (r: usize)
        ensures
            r == self.rows(),
    {
        self.row_count
    }

    /// Attach a new row (one freshly created entity), one value per column.
    /// The new row's `added` flag is true and its `mutated` flag is false in
    /// every column; existing rows and their flags are untouched.
    pub fn push_row(&mut self, values: &Vec<u64>)
        requires
            old(self).wf(),
            values@.len() == old(self).n_cols(),
            old(self).row_count < usize::MAX,
        ensures
            final(self).wf(),
            final(self).type_ids@ == old(self).type_ids@,
            final(self).rows() == old(self).rows() + 1,
            forall|j: int| 0 <= j < old(self).columns@.len() ==> {
                &&& (#[trigger] final(self).columns@[j]).values@
                    == old(self).columns@[j].values@.push(values@[j])
                &&& final(self).columns@[j].added@ == old(self).columns@[j].added@.push(true)
                &&& final(self).columns@[j].mutated@ == old(self).columns@[j].mutated@.push(false)
            },
    {
        let n = self.columns.len();
        let mut j: usize = 0;
        while j < n
            invariant
                j <= n,
                n == self.columns@.len(),
                n == old(self).columns@.len(),
                values@.len() == n,
                self.type_ids@ == old(self).type_ids@,
                self.row_count == old(self).row_count,
                forall|k: int| 0 <= k < j ==> {
                    &&& (#[trigger] self.columns@[k]).values@
                        == old(self).columns@[k].values@.push(values@[k])
                    &&& self.columns@[k].added@ == old(self).columns@[k].added@.push(true)
                    &&& self.columns@[k].mutated@ == old(self).columns@[k].mutated@.push(false)
                },
                forall|k: int| j <= k < n ==> self.columns@[k] == old(self).columns@[k],
            decreases n - j,
        {
            let col = &mut self.columns[j];
            col.values.push(values[j]);
            col.added.push(true);
            col.mutated.push(false);
            j += 1;
        }
        self.row_count = self.row_count + 1;
    }

    /// Read one row's component value. Reads never touch either flag, which
    /// the shared borrow already guarantees.
    pub fn read_value(&self, state: usize, row: usize) -> (r: u64)
        requires
            self.wf(),
            self.valid_state(state),
            row < self.rows(),
        ensures
            r == self.col(state).values@[row as int],
    {
        self.columns[state].values[row]
    }

    /// Write one row's component value through an exclusive accessor. The
    /// row's `mutated` flag becomes true whether or not the new value differs
    /// from the old one; its `added` flag and every other row and column are
    /// untouched.
    pub fn write_value(&mut self, state: usize, row: usize, value: u64)
        requires
            old(self).wf(),
            old(self).valid_state(state),
            row < old(self).rows(),
        ensures
            final(self).wf(),
            final(self).type_ids@ == old(self).type_ids@,
            final(self).rows() == old(self).rows(),
            final(self).col(state).values@ == old(self).col(state).values@.update(row as int, value),
            final(self).col(state).mutated@ == old(self).col(state).mutated@.update(row as int, true),
            final(self).col(state).added@ == old(self).col(state).added@,
            forall|j: int|
                0 <= j < old(self).columns@.len() && j != state
                    ==> final(self).columns@[j] == old(self).columns@[j],
    {
        let col = &mut self.columns[state];
        col.values[row] = value;
        col.mutated[row] = true;
    }

    /// Obtain an exclusive (write) accessor to one row's component value.
    /// The row's `mutated` flag becomes true at the moment the accessor is
    /// obtained, whether or not the value is then changed through it; the
    /// row's `added` flag and every other row and column are untouched.
    pub fn get_value_mut(&mut self, state: usize, row: usize) -> (r: &mut u64)
        requires
            old(self).wf(),
            old(self).valid_state(state),
            row < old(self).rows(),
        ensures
            *r == old(self).col(state).values@[row as int],
            final(self).wf(),
            final(self).type_ids@ == old(self).type_ids@,
            final(self).rows() == old(self).rows(),
            final(self).col(state).values@
                == old(self).col(state).values@.update(row as int, *final(r)),
            final(self).col(state).mutated@
                == old(self).col(state).mutated@.update(row as int, true),
            final(self).col(state).added@ == old(self).col(state).added@,
            forall|j: int|
                0 <= j < old(self).columns@.len() && j != state
                    ==> final(self).columns@[j] == old(self).columns@[j],
    {
        let col = &mut self.columns[state];
        col.mutated[row] = true;
        &mut col.values[row]
    }

    /// Clear this archetype's trackers: every `added` and `mutated` flag of
    /// every column becomes false; types, values and row count are untouched.
    pub fn clear_trackers(&mut self)
        requires
            old(self).wf(),
        ensures
            final(self).wf(),
            final(self).type_ids@ == old(self).type_ids@,
            final(self).rows() == old(self).rows(),
            final(self).columns@.len() == old(self).columns@.len(),
            forall|j: int| 0 <= j < old(self).columns@.len() ==> {
                &&& (#[trigger] final(self).columns@[j]).values@ == old(self).columns@[j].values@
                &&& final(self).columns@[j].added@ =~= Seq::new(old(self).rows(), |r: int| false)
                &&& final(self).columns@[j].mutated@ =~= Seq::new(old(self).rows(), |r: int| false)
            },
    {
        let n = self.columns.len();
        let rows = self.row_count;
        let mut j: usize = 0;
        while j < n
            invariant
                j <= n,
                n == self.columns@.len(),
                n == old(self).columns@.len(),
                rows == old(self).row_count,
                self.type_ids@ == old(self).type_ids@,
                self.row_count == old(self).row_count,
                forall|k: int| 0 <= k < j ==> {
                    &&& (#[trigger] self.columns@[k]).values@ == old(self).columns@[k].values@
                    &&& self.columns@[k].added@ =~= Seq::new(old(self).rows(), |r: int| false)
                    &&& self.columns@[k].mutated@ =~= Seq::new(old(self).rows(), |r: int| false)
                },
                forall|k: int| j <= k < n ==> self.columns@[k] == old(self).columns@[k],
            decreases n - j,
        {
            let cleared_a = falses(rows);
            let cleared_m = falses(rows);
            let col = &mut self.columns[j];
            col.added = cleared_a;
            col.mutated = cleared_m;
            j += 1;
        }
    }
}

/// A vector of `n` false flags.
fn falses(n: usize) -> (v: Vec<bool>)
    ensures
        v@ =~= Seq::new(n as nat, |r: int| false),
{
    let mut v: Vec<bool> = Vec::new();
    let mut i: usize = 0;
    while i < n
        invariant
            i <= n,
            v@.len() == i,
            forall|k: int| 0 <= k < i ==> v@[k] == false,
        decreases n - i,
    {
        v.push(false);
        i += 1;
    }
    v
}

} // verus!
