use vstd::prelude::*;

use crate::document::{DocumentModel, PersistedDocument};
use crate::error::StoreError;
use crate::outcome::{load_result, store_result};

verus! {

/// The map that a list of rows denotes: later rows win for a repeated id.
pub open spec fn rows_map(rows: Seq<(String, PersistedDocument)>) -> Map<Seq<char>, DocumentModel>
    decreases rows.len(),
{
    if rows.len() == 0 {
        Map::empty()
    } else {
        rows_map(rows.drop_last()).insert(rows.last().0@, rows.last().1@)
    }
}

pub open spec fn unique_ids(rows: Seq<(String, PersistedDocument)>) -> bool {
    forall|i: int, j: int| 0 <= i < rows.len() && 0 <= j < rows.len() && i != j ==> rows[i].0@ != rows[j].0@
}

proof fn lemma_rows_map_index(rows: Seq<(String, PersistedDocument)>, i: int)
    requires
        unique_ids(rows),
        0 <= i < rows.len(),
    ensures
        rows_map(rows).contains_key(rows[i].0@),
        rows_map(rows)[rows[i].0@] == rows[i].1@,
    decreases rows.len(),
{
    if i < rows.len() - 1 {
        let front = rows.drop_last();
        assert(front[i] == rows[i]);
        assert(unique_ids(front));
        lemma_rows_map_index(front, i);
        assert(rows[i].0@ != rows[rows.len() - 1].0@);
    }
}

proof fn lemma_rows_map_keys(rows: Seq<(String, PersistedDocument)>, k: Seq<char>)
    requires
        rows_map(rows).contains_key(k),
    ensures
        exists|i: int| 0 <= i < rows.len() && rows[i].0@ == k,
    decreases rows.len(),
{
    if rows.len() > 0 && rows.last().0@ != k {
        let front = rows.drop_last();
        lemma_rows_map_keys(front, k);
        let i = choose|i: int| 0 <= i < front.len() && front[i].0@ == k;
        assert(rows[i] == front[i]);
    }
}

proof fn lemma_rows_map_len(rows: Seq<(String, PersistedDocument)>)
    requires
        unique_ids(rows),
    ensures
        rows_map(rows).dom().finite(),
        rows_map(rows).len() == rows.len(),
    decreases rows.len(),
{
    if rows.len() > 0 {
        let front = rows.drop_last();
        assert(unique_ids(front));
        lemma_rows_map_len(front);
        if rows_map(front).contains_key(rows.last().0@) {
            lemma_rows_map_keys(front, rows.last().0@);
            let i = choose|i: int| 0 <= i < front.len() && front[i].0@ == rows.last().0@;
            assert(rows[i] == front[i]);
        }
    }
}

proof fn lemma_rows_map_update(
    rows: Seq<(String, PersistedDocument)>,
    i: int,
    row: (String, PersistedDocument),
)
    requires
        unique_ids(rows),
        0 <= i < rows.len(),
        rows[i].0@ == row.0@,
    ensures
        unique_ids(rows.update(i, row)),
        rows_map(rows.update(i, row)) == rows_map(rows).insert(row.0@, row.1@),
    decreases rows.len(),
{
    let next = rows.update(i, row);
    assert(unique_ids(next)) by {
        assert forall|a: int, b: int|
            0 <= a < next.len() && 0 <= b < next.len() && a != b implies next[a].0@ != next[b].0@ by {
            assert(next[a].0@ == rows[a].0@);
            assert(next[b].0@ == rows[b].0@);
        }
    }
    let front = rows.drop_last();
    if i == rows.len() - 1 {
        assert(next.drop_last() =~= front);
        assert(rows_map(next) =~= rows_map(rows).insert(row.0@, row.1@));
    } else {
        assert(unique_ids(front));
        assert(next.drop_last() =~= front.update(i, row));
        lemma_rows_map_update(front, i, row);
        assert(rows.last().0@ != row.0@) by {
            assert(rows[i].0@ != rows[rows.len() - 1].0@);
        }
        assert(rows_map(next) =~= rows_map(rows).insert(row.0@, row.1@));
    }
}

/// A document table held in memory, with the same load, store and count
/// contract as a relational backend: one row per id, upserts overwrite.
pub struct DocumentTable {
    rows: Vec<(String, PersistedDocument)>,
}

impl View for DocumentTable {
    type V = Map<Seq<char>, DocumentModel>;

    closed spec fn view(&self) -> Map<Seq<char>, DocumentModel> {
        rows_map(self.rows@)
    }
}

impl DocumentTable {
    #[verifier::type_invariant]
    spec fn well_formed(&self) -> bool {
        unique_ids(self.rows@)
    }

    /// An empty table.
    pub fn new() -> (r: DocumentTable)
        ensures
            r@ == Map::<Seq<char>, DocumentModel>::empty(),
    {
        DocumentTable { rows: Vec::new() }
    }

    /// The position of the row stored under `id`, if there is one.
    fn find(&self, id: &String) -> (r: Option<usize>)
        ensures
            match r {
                Some(i) => i < self.rows@.len() && self.rows@[i as int].0@ == id@,
                None => forall|i: int| 0 <= i < self.rows@.len() ==> self.rows@[i].0@ != id@,
            },
    {
        let mut i: usize = 0;
        while i < self.rows.len()
            invariant
                i <= self.rows@.len(),
                forall|j: int| 0 <= j < i ==> self.rows@[j].0@ != id@,
            decreases self.rows@.len() - i,
        {
            if self.rows[i].0.eq(id) {
                return Some(i);
            }
            i = i + 1;
        }
        None
    }

    /// The snapshot stored under `id`, or `NotFound` when there is none.
    pub fn load(&self, id: &str) -> (r: Result<PersistedDocument, StoreError>)
        ensures
            self@.contains_key(id@) ==> r is Ok && r->Ok_0@ == self@[id@],
            !self@.contains_key(id@) ==> r == Err::<PersistedDocument, StoreError>(
                StoreError::NotFound,
            ),
    {
        proof {
            use_type_invariant(self);
        }
        let key = String::from_str(id);
        let found = match self.find(&key) {
            Some(i) => {
                proof {
                    lemma_rows_map_index(self.rows@, i as int);
                }
                Some(self.rows[i].1.duplicate())
            },
            None => {
                proof {
                    if self@.contains_key(id@) {
                        lemma_rows_map_keys(self.rows@, id@);
                    }
                }
                None
            },
        };
        load_result(Ok(found))
    }

    /// Upserts `document` under `id`: a new row when the id is absent,
    /// otherwise the existing row's text and language are overwritten.
    pub fn store(&mut self, id: &str, document: &PersistedDocument) -> (r: Result<(), StoreError>)
        ensures
            r == Ok::<(), StoreError>(()),
            final(self)@ == old(self)@.insert(id@, document@),
    {
        proof {
            use_type_invariant(&*self);
        }
        let key = String::from_str(id);
        let position = self.find(&key);
        let mut rows: Vec<(String, PersistedDocument)> = Vec::new();
        std::mem::swap(&mut rows, &mut self.rows);
        let ghost before = rows@;
        let row = (key, document.duplicate());
        let affected: u64 = 1;
        match position {
            Some(i) => {
                proof {
                    lemma_rows_map_update(before, i as int, row);
                }
                rows.set(i, row);
            },
            None => {
                rows.push(row);
                proof {
                    assert(rows@.drop_last() =~= before);
                    assert(unique_ids(rows@));
                }
            },
        }
        self.rows = rows;
        store_result(Ok(affected))
    }

    /// The number of stored documents.
    pub fn count(&self) -> (r: usize)
        ensures
            self@.dom().finite(),
            r == self@.len(),
    {
        proof {
            use_type_invariant(self);
            lemma_rows_map_len(self.rows@);
        }
        self.rows.len()
    }
}

} // verus!
