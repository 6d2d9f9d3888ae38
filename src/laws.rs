use vstd::prelude::*;

use crate::document::DocumentModel;

verus! {

/// The contents of a table after storing each entry in turn.
pub open spec fn store_each(
    table: Map<Seq<char>, DocumentModel>,
    entries: Seq<(Seq<char>, DocumentModel)>,
) -> Map<Seq<char>, DocumentModel>
    decreases entries.len(),
{
    if entries.len() == 0 {
        table
    } else {
        store_each(table, entries.drop_last()).insert(entries.last().0, entries.last().1)
    }
}

pub open spec fn distinct_ids(entries: Seq<(Seq<char>, DocumentModel)>) -> bool {
    forall|i: int, j: int|
        0 <= i < entries.len() && 0 <= j < entries.len() && i != j ==> entries[i].0 != entries[j].0
}

/// Storing a document and then loading its id gives the same document back.
pub proof fn law_round_trip(table: Map<Seq<char>, DocumentModel>, id: Seq<char>, doc: DocumentModel)
    ensures
        table.insert(id, doc).contains_key(id),
        table.insert(id, doc)[id] == doc,
{
}

/// A second store under the same id replaces the first document and leaves
/// the number of documents as it was.
pub proof fn law_upsert_overwrite(
    table: Map<Seq<char>, DocumentModel>,
    id: Seq<char>,
    first: DocumentModel,
    second: DocumentModel,
)
    requires
        table.dom().finite(),
    ensures
        table.insert(id, first).insert(id, second)[id] == second,
        table.insert(id, first).insert(id, second).len() == table.insert(id, first).len(),
{
    assert(table.insert(id, first).insert(id, second) =~= table.insert(id, second));
}

/// Storing under an id that is already present does not change the count.
pub proof fn law_restore_keeps_count(
    table: Map<Seq<char>, DocumentModel>,
    id: Seq<char>,
    doc: DocumentModel,
)
    requires
        table.dom().finite(),
        table.contains_key(id),
    ensures
        table.insert(id, doc).len() == table.len(),
{
    assert(table.insert(id, doc).dom() =~= table.dom());
}

/// Storing documents under `n` distinct ids into an empty table leaves
/// exactly `n` documents.
pub proof fn law_count_distinct(entries: Seq<(Seq<char>, DocumentModel)>)
    requires
        distinct_ids(entries),
    ensures
        store_each(Map::empty(), entries).dom().finite(),
        store_each(Map::empty(), entries).len() == entries.len(),
    decreases entries.len(),
{
    if entries.len() > 0 {
        let front = entries.drop_last();
        assert(distinct_ids(front));
        law_count_distinct(front);
        lemma_store_each_keys(Map::empty(), front, entries.last().0);
        if store_each(Map::empty(), front).contains_key(entries.last().0) {
            let i = choose|i: int| 0 <= i < front.len() && front[i].0 == entries.last().0;
            assert(entries[i] == front[i]);
        }
    }
}

proof fn lemma_store_each_keys(
    table: Map<Seq<char>, DocumentModel>,
    entries: Seq<(Seq<char>, DocumentModel)>,
    id: Seq<char>,
)
    ensures
        store_each(table, entries).contains_key(id) ==> table.contains_key(id) || exists|i: int|
            0 <= i < entries.len() && entries[i].0 == id,
    decreases entries.len(),
{
    if entries.len() > 0 {
        let front = entries.drop_last();
        lemma_store_each_keys(table, front, id);
        if store_each(table, front).contains_key(id) && !table.contains_key(id) {
            let i = choose|i: int| 0 <= i < front.len() && front[i].0 == id;
            assert(entries[i] == front[i]);
        }
    }
}

/// The contents after two stores under one id, `first` landing before `second`.
pub open spec fn both_stored(
    table: Map<Seq<char>, DocumentModel>,
    id: Seq<char>,
    first: DocumentModel,
    second: DocumentModel,
) -> Map<Seq<char>, DocumentModel> {
    table.insert(id, first).insert(id, second)
}

/// Two stores under one id, in whichever order they land, leave that id
/// holding one of the two documents whole, and every other id untouched.
pub proof fn law_last_write_wins(
    table: Map<Seq<char>, DocumentModel>,
    id: Seq<char>,
    a: DocumentModel,
    b: DocumentModel,
)
    ensures
        both_stored(table, id, a, b).contains_key(id),
        both_stored(table, id, a, b)[id] == a || both_stored(table, id, a, b)[id] == b,
        both_stored(table, id, a, b).remove(id) == table.remove(id),
        both_stored(table, id, b, a).contains_key(id),
        both_stored(table, id, b, a)[id] == a || both_stored(table, id, b, a)[id] == b,
        both_stored(table, id, b, a).remove(id) == table.remove(id),
{
    assert(both_stored(table, id, a, b).remove(id) =~= table.remove(id));
    assert(both_stored(table, id, b, a).remove(id) =~= table.remove(id));
}

} // verus!
