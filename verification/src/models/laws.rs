//! What holds of a page table across operations.

use crate::models::contract::{has_key, listed, views, Record, StoreError};
use crate::models::lemmas::{
    lemma_filter_absent, lemma_lookup_at, lemma_lookup_found, lemma_push, lemma_remove,
    lemma_remove_is_filter,
};
use crate::models::page::{Page, PageRow};
use crate::models::table::TableState;
use vstd::prelude::*;

verus! {

/// A page that was created is found under the key that it was given, with
/// the title that it was created with and the table's clock as its instant
/// of creation.
pub proof fn law_create_then_read_one(table: TableState, title: Seq<char>)
    requires
        table.wf(),
        table.has_room(),
    ensures
        table.inserted(title).wf(),
        table.inserted(title).find(table.next_id) == Some(
            PageRow { id: table.next_id, title, created: table.clock },
        ),
{
    let row = PageRow { id: table.next_id, title, created: table.clock };
    if has_key::<Page>(table.rows, table.next_id) {
        let i = lemma_lookup_found::<Page>(table.rows, table.next_id);
        assert(table.rows[i].id < table.next_id);
    }
    lemma_push::<Page>(table.rows, row);
}

/// Under a key that no row has, nothing is found.
pub proof fn law_read_one_absent(table: TableState, id: int)
    requires
        table.wf(),
        !has_key::<Page>(table.rows, id),
    ensures
        table.find(id) is None,
{
}

/// A page that was updated is found under its key with the new title, and
/// with the instant of creation that it had.
pub proof fn law_update_then_read_one(table: TableState, id: int, title: Seq<char>)
    requires
        table.wf(),
        table.find(id) is Some,
    ensures
        table.retitled(id, title).wf(),
        table.retitled(id, title).find(id) == Some(
            PageRow { id, title, created: table.find(id)->0.created },
        ),
{
    lemma_retitled(table, id, title);
    let i = lemma_lookup_found::<Page>(table.rows, id);
}

/// Updating under a key that no row has changes nothing.
pub proof fn law_update_absent(table: TableState, id: int, title: Seq<char>)
    requires
        table.wf(),
        table.find(id) is None,
    ensures
        table.retitled(id, title) == table,
{
    assert(table.retitled(id, title).rows =~= table.rows) by {
        assert forall|i: int| 0 <= i < table.rows.len() implies table.rows[i].id != id by {
            assert(Page::key(table.rows[i]) == table.rows[i].id);
        }
    }
}

/// Under the key of a page that was deleted, nothing is found.
pub proof fn law_delete_then_read_one(table: TableState, id: int)
    requires
        table.wf(),
    ensures
        table.removed(id).wf(),
        table.removed(id).find(id) is None,
{
    if has_key::<Page>(table.rows, id) {
        let i = lemma_lookup_found::<Page>(table.rows, id);
        lemma_remove_is_filter::<Page>(table.rows, i);
        lemma_remove::<Page>(table.rows, i);
        let after = table.rows.remove(i);
        assert forall|j: int| 0 <= j < after.len() implies (#[trigger] after[j]).id
            < table.next_id by {
            assert(after[j] == table.rows[if j < i { j } else { j + 1 }]);
        }
    } else {
        lemma_filter_absent::<Page>(table.rows, id);
    }
}

/// Deleting under a key that no row has changes nothing.
pub proof fn law_delete_absent(table: TableState, id: int)
    requires
        table.wf(),
        table.find(id) is None,
    ensures
        table.removed(id) == table,
{
    lemma_filter_absent::<Page>(table.rows, id);
}

/// Two full reads of the same records, with no write between them, list the
/// same pages in the same order.
pub proof fn law_read_all_repeats<M: Record>(records: Seq<M::V>, first: Vec<M>, second: Vec<M>)
    requires
        listed::<M>(records, Ok::<Vec<M>, StoreError>(first)),
        listed::<M>(records, Ok::<Vec<M>, StoreError>(second)),
    ensures
        views(first@) == views(second@),
        first.len() == second.len(),
{
    assert(views(first@).len() == first@.len());
    assert(views(second@).len() == second@.len());
}

/// Giving a row a title keeps the table well formed, and is the rewrite of
/// that row's settable part.
proof fn lemma_retitled(table: TableState, id: int, title: Seq<char>)
    requires
        table.wf(),
    ensures
        table.retitled(id, title).wf(),
        table.find(id) matches Some(row) ==> table.retitled(id, title).find(id) == Some(
            PageRow { id: row.id, title, created: row.created },
        ),
{
    let after = table.retitled(id, title).rows;
    let before = table.rows;
    assert forall|i: int, j: int| 0 <= i < j < after.len() implies Page::key(
        #[trigger] after[i],
    ) != Page::key(#[trigger] after[j]) by {
        assert(Page::key(before[i]) != Page::key(before[j]));
    }
    if has_key::<Page>(before, id) {
        let i = lemma_lookup_found::<Page>(before, id);
        assert(Page::key(after[i]) == id);
        lemma_lookup_at::<Page>(after, i);
    }
}

} // verus!
