//! Laws relating the store operations to one another, proved of the model
//! the operations' own contracts speak of.

use vstd::prelude::*;

use crate::model::{contains_id, idx_of, lemma_idx_of_unique, row_with_id, CategoryModel,
    StoreModel};

verus! {

/// Creating a record and then reading the identity it came back with
/// yields exactly the created record, and the store stays well formed.
///
/// `s.categories.push(created)` is the table `create` leaves behind, and
/// `row_with_id` is what `read` then hands back.
pub proof fn lemma_create_then_read(s: StoreModel, name: Seq<char>)
    requires
        s.wf(),
    ensures
        ({
            let created = CategoryModel { id: s.next_category_id, name };
            let rows = s.categories.push(created);
            &&& contains_id(rows, s.next_category_id)
            &&& row_with_id(rows, s.next_category_id) == created
            &&& (StoreModel { categories: rows, next_category_id: s.next_category_id + 1 }).wf()
        }),
{
    let created = CategoryModel { id: s.next_category_id, name };
    let rows = s.categories.push(created);
    let n = s.categories.len() as int;
    assert forall|i: int, j: int|
        #![trigger rows[i], rows[j]]
        0 <= i < j < rows.len() implies rows[i].id != rows[j].id by {
        if j < n {
            assert(s.categories[i].id != s.categories[j].id);
        } else {
            assert(rows[i] == s.categories[i]);
        }
    }
    lemma_idx_of_unique(rows, s.next_category_id, n);
}

/// Updating an existing record rewrites exactly its mutable fields under
/// its unchanged identity, leaves every other row as it was, keeps the
/// store well formed, and a subsequent read of that identity yields the
/// updated record.
pub proof fn lemma_update_then_read(s: StoreModel, id: int, name: Seq<char>)
    requires
        s.wf(),
        contains_id(s.categories, id),
    ensures
        ({
            let updated = CategoryModel { id, name };
            let at = idx_of(s.categories, id);
            let rows = s.categories.update(at, updated);
            &&& contains_id(rows, id)
            &&& row_with_id(rows, id) == updated
            &&& rows.len() == s.categories.len()
            &&& forall|j: int| 0 <= j < rows.len() && j != at ==> rows[j] == s.categories[j]
            &&& (StoreModel { categories: rows, next_category_id: s.next_category_id }).wf()
        }),
{
    let updated = CategoryModel { id, name };
    let at = idx_of(s.categories, id);
    assert(0 <= at < s.categories.len() && s.categories[at].id == id);
    let rows = s.categories.update(at, updated);
    assert forall|p: int, q: int|
        #![trigger rows[p], rows[q]]
        0 <= p < q < rows.len() implies rows[p].id != rows[q].id by {
        assert(s.categories[p].id != s.categories[q].id);
        if p != at {
            assert(rows[p] == s.categories[p]);
        }
        if q != at {
            assert(rows[q] == s.categories[q]);
        }
    }
    lemma_idx_of_unique(rows, id, at);
}

/// Deleting an existing record leaves a table in which its identity no
/// longer occurs — so a subsequent read of that identity fails — with
/// every other row kept, in order, and the store still well formed.
pub proof fn lemma_delete_then_read(s: StoreModel, id: int)
    requires
        s.wf(),
        contains_id(s.categories, id),
    ensures
        ({
            let at = idx_of(s.categories, id);
            let rows = s.categories.remove(at);
            &&& !contains_id(rows, id)
            &&& rows.len() == s.categories.len() - 1
            &&& forall|j: int| 0 <= j < at ==> rows[j] == s.categories[j]
            &&& forall|j: int| at <= j < rows.len() ==> rows[j] == s.categories[j + 1]
            &&& (StoreModel { categories: rows, next_category_id: s.next_category_id }).wf()
        }),
{
    let at = idx_of(s.categories, id);
    assert(0 <= at < s.categories.len() && s.categories[at].id == id);
    let rows = s.categories.remove(at);
    assert forall|p: int, q: int|
        #![trigger rows[p], rows[q]]
        0 <= p < q < rows.len() implies rows[p].id != rows[q].id by {
        let p0: int = if p < at { p } else { p + 1 };
        let q0: int = if q < at { q } else { q + 1 };
        assert(rows[p] == s.categories[p0]);
        assert(rows[q] == s.categories[q0]);
        assert(s.categories[p0].id != s.categories[q0].id);
    }
    assert forall|j: int| 0 <= j < rows.len() implies #[trigger] rows[j].id != id by {
        let j0: int = if j < at { j } else { j + 1 };
        assert(rows[j] == s.categories[j0]);
        if j0 < at {
            assert(s.categories[j0].id != s.categories[at].id);
        } else if at < j0 {
            assert(s.categories[at].id != s.categories[j0].id);
        }
    }
    if contains_id(rows, id) {
        let w = choose|w: int| 0 <= w < rows.len() && rows[w].id == id;
        assert(rows[w].id != id);
    }
}

/// Listing is stable: two listings taken of the same table, with no write
/// between them, are the same sequence — row for row.
pub proof fn lemma_listing_stable(
    rows: Seq<CategoryModel>,
    out1: Seq<CategoryModel>,
    out2: Seq<CategoryModel>,
)
    requires
        out1 == rows,
        out2 == rows,
    ensures
        out1 == out2,
        out1.len() == rows.len(),
{
}

} // verus!
