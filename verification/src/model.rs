//! Mathematical model of the backing table.
//!
//! Contracts throughout the crate speak of these ghost values: a row is an
//! identity plus a name, and the store is a sequence of rows together with
//! the identity counter the store assigns from.

use vstd::prelude::*;

verus! {

/// Mathematical value of one persisted category row.
pub ghost struct CategoryModel {
    pub id: int,
    pub name: Seq<char>,
}

/// Mathematical value of the whole backing store.
pub ghost struct StoreModel {
    pub categories: Seq<CategoryModel>,
    pub next_category_id: int,
}

/// Whether some row of `rows` carries the identity `id`.
pub open spec fn contains_id(rows: Seq<CategoryModel>, id: int) -> bool {
    exists|i: int| 0 <= i < rows.len() && rows[i].id == id
}

/// The index of the row of `rows` carrying the identity `id`.
///
/// Meaningful only when `contains_id(rows, id)` holds; unique once the
/// identities of `rows` are distinct (`lemma_idx_of_unique`).
pub open spec fn idx_of(rows: Seq<CategoryModel>, id: int) -> int {
    choose|i: int| 0 <= i < rows.len() && rows[i].id == id
}

/// The row of `rows` carrying the identity `id`.
pub open spec fn row_with_id(rows: Seq<CategoryModel>, id: int) -> CategoryModel {
    rows[idx_of(rows, id)]
}

/// No two rows of `rows` share an identity.
pub open spec fn ids_unique(rows: Seq<CategoryModel>) -> bool {
    forall|i: int, j: int|
        #![trigger rows[i], rows[j]]
        0 <= i < j < rows.len() ==> rows[i].id != rows[j].id
}

impl StoreModel {
    /// Every row carries an identity the store has already handed out, no
    /// two rows share one, and the counter never goes below its start.
    pub open spec fn wf(self) -> bool {
        &&& 1 <= self.next_category_id
        &&& forall|i: int|
            #![trigger self.categories[i]]
            0 <= i < self.categories.len() ==> 1 <= self.categories[i].id
                < self.next_category_id
        &&& ids_unique(self.categories)
    }
}

/// Once the identities of `rows` are distinct, `idx_of` lands on the one
/// row that carries the looked-up identity.
pub proof fn lemma_idx_of_unique(rows: Seq<CategoryModel>, id: int, i: int)
    requires
        ids_unique(rows),
        0 <= i < rows.len(),
        rows[i].id == id,
    ensures
        contains_id(rows, id),
        idx_of(rows, id) == i,
{
    assert(contains_id(rows, id));
    let j = idx_of(rows, id);
    assert(0 <= j < rows.len() && rows[j].id == id);
    if i < j {
        assert(rows[i].id != rows[j].id);
    } else if j < i {
        assert(rows[j].id != rows[i].id);
    }
}

} // verus!
