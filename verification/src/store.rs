//! The backing table, held in memory and verified against the model.
//!
//! `Store` owns the rows and the identity counter; each operation is a
//! single-table interaction whose effect on the model is stated exactly.

use vstd::prelude::*;

use crate::category::{models_of, Category};
use crate::model::{contains_id, idx_of, lemma_idx_of_unique, row_with_id, CategoryModel,
    StoreModel};

verus! {

/// The backing table: one row per category, plus the identity counter the
/// store assigns from on creation.
pub struct Store {
    categories: Vec<Category>,
    next_category_id: i32,
}

impl View for Store {
    type V = StoreModel;

    closed spec fn view(&self) -> StoreModel {
        StoreModel {
            categories: models_of(self.categories@),
            next_category_id: self.next_category_id as int,
        }
    }
}

impl Store {
    /// The store's invariant, stated of its model.
    pub open spec fn wf(self) -> bool {
        self@.wf()
    }

    /// A fresh store: no rows, identity counter at one.
    pub fn new() -> (s: Store)
        ensures
            s.wf(),
            s@.categories == Seq::<CategoryModel>::empty(),
            s@.next_category_id == 1,
    {
        let s = Store { categories: Vec::new(), next_category_id: 1 };
        proof {
            assert(s@.categories =~= Seq::<CategoryModel>::empty());
        }
        s
    }

    /// Looks a row up by identity and hands back a copy of it, or nothing
    /// when no row carries that identity.
    pub fn find(&self, id: i32) -> (r: Option<Category>)
        requires
            self.wf(),
        ensures
            match r {
                Some(c) => contains_id(self@.categories, id as int) && c@ == row_with_id(
                    self@.categories,
                    id as int,
                ),
                None => !contains_id(self@.categories, id as int),
            },
    {
        let n = self.categories.len();
        let mut i: usize = 0;
        while i < n
            invariant
                n == self.categories.len(),
                i <= n,
                self.wf(),
                forall|j: int| 0 <= j < i ==> self@.categories[j].id != id as int,
            decreases n - i,
        {
            if self.categories[i].id == id {
                let c = self.categories[i].clone();
                proof {
                    assert(self@.categories[i as int] == c@);
                    lemma_idx_of_unique(self@.categories, id as int, i as int);
                }
                return Some(c);
            }
            proof {
                assert(self@.categories[i as int].id != id as int);
            }
            i += 1;
        }
        None
    }

    /// Appends a fresh row built from `name`; the store assigns the next
    /// identity to it and hands the full record back.
    pub fn insert(&mut self, name: String) -> (c: Category)
        requires
            old(self).wf(),
            old(self)@.next_category_id < i32::MAX as int,
        ensures
            final(self).wf(),
            c@ == (CategoryModel { id: old(self)@.next_category_id, name: name@ }),
            final(self)@.categories == old(self)@.categories.push(c@),
            final(self)@.next_category_id == old(self)@.next_category_id + 1,
    {
        let id = self.next_category_id;
        let row = Category { id, name };
        let out = row.clone();
        self.categories.push(row);
        self.next_category_id = id + 1;
        proof {
            assert(self@.categories =~= old(self)@.categories.push(out@));
            assert forall|i: int| 0 <= i < self@.categories.len() implies 1
                <= #[trigger] self@.categories[i].id < self@.next_category_id by {
                if i < old(self)@.categories.len() {
                    assert(old(self)@.categories[i] == self@.categories[i]);
                }
            }
        }
        out
    }

    /// Overwrites the name of the row carrying the identity `id`, if it is
    /// there, and hands back the updated record; the identity stays.
    pub fn update_row(&mut self, id: i32, name: String) -> (r: Option<Category>)
        requires
            old(self).wf(),
        ensures
            final(self).wf(),
            match r {
                Some(c) => {
                    &&& contains_id(old(self)@.categories, id as int)
                    &&& c@ == (CategoryModel { id: id as int, name: name@ })
                    &&& final(self)@.categories == old(self)@.categories.update(
                        idx_of(old(self)@.categories, id as int),
                        c@,
                    )
                    &&& final(self)@.next_category_id == old(self)@.next_category_id
                },
                None => !contains_id(old(self)@.categories, id as int) && final(self)@ == old(
                    self,
                )@,
            },
    {
        let n = self.categories.len();
        let mut i: usize = 0;
        while i < n
            invariant
                n == self.categories.len(),
                i <= n,
                self.wf(),
                self@ == old(self)@,
                forall|j: int| 0 <= j < i ==> self@.categories[j].id != id as int,
            decreases n - i,
        {
            if self.categories[i].id == id {
                let row = Category { id, name };
                let out = row.clone();
                proof {
                    lemma_idx_of_unique(old(self)@.categories, id as int, i as int);
                }
                self.categories.set(i, row);
                proof {
                    assert(self@.categories =~= old(self)@.categories.update(i as int, out@));
                    assert forall|k: int| 0 <= k < self@.categories.len() implies 1
                        <= #[trigger] self@.categories[k].id < self@.next_category_id by {
                        if k != i {
                            assert(self@.categories[k] == old(self)@.categories[k]);
                        }
                    }
                    assert forall|p: int, q: int|
                        #![trigger self@.categories[p], self@.categories[q]]
                        0 <= p < q < self@.categories.len() implies self@.categories[p].id
                        != self@.categories[q].id by {
                        assert(old(self)@.categories[p].id != old(self)@.categories[q].id);
                        if p != i {
                            assert(self@.categories[p] == old(self)@.categories[p]);
                        }
                        if q != i {
                            assert(self@.categories[q] == old(self)@.categories[q]);
                        }
                    }
                }
                return Some(out);
            }
            proof {
                assert(self@.categories[i as int].id != id as int);
            }
            i += 1;
        }
        None
    }

    /// Removes the row carrying the identity `id`, if it is there, and says
    /// how many rows went: one when the row existed, none otherwise.
    pub fn remove(&mut self, id: i32) -> (n: usize)
        requires
            old(self).wf(),
        ensures
            final(self).wf(),
            contains_id(old(self)@.categories, id as int) ==> {
                &&& n == 1usize
                &&& final(self)@.categories == old(self)@.categories.remove(
                    idx_of(old(self)@.categories, id as int),
                )
                &&& final(self)@.next_category_id == old(self)@.next_category_id
            },
            !contains_id(old(self)@.categories, id as int) ==> n == 0usize && final(self)@ == old(
                self,
            )@,
    {
        let len = self.categories.len();
        let mut i: usize = 0;
        while i < len
            invariant
                len == self.categories.len(),
                i <= len,
                self.wf(),
                self@ == old(self)@,
                forall|j: int| 0 <= j < i ==> self@.categories[j].id != id as int,
            decreases len - i,
        {
            if self.categories[i].id == id {
                proof {
                    lemma_idx_of_unique(old(self)@.categories, id as int, i as int);
                }
                self.categories.remove(i);
                proof {
                    assert(self@.categories =~= old(self)@.categories.remove(i as int));
                    assert forall|k: int| 0 <= k < self@.categories.len() implies 1
                        <= #[trigger] self@.categories[k].id < self@.next_category_id by {
                        if k < i {
                            assert(self@.categories[k] == old(self)@.categories[k]);
                        } else {
                            assert(self@.categories[k] == old(self)@.categories[k + 1]);
                        }
                    }
                    assert forall|p: int, q: int|
                        #![trigger self@.categories[p], self@.categories[q]]
                        0 <= p < q < self@.categories.len() implies self@.categories[p].id
                        != self@.categories[q].id by {
                        let p0: int = if p < i { p } else { p + 1 };
                        let q0: int = if q < i { q } else { q + 1 };
                        assert(self@.categories[p] == old(self)@.categories[p0]);
                        assert(self@.categories[q] == old(self)@.categories[q0]);
                        assert(old(self)@.categories[p0].id != old(self)@.categories[q0].id);
                    }
                }
                return 1;
            }
            proof {
                assert(self@.categories[i as int].id != id as int);
            }
            i += 1;
        }
        0
    }

    /// Copies every row out, in the store's own (insertion) order.
    pub fn all(&self) -> (v: Vec<Category>)
        ensures
            models_of(v@) == self@.categories,
            v@.len() == self@.categories.len(),
    {
        let n = self.categories.len();
        let mut v: Vec<Category> = Vec::new();
        let mut i: usize = 0;
        while i < n
            invariant
                n == self.categories.len(),
                i <= n,
                v@.len() == i,
                forall|j: int| 0 <= j < i ==> #[trigger] v@[j]@ == self@.categories[j],
            decreases n - i,
        {
            let c = self.categories[i].clone();
            proof {
                assert(self@.categories[i as int] == c@);
            }
            v.push(c);
            i += 1;
        }
        proof {
            assert(models_of(v@) =~= self@.categories);
        }
        v
    }
}

} // verus!
