//! The category entity: the full record the store hands back, and the
//! writable projection of it that callers submit on create and update.

use vstd::prelude::*;

use crate::crud::{Crud, Error};
use crate::model::{contains_id, idx_of, row_with_id, CategoryModel};
use crate::store::Store;

verus! {

/// One persisted category row: a store-assigned identity plus a name.
#[derive(Debug)]
pub struct Category {
    pub id: i32,
    pub name: String,
}

/// The writable projection of `Category`: the fields a caller may set on
/// create and update. The identity is the store's to assign, so it is
/// deliberately absent here.
#[derive(Debug)]
pub struct CategoryForm {
    pub name: String,
}

impl View for Category {
    type V = CategoryModel;

    open spec fn view(&self) -> CategoryModel {
        CategoryModel { id: self.id as int, name: self.name@ }
    }
}

impl View for CategoryForm {
    type V = Seq<char>;

    open spec fn view(&self) -> Seq<char> {
        self.name@
    }
}

/// The models of the rows of `v`, in order.
pub open spec fn models_of(v: Seq<Category>) -> Seq<CategoryModel> {
    v.map_values(|c: Category| c@)
}

impl Clone for Category {
    fn clone(&self) -> (c: Self)
        ensures
            c == *self,
    {
        Category { id: self.id, name: self.name.clone() }
    }
}

impl Clone for CategoryForm {
    fn clone(&self) -> (f: Self)
        ensures
            f == *self,
    {
        CategoryForm { name: self.name.clone() }
    }
}

impl PartialEq for Category {
    fn eq(&self, other: &Category) -> (r: bool) {
        self.id == other.id && self.name == other.name
    }
}

impl vstd::std_specs::cmp::PartialEqSpecImpl for Category {
    open spec fn obeys_eq_spec() -> bool {
        true
    }

    open spec fn eq_spec(&self, other: &Category) -> bool {
        self.id == other.id && self.name@ == other.name@
    }
}

impl Crud<CategoryForm> for Category {
    /// The store is well formed and has an identity left to assign.
    open spec fn create_req(store: Store, form: CategoryForm) -> bool {
        store.wf() && store@.next_category_id < i32::MAX as int
    }

    /// Exactly one row was appended, built from the form's fields and
    /// carrying the identity the store assigned; that record came back.
    open spec fn create_ens(pre: Store, post: Store, form: CategoryForm, r: Result<
        Category,
        Error,
    >) -> bool {
        let created = CategoryModel { id: pre@.next_category_id, name: form@ };
        &&& post.wf()
        &&& r matches Ok(c) && c@ == created
        &&& post@.categories == pre@.categories.push(created)
        &&& post@.next_category_id == pre@.next_category_id + 1
    }

    /// The store is well formed.
    open spec fn read_req(store: Store, id: i32) -> bool {
        store.wf()
    }

    /// The row carrying `id` came back when there is one; `NotFound`
    /// otherwise. The store is untouched either way.
    open spec fn read_ens(store: Store, id: i32, r: Result<Category, Error>) -> bool {
        if contains_id(store@.categories, id as int) {
            r matches Ok(c) && c@ == row_with_id(store@.categories, id as int)
        } else {
            r == Err::<Category, Error>(Error::NotFound)
        }
    }

    /// The store is well formed.
    open spec fn update_req(store: Store, id: i32, form: CategoryForm) -> bool {
        store.wf()
    }

    /// When a row carries `id`, exactly that row now holds the form's
    /// fields, its identity and every other row stay as they were, and the
    /// updated record came back; `NotFound` otherwise, with the store
    /// untouched.
    open spec fn update_ens(pre: Store, post: Store, id: i32, form: CategoryForm, r: Result<
        Category,
        Error,
    >) -> bool {
        if contains_id(pre@.categories, id as int) {
            let updated = CategoryModel { id: id as int, name: form@ };
            &&& post.wf()
            &&& r matches Ok(c) && c@ == updated
            &&& post@.categories == pre@.categories.update(
                idx_of(pre@.categories, id as int),
                updated,
            )
            &&& post@.next_category_id == pre@.next_category_id
        } else {
            r == Err::<Category, Error>(Error::NotFound) && post@ == pre@
        }
    }

    /// The store is well formed.
    open spec fn delete_req(store: Store, id: i32) -> bool {
        store.wf()
    }

    /// When a row carries `id`, exactly that row is gone and one removal
    /// is reported; otherwise nothing changed and zero removals are
    /// reported. Neither outcome is an error.
    open spec fn delete_ens(pre: Store, post: Store, id: i32, r: Result<usize, Error>) -> bool {
        if contains_id(pre@.categories, id as int) {
            &&& post.wf()
            &&& r == Ok::<usize, Error>(1)
            &&& post@.categories == pre@.categories.remove(idx_of(pre@.categories, id as int))
            &&& post@.next_category_id == pre@.next_category_id
        } else {
            r == Ok::<usize, Error>(0) && post@ == pre@
        }
    }

    fn create(store: &mut Store, form: &CategoryForm) -> (r: Result<Category, Error>) {
        let c = store.insert(form.name.clone());
        Ok(c)
    }

    fn read(store: &Store, id: i32) -> (r: Result<Category, Error>) {
        match store.find(id) {
            Some(c) => Ok(c),
            None => Err(Error::NotFound),
        }
    }

    fn update(store: &mut Store, id: i32, form: &CategoryForm) -> (r: Result<Category, Error>) {
        match store.update_row(id, form.name.clone()) {
            Some(c) => Ok(c),
            None => Err(Error::NotFound),
        }
    }

    fn delete(store: &mut Store, id: i32) -> (r: Result<usize, Error>) {
        Ok(store.remove(id))
    }
}

impl Category {
    /// Every row in the table, fully materialized, in the store's own
    /// (insertion) order; the listing has exactly one entry per row.
    pub fn list_all(store: &Store) -> (r: Result<Vec<Category>, Error>)
        ensures
            r matches Ok(v) && models_of(v@) == store@.categories && v@.len()
                == store@.categories.len(),
    {
        Ok(store.all())
    }
}

} // verus!
