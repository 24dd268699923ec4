//! The persistence contract: the four canonical operations every entity
//! must support, and the kinds of failure a store operation can surface.

use vstd::prelude::*;

use crate::store::Store;

verus! {

/// The kinds of failure a store operation can surface. They are handed to
/// the caller as they are; nothing is retried or recovered here.
#[derive(Clone, Copy, Debug, PartialEq, Eq, Structural)]
pub enum Error {
    /// Zero rows matched the requested identity.
    NotFound,
    /// The store's integrity rules rejected a write.
    ConstraintViolation,
    /// The connection to the store is unusable.
    ConnectionFailure,
}

/// The four canonical persistence operations, parameterized by the
/// writable projection `F` of the entity's fields.
///
/// Each implementing entity says what an operation asks of the store and
/// what it does to it through the paired spec functions; the contracts on
/// the methods below then hold every implementation to its own statement.
pub trait Crud<F>: Sized {
    /// When `create` may be called.
    spec fn create_req(store: Store, form: F) -> bool;

    /// What `create` did to the store and handed back.
    spec fn create_ens(pre: Store, post: Store, form: F, r: Result<Self, Error>) -> bool;

    /// When `read` may be called.
    spec fn read_req(store: Store, id: i32) -> bool;

    /// What `read` handed back.
    spec fn read_ens(store: Store, id: i32, r: Result<Self, Error>) -> bool;

    /// When `update` may be called.
    spec fn update_req(store: Store, id: i32, form: F) -> bool;

    /// What `update` did to the store and handed back.
    spec fn update_ens(pre: Store, post: Store, id: i32, form: F, r: Result<Self, Error>) -> bool;

    /// When `delete` may be called.
    spec fn delete_req(store: Store, id: i32) -> bool;

    /// What `delete` did to the store, and how many rows went.
    spec fn delete_ens(pre: Store, post: Store, id: i32, r: Result<usize, Error>) -> bool;

    /// Inserts a new row built from the fields in `form`; the store
    /// assigns the identity and the fully populated record comes back.
    fn create(store: &mut Store, form: &F) -> (r: Result<Self, Error>)
        requires
            Self::create_req(*old(store), *form),
        ensures
            Self::create_ens(*old(store), *final(store), *form, r),
    ;

    /// Fetches exactly one row by identity.
    fn read(store: &Store, id: i32) -> (r: Result<Self, Error>)
        requires
            Self::read_req(*store, id),
        ensures
            Self::read_ens(*store, id, r),
    ;

    /// Applies the fields in `form` to the row identified by `id` and
    /// hands back the updated record.
    fn update(store: &mut Store, id: i32, form: &F) -> (r: Result<Self, Error>)
        requires
            Self::update_req(*old(store), id, *form),
        ensures
            Self::update_ens(*old(store), *final(store), id, *form, r),
    ;

    /// Removes the row identified by `id` and reports the number of rows
    /// removed; a missing row is not an error.
    fn delete(store: &mut Store, id: i32) -> (r: Result<usize, Error>)
        requires
            Self::delete_req(*old(store), id),
        ensures
            Self::delete_ens(*old(store), *final(store), id, r),
    ;
}

} // verus!
