//! The operations that every backend of the repository offers.

use vstd::prelude::*;
use crate::error::RepositoryError;
use crate::model::CreateTodo;
use crate::model::Todo;
use crate::model::UpdateTodo;

verus! {

/// A repository of todo records, whatever stores them.
///
/// A handle may be shared, and other handles may change the records between
/// two calls. So the trait says of an answer only what holds of it whatever
/// the records are: which failures an operation may report, and that
/// `NotFound` names the id that was asked for. What an operation answers on
/// given records is stated where the records are known: for the in-memory
/// backend by [`crate::store::TodoStore`], for the durable backend by the
/// outcome functions of [`crate::durable`].
pub trait TodoRepository: Clone + Send + Sync + 'static {
    /// Stores a new record with the text of `payload`.
    fn create(&self, payload: CreateTodo) -> (answer: Result<Todo, RepositoryError>)
        ensures
            answer matches Err(error) ==> error is Unexpected,
    ;

    /// The record under `id`.
    fn find(&self, id: i32) -> (answer: Result<Todo, RepositoryError>)
        ensures
            answer matches Err(RepositoryError::NotFound(missing)) ==> missing == id,
    ;

    /// Every record.
    fn all(&self) -> (answer: Result<Vec<Todo>, RepositoryError>)
        ensures
            answer matches Err(error) ==> error is Unexpected,
    ;

    /// Lays the present fields of `payload` over the record under `id`.
    fn update(&self, id: i32, payload: UpdateTodo) -> (answer: Result<Todo, RepositoryError>)
        ensures
            answer matches Err(RepositoryError::NotFound(missing)) ==> missing == id,
    ;

    /// Removes the record under `id`.
    fn delete(&self, id: i32) -> (answer: Result<(), RepositoryError>)
        ensures
            answer matches Err(RepositoryError::NotFound(missing)) ==> missing == id,
    ;
}

} // verus!
