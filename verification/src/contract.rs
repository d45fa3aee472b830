//! What the repository operations mean, on a collection of records taken as a
//! mathematical map from id to record.
//!
//! For each operation there is the answer it gives and the collection it
//! leaves. The in-memory store is proved to compute exactly these, and the
//! laws of the repository are proved of them.

use vstd::prelude::*;
use crate::error::ErrorView;
use crate::error::RepositoryError;
use crate::model::fresh;
use crate::model::merged;
use crate::model::CreateTodoView;
use crate::model::Todo;
use crate::model::TodoView;
use crate::model::UpdateTodoView;

verus! {

/// A collection is consistent when it is finite and files every record under
/// the record's own id. Ids are then unique: two stored records with one id
/// are one record.
pub open spec fn consistent(records: Map<i32, TodoView>) -> bool {
    &&& records.dom().finite()
    &&& forall|id: i32| records.contains_key(id) ==> (#[trigger] records[id]).id == id
}

/// The id that `create` assigns: one more than the number of records.
pub open spec fn next_id(records: Map<i32, TodoView>) -> int {
    (records.len() + 1) as int
}

/// Description of the failure of `create` when the next id does not fit in an
/// `i32`.
pub const NO_ID_LEFT: &'static str = "no id is left to assign";

/// Description of the failure of `create` when a stored record has the next
/// id already.
pub const ID_IN_USE: &'static str = "the next id belongs to a stored record";

/// What `create` answers: the new record, or why none was stored.
pub open spec fn create_answer(records: Map<i32, TodoView>, payload: CreateTodoView) -> Result<
    TodoView,
    ErrorView,
> {
    if next_id(records) > i32::MAX {
        Err(ErrorView::Unexpected(NO_ID_LEFT@))
    } else if records.contains_key(next_id(records) as i32) {
        Err(ErrorView::Unexpected(ID_IN_USE@))
    } else {
        Ok(fresh(next_id(records) as i32, payload.text))
    }
}

/// The collection that `create` leaves: with the new record where there is
/// one, unchanged where `create` failed.
pub open spec fn create_records(records: Map<i32, TodoView>, payload: CreateTodoView) -> Map<
    i32,
    TodoView,
> {
    match create_answer(records, payload) {
        Ok(todo) => records.insert(todo.id, todo),
        Err(_) => records,
    }
}

/// What `find` answers: the record under `id`, or that there is none.
pub open spec fn find_answer(records: Map<i32, TodoView>, id: i32) -> Result<TodoView, ErrorView> {
    if records.contains_key(id) {
        Ok(records[id])
    } else {
        Err(ErrorView::NotFound(id))
    }
}

/// What `update` answers: the record under `id` with the present fields of
/// `patch` laid over it, or that there is none.
pub open spec fn update_answer(
    records: Map<i32, TodoView>,
    id: i32,
    patch: UpdateTodoView,
) -> Result<TodoView, ErrorView> {
    if records.contains_key(id) {
        Ok(merged(records[id], patch))
    } else {
        Err(ErrorView::NotFound(id))
    }
}

/// The collection that `update` leaves: the merged record in place of the
/// old one, or the same collection where `id` is absent.
pub open spec fn update_records(
    records: Map<i32, TodoView>,
    id: i32,
    patch: UpdateTodoView,
) -> Map<i32, TodoView> {
    match update_answer(records, id, patch) {
        Ok(todo) => records.insert(id, todo),
        Err(_) => records,
    }
}

/// What `delete` answers: success, or that there is no record under `id`.
pub open spec fn delete_answer(records: Map<i32, TodoView>, id: i32) -> Result<(), ErrorView> {
    if records.contains_key(id) {
        Ok(())
    } else {
        Err(ErrorView::NotFound(id))
    }
}

/// The collection that `delete` leaves: without the record under `id`.
pub open spec fn delete_records(records: Map<i32, TodoView>, id: i32) -> Map<i32, TodoView> {
    records.remove(id)
}

/// One change to the records of a repository. (`find` and `all` change
/// nothing.)
pub enum Step {
    Create(CreateTodoView),
    Update(i32, UpdateTodoView),
    Delete(i32),
}

/// The collection that a step leaves.
pub open spec fn after(records: Map<i32, TodoView>, step: Step) -> Map<i32, TodoView> {
    match step {
        Step::Create(payload) => create_records(records, payload),
        Step::Update(id, patch) => update_records(records, id, patch),
        Step::Delete(id) => delete_records(records, id),
    }
}

/// The collection that `start` has become after `steps`, one after the
/// other.
pub open spec fn run(start: Map<i32, TodoView>, steps: Seq<Step>) -> Map<i32, TodoView>
    decreases steps.len(),
{
    if steps.len() == 0 {
        start
    } else {
        after(run(start, steps.drop_last()), steps.last())
    }
}

/// `records` is what `start` has become after some steps: the collection of
/// a repository that was opened on `start` and has been used since.
pub open spec fn descends(start: Map<i32, TodoView>, records: Map<i32, TodoView>) -> bool {
    exists|steps: Seq<Step>| records == #[trigger] run(start, steps)
}

/// `listing` holds every record of the collection once, in some order: what
/// is listed is stored, what is stored is listed, and no id is listed twice.
pub open spec fn lists(records: Map<i32, TodoView>, listing: Seq<TodoView>) -> bool {
    &&& forall|i: int|
        0 <= i < listing.len() ==> records.contains_key((#[trigger] listing[i]).id)
            && records[listing[i].id] == listing[i]
    &&& forall|id: i32| #[trigger]
        records.contains_key(id) ==> exists|i: int|
            0 <= i < listing.len() && #[trigger] listing[i] == records[id]
    &&& forall|i: int, j: int|
        0 <= i < j < listing.len() ==> (#[trigger] listing[i]).id != (#[trigger] listing[j]).id
}

/// The answer of an operation that gives a record, as a mathematical value.
pub open spec fn todo_answer(answer: Result<Todo, RepositoryError>) -> Result<TodoView, ErrorView> {
    match answer {
        Ok(todo) => Ok(todo@),
        Err(error) => Err(error@),
    }
}

/// The answer of an operation that gives nothing, as a mathematical value.
pub open spec fn unit_answer(answer: Result<(), RepositoryError>) -> Result<(), ErrorView> {
    match answer {
        Ok(_) => Ok(()),
        Err(error) => Err(error@),
    }
}

/// The records of a vector, each as a mathematical value, in the vector's
/// order.
pub open spec fn todo_views(todos: Seq<Todo>) -> Seq<TodoView> {
    todos.map_values(|todo: Todo| todo@)
}

} // verus!
