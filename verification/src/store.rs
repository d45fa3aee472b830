//! The collection of records that the in-memory repository owns.
//!
//! A `TodoStore` belongs to one owner at a time, so each of its operations
//! can say exactly what it answers and what it leaves behind.

use std::collections::HashMap;
use vstd::prelude::*;
use vstd::std_specs::iter::IteratorSpec;
use crate::contract::consistent;
use crate::contract::create_answer;
use crate::contract::create_records;
use crate::contract::delete_answer;
use crate::contract::delete_records;
use crate::contract::find_answer;
use crate::contract::lists;
use crate::contract::todo_views;
use crate::contract::ID_IN_USE;
use crate::contract::NO_ID_LEFT;
use crate::contract::todo_answer;
use crate::contract::unit_answer;
use crate::contract::update_answer;
use crate::contract::update_records;
use crate::error::RepositoryError;
use crate::model::CreateTodo;
use crate::model::Todo;
use crate::model::TodoView;
use crate::model::UpdateTodo;

verus! {

/// Records by id.
pub struct TodoStore {
    records: HashMap<i32, Todo>,
}

impl View for TodoStore {
    type V = Map<i32, TodoView>;

    closed spec fn view(&self) -> Map<i32, TodoView> {
        self.records@.map_values(|todo: Todo| todo@)
    }
}

/// The values of a finite map that files every record under its id, taken
/// once each in any order, list the map.
proof fn lemma_values_listed(records: Map<i32, Todo>, todos: Seq<Todo>)
    requires
        records.dom().finite(),
        forall|id: i32| records.contains_key(id) ==> (#[trigger] records[id]).id == id,
        todos.to_set() == records.values(),
        todos.len() == records.dom().len(),
    ensures
        lists(records.map_values(|todo: Todo| todo@), todo_views(todos)),
{
    let views = records.map_values(|todo: Todo| todo@);
    let listing = todo_views(todos);
    let ids = todos.map_values(|todo: Todo| todo.id);
    assert forall|i: int| 0 <= i < todos.len() implies records.contains_key(
        (#[trigger] todos[i]).id,
    ) && records[todos[i].id] == todos[i] by {
        assert(records.values().contains(todos[i]));
    }
    assert forall|id: i32| records.contains_key(id) implies exists|i: int|
        0 <= i < todos.len() && #[trigger] todos[i] == records[id] by {
        assert(todos.to_set().contains(records[id]));
    }
    assert(ids.to_set() =~= records.dom()) by {
        assert forall|id: i32| records.dom().contains(id) implies ids.to_set().contains(id) by {
            let i = choose|i: int| 0 <= i < todos.len() && #[trigger] todos[i] == records[id];
            assert(ids[i] == id);
        }
    }
    ids.lemma_no_dup_set_cardinality();
    assert forall|i: int, j: int| 0 <= i < j < listing.len() implies (#[trigger] listing[i]).id
        != (#[trigger] listing[j]).id by {
        assert(ids[i] != ids[j]);
    }
    assert forall|id: i32| #[trigger] views.contains_key(id) implies exists|i: int|
        0 <= i < listing.len() && #[trigger] listing[i] == views[id] by {
        let i = choose|i: int| 0 <= i < todos.len() && #[trigger] todos[i] == records[id];
        assert(listing[i] == views[id]);
    }
}

impl TodoStore {
    /// Every record is filed under its own id.
    pub open spec fn wf(&self) -> bool {
        consistent(self@)
    }

    /// A store without records.
    pub fn new() -> (store: Self)
        ensures
            store.wf(),
            store@ == Map::<i32, TodoView>::empty(),
    {
        TodoStore { records: HashMap::new() }
    }

    /// Stores a new record with the text of `payload`, not completed, under
    /// the id that is one more than the number of records, and gives the
    /// record. The id of a deleted record may so be assigned again. Where
    /// the id does not fit in an `i32`, or a stored record has it already,
    /// nothing is stored and the failure is `Unexpected`: a stored record is
    /// never replaced.
    pub fn create(&mut self, payload: CreateTodo) -> (answer: Result<Todo, RepositoryError>)
        requires
            old(self).wf(),
        ensures
            final(self).wf(),
            todo_answer(answer) == create_answer(old(self)@, payload@),
            final(self)@ == create_records(old(self)@, payload@),
    {
        let count = self.records.len();
        assert(self@.dom() =~= self.records@.dom());
        if count >= i32::MAX as usize {
            return Err(RepositoryError::Unexpected(NO_ID_LEFT.to_owned()));
        }
        let id: i32 = (count + 1) as i32;
        if self.records.contains_key(&id) {
            return Err(RepositoryError::Unexpected(ID_IN_USE.to_owned()));
        }
        let todo = Todo::new(id, payload.text);
        self.records.insert(id, todo.clone());
        assert(self@ =~= old(self)@.insert(id, todo@));
        Ok(todo)
    }

    /// A copy of the record under `id`. Fails with `NotFound(id)` where there
    /// is none.
    pub fn find(&self, id: i32) -> (answer: Result<Todo, RepositoryError>)
        requires
            self.wf(),
        ensures
            todo_answer(answer) == find_answer(self@, id),
    {
        match self.records.get(&id) {
            Some(todo) => Ok(todo.clone()),
            None => Err(RepositoryError::NotFound(id)),
        }
    }

    /// A copy of every record, each once. The order is the map's own and
    /// may differ from call to call.
    pub fn all(&self) -> (todos: Vec<Todo>)
        requires
            self.wf(),
        ensures
            lists(self@, todo_views(todos@)),
    {
        let mut todos: Vec<Todo> = Vec::new();
        for todo in walk: self.records.values()
            invariant
                todos@.len() == walk.index(),
                forall|i: int| 0 <= i < todos@.len() ==> todos@[i] == *(#[trigger] walk.seq()[i]),
        {
            todos.push(todo.clone());
        }
        proof {
            let stored = self.records.values().remaining().unref();
            assert(todos@ =~= stored);
            assert forall|id: i32| self.records@.contains_key(id) implies (
            #[trigger] self.records@[id]).id == id by {
                assert(self@.contains_key(id) && self@[id].id == id);
            }
            lemma_values_listed(self.records@, todos@);
        }
        todos
    }

    /// Lays the present fields of `payload` over the record under `id` and
    /// gives the record as it then stands. Fails with `NotFound(id)`, and
    /// changes nothing, where there is no such record.
    pub fn update(&mut self, id: i32, payload: UpdateTodo) -> (answer: Result<
        Todo,
        RepositoryError,
    >)
        requires
            old(self).wf(),
        ensures
            final(self).wf(),
            todo_answer(answer) == update_answer(old(self)@, id, payload@),
            final(self)@ == update_records(old(self)@, id, payload@),
    {
        let todo = match self.records.get(&id) {
            Some(current) => payload.apply(current),
            None => {
                return Err(RepositoryError::NotFound(id));
            },
        };
        self.records.insert(id, todo.clone());
        assert(self@ =~= old(self)@.insert(id, todo@));
        Ok(todo)
    }

    /// Removes the record under `id`. Fails with `NotFound(id)`, and changes
    /// nothing, where there is none.
    pub fn delete(&mut self, id: i32) -> (answer: Result<(), RepositoryError>)
        requires
            old(self).wf(),
        ensures
            final(self).wf(),
            unit_answer(answer) == delete_answer(old(self)@, id),
            final(self)@ == delete_records(old(self)@, id),
    {
        let removed = self.records.remove(&id);
        assert(self@ =~= old(self)@.remove(id));
        match removed {
            Some(_) => Ok(()),
            None => Err(RepositoryError::NotFound(id)),
        }
    }
}

} // verus!
