//! The in-memory backend: one store behind a readers-writer lock, shared by
//! every clone of the handle.

use std::sync::Arc;
use vstd::prelude::*;
use vstd::rwlock::ReadHandle;
use vstd::rwlock::RwLock;
use vstd::rwlock::RwLockPredicate;
use vstd::rwlock::WriteHandle;
use crate::contract::after;
use crate::contract::consistent;
use crate::contract::create_answer;
use crate::contract::delete_answer;
use crate::contract::descends;
use crate::contract::find_answer;
use crate::contract::lists;
use crate::contract::run;
use crate::contract::todo_answer;
use crate::contract::todo_views;
use crate::contract::unit_answer;
use crate::contract::update_answer;
use crate::contract::Step;
use crate::error::RepositoryError;
use crate::model::CreateTodo;
use crate::model::Todo;
use crate::model::TodoView;
use crate::model::UpdateTodo;
use crate::repository::TodoRepository;
use crate::store::TodoStore;

verus! {

/// What the lock keeps true of the store it guards: the store is well
/// formed, and its records are what the collection that the repository was
/// opened on has become after some steps.
struct Kept {
    opened_on: Map<i32, TodoView>,
}

impl RwLockPredicate<TodoStore> for Kept {
    closed spec fn inv(self, store: TodoStore) -> bool {
        store.wf() && descends(self.opened_on, store@)
    }
}

/// One more step leads from what descends from a collection to what
/// descends from it too.
proof fn lemma_step_descends(start: Map<i32, TodoView>, records: Map<i32, TodoView>, step: Step)
    requires
        descends(start, records),
    ensures
        descends(start, after(records, step)),
{
    let steps = choose|steps: Seq<Step>| records == #[trigger] run(start, steps);
    let longer = steps.push(step);
    assert(longer.drop_last() =~= steps);
    assert(run(start, longer) == after(records, step));
}

/// A handle on an in-memory repository. A clone is another handle on the
/// same records.
pub struct TodoRepositoryForMemory {
    store: Arc<RwLock<TodoStore, Kept>>,
}

impl TodoRepositoryForMemory {
    /// The collection that the repository was opened on. Whatever the store
    /// holds later descends from it.
    pub closed spec fn opened_on(&self) -> Map<i32, TodoView> {
        self.store.pred().opened_on
    }

    /// A handle on a new repository, opened on the collection without
    /// records.
    pub fn new() -> (repository: Self)
        ensures
            repository.opened_on() == Map::<i32, TodoView>::empty(),
    {
        let store = TodoStore::new();
        let ghost kept = Kept { opened_on: Map::empty() };
        assert(store@ == run(kept.opened_on, Seq::<Step>::empty()));
        TodoRepositoryForMemory { store: Arc::new(RwLock::new(store, Ghost(kept))) }
    }

    /// Takes the store for writing. No other handle reads or writes until
    /// the store is given back through the handle returned with it, which is
    /// the handle of this repository's lock. The store is as the lock keeps
    /// it: well formed, with records that descend from the collection that
    /// the repository was opened on.
    fn write_store_ref(&self) -> (held: (TodoStore, WriteHandle<'_, TodoStore, Kept>))
        ensures
            held.1.rwlock() == *self.store,
            held.0.wf(),
            descends(self.opened_on(), held.0@),
    {
        self.store.acquire_write()
    }

    /// Takes the store for reading, together with any number of other
    /// readers. The store is as the lock keeps it.
    fn read_store_ref(&self) -> (held: ReadHandle<'_, TodoStore, Kept>)
        ensures
            held.rwlock() == *self.store,
            held.view().wf(),
            descends(self.opened_on(), held.view()@),
    {
        self.store.acquire_read()
    }
}

impl Clone for TodoRepositoryForMemory {
    /// Another handle on the same store.
    fn clone(&self) -> (handle: Self)
        ensures
            handle == *self,
    {
        TodoRepositoryForMemory { store: self.store.clone() }
    }
}

/// Each operation takes the lock, lets the store do the work, and gives the
/// lock back: writers one at a time, readers together. Other handles may
/// have changed the store since the last call, so an operation promises of
/// its answer that it is what [`crate::contract`] gives for the operation on
/// some consistent collection that descends from the one that the repository
/// was opened on: the one that the store held while the lock was taken.
impl TodoRepository for TodoRepositoryForMemory {
    fn create(&self, payload: CreateTodo) -> (answer: Result<Todo, RepositoryError>)
        ensures
            exists|records: Map<i32, TodoView>| #[trigger]
                consistent(records) && descends(self.opened_on(), records) && todo_answer(answer)
                    == create_answer(records, payload@),
    {
        let (mut store, lock) = self.write_store_ref();
        let ghost before = store@;
        let ghost step = Step::Create(payload@);
        let answer = store.create(payload);
        proof {
            lemma_step_descends(self.opened_on(), before, step);
        }
        lock.release_write(store);
        answer
    }

    fn find(&self, id: i32) -> (answer: Result<Todo, RepositoryError>)
        ensures
            exists|records: Map<i32, TodoView>| #[trigger]
                consistent(records) && descends(self.opened_on(), records) && todo_answer(answer)
                    == find_answer(records, id),
    {
        let lock = self.read_store_ref();
        let answer = lock.borrow().find(id);
        lock.release_read();
        answer
    }

    fn all(&self) -> (answer: Result<Vec<Todo>, RepositoryError>)
        ensures
            answer matches Ok(todos) && exists|records: Map<i32, TodoView>| #[trigger]
                consistent(records) && descends(self.opened_on(), records) && lists(
                    records,
                    todo_views(todos@),
                ),
    {
        let lock = self.read_store_ref();
        let todos = lock.borrow().all();
        lock.release_read();
        Ok(todos)
    }

    fn update(&self, id: i32, payload: UpdateTodo) -> (answer: Result<Todo, RepositoryError>)
        ensures
            exists|records: Map<i32, TodoView>| #[trigger]
                consistent(records) && descends(self.opened_on(), records) && todo_answer(answer)
                    == update_answer(records, id, payload@),
    {
        let (mut store, lock) = self.write_store_ref();
        let ghost before = store@;
        let ghost step = Step::Update(id, payload@);
        let answer = store.update(id, payload);
        proof {
            lemma_step_descends(self.opened_on(), before, step);
        }
        lock.release_write(store);
        answer
    }

    fn delete(&self, id: i32) -> (answer: Result<(), RepositoryError>)
        ensures
            exists|records: Map<i32, TodoView>| #[trigger]
                consistent(records) && descends(self.opened_on(), records) && unit_answer(answer)
                    == delete_answer(records, id),
    {
        let (mut store, lock) = self.write_store_ref();
        let ghost before = store@;
        let answer = store.delete(id);
        proof {
            lemma_step_descends(self.opened_on(), before, Step::Delete(id));
        }
        lock.release_write(store);
        answer
    }
}

} // verus!
