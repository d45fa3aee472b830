//! The record and the two payloads that change it.
//!
//! Each type has a view, its value with every string read as a sequence of
//! characters. Contracts throughout the crate speak of these views.

use vstd::prelude::*;

verus! {

/// What a [`Todo`] is, as a mathematical value.
pub struct TodoView {
    pub id: i32,
    pub text: Seq<char>,
    pub completed: bool,
}

/// What a [`CreateTodo`] is, as a mathematical value.
pub struct CreateTodoView {
    pub text: Seq<char>,
}

/// What an [`UpdateTodo`] is, as a mathematical value.
pub struct UpdateTodoView {
    pub text: Option<Seq<char>>,
    pub completed: Option<bool>,
}

/// A stored record. The repository assigns `id`; the caller supplies `text`.
#[derive(Debug)]
pub struct Todo {
    pub id: i32,
    pub text: String,
    pub completed: bool,
}

/// The payload of `create`: the text of the new record, and nothing else.
#[derive(Debug)]
pub struct CreateTodo {
    pub text: String,
}

/// The payload of `update`. A field that is `None` leaves the stored field as
/// it is.
#[derive(Debug)]
pub struct UpdateTodo {
    pub text: Option<String>,
    pub completed: Option<bool>,
}

impl View for Todo {
    type V = TodoView;

    open spec fn view(&self) -> TodoView {
        TodoView { id: self.id, text: self.text@, completed: self.completed }
    }
}

impl View for CreateTodo {
    type V = CreateTodoView;

    open spec fn view(&self) -> CreateTodoView {
        CreateTodoView { text: self.text@ }
    }
}

impl View for UpdateTodo {
    type V = UpdateTodoView;

    open spec fn view(&self) -> UpdateTodoView {
        UpdateTodoView {
            text: match self.text {
                Some(text) => Some(text@),
                None => None,
            },
            completed: self.completed,
        }
    }
}

/// The record that `create` stores under `id`: the given text, not completed.
pub open spec fn fresh(id: i32, text: Seq<char>) -> TodoView {
    TodoView { id, text, completed: false }
}

/// A record with the present fields of `patch` laid over it. The id stays.
pub open spec fn merged(current: TodoView, patch: UpdateTodoView) -> TodoView {
    TodoView {
        id: current.id,
        text: match patch.text {
            Some(text) => text,
            None => current.text,
        },
        completed: match patch.completed {
            Some(completed) => completed,
            None => current.completed,
        },
    }
}

impl Todo {
    /// A record that is not completed yet.
    pub fn new(id: i32, text: String) -> (todo: Self)
        ensures
            todo@ == fresh(id, text@),
    {
        Todo { id, text, completed: false }
    }
}

impl UpdateTodo {
    /// The record that an update with this payload leaves in place of
    /// `current`.
    pub fn apply(&self, current: &Todo) -> (todo: Todo)
        ensures
            todo@ == merged(current@, self@),
    {
        let text = match &self.text {
            Some(text) => text.clone(),
            None => current.text.clone(),
        };
        let completed = match self.completed {
            Some(completed) => completed,
            None => current.completed,
        };
        Todo { id: current.id, text, completed }
    }
}

impl Clone for Todo {
    fn clone(&self) -> (copy: Self)
        ensures
            copy == *self,
    {
        Todo { id: self.id, text: self.text.clone(), completed: self.completed }
    }
}

impl Clone for CreateTodo {
    fn clone(&self) -> (copy: Self)
        ensures
            copy == *self,
    {
        CreateTodo { text: self.text.clone() }
    }
}

impl Clone for UpdateTodo {
    fn clone(&self) -> (copy: Self)
        ensures
            copy == *self,
    {
        let text = match &self.text {
            Some(text) => Some(text.clone()),
            None => None,
        };
        UpdateTodo { text, completed: self.completed }
    }
}

impl PartialEq for Todo {
    fn eq(&self, other: &Self) -> (equal: bool) {
        self.id == other.id && self.text == other.text && self.completed == other.completed
    }
}

impl Eq for Todo {

}

/// Two records are equal when all three fields are.
impl vstd::std_specs::cmp::PartialEqSpecImpl for Todo {
    open spec fn obeys_eq_spec() -> bool {
        true
    }

    open spec fn eq_spec(&self, other: &Self) -> bool {
        self@ == other@
    }
}

impl PartialEq for CreateTodo {
    fn eq(&self, other: &Self) -> (equal: bool) {
        self.text == other.text
    }
}

impl Eq for CreateTodo {

}

impl vstd::std_specs::cmp::PartialEqSpecImpl for CreateTodo {
    open spec fn obeys_eq_spec() -> bool {
        true
    }

    open spec fn eq_spec(&self, other: &Self) -> bool {
        self@ == other@
    }
}

impl PartialEq for UpdateTodo {
    fn eq(&self, other: &Self) -> (equal: bool) {
        let same_text = match (&self.text, &other.text) {
            (Some(mine), Some(theirs)) => *mine == *theirs,
            (None, None) => true,
            _ => false,
        };
        let same_completed = match (self.completed, other.completed) {
            (Some(mine), Some(theirs)) => mine == theirs,
            (None, None) => true,
            _ => false,
        };
        same_text && same_completed
    }
}

impl Eq for UpdateTodo {

}

impl vstd::std_specs::cmp::PartialEqSpecImpl for UpdateTodo {
    open spec fn obeys_eq_spec() -> bool {
        true
    }

    open spec fn eq_spec(&self, other: &Self) -> bool {
        self@ == other@
    }
}

} // verus!
