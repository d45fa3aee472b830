//! What the HTTP surface answers for each repository operation: a status
//! code and a body, from the operation's answer.
//!
//! | request              | on success        | on failure                     |
//! |----------------------|-------------------|--------------------------------|
//! | `POST /todos`        | 201, the record   | by the kind of failure         |
//! | `GET /todos`         | 200, every record | by the kind of failure         |
//! | `GET /todos/{id}`    | 200, the record   | 404 for `NotFound`             |
//! | `PATCH /todos/{id}`  | 201, the record   | 404 for `NotFound`             |
//! | `DELETE /todos/{id}` | 204, no body      | 404 for `NotFound`             |
//!
//! An `Unexpected` failure is 500 everywhere. A payload that cannot be
//! decoded is 400, before any repository is asked.

use vstd::prelude::*;
use crate::error::ErrorView;
use crate::error::RepositoryError;
use crate::model::CreateTodo;
use crate::model::Todo;
use crate::model::UpdateTodo;
use crate::repository::TodoRepository;

verus! {

pub const OK: u16 = 200;

pub const CREATED: u16 = 201;

pub const NO_CONTENT: u16 = 204;

pub const BAD_REQUEST: u16 = 400;

pub const NOT_FOUND: u16 = 404;

pub const INTERNAL_SERVER_ERROR: u16 = 500;

/// What a response carries besides its status.
#[derive(Debug)]
pub enum Body {
    Empty,
    One(Todo),
    Many(Vec<Todo>),
}

/// A status code and a body.
#[derive(Debug)]
pub struct Response {
    pub status: u16,
    pub body: Body,
}

/// The status that stands for a failure: 404 where a record is missing, 500
/// for any fault of the backend.
pub open spec fn failure_status(error: ErrorView) -> u16 {
    match error {
        ErrorView::NotFound(_) => NOT_FOUND,
        ErrorView::Unexpected(_) => INTERNAL_SERVER_ERROR,
    }
}

/// The response to a request that gives one record on success, with
/// `success` as the status of success.
pub open spec fn record_response(success: u16, answer: Result<Todo, RepositoryError>) -> Response {
    match answer {
        Ok(todo) => Response { status: success, body: Body::One(todo) },
        Err(error) => Response { status: failure_status(error@), body: Body::Empty },
    }
}

/// Computes [`failure_status`].
pub fn error_status(error: &RepositoryError) -> (status: u16)
    ensures
        status == failure_status(error@),
{
    match error {
        RepositoryError::NotFound(_) => NOT_FOUND,
        RepositoryError::Unexpected(_) => INTERNAL_SERVER_ERROR,
    }
}

/// The response to a payload that could not be decoded: 400, no body.
pub fn decode_failure() -> (response: Response)
    ensures
        response == (Response { status: BAD_REQUEST, body: Body::Empty }),
{
    Response { status: BAD_REQUEST, body: Body::Empty }
}

/// The response to `POST /todos`: 201 with the new record.
pub fn create_response(answer: Result<Todo, RepositoryError>) -> (response: Response)
    ensures
        response == record_response(CREATED, answer),
{
    respond_with_record(CREATED, answer)
}

/// The response to `GET /todos/{id}`: 200 with the record.
pub fn find_response(answer: Result<Todo, RepositoryError>) -> (response: Response)
    ensures
        response == record_response(OK, answer),
{
    respond_with_record(OK, answer)
}

/// The response to `GET /todos`: 200 with every record, in the order in
/// which the repository gave them.
pub fn all_response(answer: Result<Vec<Todo>, RepositoryError>) -> (response: Response)
    ensures
        response == match answer {
            Ok(todos) => Response { status: OK, body: Body::Many(todos) },
            Err(error) => Response { status: failure_status(error@), body: Body::Empty },
        },
{
    match answer {
        Ok(todos) => Response { status: OK, body: Body::Many(todos) },
        Err(error) => Response { status: error_status(&error), body: Body::Empty },
    }
}

/// The response to `PATCH /todos/{id}`: 201 with the record as it stands
/// after the update.
pub fn update_response(answer: Result<Todo, RepositoryError>) -> (response: Response)
    ensures
        response == record_response(CREATED, answer),
{
    respond_with_record(CREATED, answer)
}

/// The response to `DELETE /todos/{id}`: 204 without a body.
pub fn delete_response(answer: Result<(), RepositoryError>) -> (response: Response)
    ensures
        response == match answer {
            Ok(_) => Response { status: NO_CONTENT, body: Body::Empty },
            Err(error) => Response { status: failure_status(error@), body: Body::Empty },
        },
{
    match answer {
        Ok(_) => Response { status: NO_CONTENT, body: Body::Empty },
        Err(error) => Response { status: error_status(&error), body: Body::Empty },
    }
}

/// Computes [`record_response`].
fn respond_with_record(success: u16, answer: Result<Todo, RepositoryError>) -> (response: Response)
    ensures
        response == record_response(success, answer),
{
    match answer {
        Ok(todo) => Response { status: success, body: Body::One(todo) },
        Err(error) => Response { status: error_status(&error), body: Body::Empty },
    }
}

/// Handles `POST /todos`: asks the repository to create a record and
/// answers with [`create_response`]. Whatever the repository holds, the
/// status is 201 with a record or 500 without a body.
pub fn create_todo<T: TodoRepository>(payload: CreateTodo, repository: &T) -> (response: Response)
    ensures
        ({
            ||| response.status == CREATED && response.body is One
            ||| response.status == INTERNAL_SERVER_ERROR && response.body is Empty
        }),
{
    create_response(repository.create(payload))
}

/// Handles `GET /todos/{id}`: asks the repository for the record and answers
/// with [`find_response`]. Whatever the repository holds, the status is 200
/// with a record, or 404 or 500 without a body.
pub fn find_todo<T: TodoRepository>(id: i32, repository: &T) -> (response: Response)
    ensures
        ({
            ||| response.status == OK && response.body is One
            ||| response.status == NOT_FOUND && response.body is Empty
            ||| response.status == INTERNAL_SERVER_ERROR && response.body is Empty
        }),
{
    find_response(repository.find(id))
}

/// Handles `GET /todos`: asks the repository for every record and answers
/// with [`all_response`]. Whatever the repository holds, the status is 200
/// with the records or 500 without a body.
pub fn all_todo<T: TodoRepository>(repository: &T) -> (response: Response)
    ensures
        ({
            ||| response.status == OK && response.body is Many
            ||| response.status == INTERNAL_SERVER_ERROR && response.body is Empty
        }),
{
    all_response(repository.all())
}

/// Handles `PATCH /todos/{id}`: asks the repository to update the record and
/// answers with [`update_response`]. Whatever the repository holds, the
/// status is 201 with a record, or 404 or 500 without a body.
pub fn update_todo<T: TodoRepository>(id: i32, payload: UpdateTodo, repository: &T) -> (response:
    Response)
    ensures
        ({
            ||| response.status == CREATED && response.body is One
            ||| response.status == NOT_FOUND && response.body is Empty
            ||| response.status == INTERNAL_SERVER_ERROR && response.body is Empty
        }),
{
    update_response(repository.update(id, payload))
}

/// Handles `DELETE /todos/{id}`: asks the repository to delete the record
/// and answers with [`delete_response`]. Whatever the repository holds, the
/// status is 204, 404 or 500, and there is no body.
pub fn delete_todo<T: TodoRepository>(id: i32, repository: &T) -> (response: Response)
    ensures
        ({
            ||| response.status == NO_CONTENT
            ||| response.status == NOT_FOUND
            ||| response.status == INTERNAL_SERVER_ERROR
        }),
        response.body is Empty,
{
    delete_response(repository.delete(id))
}

} // verus!
