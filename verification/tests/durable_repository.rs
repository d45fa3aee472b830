use std::collections::BTreeMap;
use std::sync::{Arc, Mutex};

use todo_repository::durable::{
    Bind, Fault, Pool, Statement, TodoRepositoryForDb, DELETE, INSERT, SELECT_ALL, SELECT_ONE,
    UPDATE,
};
use todo_repository::error::RepositoryError;
use todo_repository::http::{all_todo, create_todo, delete_todo, find_todo, update_todo, Body};
use todo_repository::model::{CreateTodo, Todo, UpdateTodo};
use todo_repository::repository::TodoRepository;

/// A table in memory that does what the five statements ask, with ids from a
/// sequence that never goes back.
struct Table {
    rows: BTreeMap<i32, Todo>,
    last_id: i32,
    down: bool,
    run: Vec<&'static str>,
}

#[derive(Clone)]
struct FakePool {
    table: Arc<Mutex<Table>>,
}

impl FakePool {
    fn new() -> Self {
        FakePool {
            table: Arc::new(Mutex::new(Table {
                rows: BTreeMap::new(),
                last_id: 0,
                down: false,
                run: Vec::new(),
            })),
        }
    }

    fn set_down(&self, down: bool) {
        self.table.lock().unwrap().down = down;
    }

    fn run(&self) -> Vec<&'static str> {
        self.table.lock().unwrap().run.clone()
    }
}

fn no_row() -> Fault {
    Fault {
        no_row: true,
        description: "no rows returned by a query that expected to return at least one row"
            .to_string(),
    }
}

fn refused() -> Fault {
    Fault {
        no_row: false,
        description: "connection refused".to_string(),
    }
}

fn id_of(bind: &Bind) -> i32 {
    match bind {
        Bind::Id(id) => *id,
        other => panic!("expected an id, got {:?}", other),
    }
}

impl Pool for FakePool {
    fn fetch_one(&self, statement: Statement) -> Result<Todo, Fault> {
        let mut table = self.table.lock().unwrap();
        table.run.push(statement.sql);
        if table.down {
            return Err(refused());
        }
        match statement.sql {
            INSERT => {
                assert_eq!(statement.binds.len(), 1);
                let text = match &statement.binds[0] {
                    Bind::Text(Some(text)) => text.clone(),
                    other => panic!("expected a text, got {:?}", other),
                };
                table.last_id += 1;
                let row = Todo {
                    id: table.last_id,
                    text,
                    completed: false,
                };
                table.rows.insert(row.id, row.clone());
                Ok(row)
            }
            SELECT_ONE => {
                assert_eq!(statement.binds.len(), 1);
                let id = id_of(&statement.binds[0]);
                table.rows.get(&id).cloned().ok_or_else(no_row)
            }
            UPDATE => {
                assert_eq!(statement.binds.len(), 3);
                let id = id_of(&statement.binds[2]);
                let row = table.rows.get_mut(&id).ok_or_else(no_row)?;
                match &statement.binds[0] {
                    Bind::Text(Some(text)) => row.text = text.clone(),
                    Bind::Text(None) => {}
                    other => panic!("expected a text, got {:?}", other),
                }
                match &statement.binds[1] {
                    Bind::Flag(Some(flag)) => row.completed = *flag,
                    Bind::Flag(None) => {}
                    other => panic!("expected a flag, got {:?}", other),
                }
                Ok(row.clone())
            }
            other => panic!("not a statement for one row: {}", other),
        }
    }

    fn fetch_all(&self, statement: Statement) -> Result<Vec<Todo>, Fault> {
        let mut table = self.table.lock().unwrap();
        table.run.push(statement.sql);
        if table.down {
            return Err(refused());
        }
        match statement.sql {
            SELECT_ALL => {
                assert!(statement.binds.is_empty());
                Ok(table.rows.values().rev().cloned().collect())
            }
            other => panic!("not a statement for all rows: {}", other),
        }
    }

    fn execute(&self, statement: Statement) -> Result<u64, Fault> {
        let mut table = self.table.lock().unwrap();
        table.run.push(statement.sql);
        if table.down {
            return Err(refused());
        }
        match statement.sql {
            DELETE => {
                assert_eq!(statement.binds.len(), 1);
                let id = id_of(&statement.binds[0]);
                Ok(if table.rows.remove(&id).is_some() { 1 } else { 0 })
            }
            other => panic!("not a statement without rows: {}", other),
        }
    }
}

fn create(repository: &TodoRepositoryForDb<FakePool>, text: &str) -> Todo {
    repository
        .create(CreateTodo {
            text: text.to_string(),
        })
        .unwrap()
}

#[test]
fn durable_crud_scenario() {
    let repository = TodoRepositoryForDb::new(FakePool::new());
    let expected = Todo::new(1, "todo text".to_string());

    let todo = repository
        .create(CreateTodo {
            text: "todo text".to_string(),
        })
        .expect("failed create todo");
    assert_eq!(expected, todo);

    let todo = repository.find(1).unwrap();
    assert_eq!(expected, todo);

    let todos = repository.all().expect("failed get all todo");
    assert_eq!(vec![expected], todos);

    let todo = repository
        .update(
            1,
            UpdateTodo {
                text: Some("update todo text".to_string()),
                completed: Some(true),
            },
        )
        .expect("failed update todo");
    assert_eq!(
        Todo {
            id: 1,
            text: "update todo text".to_string(),
            completed: true
        },
        todo
    );

    assert_eq!(repository.delete(1), Ok(()));
    assert_eq!(repository.find(1), Err(RepositoryError::NotFound(1)));
}

#[test]
fn durable_operations_run_one_statement_each() {
    let pool = FakePool::new();
    let repository = TodoRepositoryForDb::new(pool.clone());
    create(&repository, "a");
    repository.find(1).unwrap();
    repository.all().unwrap();
    repository
        .update(
            1,
            UpdateTodo {
                text: None,
                completed: Some(true),
            },
        )
        .unwrap();
    repository.delete(1).unwrap();
    assert_eq!(pool.run(), vec![INSERT, SELECT_ONE, SELECT_ALL, UPDATE, DELETE]);
}

#[test]
fn durable_missing_id_is_not_found() {
    let repository = TodoRepositoryForDb::new(FakePool::new());
    create(&repository, "a");
    assert_eq!(repository.find(9), Err(RepositoryError::NotFound(9)));
    assert_eq!(
        repository.update(
            9,
            UpdateTodo {
                text: Some("t".to_string()),
                completed: None
            }
        ),
        Err(RepositoryError::NotFound(9))
    );
    assert_eq!(repository.delete(9), Err(RepositoryError::NotFound(9)));
    assert_eq!(repository.all(), Ok(vec![Todo::new(1, "a".to_string())]));
}

#[test]
fn durable_update_fills_absent_fields_from_the_row() {
    let repository = TodoRepositoryForDb::new(FakePool::new());
    create(&repository, "a");
    let todo = repository
        .update(
            1,
            UpdateTodo {
                text: None,
                completed: Some(true),
            },
        )
        .unwrap();
    assert_eq!(
        todo,
        Todo {
            id: 1,
            text: "a".to_string(),
            completed: true
        }
    );
    let todo = repository
        .update(
            1,
            UpdateTodo {
                text: Some("b".to_string()),
                completed: None,
            },
        )
        .unwrap();
    assert_eq!(
        todo,
        Todo {
            id: 1,
            text: "b".to_string(),
            completed: true
        }
    );
    assert_eq!(repository.find(1), Ok(todo));
}

#[test]
fn durable_all_gives_the_highest_id_first() {
    let repository = TodoRepositoryForDb::new(FakePool::new());
    create(&repository, "a");
    create(&repository, "b");
    create(&repository, "c");
    assert_eq!(
        repository.all(),
        Ok(vec![
            Todo::new(3, "c".to_string()),
            Todo::new(2, "b".to_string()),
            Todo::new(1, "a".to_string()),
        ])
    );
}

#[test]
fn durable_ids_come_from_the_table() {
    let repository = TodoRepositoryForDb::new(FakePool::new());
    create(&repository, "a");
    create(&repository, "b");
    repository.delete(1).unwrap();
    assert_eq!(create(&repository, "c"), Todo::new(3, "c".to_string()));
    assert_eq!(repository.find(2), Ok(Todo::new(2, "b".to_string())));
}

#[test]
fn durable_delete_twice_fails_the_second_time() {
    let repository = TodoRepositoryForDb::new(FakePool::new());
    create(&repository, "a");
    assert_eq!(repository.delete(1), Ok(()));
    assert_eq!(repository.delete(1), Err(RepositoryError::NotFound(1)));
}

#[test]
fn durable_faults_are_unexpected() {
    let pool = FakePool::new();
    let repository = TodoRepositoryForDb::new(pool.clone());
    create(&repository, "a");
    pool.set_down(true);
    let unexpected = RepositoryError::Unexpected("connection refused".to_string());
    assert_eq!(
        repository.create(CreateTodo {
            text: "b".to_string()
        }),
        Err(unexpected.clone())
    );
    assert_eq!(repository.find(1), Err(unexpected.clone()));
    assert_eq!(repository.all(), Err(unexpected.clone()));
    assert_eq!(
        repository.update(
            1,
            UpdateTodo {
                text: None,
                completed: None
            }
        ),
        Err(unexpected.clone())
    );
    assert_eq!(repository.delete(1), Err(unexpected));
    pool.set_down(false);
    assert_eq!(repository.find(1), Ok(Todo::new(1, "a".to_string())));
}

#[test]
fn durable_clones_reach_the_same_table() {
    let first = TodoRepositoryForDb::new(FakePool::new());
    let second = first.clone();
    let todo = create(&first, "shared");
    assert_eq!(second.find(todo.id), Ok(todo));
}

#[test]
fn handlers_serve_the_durable_repository() {
    let pool = FakePool::new();
    let repository = TodoRepositoryForDb::new(pool.clone());

    let response = create_todo(
        CreateTodo {
            text: "todo text".to_string(),
        },
        &repository,
    );
    assert_eq!(response.status, 201);
    assert!(
        matches!(response.body, Body::One(todo) if todo == Todo::new(1, "todo text".to_string()))
    );

    assert_eq!(find_todo(1, &repository).status, 200);
    assert_eq!(find_todo(2, &repository).status, 404);
    assert_eq!(all_todo(&repository).status, 200);
    assert_eq!(
        update_todo(
            2,
            UpdateTodo {
                text: None,
                completed: None
            },
            &repository
        )
        .status,
        404
    );
    assert_eq!(delete_todo(1, &repository).status, 204);
    assert_eq!(delete_todo(1, &repository).status, 404);

    pool.set_down(true);
    let response = create_todo(
        CreateTodo {
            text: "x".to_string(),
        },
        &repository,
    );
    assert_eq!(response.status, 500);
    assert!(matches!(response.body, Body::Empty));
    assert_eq!(find_todo(1, &repository).status, 500);
    assert_eq!(all_todo(&repository).status, 500);
    assert_eq!(delete_todo(1, &repository).status, 500);
}
