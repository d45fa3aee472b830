use todo_repository::error::RepositoryError;
use todo_repository::model::{CreateTodo, Todo, UpdateTodo};
use todo_repository::store::TodoStore;

fn create(store: &mut TodoStore, text: &str) -> Result<Todo, RepositoryError> {
    store.create(CreateTodo {
        text: text.to_string(),
    })
}

#[test]
fn new_store_is_empty() {
    let store = TodoStore::new();
    assert_eq!(store.all(), vec![]);
    assert_eq!(store.find(1), Err(RepositoryError::NotFound(1)));
}

#[test]
fn create_assigns_count_plus_one() {
    let mut store = TodoStore::new();
    assert_eq!(
        create(&mut store, "a"),
        Ok(Todo {
            id: 1,
            text: "a".to_string(),
            completed: false
        })
    );
    assert_eq!(
        create(&mut store, "b"),
        Ok(Todo {
            id: 2,
            text: "b".to_string(),
            completed: false
        })
    );
    assert_eq!(
        create(&mut store, "c"),
        Ok(Todo {
            id: 3,
            text: "c".to_string(),
            completed: false
        })
    );
}

#[test]
fn find_gives_what_create_gave() {
    let mut store = TodoStore::new();
    create(&mut store, "first").unwrap();
    let second = create(&mut store, "second").unwrap();
    assert_eq!(store.find(second.id), Ok(second));
    assert_eq!(store.find(1), Ok(Todo::new(1, "first".to_string())));
}

#[test]
fn create_with_empty_text_is_stored() {
    let mut store = TodoStore::new();
    let todo = create(&mut store, "").unwrap();
    assert_eq!(todo, Todo::new(1, String::new()));
    assert_eq!(store.find(1), Ok(todo));
}

#[test]
fn id_of_a_deleted_record_is_assigned_again() {
    let mut store = TodoStore::new();
    create(&mut store, "a").unwrap();
    assert_eq!(store.delete(1), Ok(()));
    assert_eq!(create(&mut store, "b"), Ok(Todo::new(1, "b".to_string())));
    assert_eq!(store.find(1), Ok(Todo::new(1, "b".to_string())));
}

#[test]
fn create_never_replaces_a_stored_record() {
    let mut store = TodoStore::new();
    create(&mut store, "a").unwrap();
    create(&mut store, "b").unwrap();
    assert_eq!(store.delete(1), Ok(()));
    // one record is left, so the next id is 2, which is in use
    assert_eq!(
        create(&mut store, "c"),
        Err(RepositoryError::Unexpected(
            "the next id belongs to a stored record".to_string()
        ))
    );
    assert_eq!(store.find(2), Ok(Todo::new(2, "b".to_string())));
    assert_eq!(store.all(), vec![Todo::new(2, "b".to_string())]);
}

#[test]
fn update_of_text_keeps_completed() {
    let mut store = TodoStore::new();
    create(&mut store, "a").unwrap();
    store
        .update(
            1,
            UpdateTodo {
                text: None,
                completed: Some(true),
            },
        )
        .unwrap();
    let updated = store.update(
        1,
        UpdateTodo {
            text: Some("t".to_string()),
            completed: None,
        },
    );
    let expected = Todo {
        id: 1,
        text: "t".to_string(),
        completed: true,
    };
    assert_eq!(updated, Ok(expected.clone()));
    assert_eq!(store.find(1), Ok(expected));
}

#[test]
fn update_of_completed_keeps_text() {
    let mut store = TodoStore::new();
    create(&mut store, "a").unwrap();
    let updated = store.update(
        1,
        UpdateTodo {
            text: None,
            completed: Some(true),
        },
    );
    assert_eq!(
        updated,
        Ok(Todo {
            id: 1,
            text: "a".to_string(),
            completed: true
        })
    );
}

#[test]
fn update_without_fields_changes_nothing() {
    let mut store = TodoStore::new();
    let todo = create(&mut store, "a").unwrap();
    let updated = store.update(
        1,
        UpdateTodo {
            text: None,
            completed: None,
        },
    );
    assert_eq!(updated, Ok(todo.clone()));
    assert_eq!(store.find(1), Ok(todo));
}

#[test]
fn update_of_both_fields_replaces_both() {
    let mut store = TodoStore::new();
    create(&mut store, "todo text").unwrap();
    let updated = store.update(
        1,
        UpdateTodo {
            text: Some("update todo text".to_string()),
            completed: Some(true),
        },
    );
    assert_eq!(
        updated,
        Ok(Todo {
            id: 1,
            text: "update todo text".to_string(),
            completed: true
        })
    );
}

#[test]
fn update_leaves_other_records() {
    let mut store = TodoStore::new();
    create(&mut store, "a").unwrap();
    create(&mut store, "b").unwrap();
    store
        .update(
            2,
            UpdateTodo {
                text: Some("c".to_string()),
                completed: Some(true),
            },
        )
        .unwrap();
    assert_eq!(store.find(1), Ok(Todo::new(1, "a".to_string())));
}

#[test]
fn update_of_missing_id_is_not_found() {
    let mut store = TodoStore::new();
    create(&mut store, "a").unwrap();
    let updated = store.update(
        5,
        UpdateTodo {
            text: Some("t".to_string()),
            completed: Some(true),
        },
    );
    assert_eq!(updated, Err(RepositoryError::NotFound(5)));
    assert_eq!(store.all(), vec![Todo::new(1, "a".to_string())]);
}

#[test]
fn delete_of_missing_id_is_not_found() {
    let mut store = TodoStore::new();
    assert_eq!(store.delete(1), Err(RepositoryError::NotFound(1)));
    create(&mut store, "a").unwrap();
    assert_eq!(store.delete(-3), Err(RepositoryError::NotFound(-3)));
    assert_eq!(store.all().len(), 1);
}

#[test]
fn delete_twice_fails_the_second_time() {
    let mut store = TodoStore::new();
    create(&mut store, "a").unwrap();
    assert_eq!(store.delete(1), Ok(()));
    assert_eq!(store.delete(1), Err(RepositoryError::NotFound(1)));
    assert_eq!(store.find(1), Err(RepositoryError::NotFound(1)));
}

#[test]
fn all_lists_every_record_once() {
    let mut store = TodoStore::new();
    for text in ["a", "b", "c", "d", "e"] {
        create(&mut store, text).unwrap();
    }
    store.delete(5).unwrap();
    store
        .update(
            3,
            UpdateTodo {
                text: None,
                completed: Some(true),
            },
        )
        .unwrap();
    let mut todos = store.all();
    todos.sort_by_key(|todo| todo.id);
    assert_eq!(
        todos,
        vec![
            Todo::new(1, "a".to_string()),
            Todo::new(2, "b".to_string()),
            Todo {
                id: 3,
                text: "c".to_string(),
                completed: true
            },
            Todo::new(4, "d".to_string()),
        ]
    );
}

#[test]
fn many_creates_get_ids_in_a_row() {
    let mut store = TodoStore::new();
    for i in 1..=100 {
        let todo = create(&mut store, &format!("item {}", i)).unwrap();
        assert_eq!(todo.id, i);
        assert_eq!(todo.completed, false);
    }
    assert_eq!(store.all().len(), 100);
}
