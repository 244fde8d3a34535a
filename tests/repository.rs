use todo::pagination::Pagination;
use todo::store::TodoStore;
use todo::todo::{CreateTodo, TodoError, TodoRepository, UpdateTodo};

fn create_repo_and_table() -> TodoRepository {
    TodoRepository::new(TodoStore::new())
}

fn create_todo(repo: &mut TodoRepository, text: &str) -> Result<i64, TodoError> {
    let create_todo = CreateTodo {
        title: text.to_owned(),
    };
    repo.create(create_todo)
}

#[test]
fn test_create() {
    let mut repo = create_repo_and_table();

    let first_id = create_todo(&mut repo, "Test todo 1").unwrap();
    let second_id = create_todo(&mut repo, "Test todo 2").unwrap();
    let third_id = create_todo(&mut repo, "Test todo 3").unwrap();
    assert_eq!(first_id, 1);
    assert_eq!(second_id, 2);
    assert_eq!(third_id, 3);
}

#[test]
fn test_get() {
    let mut repo = create_repo_and_table();
    let _ = create_todo(&mut repo, "Test todo 1").unwrap();
    let _ = create_todo(&mut repo, "Test todo 2").unwrap();
    let _ = create_todo(&mut repo, "Test todo 3").unwrap();

    let todo1 = repo.get(1).unwrap();
    let todo2 = repo.get(2).unwrap();
    let todo3 = repo.get(3).unwrap();

    assert_eq!(todo1.id, 1);
    assert_eq!(todo2.id, 2);
    assert_eq!(todo3.id, 3);
    assert_eq!(todo1.title, String::from("Test todo 1"));
    assert_eq!(todo2.title, String::from("Test todo 2"));
    assert_eq!(todo3.title, String::from("Test todo 3"));
}

#[test]
fn test_update() {
    let mut repo = create_repo_and_table();
    let _ = create_todo(&mut repo, "Test todo 1").unwrap();
    let _ = create_todo(&mut repo, "Test todo 2").unwrap();
    let _ = create_todo(&mut repo, "Test todo 3").unwrap();
    let _ = create_todo(&mut repo, "Test todo 4").unwrap();
    let update_text = UpdateTodo {
        title: Some("Update text only".to_owned()),
        notes: None,
        completed: None,
    };

    let update_done = UpdateTodo {
        title: None,
        notes: None,
        completed: Some(true),
    };
    let update_both = UpdateTodo {
        title: Some("Update text and complete status".to_owned()),
        notes: None,
        completed: Some(true),
    };
    let update_all = UpdateTodo {
        title: Some("Update title , note and complete status".to_owned()),
        notes: Some("Some new notes".to_owned()),
        completed: Some(true),
    };

    let update_second_id = repo.update(2, update_text).unwrap();
    let update_third_id = repo.update(3, update_done).unwrap();
    let update_fourth_id = repo.update(4, update_both).unwrap();
    let _ = repo.update(1, update_all).unwrap();

    assert_eq!(update_second_id, 1);
    assert_eq!(update_third_id, 1);
    assert_eq!(update_fourth_id, 1);

    let todo1 = repo.get(1).unwrap();
    let todo2 = repo.get(2).unwrap();
    let todo3 = repo.get(3).unwrap();
    let todo4 = repo.get(4).unwrap();
    println!("{todo1:?}");
    println!("{todo2:?}");
    println!("{todo3:?}");
    println!("{todo4:?}");
    assert_eq!(todo1.id, 1);
    assert_eq!(todo2.id, 2);
    assert_eq!(todo3.id, 3);
    assert_eq!(todo1.title, String::from("Update title , note and complete status"));
    assert_eq!(todo2.title, String::from("Update text only"));
    assert_eq!(todo3.title, String::from("Test todo 3"));
    assert_eq!(todo4.title, String::from("Update text and complete status"));
    assert_eq!(todo1.notes, String::from("Some new notes"));
    assert!(todo1.completed);
    assert!(!todo2.completed);
    assert!(todo3.completed);
    assert!(todo4.completed);
}

#[test]
fn test_list() {
    let mut repo = create_repo_and_table();
    let _ = create_todo(&mut repo, "Test todo 1").unwrap();
    let _ = create_todo(&mut repo, "Test todo 2").unwrap();
    let _ = create_todo(&mut repo, "Test todo 3").unwrap();
    let _ = create_todo(&mut repo, "Test todo 4").unwrap();
    let pagination = Pagination {
        offset: None,
        limit: None,
    };
    let todos = repo.list(pagination).unwrap();
    println!("{todos:?}");
    assert_eq!(todos.len(), 4);
    // offset only
    let todos = repo.list(Pagination::new(Some(1), None)).unwrap();
    println!("{todos:?}");
    assert_eq!(todos.len(), 3);
    assert_eq!(todos.get(0).unwrap().id, 2);
    // limit only
    let todos = repo.list(Pagination::new(None, Some(3))).unwrap();
    println!("{todos:?}");
    assert_eq!(todos.len(), 3);
    assert_eq!(todos.get(0).unwrap().id, 1);
    // offset and limit
    let todos = repo.list(Pagination::new(Some(1), Some(2))).unwrap();
    println!("{todos:?}");
    assert_eq!(todos.len(), 2);
}

#[test]
fn test_delete() {
    let mut repo = create_repo_and_table();
    let _ = create_todo(&mut repo, "Test todo 1").unwrap();
    let _ = create_todo(&mut repo, "Test todo 2").unwrap();
    let _ = create_todo(&mut repo, "Test todo 3").unwrap();
    let _ = create_todo(&mut repo, "Test todo 4").unwrap();

    let affected_rows = repo.delete(3).unwrap();
    assert_eq!(affected_rows, 1);
    let todos = repo
        .list(Pagination {
            offset: None,
            limit: None,
        })
        .unwrap();
    println!("{todos:?}");
    assert_eq!(todos.len(), 3);
}

#[test]
fn get_after_create_has_defaults() {
    let mut repo = create_repo_and_table();
    let id = create_todo(&mut repo, "Buy milk").unwrap();
    let todo = repo.get(id).unwrap();
    assert_eq!(todo.id, id);
    assert_eq!(todo.title, "Buy milk");
    assert_eq!(todo.notes, "note");
    assert!(!todo.completed);
}

#[test]
fn get_missing_id_is_not_found() {
    let mut repo = create_repo_and_table();
    let _ = create_todo(&mut repo, "a").unwrap();
    let err = repo.get(7).unwrap_err();
    assert!(matches!(err, TodoError::NotFound(7)));
    assert!(err.is_not_found());
    let empty = create_repo_and_table();
    assert!(matches!(empty.get(1), Err(TodoError::NotFound(1))));
}

#[test]
fn update_title_only_keeps_other_fields() {
    let mut repo = create_repo_and_table();
    let id = create_todo(&mut repo, "old").unwrap();
    let patch = UpdateTodo::new(None, Some("kept notes".to_owned()), Some(true));
    assert_eq!(repo.update(id, patch).unwrap(), 1);
    let patch = UpdateTodo::new(Some("new".to_owned()), None, None);
    assert_eq!(repo.update(id, patch).unwrap(), 1);
    let todo = repo.get(id).unwrap();
    assert_eq!(todo.title, "new");
    assert_eq!(todo.notes, "kept notes");
    assert!(todo.completed);
}

#[test]
fn update_with_empty_patch_reports_one_row() {
    let mut repo = create_repo_and_table();
    let id = create_todo(&mut repo, "same").unwrap();
    let patch = UpdateTodo::new(None, None, None);
    assert_eq!(repo.update(id, patch).unwrap(), 1);
    let todo = repo.get(id).unwrap();
    assert_eq!(todo.title, "same");
    assert_eq!(todo.notes, "note");
    assert!(!todo.completed);
}

#[test]
fn update_missing_id_is_not_found() {
    let mut repo = create_repo_and_table();
    let _ = create_todo(&mut repo, "a").unwrap();
    let patch = UpdateTodo::new(Some("b".to_owned()), None, None);
    assert!(matches!(repo.update(5, patch), Err(TodoError::NotFound(5))));
    assert_eq!(repo.get(1).unwrap().title, "a");
}

#[test]
fn delete_missing_id_reports_zero() {
    let mut repo = create_repo_and_table();
    let _ = create_todo(&mut repo, "a").unwrap();
    let _ = create_todo(&mut repo, "b").unwrap();
    assert_eq!(repo.delete(9).unwrap(), 0);
    assert_eq!(repo.list(Pagination::new(None, None)).unwrap().len(), 2);
    assert_eq!(repo.delete(1).unwrap(), 1);
    assert_eq!(repo.delete(1).unwrap(), 0);
    let rest = repo.list(Pagination::new(None, None)).unwrap();
    assert_eq!(rest.len(), 1);
    assert_eq!(rest[0].id, 2);
}

#[test]
fn ids_are_not_reused_after_delete_or_cleanup() {
    let mut repo = create_repo_and_table();
    let _ = create_todo(&mut repo, "a").unwrap();
    let second = create_todo(&mut repo, "b").unwrap();
    assert_eq!(repo.delete(second).unwrap(), 1);
    assert_eq!(create_todo(&mut repo, "c").unwrap(), 3);
    assert_eq!(repo.cleanup().unwrap(), 2);
    assert_eq!(repo.list(Pagination::new(None, None)).unwrap().len(), 0);
    assert_eq!(create_todo(&mut repo, "d").unwrap(), 4);
}

#[test]
fn list_offset_past_end_is_empty() {
    let mut repo = create_repo_and_table();
    for t in ["1", "2", "3", "4"] {
        let _ = create_todo(&mut repo, t).unwrap();
    }
    assert!(repo.list(Pagination::new(Some(4), None)).unwrap().is_empty());
    assert!(repo.list(Pagination::new(Some(100), Some(2))).unwrap().is_empty());
    assert!(repo.list(Pagination::new(Some(u32::MAX), Some(u32::MAX))).unwrap().is_empty());
}

#[test]
fn list_windows_in_id_order() {
    let mut repo = create_repo_and_table();
    for t in ["1", "2", "3", "4"] {
        let _ = create_todo(&mut repo, t).unwrap();
    }
    let all: Vec<i64> = repo.list(Pagination::new(None, None)).unwrap().iter().map(|t| t.id).collect();
    assert_eq!(all, vec![1, 2, 3, 4]);
    let mid: Vec<i64> = repo.list(Pagination::new(Some(1), Some(2))).unwrap().iter().map(|t| t.id).collect();
    assert_eq!(mid, vec![2, 3]);
    let tail: Vec<i64> = repo.list(Pagination::new(Some(2), Some(u32::MAX))).unwrap().iter().map(|t| t.id).collect();
    assert_eq!(tail, vec![3, 4]);
    assert!(repo.list(Pagination::new(None, Some(0))).unwrap().is_empty());
}

#[test]
fn pagination_bounds() {
    assert_eq!(Pagination::new(None, None).bounds(4), (0, 4));
    assert_eq!(Pagination::new(Some(1), None).bounds(4), (1, 4));
    assert_eq!(Pagination::new(None, Some(3)).bounds(4), (0, 3));
    assert_eq!(Pagination::new(Some(1), Some(2)).bounds(4), (1, 3));
    assert_eq!(Pagination::new(Some(9), Some(2)).bounds(4), (4, 4));
    assert_eq!(Pagination::new(Some(3), Some(5)).bounds(4), (3, 4));
}

#[test]
fn store_operations() {
    let mut store = TodoStore::new();
    assert_eq!(store.add_todo("x".to_owned()), Some(1));
    assert_eq!(store.add_todo("y".to_owned()), Some(2));
    assert_eq!(store.len(), 2);
    assert_eq!(store.position(2), Some(1));
    assert_eq!(store.get_todo(1).unwrap().title, "x");
    assert!(store.get_todo(3).is_none());
    let mut row = store.get_todo(2).unwrap().copy();
    row.completed = true;
    assert_eq!(store.update_item(row), 1);
    assert!(store.get_todo(2).unwrap().completed);
    assert_eq!(store.get_todos(&Pagination::new(Some(1), None)).len(), 1);
    assert_eq!(store.remove_todo(1), 1);
    assert_eq!(store.remove_todo(1), 0);
    assert_eq!(store.remove_all(), 1);
    assert_eq!(store.len(), 0);
}
