use vstd::prelude::*;
use vstd::string::StringExecFns;

use crate::pagination::Pagination;
use crate::store::{TodoStore, has_id, row_with_id, lemma_row_with_id_at};

verus! {

/// A persisted task record.
#[derive(Debug)]
pub struct Todo {
    pub id: i64,
    pub title: String,
    pub notes: String,
    pub completed: bool,
}

/// The notes a new record starts with.
pub open spec fn default_notes() -> Seq<char> {
    seq!['n', 'o', 't', 'e']
}

/// Returns a fresh string holding the default notes.
pub fn default_notes_string() -> (r: String)
    ensures
        r@ == default_notes(),
{
    let r = String::from_str("note");
    proof {
        reveal_strlit("note");
    }
    assert(r@ =~= default_notes());
    r
}

impl Todo {
    /// The record that an insert of `title` under `id` creates.
    pub open spec fn is_new_row(self, id: i64, title: String) -> bool {
        &&& self.id == id
        &&& self.title == title
        &&& self.notes@ == default_notes()
        &&& !self.completed
    }

    /// Returns an equal record.
    pub fn copy(&self) -> (r: Todo)
        ensures
            r == *self,
    {
        Todo {
            id: self.id,
            title: self.title.clone(),
            notes: self.notes.clone(),
            completed: self.completed,
        }
    }
}

/// Input of a create: the title alone.
#[derive(Debug)]
pub struct CreateTodo {
    pub title: String,
}

impl CreateTodo {
    pub fn new(title: String) -> (r: CreateTodo)
        ensures
            r.title == title,
    {
        CreateTodo { title }
    }
}

/// A partial patch: each field that is set replaces the stored value, each
/// field left unset keeps it.
#[derive(Debug)]
pub struct UpdateTodo {
    pub title: Option<String>,
    pub notes: Option<String>,
    pub completed: Option<bool>,
}

impl UpdateTodo {
    pub fn new(title: Option<String>, notes: Option<String>, completed: Option<bool>) -> (r:
        UpdateTodo)
        ensures
            r.title == title,
            r.notes == notes,
            r.completed == completed,
    {
        UpdateTodo { title, notes, completed }
    }

    /// The record that results from applying this patch to `cur`.
    pub open spec fn merged(self, cur: Todo) -> Todo {
        Todo {
            id: cur.id,
            title: match self.title {
                Some(t) => t,
                None => cur.title,
            },
            notes: match self.notes {
                Some(n) => n,
                None => cur.notes,
            },
            completed: match self.completed {
                Some(c) => c,
                None => cur.completed,
            },
        }
    }

    /// Applies this patch to `cur`.
    pub fn apply(self, cur: Todo) -> (r: Todo)
        ensures
            r == self.merged(cur),
    {
        Todo {
            id: cur.id,
            title: match self.title {
                Some(t) => t,
                None => cur.title,
            },
            notes: match self.notes {
                Some(n) => n,
                None => cur.notes,
            },
            completed: match self.completed {
                Some(c) => c,
                None => cur.completed,
            },
        }
    }
}

/// The two ways a repository operation fails.
#[derive(Debug)]
pub enum TodoError {
    /// No record has the requested id.
    NotFound(i64),
    /// The backing store could not execute the statement.
    Storage(String),
}

impl TodoError {
    /// Whether this is the not-found failure.
    pub fn is_not_found(&self) -> (r: bool)
        ensures
            r == (self is NotFound),
    {
        match self {
            TodoError::NotFound(_) => true,
            TodoError::Storage(_) => false,
        }
    }
}

/// Mediates every read and write of todo records against the store it was
/// constructed with. Each operation runs to completion or leaves the store as
/// it was.
#[derive(Debug)]
pub struct TodoRepository {
    store: TodoStore,
}

impl TodoRepository {
    /// The backing store.
    pub closed spec fn store(&self) -> TodoStore {
        self.store
    }

    /// The stored records, in ascending id order.
    pub open spec fn rows(&self) -> Seq<Todo> {
        self.store().rows()
    }

    /// The id the next create assigns.
    pub open spec fn next_id(&self) -> int {
        self.store().next_id()
    }

    pub open spec fn wf(&self) -> bool {
        self.store().wf()
    }

    /// `after` is `before` with one new record for `title` under `id`.
    pub open spec fn created(before: Self, after: Self, title: String, id: i64) -> bool {
        &&& id == before.next_id()
        &&& after.next_id() == id + 1
        &&& after.rows().len() == before.rows().len() + 1
        &&& after.rows().drop_last() == before.rows()
        &&& after.rows().last().is_new_row(id, title)
    }

    /// What `update(id, patch)` does: it merges the patch into the record with
    /// that id and reports one row, or fails with `NotFound` and changes nothing.
    pub open spec fn updated(
        before: Self,
        after: Self,
        id: i64,
        patch: UpdateTodo,
        res: Result<u64, TodoError>,
    ) -> bool {
        &&& after.next_id() == before.next_id()
        &&& match row_with_id(before.rows(), id) {
            Some(cur) => {
                &&& res == Ok::<u64, TodoError>(1)
                &&& exists|i: int|
                    0 <= i < before.rows().len() && before.rows()[i] == cur && after.rows()
                        == before.rows().update(i, patch.merged(cur))
            },
            None => {
                &&& res == Err::<u64, TodoError>(TodoError::NotFound(id))
                &&& after.rows() == before.rows()
            },
        }
    }

    /// What `delete(id)` does: it removes the record with that id and reports
    /// one row, or reports zero rows and changes nothing.
    pub open spec fn deleted(before: Self, after: Self, id: i64, res: Result<u64, TodoError>) -> bool {
        &&& after.next_id() == before.next_id()
        &&& if has_id(before.rows(), id) {
            &&& res == Ok::<u64, TodoError>(1)
            &&& exists|i: int|
                0 <= i < before.rows().len() && before.rows()[i].id == id && after.rows()
                    == before.rows().remove(i)
        } else {
            &&& res == Ok::<u64, TodoError>(0)
            &&& after.rows() == before.rows()
        }
    }

    pub fn new(store: TodoStore) -> (r: TodoRepository)
        ensures
            r.store() == store,
    {
        TodoRepository { store }
    }

    /// Inserts a record with the given title, the default notes and not
    /// completed; returns its id. Fails with `Storage` when the store has no
    /// id left to assign.
    pub fn create(&mut self, todo: CreateTodo) -> (r: Result<i64, TodoError>)
        requires
            old(self).wf(),
        ensures
            final(self).wf(),
            (r is Err) == (old(self).next_id() == i64::MAX),
            match r {
                Ok(id) => Self::created(*old(self), *final(self), todo.title, id),
                Err(e) => e is Storage && *final(self) == *old(self),
            },
    {
        match self.store.add_todo(todo.title) {
            Some(id) => Ok(id),
            None => Err(TodoError::Storage(String::from_str("no id left to assign"))),
        }
    }

    /// The records in ascending id order, windowed by `pagination`. An offset
    /// past the last record gives an empty list.
    pub fn list(&self, pagination: Pagination) -> (r: Result<Vec<Todo>, TodoError>)
        ensures
            r is Ok,
            r matches Ok(v) && v@ == pagination.page(self.rows()),
    {
        Ok(self.store.get_todos(&pagination))
    }

    /// The record with the given id; fails with `NotFound` when there is none.
    pub fn get(&self, id: i64) -> (r: Result<Todo, TodoError>)
        requires
            self.wf(),
        ensures
            match row_with_id(self.rows(), id) {
                Some(t) => r == Ok::<Todo, TodoError>(t),
                None => r == Err::<Todo, TodoError>(TodoError::NotFound(id)),
            },
    {
        match self.store.get_todo(id) {
            Some(t) => Ok(t.copy()),
            None => Err(TodoError::NotFound(id)),
        }
    }

    /// Reads the record with the given id, merges `update` into it and writes
    /// it back; returns the number of rows written. Fails with `NotFound` when
    /// there is no such record.
    pub fn update(&mut self, id: i64, update: UpdateTodo) -> (r: Result<u64, TodoError>)
        requires
            old(self).wf(),
        ensures
            final(self).wf(),
            Self::updated(*old(self), *final(self), id, update, r),
    {
        match self.store.get_todo(id) {
            Some(t) => {
                let cur = t.copy();
                let ghost patch = update;
                let merged = update.apply(cur);
                let n = self.store.update_item(merged);
                proof {
                    let i = choose|i: int|
                        0 <= i < old(self).rows().len() && old(self).rows()[i].id == id
                            && self.rows() == old(self).rows().update(i, patch.merged(cur));
                    lemma_row_with_id_at(old(self).rows(), i);
                }
                Ok(n)
            },
            None => Err(TodoError::NotFound(id)),
        }
    }

    /// Removes the record with the given id; returns the number of rows
    /// removed, zero when there was none.
    pub fn delete(&mut self, id: i64) -> (r: Result<u64, TodoError>)
        requires
            old(self).wf(),
        ensures
            final(self).wf(),
            Self::deleted(*old(self), *final(self), id, r),
    {
        Ok(self.store.remove_todo(id))
    }

    /// Removes every record; returns how many there were.
    pub fn cleanup(&mut self) -> (r: Result<u64, TodoError>)
        requires
            old(self).wf(),
        ensures
            final(self).wf(),
            r == Ok::<u64, TodoError>(old(self).rows().len() as u64),
            final(self).rows() == Seq::<Todo>::empty(),
            final(self).next_id() == old(self).next_id(),
    {
        Ok(self.store.remove_all())
    }
}

/// Successive creates return strictly increasing ids, each one more than the
/// last; against a fresh store they are 1, 2, 3, ...
pub proof fn lemma_create_ids_increase(
    r0: TodoRepository,
    r1: TodoRepository,
    r2: TodoRepository,
    t1: String,
    t2: String,
    id1: i64,
    id2: i64,
)
    requires
        TodoRepository::created(r0, r1, t1, id1),
        TodoRepository::created(r1, r2, t2, id2),
    ensures
        id1 < id2,
        id2 == id1 + 1,
        r0.next_id() == 1 ==> id1 == 1 && id2 == 2,
{
}

/// After a create returns `id`, the record with that id has the input title,
/// the default notes, and is not completed.
pub proof fn lemma_get_after_create(r0: TodoRepository, r1: TodoRepository, title: String, id: i64)
    requires
        r1.wf(),
        TodoRepository::created(r0, r1, title, id),
    ensures
        row_with_id(r1.rows(), id) matches Some(t) && t.is_new_row(id, title),
{
    lemma_row_with_id_at(r1.rows(), r1.rows().len() - 1);
}

/// An update of an existing record reports one row and leaves the record equal
/// to the merge: each field the patch sets is overwritten, each field it leaves
/// unset is kept, and an empty patch keeps the record as it was. An update of
/// a missing id fails with `NotFound` and changes nothing.
pub proof fn lemma_update_patch(
    r0: TodoRepository,
    r1: TodoRepository,
    id: i64,
    patch: UpdateTodo,
    res: Result<u64, TodoError>,
)
    requires
        r0.wf(),
        r1.wf(),
        TodoRepository::updated(r0, r1, id, patch, res),
    ensures
        match row_with_id(r0.rows(), id) {
            Some(cur) => {
                &&& res == Ok::<u64, TodoError>(1)
                &&& r1.rows().len() == r0.rows().len()
                &&& row_with_id(r1.rows(), id) matches Some(new) && {
                    &&& new.id == id
                    &&& new.title == (match patch.title {
                        Some(t) => t,
                        None => cur.title,
                    })
                    &&& new.notes == (match patch.notes {
                        Some(n) => n,
                        None => cur.notes,
                    })
                    &&& new.completed == (match patch.completed {
                        Some(c) => c,
                        None => cur.completed,
                    })
                    &&& (patch.title is None && patch.notes is None && patch.completed is None)
                        ==> new == cur
                }
            },
            None => {
                &&& res == Err::<u64, TodoError>(TodoError::NotFound(id))
                &&& r1.rows() == r0.rows()
            },
        },
{
    if let Some(cur) = row_with_id(r0.rows(), id) {
        let i = choose|i: int|
            0 <= i < r0.rows().len() && r0.rows()[i] == cur && r1.rows() == r0.rows().update(
                i,
                patch.merged(cur),
            );
        assert(0 <= i < r0.rows().len() && r0.rows()[i].id == id);
        lemma_row_with_id_at(r1.rows(), i);
    }
}

/// Deleting an existing id removes exactly one record and reports one row;
/// deleting a missing id reports zero rows and changes nothing.
pub proof fn lemma_delete_count(
    r0: TodoRepository,
    r1: TodoRepository,
    id: i64,
    res: Result<u64, TodoError>,
)
    requires
        TodoRepository::deleted(r0, r1, id, res),
    ensures
        has_id(r0.rows(), id) ==> res == Ok::<u64, TodoError>(1) && r1.rows().len() + 1
            == r0.rows().len() && (Pagination { offset: None, limit: None }).page(r1.rows()).len() + 1
            == (Pagination { offset: None, limit: None }).page(r0.rows()).len(),
        !has_id(r0.rows(), id) ==> res == Ok::<u64, TodoError>(0) && r1.rows() == r0.rows(),
{
    (Pagination { offset: None, limit: None }).lemma_unbounded_is_all(r0.rows());
    (Pagination { offset: None, limit: None }).lemma_unbounded_is_all(r1.rows());
}

} // verus!
