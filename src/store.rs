use vstd::prelude::*;

use crate::pagination::Pagination;
use crate::todo::{Todo, default_notes_string};

verus! {

/// Ids strictly increase along the sequence, so they are also unique.
pub open spec fn ids_ascending(rows: Seq<Todo>) -> bool {
    forall|i: int, j: int| 0 <= i < j < rows.len() ==> rows[i].id < rows[j].id
}

/// Some row carries `id`.
pub open spec fn has_id(rows: Seq<Todo>, id: i64) -> bool {
    exists|i: int| 0 <= i < rows.len() && rows[i].id == id
}

/// The row that carries `id`, if any.
pub open spec fn row_with_id(rows: Seq<Todo>, id: i64) -> Option<Todo> {
    if has_id(rows, id) {
        Some(rows[choose|i: int| 0 <= i < rows.len() && rows[i].id == id])
    } else {
        None
    }
}

/// With ascending ids, the row found for the id at position `i` is the row there.
pub proof fn lemma_row_with_id_at(rows: Seq<Todo>, i: int)
    requires
        ids_ascending(rows),
        0 <= i < rows.len(),
    ensures
        has_id(rows, rows[i].id),
        row_with_id(rows, rows[i].id) == Some(rows[i]),
{
    let id = rows[i].id;
    assert(0 <= i < rows.len() && rows[i].id == id);
    let j = choose|j: int| 0 <= j < rows.len() && rows[j].id == id;
    if j < i {
        assert(rows[j].id < rows[i].id);
    } else if i < j {
        assert(rows[i].id < rows[j].id);
    }
}

/// An in-memory backing store: a table of todo rows ordered by id, with an
/// autoincrementing id counter. Ids are assigned on insert, increase with each
/// insert and are never reused.
#[derive(Debug)]
pub struct TodoStore {
    rows: Vec<Todo>,
    next_id: i64,
}

impl TodoStore {
    /// The rows, in ascending id order.
    pub closed spec fn rows(&self) -> Seq<Todo> {
        self.rows@
    }

    /// The id the next insert assigns.
    pub closed spec fn next_id(&self) -> int {
        self.next_id as int
    }

    pub open spec fn wf(&self) -> bool {
        &&& ids_ascending(self.rows())
        &&& forall|i: int| 0 <= i < self.rows().len() ==> #[trigger] self.rows()[i].id < self.next_id()
        &&& 1 <= self.next_id() <= i64::MAX
    }

    /// An empty store whose first insert gets id 1.
    pub fn new() -> (r: TodoStore)
        ensures
            r.wf(),
            r.rows() == Seq::<Todo>::empty(),
            r.next_id() == 1,
    {
        TodoStore { rows: Vec::new(), next_id: 1 }
    }

    /// Number of rows.
    pub fn len(&self) -> (r: usize)
        ensures
            r == self.rows().len(),
    {
        self.rows.len()
    }

    /// Position of the row that carries `id`.
    pub fn position(&self, id: i64) -> (r: Option<usize>)
        ensures
            match r {
                Some(i) => i < self.rows().len() && self.rows()[i as int].id == id,
                None => !has_id(self.rows(), id),
            },
    {
        let mut i: usize = 0;
        while i < self.rows.len()
            invariant
                i <= self.rows@.len(),
                forall|k: int| 0 <= k < i ==> self.rows@[k].id != id,
            decreases self.rows@.len() - i,
        {
            if self.rows[i].id == id {
                return Some(i);
            }
            i = i + 1;
        }
        None
    }

    /// The row that carries `id`, if any.
    pub fn get_todo(&self, id: i64) -> (r: Option<&Todo>)
        requires
            self.wf(),
        ensures
            match r {
                Some(t) => row_with_id(self.rows(), id) == Some(*t),
                None => row_with_id(self.rows(), id) is None,
            },
    {
        match self.position(id) {
            Some(i) => {
                proof {
                    lemma_row_with_id_at(self.rows(), i as int);
                }
                Some(&self.rows[i])
            },
            None => None,
        }
    }

    /// The rows in ascending id order, windowed by `pagination`.
    pub fn get_todos(&self, pagination: &Pagination) -> (r: Vec<Todo>)
        ensures
            r@ == pagination.page(self.rows()),
    {
        let (lo, hi) = pagination.bounds(self.rows.len());
        proof {
            pagination.lemma_page_is_range(self.rows());
        }
        let mut out: Vec<Todo> = Vec::new();
        let mut i: usize = lo;
        while i < hi
            invariant
                lo <= i <= hi <= self.rows@.len(),
                out@ == self.rows@.subrange(lo as int, i as int),
            decreases hi - i,
        {
            out.push(self.rows[i].copy());
            assert(out@ =~= self.rows@.subrange(lo as int, i + 1));
            i = i + 1;
        }
        out
    }

    /// Inserts a row with `title`, the default notes and not completed, under
    /// the next id, and returns that id. Returns `None` when the ids are used up.
    pub fn add_todo(&mut self, title: String) -> (r: Option<i64>)
        requires
            old(self).wf(),
        ensures
            final(self).wf(),
            (r is None) == (old(self).next_id() == i64::MAX),
            match r {
                Some(id) => {
                    &&& id == old(self).next_id()
                    &&& final(self).next_id() == id + 1
                    &&& final(self).rows().len() == old(self).rows().len() + 1
                    &&& final(self).rows().drop_last() == old(self).rows()
                    &&& final(self).rows().last().is_new_row(id, title)
                },
                None => *final(self) == *old(self),
            },
    {
        if self.next_id == i64::MAX {
            return None;
        }
        let id = self.next_id;
        let row = Todo { id, title, notes: default_notes_string(), completed: false };
        self.rows.push(row);
        self.next_id = id + 1;
        assert(self.rows@.drop_last() =~= old(self).rows@);
        Some(id)
    }

    /// Removes the row that carries `id`; returns the number of rows removed.
    pub fn remove_todo(&mut self, id: i64) -> (r: u64)
        requires
            old(self).wf(),
        ensures
            final(self).wf(),
            final(self).next_id() == old(self).next_id(),
            has_id(old(self).rows(), id) ==> r == 1 && exists|i: int|
                0 <= i < old(self).rows().len() && old(self).rows()[i].id == id
                    && final(self).rows() == old(self).rows().remove(i),
            !has_id(old(self).rows(), id) ==> r == 0 && final(self).rows() == old(self).rows(),
    {
        match self.position(id) {
            Some(i) => {
                self.rows.remove(i);
                assert(forall|k: int| 0 <= k < self.rows@.len() ==> #[trigger] self.rows@[k] == old(
                    self,
                ).rows@[if k < i { k } else { k + 1 }]);
                1
            },
            None => 0,
        }
    }

    /// Overwrites the row whose id is `todo.id` with `todo`; returns the number
    /// of rows written.
    pub fn update_item(&mut self, todo: Todo) -> (r: u64)
        requires
            old(self).wf(),
        ensures
            final(self).wf(),
            final(self).next_id() == old(self).next_id(),
            has_id(old(self).rows(), todo.id) ==> r == 1 && exists|i: int|
                0 <= i < old(self).rows().len() && old(self).rows()[i].id == todo.id
                    && final(self).rows() == old(self).rows().update(i, todo),
            !has_id(old(self).rows(), todo.id) ==> r == 0 && final(self).rows() == old(
                self,
            ).rows(),
    {
        match self.position(todo.id) {
            Some(i) => {
                self.rows.set(i, todo);
                1
            },
            None => 0,
        }
    }

    /// Removes every row; returns how many there were. The id counter is kept,
    /// so ids are not reused.
    pub fn remove_all(&mut self) -> (r: u64)
        requires
            old(self).wf(),
        ensures
            final(self).wf(),
            r == old(self).rows().len(),
            final(self).rows() == Seq::<Todo>::empty(),
            final(self).next_id() == old(self).next_id(),
    {
        let n = self.rows.len() as u64;
        self.rows.clear();
        n
    }
}

} // verus!
