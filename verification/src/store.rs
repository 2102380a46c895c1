//! An in-memory todo collection with the contracts the resource handlers owe:
//! lookup succeeds exactly for present ids, creation appends a fresh id,
//! update and delete succeed exactly for present ids, and a deleted id is
//! absent afterwards.

use vstd::prelude::*;
use crate::models::{Todo, TodoPartial};

verus! {

/// Whether some todo in `items` carries `id`.
pub open spec fn spec_has_id(items: Seq<Todo>, id: int) -> bool {
    exists|k: int| 0 <= k < items.len() && items[k].id == id
}

/// Every id occurs at most once.
pub open spec fn spec_unique_ids(items: Seq<Todo>) -> bool {
    forall|k1: int, k2: int|
        0 <= k1 < k2 < items.len() ==> items[k1].id != items[k2].id
}

/// The todo collection: the stored todos and the id the next creation takes.
pub struct TodoStore {
    /// The stored todos.
    pub items: Vec<Todo>,
    /// The id handed to the next created todo.
    pub next_id: i32,
}

impl TodoStore {
    /// Well-formedness: ids are positive, below `next_id`, and unique.
    pub open spec fn wf(&self) -> bool {
        1 <= self.next_id && spec_unique_ids(self.items@) && forall|k: int|
            0 <= k < self.items@.len() ==> 0 < (#[trigger] self.items@[k]).id < self.next_id
    }

    /// An empty store.
    pub fn new() -> (r: TodoStore)
        ensures
            r.wf(),
            r.items@.len() == 0,
            r.next_id == 1,
    {
        TodoStore { items: Vec::new(), next_id: 1 }
    }

    /// All stored todos, for the list operation.
    pub fn list(&self) -> (r: &Vec<Todo>)
        ensures
            r@ == self.items@,
    {
        &self.items
    }

    /// The index of the todo carrying `id`, if any.
    fn find(&self, id: i32) -> (r: Option<usize>)
        ensures
            match r {
                Some(k) => 0 <= k < self.items@.len() && self.items@[k as int].id == id,
                None => !spec_has_id(self.items@, id as int),
            },
    {
        let mut k: usize = 0;
        while k < self.items.len()
            invariant
                k <= self.items@.len(),
                forall|j: int| 0 <= j < k ==> self.items@[j].id != id,
            decreases self.items@.len() - k,
        {
            if self.items[k].id == id {
                return Some(k);
            }
            k = k + 1;
        }
        None
    }

    /// Fetches the todo carrying `id`: `Some` exactly when `id` is present.
    pub fn get(&self, id: i32) -> (r: Option<&Todo>)
        requires
            self.wf(),
        ensures
            match r {
                Some(t) => spec_has_id(self.items@, id as int) && t.id == id && exists|k: int|
                    0 <= k < self.items@.len() && *t == self.items@[k],
                None => !spec_has_id(self.items@, id as int),
            },
    {
        match self.find(id) {
            Some(k) => Some(&self.items[k]),
            None => None,
        }
    }

    /// Creates a todo from the payload: it takes the next id, the supplied
    /// title, and starts uncompleted. The id space is the one machine limit.
    pub fn create(&mut self, p: TodoPartial)
        requires
            old(self).wf(),
            old(self).next_id < i32::MAX,
        ensures
            final(self).wf(),
            final(self).items@.len() == old(self).items@.len() + 1,
            final(self).items@.drop_last() == old(self).items@,
            final(self).items@.last().id == old(self).next_id,
            final(self).items@.last().title@ == p.title@,
            final(self).items@.last().completed == false,
            final(self).next_id == old(self).next_id + 1,
    {
        let id = self.next_id;
        self.next_id = self.next_id + 1;
        self.items.push(Todo { id, title: p.title, completed: false });
        proof {
            assert(self.items@.drop_last() =~= old(self).items@);
        }
    }

    /// Replaces the title of the todo carrying `id`. Returns whether `id` was
    /// present; the todo keeps its id and completed status.
    pub fn update(&mut self, id: i32, p: TodoPartial) -> (r: bool)
        requires
            old(self).wf(),
        ensures
            final(self).wf(),
            r == spec_has_id(old(self).items@, id as int),
            final(self).next_id == old(self).next_id,
            !r ==> final(self).items@ == old(self).items@,
            r ==> exists|k: int|
                0 <= k < old(self).items@.len() && old(self).items@[k].id == id
                    && final(self).items@ == old(self).items@.update(
                    k,
                    Todo { id, title: p.title, completed: old(self).items@[k].completed },
                ),
    {
        match self.find(id) {
            None => false,
            Some(k) => {
                let ghost k0 = k as int;
                let old_item = self.items.remove(k);
                self.items.insert(
                    k,
                    Todo { id: old_item.id, title: p.title, completed: old_item.completed },
                );
                proof {
                    assert(self.items@ =~= old(self).items@.update(
                        k0,
                        Todo {
                            id,
                            title: p.title,
                            completed: old(self).items@[k0].completed,
                        },
                    ));
                }
                true
            },
        }
    }

    /// Removes and returns the todo carrying `id`: `Some` exactly when `id`
    /// was present, and `id` is absent afterwards, so that deleting it again
    /// reports not-found.
    pub fn delete(&mut self, id: i32) -> (r: Option<Todo>)
        requires
            old(self).wf(),
        ensures
            final(self).wf(),
            final(self).next_id == old(self).next_id,
            match r {
                Some(t) => spec_has_id(old(self).items@, id as int) && t.id == id
                    && exists|k: int|
                    0 <= k < old(self).items@.len() && t == old(self).items@[k]
                        && final(self).items@ == old(self).items@.remove(k),
                None => !spec_has_id(old(self).items@, id as int)
                    && final(self).items@ == old(self).items@,
            },
            r is Some ==> !spec_has_id(final(self).items@, id as int),
    {
        match self.find(id) {
            None => None,
            Some(k) => {
                let ghost k0 = k as int;
                let t = self.items.remove(k);
                proof {
                    assert forall|j: int|
                        0 <= j < self.items@.len() implies #[trigger] self.items@[j].id
                        != id by {
                        if j < k0 {
                            assert(self.items@[j] == old(self).items@[j]);
                        } else {
                            assert(self.items@[j] == old(self).items@[j + 1]);
                        }
                    }
                }
                Some(t)
            },
        }
    }
}

/// Once a todo is removed, its id is gone from the collection: the heart of
/// delete's idempotent observable behaviour (the second delete of the same id
/// finds nothing).
pub proof fn lemma_deleted_id_absent(items: Seq<Todo>, k: int, id: int)
    requires
        spec_unique_ids(items),
        0 <= k < items.len(),
        items[k].id == id,
    ensures
        !spec_has_id(items.remove(k), id),
{
    let rest = items.remove(k);
    assert forall|j: int| 0 <= j < rest.len() implies #[trigger] rest[j].id != id by {
        if j < k {
            assert(rest[j] == items[j]);
        } else {
            assert(rest[j] == items[j + 1]);
        }
    }
}

} // verus!
