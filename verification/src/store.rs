//! The task store: an ordered collection of tasks and the monotonic id
//! counter that makes every id unique for the life of the store.
//!
//! Well-formedness says three things: every task is itself well formed,
//! every task id lies strictly below the counter, and ids strictly increase
//! along the display order. Every operation preserves it.

use vstd::prelude::*;
use crate::clock::now_seconds;
use crate::task::Todo;
use crate::text::{is_blank, trim_chars, string_to_chars};

verus! {

/// Why a store mutation was rejected.
#[derive(PartialEq, Eq, Structural, Clone, Copy, Debug)]
pub enum TodoError {
    /// The description had no visible content.
    EmptyDescription,
    /// The priority lay outside the 1..=5 band.
    InvalidPriority,
}

impl TodoError {
    /// A short human-readable account of the rejection.
    pub fn message(&self) -> (r: String)
        ensures
            *self == TodoError::EmptyDescription ==> r@ == "Todo description cannot be empty"@,
            *self == TodoError::InvalidPriority ==> r@ == "Priority must be between 1 and 5"@,
    {
        match self {
            TodoError::EmptyDescription => String::from_str("Todo description cannot be empty"),
            TodoError::InvalidPriority => String::from_str("Priority must be between 1 and 5"),
        }
    }
}

/// Whether a priority choice is acceptable: absent, or within the band.
pub open spec fn priority_ok(p: Option<u8>) -> bool {
    match p {
        Some(v) => 1 <= v <= 5,
        None => true,
    }
}

/// The ordered collection of tasks plus the id counter.
pub struct TodoList {
    /// Tasks in display order; insertion order for the unfiltered view.
    pub todos: Vec<Todo>,
    /// The id the next added task will receive; strictly above every
    /// existing id, and never decreased by any operation.
    pub next_id: u32,
}

impl TodoList {
    /// The store invariant: well-formed tasks, ids below the counter, ids
    /// strictly increasing along the display order.
    pub open spec fn wf(self) -> bool {
        &&& forall|i: int|
            0 <= i < self.todos@.len() ==> (#[trigger] self.todos@[i]).wf()
        &&& forall|i: int|
            0 <= i < self.todos@.len() ==> (#[trigger] self.todos@[i]).id < self.next_id
        &&& forall|i: int, j: int|
            0 <= i < j < self.todos@.len() ==> (#[trigger] self.todos@[i].id) < (
            #[trigger] self.todos@[j].id)
    }

    /// Builds an empty store whose first id will be 1.
    pub fn new() -> (r: TodoList)
        ensures
            r.wf(),
            r.todos@.len() == 0,
            r.next_id == 1,
    {
        TodoList { todos: Vec::new(), next_id: 1 }
    }

    /// Checks the invariant of a store of unknown provenance, such as one
    /// rebuilt from persisted data.
    pub fn is_wf(&self) -> (r: bool)
        ensures
            r == self.wf(),
    {
        let n = self.todos.len();
        let mut k: usize = 0;
        while k < n
            invariant
                0 <= k <= n,
                n == self.todos@.len(),
                forall|i: int| 0 <= i < k ==> (#[trigger] self.todos@[i]).wf(),
                forall|i: int| 0 <= i < k ==> (#[trigger] self.todos@[i]).id < self.next_id,
                forall|i: int, j: int|
                    0 <= i < j < k ==> (#[trigger] self.todos@[i].id) < (
                    #[trigger] self.todos@[j].id),
            decreases n - k,
        {
            let t = &self.todos[k];
            let flag_ok = t.completed == t.completed_at.is_some();
            let prio_ok = match t.priority {
                Some(p) => 1 <= p && p <= 5,
                None => true,
            };
            let id_ok = t.id < self.next_id;
            let order_ok = if k == 0 {
                true
            } else {
                self.todos[k - 1].id < t.id
            };
            if !(flag_ok && prio_ok && id_ok && order_ok) {
                proof {
                    if flag_ok && prio_ok && id_ok {
                        assert(!order_ok);
                        assert(self.todos@[k - 1].id >= self.todos@[k as int].id);
                    }
                }
                return false;
            }
            proof {
                assert forall|i: int, j: int| 0 <= i < j < k + 1 implies (
                    #[trigger] self.todos@[i].id) < (#[trigger] self.todos@[j].id) by {
                    if j == k {
                        if i < k - 1 {
                            assert(self.todos@[i].id < self.todos@[k - 1].id);
                        }
                    }
                }
            }
            k += 1;
        }
        true
    }

    /// The task a successful add appends, given the clock reading.
    pub open spec fn added_task(self, description: String, priority: Option<u8>, now: i64) -> Todo {
        Todo {
            id: self.next_id,
            description: description,
            details: None,
            completed: false,
            created_at: now,
            completed_at: None,
            due_date: None,
            priority: priority,
        }
    }

    /// Adds a task with the given creation time. Rejects a description with
    /// no visible content, and a priority outside the band; otherwise
    /// appends a fresh pending task carrying the next id and returns that id.
    pub fn add_todo_at(&mut self, description: String, priority: Option<u8>, now: i64) -> (r:
        Result<u32, TodoError>)
        requires
            old(self).wf(),
            old(self).next_id < u32::MAX,
        ensures
            final(self).wf(),
            r is Ok <==> !is_blank(description@) && priority_ok(priority),
            r matches Err(e) ==> *final(self) == *old(self) && (if is_blank(description@) {
                e == TodoError::EmptyDescription
            } else {
                e == TodoError::InvalidPriority
            }),
            r matches Ok(id) ==> {
                &&& id == old(self).next_id
                &&& final(self).next_id == old(self).next_id + 1
                &&& final(self).todos@ == old(self).todos@.push(
                    old(self).added_task(description, priority, now),
                )
            },
    {
        let desc_chars = string_to_chars(description.as_str());
        let trimmed_desc = trim_chars(&desc_chars);
        if trimmed_desc.len() == 0 {
            return Err(TodoError::EmptyDescription);
        }
        let prio_ok = match priority {
            Some(p) => 1 <= p && p <= 5,
            None => true,
        };
        if !prio_ok {
            return Err(TodoError::InvalidPriority);
        }
        let id = self.next_id;
        let task = Todo::new_at(id, description, priority, now);
        self.todos.push(task);
        self.next_id = id + 1;
        proof {
            assert(final(self).todos@.last() == old(self).added_task(description, priority, now));
            assert forall|i: int, j: int| 0 <= i < j < final(self).todos@.len() implies (
                #[trigger] final(self).todos@[i].id) < (#[trigger] final(self).todos@[j].id) by {
                if j == final(self).todos@.len() - 1 {
                    assert(old(self).todos@[i].id < old(self).next_id);
                }
            }
        }
        Ok(id)
    }

    /// Adds a task, reading the clock for the creation time; apart from that
    /// time the effect is as for `add_todo_at`.
    pub fn add_todo(&mut self, description: String, priority: Option<u8>) -> (r: Result<
        u32,
        TodoError,
    >)
        requires
            old(self).wf(),
            old(self).next_id < u32::MAX,
        ensures
            final(self).wf(),
            r is Ok <==> !is_blank(description@) && priority_ok(priority),
            r matches Err(e) ==> *final(self) == *old(self) && (if is_blank(description@) {
                e == TodoError::EmptyDescription
            } else {
                e == TodoError::InvalidPriority
            }),
            r matches Ok(id) ==> {
                &&& id == old(self).next_id
                &&& final(self).next_id == old(self).next_id + 1
                &&& final(self).todos@.len() == old(self).todos@.len() + 1
                &&& final(self).todos@.subrange(0, old(self).todos@.len() as int) == old(
                    self,
                ).todos@
                &&& final(self).todos@.last() == old(self).added_task(
                    description,
                    priority,
                    final(self).todos@.last().created_at,
                )
            },
    {
        let now = now_seconds();
        let r = self.add_todo_at(description, priority, now);
        proof {
            if r is Ok {
                assert(final(self).todos@.subrange(0, old(self).todos@.len() as int) =~= old(
                    self,
                ).todos@);
            }
        }
        r
    }

    /// The index of the task with the given id: the first (and in a
    /// well-formed store the only) position carrying it.
    pub fn find_index(&self, id: u32) -> (r: Option<usize>)
        ensures
            r matches Some(i) ==> i < self.todos@.len() && self.todos@[i as int].id == id && (
            forall|k: int| 0 <= k < i ==> (#[trigger] self.todos@[k]).id != id),
            r is None ==> forall|k: int|
                0 <= k < self.todos@.len() ==> (#[trigger] self.todos@[k]).id != id,
    {
        let n = self.todos.len();
        let mut k: usize = 0;
        while k < n
            invariant
                0 <= k <= n,
                n == self.todos@.len(),
                forall|i: int| 0 <= i < k ==> (#[trigger] self.todos@[i]).id != id,
            decreases n - k,
        {
            if self.todos[k].id == id {
                return Some(k);
            }
            k += 1;
        }
        None
    }

    /// Removes the task with the given id, reporting whether one was there;
    /// a missing id is a normal outcome, not an error.
    pub fn remove_todo(&mut self, id: u32) -> (r: bool)
        requires
            old(self).wf(),
        ensures
            final(self).wf(),
            final(self).next_id == old(self).next_id,
            r <==> exists|i: int|
                0 <= i < old(self).todos@.len() && (#[trigger] old(self).todos@[i]).id == id,
            !r ==> *final(self) == *old(self),
            r ==> exists|i: int|
                {
                    &&& 0 <= i < old(self).todos@.len()
                    &&& (#[trigger] old(self).todos@[i]).id == id
                    &&& final(self).todos@ == old(self).todos@.remove(i)
                },
    {
        match self.find_index(id) {
            None => false,
            Some(i) => {
                self.todos.remove(i);
                proof {
                    let pre = old(self).todos@;
                    assert(pre[i as int].id == id);
                    assert forall|a: int, b: int| 0 <= a < b < final(self).todos@.len() implies (
                        #[trigger] final(self).todos@[a].id) < (
                    #[trigger] final(self).todos@[b].id) by {
                        let aa = if a < i { a } else { a + 1 };
                        let bb = if b < i { b } else { b + 1 };
                        assert(final(self).todos@[a] == pre[aa]);
                        assert(final(self).todos@[b] == pre[bb]);
                    }
                }
                true
            },
        }
    }

    /// `t` with its completion pair set at `now`.
    pub open spec fn with_completed(t: Todo, now: i64) -> Todo {
        Todo { completed: true, completed_at: Some(now), ..t }
    }

    /// `t` with its completion pair cleared.
    pub open spec fn with_pending(t: Todo) -> Todo {
        Todo { completed: false, completed_at: None, ..t }
    }

    /// Marks the task at `idx` complete at time `now`; the flag and the
    /// timestamp move as one unit.
    pub fn set_completed_at(&mut self, idx: usize, now: i64)
        requires
            old(self).wf(),
            idx < old(self).todos@.len(),
        ensures
            final(self).wf(),
            final(self).next_id == old(self).next_id,
            final(self).todos@ == old(self).todos@.update(
                idx as int,
                TodoList::with_completed(old(self).todos@[idx as int], now),
            ),
    {
        let t = &mut self.todos[idx];
        t.complete_at(now);
    }

    /// Marks the task at `idx` pending again; the flag and the timestamp
    /// move as one unit.
    pub fn set_pending(&mut self, idx: usize)
        requires
            old(self).wf(),
            idx < old(self).todos@.len(),
        ensures
            final(self).wf(),
            final(self).next_id == old(self).next_id,
            final(self).todos@ == old(self).todos@.update(
                idx as int,
                TodoList::with_pending(old(self).todos@[idx as int]),
            ),
    {
        let t = &mut self.todos[idx];
        t.uncomplete();
    }

    /// Replaces the description of the task at `idx`.
    pub fn set_description(&mut self, idx: usize, description: String)
        requires
            old(self).wf(),
            idx < old(self).todos@.len(),
        ensures
            final(self).wf(),
            final(self).next_id == old(self).next_id,
            final(self).todos@ == old(self).todos@.update(
                idx as int,
                Todo { description: description, ..old(self).todos@[idx as int] },
            ),
    {
        let t = &mut self.todos[idx];
        t.description = description;
    }

    /// Replaces the details of the task at `idx`; `None` clears them.
    pub fn set_details(&mut self, idx: usize, details: Option<String>)
        requires
            old(self).wf(),
            idx < old(self).todos@.len(),
        ensures
            final(self).wf(),
            final(self).next_id == old(self).next_id,
            final(self).todos@ == old(self).todos@.update(
                idx as int,
                Todo { details: details, ..old(self).todos@[idx as int] },
            ),
    {
        let t = &mut self.todos[idx];
        t.details = details;
    }

    /// Replaces the due time of the task at `idx`; `None` clears it.
    pub fn set_due(&mut self, idx: usize, due: Option<i64>)
        requires
            old(self).wf(),
            idx < old(self).todos@.len(),
        ensures
            final(self).wf(),
            final(self).next_id == old(self).next_id,
            final(self).todos@ == old(self).todos@.update(
                idx as int,
                Todo { due_date: due, ..old(self).todos@[idx as int] },
            ),
    {
        let t = &mut self.todos[idx];
        t.due_date = due;
    }

    /// Replaces the priority of the task at `idx`; `None` clears it.
    pub fn set_priority(&mut self, idx: usize, priority: Option<u8>)
        requires
            old(self).wf(),
            idx < old(self).todos@.len(),
            priority_ok(priority),
        ensures
            final(self).wf(),
            final(self).next_id == old(self).next_id,
            final(self).todos@ == old(self).todos@.update(
                idx as int,
                Todo { priority: priority, ..old(self).todos@[idx as int] },
            ),
    {
        let t = &mut self.todos[idx];
        t.priority = priority;
    }

    /// Removes every completed task, keeping the pending ones in order, and
    /// reports how many were removed.
    #[verifier::loop_isolation(false)]
    pub fn retain_pending(&mut self) -> (removed: usize)
        requires
            old(self).wf(),
        ensures
            final(self).wf(),
            final(self).next_id == old(self).next_id,
            final(self).todos@ == old(self).todos@.filter(|t: Todo| !t.completed),
            removed == old(self).todos@.len() - final(self).todos@.len(),
    {
        let ghost pred = |t: Todo| !t.completed;
        let original_len = self.todos.len();
        let mut kept: Vec<Todo> = Vec::new();
        let ghost mut done: Seq<Todo> = Seq::empty();
        proof {
            reveal_with_fuel(Seq::<_>::filter, 2);
            assert(Seq::<Todo>::empty().filter(pred) =~= Seq::<Todo>::empty());
            assert(done + self.todos@ =~= self.todos@);
        }
        while self.todos.len() > 0
            invariant
                old(self).todos@ == done + self.todos@,
                kept@ == done.filter(pred),
                self.next_id == old(self).next_id,
                old(self).wf(),
                forall|i: int, j: int|
                    0 <= i < j < kept@.len() ==> (#[trigger] kept@[i].id) < (
                    #[trigger] kept@[j].id),
                forall|i: int, j: int|
                    0 <= i < kept@.len() && 0 <= j < self.todos@.len() ==> (#[trigger] kept@[i].id)
                        < (#[trigger] self.todos@[j].id),
                forall|i: int| 0 <= i < kept@.len() ==> (#[trigger] kept@[i]).wf(),
                forall|i: int| 0 <= i < kept@.len() ==> (#[trigger] kept@[i]).id < self.next_id,
            decreases self.todos@.len(),
        {
            let ghost pre_rest = self.todos@;
            let ghost pre_kept = kept@;
            let t = self.todos.remove(0);
            proof {
                reveal_with_fuel(Seq::<_>::filter, 2);
                assert(self.todos@ =~= pre_rest.subrange(1, pre_rest.len() as int));
                assert(done + pre_rest =~= done.push(t) + self.todos@);
                assert(Seq::<Todo>::empty().filter(pred) =~= Seq::<Todo>::empty());
                assert(seq![t].drop_last() =~= Seq::<Todo>::empty());
                assert(seq![t].filter(pred) =~= if pred(t) {
                    seq![t]
                } else {
                    Seq::<Todo>::empty()
                });
                Seq::filter_distributes_over_add(done, seq![t], pred);
                assert(done.push(t) =~= done + seq![t]);
                assert(t == old(self).todos@[done.len() as int]);
                assert(t.wf());
                assert forall|j: int| 0 <= j < self.todos@.len() implies t.id < (
                #[trigger] self.todos@[j].id) by {
                    assert(self.todos@[j] == old(self).todos@[done.len() + 1 + j]);
                }
            }
            if !t.completed {
                kept.push(t);
                proof {
                    assert(pre_kept.push(t) =~= pre_kept + seq![t]);
                }
            }
            proof {
                reveal_with_fuel(Seq::<_>::filter, 2);
                let pre_done = done;
                done = done.push(t);
                assert(done =~= pre_done + seq![t]);
                assert(done.filter(pred) == pre_done.filter(pred) + seq![t].filter(pred));
                assert(pred(t) == !t.completed);
                if !t.completed {
                    assert(seq![t].filter(pred) =~= seq![t]);
                    assert(kept@ =~= pre_done.filter(pred) + seq![t]);
                } else {
                    assert(seq![t].filter(pred) =~= Seq::<Todo>::empty());
                    assert(kept@ =~= pre_done.filter(pred) + Seq::<Todo>::empty());
                }
                assert(kept@ =~= done.filter(pred));
            }
        }
        proof {
            assert(done =~= old(self).todos@);
        }
        let remaining = kept.len();
        self.todos = kept;
        proof {
            old(self).todos@.lemma_filter_len(pred);
        }
        original_len - remaining
    }

    /// Marks the task with the given id complete, reading the clock for the
    /// completion time; reports whether the id was present.
    pub fn complete_todo(&mut self, id: u32) -> (r: bool)
        requires
            old(self).wf(),
        ensures
            final(self).wf(),
            final(self).next_id == old(self).next_id,
            r <==> exists|i: int|
                0 <= i < old(self).todos@.len() && (#[trigger] old(self).todos@[i]).id == id,
            !r ==> *final(self) == *old(self),
            r ==> exists|i: int|
                {
                    &&& 0 <= i < old(self).todos@.len()
                    &&& (#[trigger] old(self).todos@[i]).id == id
                    &&& final(self).todos@ == old(self).todos@.update(
                        i,
                        TodoList::with_completed(old(self).todos@[i], final(self).todos@[i].completed_at->0),
                    )
                },
    {
        match self.find_index(id) {
            None => false,
            Some(i) => {
                let now = now_seconds();
                self.set_completed_at(i, now);
                true
            },
        }
    }

    /// Marks the task with the given id pending again; reports whether the
    /// id was present.
    pub fn uncomplete_todo(&mut self, id: u32) -> (r: bool)
        requires
            old(self).wf(),
        ensures
            final(self).wf(),
            final(self).next_id == old(self).next_id,
            r <==> exists|i: int|
                0 <= i < old(self).todos@.len() && (#[trigger] old(self).todos@[i]).id == id,
            !r ==> *final(self) == *old(self),
            r ==> exists|i: int|
                {
                    &&& 0 <= i < old(self).todos@.len()
                    &&& (#[trigger] old(self).todos@[i]).id == id
                    &&& final(self).todos@ == old(self).todos@.update(
                        i,
                        TodoList::with_pending(old(self).todos@[i]),
                    )
                },
    {
        match self.find_index(id) {
            None => false,
            Some(i) => {
                self.set_pending(i);
                true
            },
        }
    }

    /// Every id in a well-formed store lies strictly below the counter, so
    /// the id the next add assigns is fresh: ids are never reused, whatever
    /// deletions came before.
    pub proof fn lemma_ids_never_reused(l: TodoList, i: int)
        requires
            l.wf(),
            0 <= i < l.todos@.len(),
        ensures
            l.todos@[i].id < l.next_id,
    {
    }

    /// Ids strictly increase along the display order of a well-formed
    /// store: later additions carry larger ids.
    pub proof fn lemma_ids_strictly_increasing(l: TodoList, i: int, j: int)
        requires
            l.wf(),
            0 <= i < j < l.todos@.len(),
        ensures
            l.todos@[i].id < l.todos@[j].id,
    {
    }

    /// In a well-formed store every task's completion flag agrees with the
    /// presence of its completion time, after every operation.
    pub proof fn lemma_completion_consistent(l: TodoList, i: int)
        requires
            l.wf(),
            0 <= i < l.todos@.len(),
        ensures
            l.todos@[i].completed <==> l.todos@[i].completed_at is Some,
    {
    }
}

impl Default for TodoList {
    /// The default store is the empty store.
    fn default() -> (r: TodoList)
        ensures
            r.wf(),
            r.todos@.len() == 0,
            r.next_id == 1,
    {
        TodoList::new()
    }
}

} // verus!
