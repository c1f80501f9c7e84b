//! The filter engine: a named read-only predicate over tasks, the ordered
//! visible view it induces on a store, and the laws that view obeys —
//! order preservation, and the completed/pending partition of the ids.

use vstd::prelude::*;
use crate::task::Todo;
use crate::store::TodoList;

verus! {

/// A named predicate used to narrow the visible task set.
#[derive(Debug, Clone, Copy, PartialEq, Eq, Structural)]
pub enum TodoFilter {
    /// Every task.
    All,
    /// Completed tasks only.
    Completed,
    /// Pending tasks only.
    Pending,
    /// Priority 4 or 5.
    HighPriority,
    /// Priority 2 or 3.
    MediumPriority,
    /// Priority 1.
    LowPriority,
    /// No priority assigned.
    NoPriority,
    /// Pending, with a due time strictly in the past.
    Overdue,
    /// Pending, due on the current calendar day.
    DueToday,
    /// Pending, not overdue, due within the soon window.
    DueSoon,
    /// Any task with a due time, completed or not.
    HasDueDate,
}

/// Whether a task passes a filter, judged against the clock reading `now`.
pub open spec fn spec_matches(t: Todo, f: TodoFilter, now: i64) -> bool {
    match f {
        TodoFilter::All => true,
        TodoFilter::Completed => t.completed,
        TodoFilter::Pending => !t.completed,
        TodoFilter::HighPriority => match t.priority {
            Some(p) => p == 4 || p == 5,
            None => false,
        },
        TodoFilter::MediumPriority => match t.priority {
            Some(p) => p == 2 || p == 3,
            None => false,
        },
        TodoFilter::LowPriority => t.priority == Some(1u8),
        TodoFilter::NoPriority => t.priority is None,
        TodoFilter::Overdue => t.spec_overdue(now),
        TodoFilter::DueToday => t.spec_due_today(now),
        TodoFilter::DueSoon => t.spec_due_soon(now),
        TodoFilter::HasDueDate => t.due_date is Some,
    }
}

/// Executable filter test.
pub fn matches_filter(t: &Todo, f: TodoFilter, now: i64) -> (r: bool)
    ensures
        r == spec_matches(*t, f, now),
{
    match f {
        TodoFilter::All => true,
        TodoFilter::Completed => t.completed,
        TodoFilter::Pending => !t.completed,
        TodoFilter::HighPriority => match t.priority {
            Some(p) => p == 4 || p == 5,
            None => false,
        },
        TodoFilter::MediumPriority => match t.priority {
            Some(p) => p == 2 || p == 3,
            None => false,
        },
        TodoFilter::LowPriority => match t.priority {
            Some(p) => p == 1,
            None => false,
        },
        TodoFilter::NoPriority => t.priority.is_none(),
        TodoFilter::Overdue => t.is_overdue_at(now),
        TodoFilter::DueToday => t.is_due_today_at(now),
        TodoFilter::DueSoon => t.is_due_soon_at(now),
        TodoFilter::HasDueDate => t.due_date.is_some(),
    }
}

/// The visible view of a task sequence under a filter: the store indices of
/// the passing tasks, in store order.
pub open spec fn spec_visible(s: Seq<Todo>, f: TodoFilter, now: i64) -> Seq<int>
    decreases s.len(),
{
    if s.len() == 0 {
        Seq::empty()
    } else {
        let front = spec_visible(s.drop_last(), f, now);
        if spec_matches(s.last(), f, now) {
            front.push(s.len() - 1)
        } else {
            front
        }
    }
}

/// The visible view carries in-range, strictly increasing indices of
/// passing tasks, and misses no passing task. Strict increase is the
/// order-preservation law: two visible tasks keep their relative store
/// order in every filtered view.
pub proof fn lemma_visible_characterization(s: Seq<Todo>, f: TodoFilter, now: i64)
    ensures
        forall|k: int|
            0 <= k < spec_visible(s, f, now).len() ==> 0 <= #[trigger] spec_visible(s, f, now)[k]
                < s.len() && spec_matches(s[spec_visible(s, f, now)[k]], f, now),
        forall|k1: int, k2: int|
            0 <= k1 < k2 < spec_visible(s, f, now).len() ==> #[trigger] spec_visible(s, f, now)[k1]
                < #[trigger] spec_visible(s, f, now)[k2],
        forall|i: int|
            0 <= i < s.len() && spec_matches(s[i], f, now) ==> spec_visible(s, f, now).contains(i),
    decreases s.len(),
{
    if s.len() > 0 {
        let front = s.drop_last();
        lemma_visible_characterization(front, f, now);
        let v = spec_visible(s, f, now);
        let vf = spec_visible(front, f, now);
        assert(forall|i: int| 0 <= i < front.len() ==> front[i] == s[i]);
        assert forall|i: int| 0 <= i < s.len() && spec_matches(s[i], f, now) implies v.contains(
            i,
        ) by {
            if i < s.len() - 1 {
                assert(vf.contains(i));
                let k = choose|k: int| 0 <= k < vf.len() && vf[k] == i;
                if spec_matches(s.last(), f, now) {
                    assert(v[k] == i);
                } else {
                    assert(v[k] == i);
                }
            } else {
                assert(spec_matches(s.last(), f, now));
                assert(v[v.len() - 1] == i);
            }
        }
    }
}

/// Under the all-pass filter the visible view is the whole store, index by
/// index: filtering never reorders.
pub proof fn lemma_visible_all_identity(s: Seq<Todo>, now: i64)
    ensures
        spec_visible(s, TodoFilter::All, now) =~= Seq::new(s.len(), |i: int| i),
    decreases s.len(),
{
    if s.len() > 0 {
        lemma_visible_all_identity(s.drop_last(), now);
    }
}

/// The ids a store shows under a filter at time `now`.
pub open spec fn visible_id_set(s: Seq<Todo>, f: TodoFilter, now: i64) -> Set<u32> {
    Set::new(
        |id: u32|
            exists|i: int| 0 <= i < s.len() && (#[trigger] s[i]).id == id && spec_matches(s[i], f, now),
    )
}

/// The completed and pending views partition the ids: together they are
/// exactly the ids of the unfiltered view, and they share none.
pub proof fn lemma_filter_partition(s: Seq<Todo>, now: i64)
    requires
        forall|i: int, j: int| 0 <= i < j < s.len() ==> (#[trigger] s[i].id) != (#[trigger] s[j].id),
    ensures
        visible_id_set(s, TodoFilter::Completed, now).union(
            visible_id_set(s, TodoFilter::Pending, now),
        ) =~= visible_id_set(s, TodoFilter::All, now),
        visible_id_set(s, TodoFilter::Completed, now).intersect(
            visible_id_set(s, TodoFilter::Pending, now),
        ) =~= Set::<u32>::empty(),
{
    let c = visible_id_set(s, TodoFilter::Completed, now);
    let p = visible_id_set(s, TodoFilter::Pending, now);
    let a = visible_id_set(s, TodoFilter::All, now);
    assert forall|id: u32| a.contains(id) implies c.union(p).contains(id) by {
        let i = choose|i: int|
            0 <= i < s.len() && (#[trigger] s[i]).id == id && spec_matches(
                s[i],
                TodoFilter::All,
                now,
            );
        if s[i].completed {
            assert(spec_matches(s[i], TodoFilter::Completed, now));
        } else {
            assert(spec_matches(s[i], TodoFilter::Pending, now));
        }
    }
    assert forall|id: u32| c.contains(id) implies a.contains(id) by {
        let i = choose|i: int|
            0 <= i < s.len() && (#[trigger] s[i]).id == id && spec_matches(
                s[i],
                TodoFilter::Completed,
                now,
            );
        assert(spec_matches(s[i], TodoFilter::All, now));
    }
    assert forall|id: u32| p.contains(id) implies a.contains(id) by {
        let i = choose|i: int|
            0 <= i < s.len() && (#[trigger] s[i]).id == id && spec_matches(
                s[i],
                TodoFilter::Pending,
                now,
            );
        assert(spec_matches(s[i], TodoFilter::All, now));
    }
    assert forall|id: u32| !(c.contains(id) && p.contains(id)) by {
        if c.contains(id) && p.contains(id) {
            let i = choose|i: int|
                0 <= i < s.len() && (#[trigger] s[i]).id == id && spec_matches(
                    s[i],
                    TodoFilter::Completed,
                    now,
                );
            let j = choose|j: int|
                0 <= j < s.len() && (#[trigger] s[j]).id == id && spec_matches(
                    s[j],
                    TodoFilter::Pending,
                    now,
                );
            assert(i != j);
            if i < j {
                assert(s[i].id != s[j].id);
            } else {
                assert(s[j].id != s[i].id);
            }
        }
    }
}

/// The visible tasks themselves, in view order.
pub open spec fn spec_filter_todos(s: Seq<Todo>, f: TodoFilter, now: i64) -> Seq<Todo> {
    spec_visible(s, f, now).map_values(|i: int| s[i])
}

/// The fixed total order the filter key cycles through.
pub open spec fn spec_next_filter(f: TodoFilter) -> TodoFilter {
    match f {
        TodoFilter::All => TodoFilter::Pending,
        TodoFilter::Pending => TodoFilter::Completed,
        TodoFilter::Completed => TodoFilter::HighPriority,
        TodoFilter::HighPriority => TodoFilter::MediumPriority,
        TodoFilter::MediumPriority => TodoFilter::LowPriority,
        TodoFilter::LowPriority => TodoFilter::NoPriority,
        TodoFilter::NoPriority => TodoFilter::Overdue,
        TodoFilter::Overdue => TodoFilter::DueToday,
        TodoFilter::DueToday => TodoFilter::DueSoon,
        TodoFilter::DueSoon => TodoFilter::HasDueDate,
        TodoFilter::HasDueDate => TodoFilter::All,
    }
}

impl TodoFilter {
    /// The next filter in the fixed cycling order.
    pub fn next(self) -> (r: TodoFilter)
        ensures
            r == spec_next_filter(self),
    {
        match self {
            TodoFilter::All => TodoFilter::Pending,
            TodoFilter::Pending => TodoFilter::Completed,
            TodoFilter::Completed => TodoFilter::HighPriority,
            TodoFilter::HighPriority => TodoFilter::MediumPriority,
            TodoFilter::MediumPriority => TodoFilter::LowPriority,
            TodoFilter::LowPriority => TodoFilter::NoPriority,
            TodoFilter::NoPriority => TodoFilter::Overdue,
            TodoFilter::Overdue => TodoFilter::DueToday,
            TodoFilter::DueToday => TodoFilter::DueSoon,
            TodoFilter::DueSoon => TodoFilter::HasDueDate,
            TodoFilter::HasDueDate => TodoFilter::All,
        }
    }

    /// The human-readable name shown for this filter.
    pub open spec fn spec_name(self) -> Seq<char> {
        match self {
            TodoFilter::All => "All Tasks"@,
            TodoFilter::Completed => "Completed"@,
            TodoFilter::Pending => "Pending"@,
            TodoFilter::HighPriority => "High Priority (4-5)"@,
            TodoFilter::MediumPriority => "Medium Priority (2-3)"@,
            TodoFilter::LowPriority => "Low Priority (1)"@,
            TodoFilter::NoPriority => "No Priority"@,
            TodoFilter::Overdue => "Overdue"@,
            TodoFilter::DueToday => "Due Today"@,
            TodoFilter::DueSoon => "Due Soon (24h)"@,
            TodoFilter::HasDueDate => "Has Due Date"@,
        }
    }

    /// The filter's display name.
    pub fn name(&self) -> (r: String)
        ensures
            r@ == self.spec_name(),
    {
        let s: &str = match self {
            TodoFilter::All => "All Tasks",
            TodoFilter::Completed => "Completed",
            TodoFilter::Pending => "Pending",
            TodoFilter::HighPriority => "High Priority (4-5)",
            TodoFilter::MediumPriority => "Medium Priority (2-3)",
            TodoFilter::LowPriority => "Low Priority (1)",
            TodoFilter::NoPriority => "No Priority",
            TodoFilter::Overdue => "Overdue",
            TodoFilter::DueToday => "Due Today",
            TodoFilter::DueSoon => "Due Soon (24h)",
            TodoFilter::HasDueDate => "Has Due Date",
        };
        String::from_str(s)
    }
}

impl TodoList {
    /// The store indices of the tasks a filter shows at time `now`, in
    /// store order.
    pub fn visible_indices(&self, f: TodoFilter, now: i64) -> (r: Vec<usize>)
        ensures
            r@.map_values(|u: usize| u as int) == spec_visible(self.todos@, f, now),
            forall|k: int| 0 <= k < r@.len() ==> (#[trigger] r@[k]) < self.todos@.len(),
    {
        let n = self.todos.len();
        let mut r: Vec<usize> = Vec::new();
        let mut k: usize = 0;
        proof {
            assert(self.todos@.subrange(0, 0) =~= Seq::<Todo>::empty());
            assert(r@.map_values(|u: usize| u as int) =~= spec_visible(
                self.todos@.subrange(0, 0),
                f,
                now,
            ));
        }
        while k < n
            invariant
                0 <= k <= n,
                n == self.todos@.len(),
                r@.map_values(|u: usize| u as int) == spec_visible(
                    self.todos@.subrange(0, k as int),
                    f,
                    now,
                ),
                forall|j: int| 0 <= j < r@.len() ==> (#[trigger] r@[j]) < k,
            decreases n - k,
        {
            let ghost pre = r@;
            let ghost prefix = self.todos@.subrange(0, k as int);
            let ghost prefix2 = self.todos@.subrange(0, k + 1 as int);
            if matches_filter(&self.todos[k], f, now) {
                r.push(k);
            }
            proof {
                assert(prefix2.drop_last() =~= prefix);
                assert(prefix2.last() == self.todos@[k as int]);
                if spec_matches(self.todos@[k as int], f, now) {
                    assert(r@.map_values(|u: usize| u as int) =~= spec_visible(
                        prefix,
                        f,
                        now,
                    ).push(k as int));
                } else {
                    assert(r@.map_values(|u: usize| u as int) == spec_visible(prefix, f, now));
                }
            }
            k += 1;
        }
        proof {
            assert(self.todos@.subrange(0, n as int) =~= self.todos@);
        }
        r
    }

    /// The visible tasks themselves, in view order, judged at time `now`.
    pub fn filter_todos(&self, f: TodoFilter, now: i64) -> (r: Vec<Todo>)
        ensures
            r@ == spec_filter_todos(self.todos@, f, now),
    {
        let idxs = self.visible_indices(f, now);
        let mut r: Vec<Todo> = Vec::new();
        let mut k: usize = 0;
        let ghost vis = spec_visible(self.todos@, f, now);
        proof {
            assert(r@ =~= vis.subrange(0, 0).map_values(|i: int| self.todos@[i]));
        }
        while k < idxs.len()
            invariant
                0 <= k <= idxs@.len(),
                idxs@.map_values(|u: usize| u as int) == vis,
                forall|j: int| 0 <= j < idxs@.len() ==> (#[trigger] idxs@[j]) < self.todos@.len(),
                r@ == vis.subrange(0, k as int).map_values(|i: int| self.todos@[i]),
            decreases idxs@.len() - k,
        {
            let idx = idxs[k];
            let t = &self.todos[idx];
            let dup = Todo {
                id: t.id,
                description: t.description.clone(),
                details: match &t.details {
                    Some(d) => Some(d.clone()),
                    None => None,
                },
                completed: t.completed,
                created_at: t.created_at,
                completed_at: t.completed_at,
                due_date: t.due_date,
                priority: t.priority,
            };
            proof {
                assert(dup == self.todos@[idx as int]);
            }
            r.push(dup);
            proof {
                assert(vis[k as int] == idx as int);
                assert(vis.subrange(0, k + 1 as int).map_values(|i: int| self.todos@[i]) =~= vis
                    .subrange(0, k as int).map_values(|i: int| self.todos@[i]).push(
                    self.todos@[idx as int],
                ));
            }
            k += 1;
        }
        proof {
            assert(vis.subrange(0, vis.len() as int) =~= vis);
        }
        r
    }
}

} // verus!
