//! The modal input controller and session state: the current mode, the text
//! buffer with its cursor, the selection into the filtered view, and the
//! transitions a key event causes. The surrounding application polls the
//! terminal, hands each key and the clock reading to `handle_key`, persists
//! the store whenever that returns true, and draws the planned screen.

use vstd::prelude::*;
use crate::task::Todo;
use crate::store::TodoList;
use crate::filter::{TodoFilter, spec_visible, spec_matches, matches_filter, spec_next_filter};
use crate::text::{
    trimmed, trim_chars, lower_seq, to_lower_chars, is_blank, chars_to_string, string_to_chars,
    append_chars, append_str, append_u32, dec_str, is_digit, digit_val, is_digit_char,
    digit_value,
};

verus! {

/// The controller's mode: exactly one is active, and it decides which keys
/// are legal and what the text buffer stands for.
#[derive(Debug, Clone, Copy, PartialEq, Eq, Structural)]
pub enum InputMode {
    /// Browsing: navigation, mode entry, filters, and quitting.
    Normal,
    /// Composing a new task in the text buffer.
    Insert,
    /// Editing the selected task's title.
    Editing,
    /// Editing the selected task's details.
    EditingDetails,
    /// Editing the selected task's due date.
    EditingDueDate,
    /// Choosing a priority with a single keystroke.
    SettingPriority,
}

/// A key event, as the surrounding application reports it.
#[derive(Debug, Clone, Copy, PartialEq, Eq, Structural)]
pub enum Key {
    /// A printable character, with no control modifier.
    Char(char),
    /// The enter key.
    Enter,
    /// The escape key.
    Esc,
    /// The backspace key.
    Backspace,
    /// The left arrow.
    Left,
    /// The right arrow.
    Right,
    /// The up arrow.
    Up,
    /// The down arrow.
    Down,
    /// Control-C.
    CtrlC,
    /// Any other key; every mode ignores it or reports it as invalid.
    Other,
}

/// The session state of one interactive sitting.
pub struct App {
    /// The task store.
    pub todos: TodoList,
    /// The active mode.
    pub input_mode: InputMode,
    /// The text buffer of the active mode, one character per cell.
    pub input: Vec<char>,
    /// The cursor offset into `input`; never beyond its end.
    pub cursor_position: usize,
    /// The selection: an index into the current filtered view.
    pub selected_index: Option<usize>,
    /// The active filter.
    pub filter: TodoFilter,
    /// The transient status line.
    pub status_message: Option<String>,
    /// Set when the session should end.
    pub should_quit: bool,
    /// Whether the help overlay is shown.
    pub show_help: bool,
    /// Whether task details are shown in the list.
    pub show_details: bool,
}

/// The position of the last `:` in `s`, if any.
pub open spec fn last_colon(s: Seq<char>) -> Option<int>
    decreases s.len(),
{
    if s.len() == 0 {
        None
    } else if s.last() == ':' {
        Some(s.len() - 1)
    } else {
        last_colon(s.drop_last())
    }
}

proof fn lemma_last_colon(s: Seq<char>)
    ensures
        match last_colon(s) {
            None => forall|k: int| 0 <= k < s.len() ==> s[k] != ':',
            Some(j) => 0 <= j < s.len() && s[j] == ':' && (forall|k: int|
                j < k < s.len() ==> s[k] != ':'),
        },
    decreases s.len(),
{
    if s.len() > 0 && s.last() != ':' {
        lemma_last_colon(s.drop_last());
        assert(forall|k: int| 0 <= k < s.len() - 1 ==> s[k] == s.drop_last()[k]);
    }
}

/// Whether every character of `s` is a decimal digit.
pub open spec fn all_digits(s: Seq<char>) -> bool {
    forall|i: int| 0 <= i < s.len() ==> is_digit(#[trigger] s[i])
}

/// The number a digit string denotes, most significant digit first.
pub open spec fn digits_value(s: Seq<char>) -> int
    decreases s.len(),
{
    if s.len() == 0 {
        0
    } else {
        digits_value(s.drop_last()) * 10 + digit_val(s.last())
    }
}

/// The priority a trailing `:N` shorthand carries: the text after the last
/// `:`, trimmed, must be digits denoting a value in the band.
pub open spec fn suffix_priority(s: Seq<char>, pos: int) -> Option<u8> {
    let suf = trimmed(s.subrange(pos + 1, s.len() as int));
    if suf.len() > 0 && all_digits(suf) && 1 <= digits_value(suf) <= 5 {
        Some(digits_value(suf) as u8)
    } else {
        None
    }
}

/// What committing a composed line stores: with a valid `:N` suffix, the
/// trimmed text before the colon and that priority; otherwise the line as
/// typed, with no priority.
pub open spec fn spec_compose_parse(s: Seq<char>) -> (Seq<char>, Option<u8>) {
    match last_colon(s) {
        None => (s, None),
        Some(pos) => match suffix_priority(s, pos) {
            Some(p) => (trimmed(s.subrange(0, pos)), Some(p)),
            None => (s, None),
        },
    }
}

/// Splits a composed line into the description to store and the priority
/// its `:N` suffix carries, if a valid one is there.
pub fn parse_compose_input(v: &Vec<char>) -> (r: (Vec<char>, Option<u8>))
    ensures
        r.0@ == spec_compose_parse(v@).0,
        r.1 == spec_compose_parse(v@).1,
        match r.1 {
            Some(p) => 1 <= p <= 5,
            None => true,
        },
{
    proof {
        lemma_last_colon(v@);
    }
    let n = v.len();
    let mut k: usize = n;
    let mut colon: Option<usize> = None;
    while k > 0 && colon.is_none()
        invariant
            0 <= k <= n,
            n == v@.len(),
            match colon {
                None => forall|j: int| k <= j < n ==> v@[j] != ':',
                Some(p) => p < n && v@[p as int] == ':' && (forall|j: int|
                    p < j < n ==> v@[j] != ':'),
            },
        decreases k, (if colon is None { 1int } else { 0int }),
    {
        if v[k - 1] == ':' {
            colon = Some(k - 1);
        } else {
            k -= 1;
        }
    }
    let pos: usize = match colon {
        None => {
            proof {
                assert(last_colon(v@) is None);
            }
            let copy = duplicate_chars(v);
            return (copy, None);
        },
        Some(p) => p,
    };
    proof {
        assert(v@[pos as int] == ':');
        assert(last_colon(v@) matches Some(j) && j == pos as int) by {
            match last_colon(v@) {
                None => {
                    assert(v@[pos as int] != ':');
                },
                Some(j) => {
                    if j < pos {
                        assert(v@[pos as int] != ':');
                    } else if j > pos {
                        assert(v@[j] != ':');
                    }
                },
            }
        }
    }
    let mut suf: Vec<char> = Vec::new();
    let mut k2: usize = pos + 1;
    while k2 < n
        invariant
            pos < k2 <= n,
            n == v@.len(),
            suf@ == v@.subrange(pos + 1, k2 as int),
        decreases n - k2,
    {
        suf.push(v[k2]);
        proof {
            assert(v@.subrange(pos + 1, k2 + 1 as int) =~= v@.subrange(pos + 1, k2 as int).push(
                v@[k2 as int],
            ));
        }
        k2 += 1;
    }
    let suf_trimmed = trim_chars(&suf);
    let ghost sufseq = trimmed(v@.subrange(pos + 1, n as int));
    let m = suf_trimmed.len();
    if m == 0 {
        let copy = duplicate_chars(v);
        return (copy, None);
    }
    let mut value: u64 = 0;
    let mut j: usize = 0;
    let mut ok = true;
    while j < m
        invariant
            0 <= j <= m,
            m == sufseq.len(),
            suf_trimmed@ == sufseq,
            ok == all_digits(sufseq.subrange(0, j as int)),
            ok ==> value == (if digits_value(sufseq.subrange(0, j as int)) < 6 {
                digits_value(sufseq.subrange(0, j as int))
            } else {
                6int
            }),
        decreases m - j,
    {
        let c = suf_trimmed[j];
        let ghost pre = sufseq.subrange(0, j as int);
        let ghost cur = sufseq.subrange(0, j + 1 as int);
        proof {
            assert(cur.drop_last() =~= pre);
            assert(cur.last() == sufseq[j as int]);
            assert(forall|i: int| 0 <= i < cur.len() ==> cur[i] == sufseq[i]);
        }
        if !is_digit_char(c) {
            ok = false;
        } else if ok {
            let d = digit_value(c) as u64;
            value = value * 10 + d;
            if value > 6 {
                value = 6;
            }
        }
        j += 1;
    }
    proof {
        assert(sufseq.subrange(0, m as int) =~= sufseq);
    }
    if ok && 1 <= value && value <= 5 {
        let mut prefix: Vec<char> = Vec::new();
        let mut k3: usize = 0;
        while k3 < pos
            invariant
                0 <= k3 <= pos < n,
                n == v@.len(),
                prefix@ == v@.subrange(0, k3 as int),
            decreases pos - k3,
        {
            prefix.push(v[k3]);
            proof {
                assert(v@.subrange(0, k3 + 1 as int) =~= v@.subrange(0, k3 as int).push(
                    v@[k3 as int],
                ));
            }
            k3 += 1;
        }
        let desc = trim_chars(&prefix);
        (desc, Some(value as u8))
    } else {
        let copy = duplicate_chars(v);
        (copy, None)
    }
}

/// Copies a character buffer.
pub fn duplicate_chars(v: &Vec<char>) -> (r: Vec<char>)
    ensures
        r@ == v@,
{
    let mut r: Vec<char> = Vec::new();
    let mut k: usize = 0;
    while k < v.len()
        invariant
            0 <= k <= v.len(),
            r@ == v@.subrange(0, k as int),
        decreases v.len() - k,
    {
        r.push(v[k]);
        proof {
            assert(v@.subrange(0, k + 1 as int) =~= v@.subrange(0, k as int).push(v@[k as int]));
        }
        k += 1;
    }
    proof {
        assert(v@.subrange(0, v@.len() as int) == v@);
    }
    r
}

/// The selection a reconciliation yields against a view of `n` entries:
/// absent exactly on an empty view, fresh at the top when nothing was
/// selected, and clamped to the last entry otherwise.
pub open spec fn reconciled(sel: Option<usize>, n: int) -> Option<usize> {
    if n == 0 {
        None
    } else {
        match sel {
            None => Some(0usize),
            Some(i) => if i < n {
                Some(i)
            } else {
                Some((n - 1) as usize)
            },
        }
    }
}

impl App {
    /// The structural invariant: a well-formed store and a cursor inside
    /// the buffer.
    pub open spec fn wf(self) -> bool {
        &&& self.todos.wf()
        &&& self.cursor_position <= self.input@.len()
    }

    /// The current visible view, judged at time `now`.
    pub open spec fn view_at(self, now: i64) -> Seq<int> {
        spec_visible(self.todos.todos@, self.filter, now)
    }

    /// The selection invariant at time `now`: absent exactly when the view
    /// is empty, otherwise strictly inside it.
    pub open spec fn selection_ok(self, now: i64) -> bool {
        match self.selected_index {
            None => self.view_at(now).len() == 0,
            Some(i) => i < self.view_at(now).len(),
        }
    }

    /// Everything except the selection, unchanged.
    pub open spec fn same_but_selection(pre: App, post: App) -> bool {
        &&& post.todos == pre.todos
        &&& post.input_mode == pre.input_mode
        &&& post.input == pre.input
        &&& post.cursor_position == pre.cursor_position
        &&& post.filter == pre.filter
        &&& post.status_message == pre.status_message
        &&& post.should_quit == pre.should_quit
        &&& post.show_help == pre.show_help
        &&& post.show_details == pre.show_details
    }

    /// Builds the session state over a loaded store: browsing mode, empty
    /// buffer, the all-pass filter, the welcome message, and the first
    /// visible task selected when there is one.
    pub fn new(todos: TodoList, now: i64) -> (r: App)
        requires
            todos.wf(),
        ensures
            r.wf(),
            r.selection_ok(now),
            r.todos == todos,
            r.input_mode == InputMode::Normal,
            r.input@.len() == 0,
            r.cursor_position == 0,
            r.filter == TodoFilter::All,
            r.selected_index == reconciled(None, spec_visible(todos.todos@, TodoFilter::All, now).len() as int),
            r.status_message matches Some(m) && m@ == "Welcome! Press 'h' for help"@,
            !r.should_quit,
            !r.show_help,
            !r.show_details,
    {
        let mut app = App {
            todos,
            input_mode: InputMode::Normal,
            input: Vec::new(),
            cursor_position: 0,
            selected_index: None,
            filter: TodoFilter::All,
            status_message: Some(String::from_str("Welcome! Press 'h' for help")),
            should_quit: false,
            show_help: false,
            show_details: false,
        };
        app.reconcile_selection(now);
        app
    }

    /// The store index the selection stands for at time `now`, when it maps
    /// into the current view; the single seam where view order and store
    /// order meet.
    pub open spec fn spec_selected_store_index(self, now: i64) -> Option<int> {
        match self.selected_index {
            None => None,
            Some(i) => if i < self.view_at(now).len() {
                Some(self.view_at(now)[i as int])
            } else {
                None
            },
        }
    }

    /// Translates the selection into a store index at time `now`.
    pub fn selected_store_index(&self, now: i64) -> (r: Option<usize>)
        ensures
            r matches Some(i) ==> Some(i as int) == self.spec_selected_store_index(now) && i
                < self.todos.todos@.len(),
            r is None <==> self.spec_selected_store_index(now) is None,
    {
        match self.selected_index {
            None => None,
            Some(i) => {
                let view = self.todos.visible_indices(self.filter, now);
                if i < view.len() {
                    proof {
                        assert(view@.map_values(|u: usize| u as int)[i as int] == self.view_at(
                            now,
                        )[i as int]);
                    }
                    Some(view[i])
                } else {
                    None
                }
            },
        }
    }

    /// Reconciles the selection with the current view: clears it on an
    /// empty view, starts it at the top when absent, clamps it to the last
    /// entry otherwise. Nothing else changes.
    pub fn reconcile_selection(&mut self, now: i64)
        ensures
            App::same_but_selection(*old(self), *final(self)),
            final(self).selected_index == reconciled(
                old(self).selected_index,
                old(self).view_at(now).len() as int,
            ),
            final(self).selection_ok(now),
            old(self).wf() ==> final(self).wf(),
    {
        let view = self.todos.visible_indices(self.filter, now);
        let n = view.len();
        proof {
            assert(view@.map_values(|u: usize| u as int).len() == self.view_at(now).len());
        }
        if n == 0 {
            self.selected_index = None;
        } else {
            match self.selected_index {
                None => {
                    self.selected_index = Some(0);
                },
                Some(i) => {
                    if i >= n {
                        self.selected_index = Some(n - 1);
                    }
                },
            }
        }
    }

    /// The selection after a clamped move by `delta` over a view of `n`
    /// entries: never wrapping, never leaving `[0, n-1]`, starting at the
    /// top when nothing was selected.
    pub open spec fn moved_selection(sel: Option<usize>, n: int, delta: i64) -> Option<usize> {
        if n == 0 {
            None
        } else {
            match sel {
                None => Some(0usize),
                Some(i) => {
                    let base = if i < n {
                        i as int
                    } else {
                        n - 1
                    };
                    let target = base + delta;
                    if target < 0 {
                        Some(0usize)
                    } else if target >= n {
                        Some((n - 1) as usize)
                    } else {
                        Some(target as usize)
                    }
                },
            }
        }
    }

    /// Moves the selection by `delta`, clamped to the view; nothing else
    /// changes.
    pub fn move_selection(&mut self, delta: i64, now: i64)
        requires
            -1000000 <= delta <= 1000000,
        ensures
            App::same_but_selection(*old(self), *final(self)),
            final(self).selected_index == App::moved_selection(
                old(self).selected_index,
                old(self).view_at(now).len() as int,
                delta,
            ),
            final(self).selection_ok(now),
            old(self).wf() ==> final(self).wf(),
    {
        let view = self.todos.visible_indices(self.filter, now);
        let n = view.len();
        proof {
            assert(view@.map_values(|u: usize| u as int).len() == self.view_at(now).len());
        }
        if n == 0 {
            self.selected_index = None;
            return;
        }
        match self.selected_index {
            None => {
                self.selected_index = Some(0);
            },
            Some(i) => {
                let base: usize = if i < n {
                    i
                } else {
                    n - 1
                };
                let chosen: usize = if delta < 0 {
                    let step = (-delta) as usize;
                    if base >= step {
                        base - step
                    } else {
                        0
                    }
                } else {
                    let step = delta as usize;
                    if step >= n - base {
                        n - 1
                    } else {
                        base + step
                    }
                };
                self.selected_index = Some(chosen);
            },
        }
    }

    /// Moves the selection to the first visible task; on an empty view the
    /// selection clears. Nothing else changes.
    pub fn move_to_top(&mut self, now: i64)
        ensures
            App::same_but_selection(*old(self), *final(self)),
            final(self).selected_index == (if old(self).view_at(now).len() == 0 {
                None
            } else {
                Some(0usize)
            }),
            final(self).selection_ok(now),
            old(self).wf() ==> final(self).wf(),
    {
        let view = self.todos.visible_indices(self.filter, now);
        proof {
            assert(view@.map_values(|u: usize| u as int).len() == self.view_at(now).len());
        }
        if view.len() == 0 {
            self.selected_index = None;
        } else {
            self.selected_index = Some(0);
        }
    }

    /// The status line reading `s`.
    pub open spec fn status_is(self, s: Seq<char>) -> bool {
        match self.status_message {
            Some(m) => m@ == s,
            None => false,
        }
    }

    /// The fields a store mutation never touches, unchanged.
    pub open spec fn same_shell(pre: App, post: App) -> bool {
        &&& post.input_mode == pre.input_mode
        &&& post.input == pre.input
        &&& post.cursor_position == pre.cursor_position
        &&& post.filter == pre.filter
        &&& post.should_quit == pre.should_quit
        &&& post.show_help == pre.show_help
        &&& post.show_details == pre.show_details
    }

    /// What toggling completion does: with no selected task, only the
    /// selection is reconciled; with one, its completion pair flips as a
    /// unit, the store is to be persisted, and the selection is reconciled
    /// against the new view.
    pub open spec fn toggle_post(pre: App, post: App, now: i64, saved: bool) -> bool {
        &&& App::same_shell(pre, post)
        &&& post.selected_index == reconciled(pre.selected_index, post.view_at(now).len() as int)
        &&& match pre.spec_selected_store_index(now) {
            None => {
                &&& !saved
                &&& post.todos == pre.todos
                &&& post.status_message == pre.status_message
            },
            Some(i) => {
                &&& saved
                &&& post.todos.next_id == pre.todos.next_id
                &&& post.todos.todos@ == pre.todos.todos@.update(
                    i,
                    if pre.todos.todos@[i].completed {
                        TodoList::with_pending(pre.todos.todos@[i])
                    } else {
                        TodoList::with_completed(pre.todos.todos@[i], now)
                    },
                )
                &&& if pre.todos.todos@[i].completed {
                    post.status_is("Todo marked as pending"@)
                } else {
                    post.status_is("Todo completed!"@)
                }
            },
        }
    }

    /// Toggles the selected task's completion at time `now`; returns
    /// whether the store changed and must be persisted.
    pub fn toggle_complete(&mut self, now: i64) -> (saved: bool)
        requires
            old(self).wf(),
        ensures
            final(self).wf(),
            final(self).selection_ok(now),
            App::toggle_post(*old(self), *final(self), now, saved),
    {
        let saved: bool = match self.selected_store_index(now) {
            None => false,
            Some(i) => {
                if self.todos.todos[i].completed {
                    self.todos.set_pending(i);
                    self.status_message = Some(String::from_str("Todo marked as pending"));
                } else {
                    self.todos.set_completed_at(i, now);
                    self.status_message = Some(String::from_str("Todo completed!"));
                }
                true
            },
        };
        self.reconcile_selection(now);
        saved
    }

    /// What deleting the selected task does: with no selected task nothing
    /// changes but the reconciled selection; with one, that store entry
    /// goes, the deletion is announced, the store is to be persisted, and
    /// the selection is reconciled — the next task keeps the index, the
    /// last visible entry falls back one, an emptied view clears it.
    pub open spec fn delete_post(pre: App, post: App, now: i64, saved: bool) -> bool {
        &&& App::same_shell(pre, post)
        &&& post.selected_index == reconciled(pre.selected_index, post.view_at(now).len() as int)
        &&& match pre.spec_selected_store_index(now) {
            None => {
                &&& !saved
                &&& post.todos == pre.todos
                &&& post.status_message == pre.status_message
            },
            Some(i) => {
                &&& saved
                &&& post.todos.next_id == pre.todos.next_id
                &&& post.todos.todos@ == pre.todos.todos@.remove(i)
                &&& post.status_is("Deleted: "@ + pre.todos.todos@[i].description@)
            },
        }
    }

    /// Deletes the selected task at time `now`; returns whether the store
    /// changed and must be persisted.
    pub fn delete_selected(&mut self, now: i64) -> (saved: bool)
        requires
            old(self).wf(),
        ensures
            final(self).wf(),
            final(self).selection_ok(now),
            App::delete_post(*old(self), *final(self), now, saved),
    {
        let saved: bool = match self.selected_store_index(now) {
            None => false,
            Some(i) => {
                let id = self.todos.todos[i].id;
                let mut msg = string_to_chars("Deleted: ");
                let desc = string_to_chars(self.todos.todos[i].description.as_str());
                append_chars(&mut msg, &desc);
                proof {
                    assert forall|j: int|
                        0 <= j < self.todos.todos@.len() && (#[trigger] self.todos.todos@[j]).id
                            == id implies j == i as int by {
                        if j < i as int {
                            assert(self.todos.todos@[j].id < self.todos.todos@[i as int].id);
                        } else if j > i as int {
                            assert(self.todos.todos@[i as int].id < self.todos.todos@[j].id);
                        }
                    }
                }
                let removed = self.todos.remove_todo(id);
                proof {
                    assert(removed);
                    let j = choose|j: int|
                        0 <= j < old(self).todos.todos@.len() && (
                        #[trigger] old(self).todos.todos@[j]).id == id && self.todos.todos@ == old(
                            self,
                        ).todos.todos@.remove(j);
                    assert(j == i as int);
                }
                self.status_message = Some(chars_to_string(&msg));
                true
            },
        };
        self.reconcile_selection(now);
        saved
    }

    /// What entering compose mode does: an empty buffer, the cursor at its
    /// start, and the prompt in the status line.
    pub open spec fn begin_insert_post(pre: App, post: App) -> bool {
        &&& post.todos == pre.todos
        &&& post.input_mode == InputMode::Insert
        &&& post.input@.len() == 0
        &&& post.cursor_position == 0
        &&& post.selected_index == pre.selected_index
        &&& post.filter == pre.filter
        &&& post.status_is("Enter todo description"@)
        &&& post.should_quit == pre.should_quit
        &&& post.show_help == pre.show_help
        &&& post.show_details == pre.show_details
    }

    /// Enters compose mode with a cleared buffer.
    pub fn enter_insert_mode(&mut self)
        requires
            old(self).wf(),
        ensures
            final(self).wf(),
            App::begin_insert_post(*old(self), *final(self)),
    {
        self.input_mode = InputMode::Insert;
        self.input = Vec::new();
        self.cursor_position = 0;
        self.status_message = Some(String::from_str("Enter todo description"));
    }

    /// The fields every buffer-mode entry leaves alone.
    pub open spec fn same_but_entry(pre: App, post: App) -> bool {
        &&& post.todos == pre.todos
        &&& post.selected_index == pre.selected_index
        &&& post.filter == pre.filter
        &&& post.should_quit == pre.should_quit
        &&& post.show_help == pre.show_help
        &&& post.show_details == pre.show_details
    }

    /// What starting a title edit does: with a selected task, its
    /// description fills the buffer with the cursor at its end; with none,
    /// nothing happens.
    pub open spec fn begin_edit_post(pre: App, post: App, now: i64) -> bool {
        &&& App::same_but_entry(pre, post)
        &&& match pre.spec_selected_store_index(now) {
            None => post == pre,
            Some(i) => {
                &&& post.input_mode == InputMode::Editing
                &&& post.input@ == pre.todos.todos@[i].description@
                &&& post.cursor_position == post.input@.len()
                &&& post.status_is("Editing todo title"@)
            },
        }
    }

    /// Starts editing the selected task's title: the buffer holds the
    /// current description.
    pub fn start_editing(&mut self, now: i64) -> (saved: bool)
        requires
            old(self).wf(),
        ensures
            final(self).wf(),
            App::begin_edit_post(*old(self), *final(self), now),
            !saved,
    {
        match self.selected_store_index(now) {
            None => {},
            Some(i) => {
                self.input = string_to_chars(self.todos.todos[i].description.as_str());
                self.cursor_position = self.input.len();
                self.input_mode = InputMode::Editing;
                self.status_message = Some(String::from_str("Editing todo title"));
            },
        }
        false
    }

    /// What starting a details edit does: with a selected task, its details
    /// (or nothing) fill the buffer with the cursor at the end; with none,
    /// only the status line reports it.
    pub open spec fn begin_details_post(pre: App, post: App, now: i64) -> bool {
        &&& App::same_but_entry(pre, post)
        &&& match pre.spec_selected_store_index(now) {
            None => {
                &&& post.input_mode == pre.input_mode
                &&& post.input == pre.input
                &&& post.cursor_position == pre.cursor_position
                &&& post.status_is("No todo selected"@)
            },
            Some(i) => {
                &&& post.input_mode == InputMode::EditingDetails
                &&& post.input@ == match pre.todos.todos@[i].details {
                    Some(d) => d@,
                    None => Seq::<char>::empty(),
                }
                &&& post.cursor_position == post.input@.len()
                &&& post.status_is("Editing details (Enter to save, empty to clear)"@)
            },
        }
    }

    /// Starts editing the selected task's details: the buffer holds the
    /// current details, empty when there are none.
    pub fn start_editing_details(&mut self, now: i64) -> (saved: bool)
        requires
            old(self).wf(),
        ensures
            final(self).wf(),
            App::begin_details_post(*old(self), *final(self), now),
            !saved,
    {
        match self.selected_store_index(now) {
            None => {
                self.status_message = Some(String::from_str("No todo selected"));
            },
            Some(i) => {
                self.input = match &self.todos.todos[i].details {
                    Some(d) => string_to_chars(d.as_str()),
                    None => Vec::new(),
                };
                self.cursor_position = self.input.len();
                self.input_mode = InputMode::EditingDetails;
                self.status_message = Some(
                    String::from_str("Editing details (Enter to save, empty to clear)"),
                );
            },
        }
        false
    }

    /// What starting a due-date edit does: with a selected task, its due
    /// date in calendar form (or nothing) fills the buffer; with none, only
    /// the status line reports it.
    pub open spec fn begin_due_post(pre: App, post: App, now: i64) -> bool {
        &&& App::same_but_entry(pre, post)
        &&& match pre.spec_selected_store_index(now) {
            None => {
                &&& post.input_mode == pre.input_mode
                &&& post.input == pre.input
                &&& post.cursor_position == pre.cursor_position
                &&& post.status_is("No todo selected"@)
            },
            Some(i) => {
                &&& post.input_mode == InputMode::EditingDueDate
                &&& post.input@ == match pre.todos.todos@[i].due_date {
                    Some(due) => crate::date::spec_format_date(due as int),
                    None => Seq::<char>::empty(),
                }
                &&& post.cursor_position == post.input@.len()
                &&& post.status_is("Enter due date (today, tomorrow, YYYY-MM-DD, or empty to clear)"@)
            },
        }
    }

    /// Starts editing the selected task's due date: the buffer holds the
    /// current date in `YYYY-MM-DD` form, empty when there is none.
    pub fn prompt_due_date(&mut self, now: i64) -> (saved: bool)
        requires
            old(self).wf(),
        ensures
            final(self).wf(),
            App::begin_due_post(*old(self), *final(self), now),
            !saved,
    {
        match self.selected_store_index(now) {
            None => {
                self.status_message = Some(String::from_str("No todo selected"));
            },
            Some(i) => {
                self.input = match self.todos.todos[i].due_date {
                    Some(due) => crate::date::format_date(due),
                    None => Vec::new(),
                };
                self.cursor_position = self.input.len();
                self.input_mode = InputMode::EditingDueDate;
                self.status_message = Some(
                    String::from_str("Enter due date (today, tomorrow, YYYY-MM-DD, or empty to clear)"),
                );
            },
        }
        false
    }

    /// What opening the priority prompt does: with a selection it arms the
    /// single-keystroke mode; with none, only the status line reports it.
    pub open spec fn begin_priority_post(pre: App, post: App) -> bool {
        &&& App::same_but_entry(pre, post)
        &&& post.input == pre.input
        &&& post.cursor_position == pre.cursor_position
        &&& if pre.selected_index is Some {
            &&& post.input_mode == InputMode::SettingPriority
            &&& post.status_is("Enter priority (1-5) or 0 to clear"@)
        } else {
            &&& post.input_mode == pre.input_mode
            &&& post.status_is("No todo selected"@)
        }
    }

    /// Opens the single-keystroke priority prompt for the selected task.
    pub fn prompt_priority(&mut self) -> (saved: bool)
        requires
            old(self).wf(),
        ensures
            final(self).wf(),
            App::begin_priority_post(*old(self), *final(self)),
            !saved,
    {
        if self.selected_index.is_some() {
            self.input_mode = InputMode::SettingPriority;
            self.status_message = Some(String::from_str("Enter priority (1-5) or 0 to clear"));
        } else {
            self.status_message = Some(String::from_str("No todo selected"));
        }
        false
    }

    /// What announcing and applying a filter does: the filter is set, named
    /// in the status line, and the selection reconciled with the new view.
    pub open spec fn set_filter_post(pre: App, post: App, f: TodoFilter, now: i64) -> bool {
        &&& post.todos == pre.todos
        &&& post.input_mode == pre.input_mode
        &&& post.input == pre.input
        &&& post.cursor_position == pre.cursor_position
        &&& post.filter == f
        &&& post.selected_index == reconciled(pre.selected_index, post.view_at(now).len() as int)
        &&& post.status_is("Filter: "@ + f.spec_name())
        &&& post.should_quit == pre.should_quit
        &&& post.show_help == pre.show_help
        &&& post.show_details == pre.show_details
    }

    /// Applies a filter, announces it, and reconciles the selection.
    pub fn set_filter(&mut self, f: TodoFilter, now: i64)
        requires
            old(self).wf(),
        ensures
            final(self).wf(),
            final(self).selection_ok(now),
            App::set_filter_post(*old(self), *final(self), f, now),
    {
        self.filter = f;
        let mut msg = string_to_chars("Filter: ");
        let name = f.name();
        append_str(&mut msg, name.as_str());
        self.status_message = Some(chars_to_string(&msg));
        self.reconcile_selection(now);
    }

    /// Steps to the next filter in the fixed cycling order, announces it,
    /// and reconciles the selection.
    pub fn cycle_filter(&mut self, now: i64)
        requires
            old(self).wf(),
        ensures
            final(self).wf(),
            final(self).selection_ok(now),
            App::set_filter_post(
                *old(self),
                *final(self),
                spec_next_filter(old(self).filter),
                now,
            ),
    {
        let f = self.filter.next();
        self.set_filter(f, now);
    }

    /// Moves the selection to the last visible task; on an empty view the
    /// selection clears. Nothing else changes.
    pub fn move_to_bottom(&mut self, now: i64)
        ensures
            App::same_but_selection(*old(self), *final(self)),
            final(self).selected_index == (if old(self).view_at(now).len() == 0 {
                None
            } else {
                Some((old(self).view_at(now).len() - 1) as usize)
            }),
            final(self).selection_ok(now),
            old(self).wf() ==> final(self).wf(),
    {
        let view = self.todos.visible_indices(self.filter, now);
        proof {
            assert(view@.map_values(|u: usize| u as int).len() == self.view_at(now).len());
        }
        if view.len() == 0 {
            self.selected_index = None;
        } else {
            self.selected_index = Some(view.len() - 1);
        }
    }

    /// Everything except the status line, unchanged.
    pub open spec fn same_but_status(pre: App, post: App) -> bool {
        &&& post.todos == pre.todos
        &&& post.input_mode == pre.input_mode
        &&& post.input == pre.input
        &&& post.cursor_position == pre.cursor_position
        &&& post.selected_index == pre.selected_index
        &&& post.filter == pre.filter
        &&& post.should_quit == pre.should_quit
        &&& post.show_help == pre.show_help
        &&& post.show_details == pre.show_details
    }

    /// What a clamped move leaves behind.
    pub open spec fn moved_post(pre: App, post: App, delta: i64, now: i64) -> bool {
        &&& App::same_but_selection(pre, post)
        &&& post.selected_index == App::moved_selection(
            pre.selected_index,
            pre.view_at(now).len() as int,
            delta,
        )
    }

    /// What a jump to the top leaves behind.
    pub open spec fn top_post(pre: App, post: App, now: i64) -> bool {
        &&& App::same_but_selection(pre, post)
        &&& post.selected_index == (if pre.view_at(now).len() == 0 {
            None
        } else {
            Some(0usize)
        })
    }

    /// What a jump to the bottom leaves behind.
    pub open spec fn bottom_post(pre: App, post: App, now: i64) -> bool {
        &&& App::same_but_selection(pre, post)
        &&& post.selected_index == (if pre.view_at(now).len() == 0 {
            None
        } else {
            Some((pre.view_at(now).len() - 1) as usize)
        })
    }

    /// What toggling the details view does: the flag flips and the status
    /// line says which way.
    pub open spec fn toggle_details_post(pre: App, post: App) -> bool {
        &&& post.todos == pre.todos
        &&& post.input_mode == pre.input_mode
        &&& post.input == pre.input
        &&& post.cursor_position == pre.cursor_position
        &&& post.selected_index == pre.selected_index
        &&& post.filter == pre.filter
        &&& post.should_quit == pre.should_quit
        &&& post.show_help == pre.show_help
        &&& post.show_details == !pre.show_details
        &&& if post.show_details {
            post.status_is("Showing detailed descriptions"@)
        } else {
            post.status_is("Hiding detailed descriptions"@)
        }
    }

    /// What toggling the help overlay does.
    pub open spec fn toggle_help_post(pre: App, post: App) -> bool {
        post == (App { show_help: !pre.show_help, ..pre })
    }

    /// What asking to quit does.
    pub open spec fn quit_post(pre: App, post: App) -> bool {
        post == (App { should_quit: true, ..pre })
    }

    /// What a key does while browsing: navigation, mode entries, filter
    /// changes, the two toggles, quitting; anything else is ignored.
    pub open spec fn normal_post(pre: App, post: App, key: Key, now: i64, saved: bool) -> bool {
        match key {
            Key::Down => App::moved_post(pre, post, 1, now) && !saved,
            Key::Up => App::moved_post(pre, post, -1i64, now) && !saved,
            Key::Enter => App::toggle_post(pre, post, now, saved),
            Key::CtrlC => App::quit_post(pre, post) && !saved,
            Key::Char(c) => if c == 'j' {
                App::moved_post(pre, post, 1, now) && !saved
            } else if c == 'k' {
                App::moved_post(pre, post, -1i64, now) && !saved
            } else if c == 'g' {
                App::top_post(pre, post, now) && !saved
            } else if c == 'G' {
                App::bottom_post(pre, post, now) && !saved
            } else if c == 'i' {
                App::begin_insert_post(pre, post) && !saved
            } else if c == 'd' {
                App::delete_post(pre, post, now, saved)
            } else if c == 'e' {
                App::begin_edit_post(pre, post, now) && !saved
            } else if c == 'D' {
                App::begin_details_post(pre, post, now) && !saved
            } else if c == 'u' {
                App::begin_due_post(pre, post, now) && !saved
            } else if c == 'f' {
                App::set_filter_post(pre, post, spec_next_filter(pre.filter), now) && !saved
            } else if c == '1' {
                App::set_filter_post(pre, post, TodoFilter::All, now) && !saved
            } else if c == '2' {
                App::set_filter_post(pre, post, TodoFilter::Pending, now) && !saved
            } else if c == '3' {
                App::set_filter_post(pre, post, TodoFilter::Completed, now) && !saved
            } else if c == '4' {
                App::set_filter_post(pre, post, TodoFilter::HighPriority, now) && !saved
            } else if c == '5' {
                App::set_filter_post(pre, post, TodoFilter::MediumPriority, now) && !saved
            } else if c == '6' {
                App::set_filter_post(pre, post, TodoFilter::LowPriority, now) && !saved
            } else if c == '7' {
                App::set_filter_post(pre, post, TodoFilter::Overdue, now) && !saved
            } else if c == '8' {
                App::set_filter_post(pre, post, TodoFilter::DueToday, now) && !saved
            } else if c == '9' {
                App::set_filter_post(pre, post, TodoFilter::DueSoon, now) && !saved
            } else if c == '0' {
                App::set_filter_post(pre, post, TodoFilter::HasDueDate, now) && !saved
            } else if c == 'p' {
                App::begin_priority_post(pre, post) && !saved
            } else if c == 'v' {
                App::toggle_details_post(pre, post) && !saved
            } else if c == 'h' || c == '?' {
                App::toggle_help_post(pre, post) && !saved
            } else if c == 'q' {
                App::quit_post(pre, post) && !saved
            } else {
                post == pre && !saved
            },
            _ => post == pre && !saved,
        }
    }

    /// Handles a key while browsing.
    pub fn handle_normal_mode(&mut self, key: Key, now: i64) -> (saved: bool)
        requires
            old(self).wf(),
        ensures
            final(self).wf(),
            App::normal_post(*old(self), *final(self), key, now, saved),
    {
        match key {
            Key::Down => {
                self.move_selection(1, now);
                false
            },
            Key::Up => {
                self.move_selection(-1, now);
                false
            },
            Key::Enter => self.toggle_complete(now),
            Key::CtrlC => {
                self.should_quit = true;
                false
            },
            Key::Char(c) => {
                if c == 'j' {
                    self.move_selection(1, now);
                    false
                } else if c == 'k' {
                    self.move_selection(-1, now);
                    false
                } else if c == 'g' {
                    self.move_to_top(now);
                    false
                } else if c == 'G' {
                    self.move_to_bottom(now);
                    false
                } else if c == 'i' {
                    self.enter_insert_mode();
                    false
                } else if c == 'd' {
                    self.delete_selected(now)
                } else if c == 'e' {
                    self.start_editing(now)
                } else if c == 'D' {
                    self.start_editing_details(now)
                } else if c == 'u' {
                    self.prompt_due_date(now)
                } else if c == 'f' {
                    self.cycle_filter(now);
                    false
                } else if c == '1' {
                    self.set_filter(TodoFilter::All, now);
                    false
                } else if c == '2' {
                    self.set_filter(TodoFilter::Pending, now);
                    false
                } else if c == '3' {
                    self.set_filter(TodoFilter::Completed, now);
                    false
                } else if c == '4' {
                    self.set_filter(TodoFilter::HighPriority, now);
                    false
                } else if c == '5' {
                    self.set_filter(TodoFilter::MediumPriority, now);
                    false
                } else if c == '6' {
                    self.set_filter(TodoFilter::LowPriority, now);
                    false
                } else if c == '7' {
                    self.set_filter(TodoFilter::Overdue, now);
                    false
                } else if c == '8' {
                    self.set_filter(TodoFilter::DueToday, now);
                    false
                } else if c == '9' {
                    self.set_filter(TodoFilter::DueSoon, now);
                    false
                } else if c == '0' {
                    self.set_filter(TodoFilter::HasDueDate, now);
                    false
                } else if c == 'p' {
                    self.prompt_priority()
                } else if c == 'v' {
                    self.show_details = !self.show_details;
                    if self.show_details {
                        self.status_message = Some(
                            String::from_str("Showing detailed descriptions"),
                        );
                    } else {
                        self.status_message = Some(
                            String::from_str("Hiding detailed descriptions"),
                        );
                    }
                    false
                } else if c == 'h' || c == '?' {
                    self.show_help = !self.show_help;
                    false
                } else if c == 'q' {
                    self.should_quit = true;
                    false
                } else {
                    false
                }
            },
            _ => false,
        }
    }

    /// What editing keys do to the buffer: insertion at the cursor,
    /// backspace before it, clamped cursor movement; every other key
    /// leaves buffer and cursor alone.
    pub open spec fn edit_buffer_post(pre: App, post: App, key: Key) -> bool {
        &&& post.todos == pre.todos
        &&& post.input_mode == pre.input_mode
        &&& post.selected_index == pre.selected_index
        &&& post.filter == pre.filter
        &&& post.status_message == pre.status_message
        &&& post.should_quit == pre.should_quit
        &&& post.show_help == pre.show_help
        &&& post.show_details == pre.show_details
        &&& match key {
            Key::Backspace => if pre.cursor_position > 0 {
                post.input@ == pre.input@.remove(pre.cursor_position - 1)
                    && post.cursor_position == pre.cursor_position - 1
            } else {
                post.input == pre.input && post.cursor_position == pre.cursor_position
            },
            Key::Left => post.input == pre.input && post.cursor_position == (
            if pre.cursor_position > 0 {
                (pre.cursor_position - 1) as usize
            } else {
                0usize
            }),
            Key::Right => post.input == pre.input && post.cursor_position == (
            if pre.cursor_position < pre.input@.len() {
                (pre.cursor_position + 1) as usize
            } else {
                pre.cursor_position
            }),
            Key::Char(c) => post.input@ == pre.input@.insert(pre.cursor_position as int, c)
                && post.cursor_position == pre.cursor_position + 1,
            _ => post.input == pre.input && post.cursor_position == pre.cursor_position,
        }
    }

    /// Single-line editing shared by every buffer mode.
    pub fn edit_buffer(&mut self, key: Key)
        requires
            old(self).wf(),
        ensures
            final(self).wf(),
            App::edit_buffer_post(*old(self), *final(self), key),
    {
        match key {
            Key::Backspace => {
                if self.cursor_position > 0 {
                    self.input.remove(self.cursor_position - 1);
                    self.cursor_position = self.cursor_position - 1;
                }
            },
            Key::Left => {
                if self.cursor_position > 0 {
                    self.cursor_position = self.cursor_position - 1;
                }
            },
            Key::Right => {
                if self.cursor_position < self.input.len() {
                    self.cursor_position = self.cursor_position + 1;
                }
            },
            Key::Char(c) => {
                self.input.insert(self.cursor_position, c);
                let n = self.input.len();
                proof {
                    assert(self.cursor_position < n);
                }
                self.cursor_position = self.cursor_position + 1;
            },
            _ => {},
        }
    }

    /// What cancelling a buffer mode does: back to browsing with a cleared
    /// buffer, the store untouched, and the given word in the status line.
    pub open spec fn cancel_post(pre: App, post: App, msg: Seq<char>) -> bool {
        &&& post.todos == pre.todos
        &&& post.input_mode == InputMode::Normal
        &&& post.input@.len() == 0
        &&& post.cursor_position == 0
        &&& post.selected_index == pre.selected_index
        &&& post.filter == pre.filter
        &&& post.status_is(msg)
        &&& post.should_quit == pre.should_quit
        &&& post.show_help == pre.show_help
        &&& post.show_details == pre.show_details
    }

    /// Back to browsing with a cleared buffer and nothing else changed.
    pub open spec fn back_to_normal_post(pre: App, post: App) -> bool {
        &&& post.todos == pre.todos
        &&& post.input_mode == InputMode::Normal
        &&& post.input@.len() == 0
        &&& post.cursor_position == 0
        &&& post.selected_index == pre.selected_index
        &&& post.filter == pre.filter
        &&& post.status_message == pre.status_message
        &&& post.should_quit == pre.should_quit
        &&& post.show_help == pre.show_help
        &&& post.show_details == pre.show_details
    }

    /// What committing a composed line does. A line with no visible content
    /// commits nothing. A line whose only visible content was consumed as a
    /// priority suffix is rejected as an empty description. Otherwise a
    /// fresh pending task is appended carrying the parsed description and
    /// priority, the store is to be persisted, the buffer clears, browsing
    /// resumes, the addition is announced, and the selection lands on the
    /// new task where the filter shows it.
    pub open spec fn compose_commit_post(pre: App, post: App, now: i64, saved: bool) -> bool {
        let desc = spec_compose_parse(pre.input@).0;
        let prio = spec_compose_parse(pre.input@).1;
        if is_blank(pre.input@) {
            post == pre && !saved
        } else if is_blank(desc) {
            &&& !saved
            &&& App::same_but_status(pre, post)
            &&& post.status_is("Todo description cannot be empty"@)
        } else {
            &&& saved
            &&& post.todos.next_id == pre.todos.next_id + 1
            &&& post.todos.todos@.len() == pre.todos.todos@.len() + 1
            &&& post.todos.todos@.subrange(0, pre.todos.todos@.len() as int) == pre.todos.todos@
            &&& post.todos.todos@.last().id == pre.todos.next_id
            &&& post.todos.todos@.last().description@ == desc
            &&& post.todos.todos@.last().priority == prio
            &&& !post.todos.todos@.last().completed
            &&& post.todos.todos@.last().completed_at is None
            &&& post.todos.todos@.last().due_date is None
            &&& post.todos.todos@.last().details is None
            &&& post.todos.todos@.last().created_at == now
            &&& post.input_mode == InputMode::Normal
            &&& post.input@.len() == 0
            &&& post.cursor_position == 0
            &&& post.filter == pre.filter
            &&& post.status_is(spec_added_message(desc, prio))
            &&& post.selected_index == (if spec_matches(post.todos.todos@.last(), pre.filter, now) {
                Some((post.view_at(now).len() - 1) as usize)
            } else {
                reconciled(pre.selected_index, post.view_at(now).len() as int)
            })
            &&& post.should_quit == pre.should_quit
            &&& post.show_help == pre.show_help
            &&& post.show_details == pre.show_details
        }
    }

    /// What a key does while composing.
    pub open spec fn insert_post(pre: App, post: App, key: Key, now: i64, saved: bool) -> bool {
        match key {
            Key::Enter => App::compose_commit_post(pre, post, now, saved),
            Key::Esc => App::cancel_post(pre, post, "Cancelled"@) && !saved,
            _ => App::edit_buffer_post(pre, post, key) && !saved,
        }
    }

    /// Handles a key while composing a new task.
    pub fn handle_insert_mode(&mut self, key: Key, now: i64) -> (saved: bool)
        requires
            old(self).wf(),
            old(self).todos.next_id < u32::MAX,
        ensures
            final(self).wf(),
            App::insert_post(*old(self), *final(self), key, now, saved),
    {
        match key {
            Key::Enter => {
                let whole = trim_chars(&self.input);
                if whole.len() == 0 {
                    return false;
                }
                let parsed = parse_compose_input(&self.input);
                let desc_chars = parsed.0;
                let prio = parsed.1;
                let desc_trim = trim_chars(&desc_chars);
                if desc_trim.len() == 0 {
                    self.status_message = Some(
                        String::from_str("Todo description cannot be empty"),
                    );
                    return false;
                }
                let desc_string = chars_to_string(&desc_chars);
                let added = self.todos.add_todo_at(desc_string, prio, now);
                proof {
                    assert(added is Ok);
                }
                let mut msg = string_to_chars("Added: ");
                append_chars(&mut msg, &desc_chars);
                match prio {
                    Some(p) => {
                        append_str(&mut msg, " (priority ");
                        append_u32(&mut msg, p as u32);
                        append_str(&mut msg, ")");
                        proof {
                            assert(msg@ =~= spec_added_message(desc_chars@, prio));
                        }
                    },
                    None => {},
                }
                self.status_message = Some(chars_to_string(&msg));
                self.input = Vec::new();
                self.cursor_position = 0;
                self.input_mode = InputMode::Normal;
                let last = self.todos.todos.len() - 1;
                proof {
                    assert(self.todos.todos@.drop_last() =~= old(self).todos.todos@);
                }
                if matches_filter(&self.todos.todos[last], self.filter, now) {
                    let view = self.todos.visible_indices(self.filter, now);
                    proof {
                        assert(self.view_at(now) == old(self).view_at(now).push(last as int));
                        assert(view@.map_values(|u: usize| u as int).len() == self.view_at(
                            now,
                        ).len());
                    }
                    self.selected_index = Some(view.len() - 1);
                } else {
                    proof {
                        assert(self.view_at(now) == old(self).view_at(now));
                    }
                    self.reconcile_selection(now);
                }
                true
            },
            Key::Esc => {
                self.input = Vec::new();
                self.cursor_position = 0;
                self.input_mode = InputMode::Normal;
                self.status_message = Some(String::from_str("Cancelled"));
                false
            },
            _ => {
                self.edit_buffer(key);
                false
            },
        }
    }

    /// What committing a title edit does: a blank replacement is rejected
    /// as an empty description and nothing is stored; otherwise the
    /// selected task carries the buffer as its new description, the store
    /// is to be persisted, and browsing resumes. With no selected task the
    /// buffer just closes.
    pub open spec fn title_commit_post(pre: App, post: App, now: i64, saved: bool) -> bool {
        match pre.spec_selected_store_index(now) {
            None => App::back_to_normal_post(pre, post) && !saved,
            Some(i) => if is_blank(pre.input@) {
                &&& !saved
                &&& post.todos == pre.todos
                &&& post.input_mode == InputMode::Normal
                &&& post.input@.len() == 0
                &&& post.cursor_position == 0
                &&& post.selected_index == pre.selected_index
                &&& post.filter == pre.filter
                &&& post.status_is("Todo description cannot be empty"@)
                &&& post.should_quit == pre.should_quit
                &&& post.show_help == pre.show_help
                &&& post.show_details == pre.show_details
            } else {
                &&& saved
                &&& post.todos.next_id == pre.todos.next_id
                &&& post.todos.todos@ == pre.todos.todos@.update(
                    i,
                    Todo { description: post.todos.todos@[i].description, ..pre.todos.todos@[i] },
                )
                &&& post.todos.todos@[i].description@ == pre.input@
                &&& post.input_mode == InputMode::Normal
                &&& post.input@.len() == 0
                &&& post.cursor_position == 0
                &&& post.selected_index == pre.selected_index
                &&& post.filter == pre.filter
                &&& post.status_is("Todo title updated"@)
                &&& post.should_quit == pre.should_quit
                &&& post.show_help == pre.show_help
                &&& post.show_details == pre.show_details
            },
        }
    }

    /// What a key does while editing a title.
    pub open spec fn editing_post(pre: App, post: App, key: Key, now: i64, saved: bool) -> bool {
        match key {
            Key::Enter => App::title_commit_post(pre, post, now, saved),
            Key::Esc => App::cancel_post(pre, post, "Edit cancelled"@) && !saved,
            _ => App::edit_buffer_post(pre, post, key) && !saved,
        }
    }

    /// Handles a key while editing the selected task's title. Escape
    /// discards the buffer and leaves the task's description exactly as it
    /// was.
    pub fn handle_editing_mode(&mut self, key: Key, now: i64) -> (saved: bool)
        requires
            old(self).wf(),
        ensures
            final(self).wf(),
            App::editing_post(*old(self), *final(self), key, now, saved),
    {
        match key {
            Key::Enter => {
                let saved: bool = match self.selected_store_index(now) {
                    None => false,
                    Some(i) => {
                        let blank = trim_chars(&self.input);
                        if blank.len() == 0 {
                            self.status_message = Some(
                                String::from_str("Todo description cannot be empty"),
                            );
                            false
                        } else {
                            let d = chars_to_string(&self.input);
                            self.todos.set_description(i, d);
                            self.status_message = Some(String::from_str("Todo title updated"));
                            true
                        }
                    },
                };
                self.input = Vec::new();
                self.cursor_position = 0;
                self.input_mode = InputMode::Normal;
                saved
            },
            Key::Esc => {
                self.input = Vec::new();
                self.cursor_position = 0;
                self.input_mode = InputMode::Normal;
                self.status_message = Some(String::from_str("Edit cancelled"));
                false
            },
            _ => {
                self.edit_buffer(key);
                false
            },
        }
    }

    /// What committing a details edit does: a blank buffer clears the
    /// field, anything else replaces it; either way the store is to be
    /// persisted and browsing resumes. With no selected task the buffer
    /// just closes.
    pub open spec fn details_commit_post(pre: App, post: App, now: i64, saved: bool) -> bool {
        match pre.spec_selected_store_index(now) {
            None => App::back_to_normal_post(pre, post) && !saved,
            Some(i) => {
                &&& saved
                &&& post.todos.next_id == pre.todos.next_id
                &&& post.todos.todos@ == pre.todos.todos@.update(
                    i,
                    Todo { details: post.todos.todos@[i].details, ..pre.todos.todos@[i] },
                )
                &&& if is_blank(pre.input@) {
                    post.todos.todos@[i].details is None && post.status_is("Details cleared"@)
                } else {
                    post.todos.todos@[i].details matches Some(d) && d@ == pre.input@
                        && post.status_is("Details updated"@)
                }
                &&& post.input_mode == InputMode::Normal
                &&& post.input@.len() == 0
                &&& post.cursor_position == 0
                &&& post.selected_index == pre.selected_index
                &&& post.filter == pre.filter
                &&& post.should_quit == pre.should_quit
                &&& post.show_help == pre.show_help
                &&& post.show_details == pre.show_details
            },
        }
    }

    /// What a key does while editing details.
    pub open spec fn details_mode_post(pre: App, post: App, key: Key, now: i64, saved: bool) -> bool {
        match key {
            Key::Enter => App::details_commit_post(pre, post, now, saved),
            Key::Esc => App::cancel_post(pre, post, "Edit cancelled"@) && !saved,
            _ => App::edit_buffer_post(pre, post, key) && !saved,
        }
    }

    /// Handles a key while editing the selected task's details.
    pub fn handle_editing_details_mode(&mut self, key: Key, now: i64) -> (saved: bool)
        requires
            old(self).wf(),
        ensures
            final(self).wf(),
            App::details_mode_post(*old(self), *final(self), key, now, saved),
    {
        match key {
            Key::Enter => {
                let saved: bool = match self.selected_store_index(now) {
                    None => false,
                    Some(i) => {
                        let blank = trim_chars(&self.input);
                        if blank.len() == 0 {
                            self.todos.set_details(i, None);
                            self.status_message = Some(String::from_str("Details cleared"));
                        } else {
                            let d = chars_to_string(&self.input);
                            self.todos.set_details(i, Some(d));
                            self.status_message = Some(String::from_str("Details updated"));
                        }
                        true
                    },
                };
                self.input = Vec::new();
                self.cursor_position = 0;
                self.input_mode = InputMode::Normal;
                saved
            },
            Key::Esc => {
                self.input = Vec::new();
                self.cursor_position = 0;
                self.input_mode = InputMode::Normal;
                self.status_message = Some(String::from_str("Edit cancelled"));
                false
            },
            _ => {
                self.edit_buffer(key);
                false
            },
        }
    }

    /// The selected task with a new due time, the change announced, the
    /// buffer closed, and the selection reconciled with the new view.
    pub open spec fn due_set_post(
        pre: App,
        post: App,
        i: int,
        due: Option<i64>,
        msg: Seq<char>,
        now: i64,
    ) -> bool {
        &&& post.todos.next_id == pre.todos.next_id
        &&& post.todos.todos@ == pre.todos.todos@.update(
            i,
            Todo { due_date: due, ..pre.todos.todos@[i] },
        )
        &&& post.input_mode == InputMode::Normal
        &&& post.input@.len() == 0
        &&& post.cursor_position == 0
        &&& post.filter == pre.filter
        &&& post.status_is(msg)
        &&& post.selected_index == reconciled(pre.selected_index, post.view_at(now).len() as int)
        &&& post.should_quit == pre.should_quit
        &&& post.show_help == pre.show_help
        &&& post.show_details == pre.show_details
    }

    /// What committing a due-date line does: an empty line clears the due
    /// time, the literal words set it to now or one day later, a calendar
    /// date sets it to the last second of that day, and anything else is
    /// rejected with the mode kept active and the buffer intact.
    pub open spec fn due_commit_post(pre: App, post: App, now: i64, saved: bool) -> bool {
        let norm = lower_seq(trimmed(pre.input@));
        match pre.spec_selected_store_index(now) {
            None => App::back_to_normal_post(pre, post) && !saved,
            Some(i) => if norm.len() == 0 {
                App::due_set_post(pre, post, i, None, "Due date cleared"@, now) && saved
            } else if norm == "today"@ {
                App::due_set_post(pre, post, i, Some(now), "Due date set to today"@, now) && saved
            } else if norm == "tomorrow"@ {
                App::due_set_post(
                    pre,
                    post,
                    i,
                    Some(plus_day(now)),
                    "Due date set to tomorrow"@,
                    now,
                ) && saved
            } else {
                match crate::date::spec_parse_date(norm) {
                    Some(ts) => App::due_set_post(
                        pre,
                        post,
                        i,
                        Some(ts as i64),
                        "Due date set to "@ + norm,
                        now,
                    ) && saved,
                    None => {
                        &&& !saved
                        &&& App::same_but_status(pre, post)
                        &&& post.status_is("Invalid date format. Use YYYY-MM-DD"@)
                    },
                }
            },
        }
    }

    /// What a key does while editing a due date.
    pub open spec fn due_mode_post(pre: App, post: App, key: Key, now: i64, saved: bool) -> bool {
        match key {
            Key::Enter => App::due_commit_post(pre, post, now, saved),
            Key::Esc => App::cancel_post(pre, post, "Due date edit cancelled"@) && !saved,
            _ => App::edit_buffer_post(pre, post, key) && !saved,
        }
    }

    /// Handles a key while editing the selected task's due date.
    pub fn handle_due_date_mode(&mut self, key: Key, now: i64) -> (saved: bool)
        requires
            old(self).wf(),
        ensures
            final(self).wf(),
            App::due_mode_post(*old(self), *final(self), key, now, saved),
    {
        match key {
            Key::Enter => {
                match self.selected_store_index(now) {
                    None => {
                        self.input = Vec::new();
                        self.cursor_position = 0;
                        self.input_mode = InputMode::Normal;
                        false
                    },
                    Some(i) => {
                        let t = trim_chars(&self.input);
                        let norm = to_lower_chars(&t);
                        if norm.len() == 0 {
                            self.todos.set_due(i, None);
                            self.status_message = Some(String::from_str("Due date cleared"));
                        } else if crate::text::chars_equal_str(&norm, "today") {
                            self.todos.set_due(i, Some(now));
                            self.status_message = Some(String::from_str("Due date set to today"));
                        } else if crate::text::chars_equal_str(&norm, "tomorrow") {
                            let tomorrow: i64 = match now.checked_add(crate::date::DAY_SECONDS) {
                                Some(v) => v,
                                None => i64::MAX,
                            };
                            self.todos.set_due(i, Some(tomorrow));
                            self.status_message = Some(
                                String::from_str("Due date set to tomorrow"),
                            );
                        } else {
                            match crate::date::parse_date_chars(&norm) {
                                Some(ts) => {
                                    self.todos.set_due(i, Some(ts));
                                    let mut msg = string_to_chars("Due date set to ");
                                    append_chars(&mut msg, &norm);
                                    self.status_message = Some(chars_to_string(&msg));
                                },
                                None => {
                                    self.status_message = Some(
                                        String::from_str("Invalid date format. Use YYYY-MM-DD"),
                                    );
                                    return false;
                                },
                            }
                        }
                        self.input = Vec::new();
                        self.cursor_position = 0;
                        self.input_mode = InputMode::Normal;
                        self.reconcile_selection(now);
                        true
                    },
                }
            },
            Key::Esc => {
                self.input = Vec::new();
                self.cursor_position = 0;
                self.input_mode = InputMode::Normal;
                self.status_message = Some(String::from_str("Due date edit cancelled"));
                false
            },
            _ => {
                self.edit_buffer(key);
                false
            },
        }
    }

    /// The selected task with a new priority, the change announced, the
    /// keystroke mode closed, and the selection reconciled with the new
    /// view.
    pub open spec fn priority_set_post(
        pre: App,
        post: App,
        i: int,
        p: Option<u8>,
        msg: Seq<char>,
        now: i64,
    ) -> bool {
        &&& post.todos.next_id == pre.todos.next_id
        &&& post.todos.todos@ == pre.todos.todos@.update(
            i,
            Todo { priority: p, ..pre.todos.todos@[i] },
        )
        &&& post.input_mode == InputMode::Normal
        &&& post.input == pre.input
        &&& post.cursor_position == pre.cursor_position
        &&& post.filter == pre.filter
        &&& post.status_is(msg)
        &&& post.selected_index == reconciled(pre.selected_index, post.view_at(now).len() as int)
        &&& post.should_quit == pre.should_quit
        &&& post.show_help == pre.show_help
        &&& post.show_details == pre.show_details
    }

    /// What a keystroke does while setting a priority: digits one to five
    /// set it, zero clears it, escape cancels, and anything else is
    /// rejected with the mode kept active.
    pub open spec fn priority_mode_post(pre: App, post: App, key: Key, now: i64, saved: bool) -> bool {
        match key {
            Key::Esc => {
                &&& !saved
                &&& post == (App { input_mode: InputMode::Normal, status_message: post.status_message, ..pre })
                &&& post.status_is("Priority change cancelled"@)
            },
            Key::Char(c) => if c == '0' {
                match pre.spec_selected_store_index(now) {
                    None => !saved && post == (App { input_mode: InputMode::Normal, ..pre }),
                    Some(i) => saved && App::priority_set_post(
                        pre,
                        post,
                        i,
                        None,
                        "Priority cleared"@,
                        now,
                    ),
                }
            } else if '1' <= c && c <= '5' {
                match pre.spec_selected_store_index(now) {
                    None => !saved && post == (App { input_mode: InputMode::Normal, ..pre }),
                    Some(i) => saved && App::priority_set_post(
                        pre,
                        post,
                        i,
                        Some(digit_val(c) as u8),
                        spec_priority_set_message(digit_val(c) as u8),
                        now,
                    ),
                }
            } else {
                &&& !saved
                &&& App::same_but_status(pre, post)
                &&& post.status_is("Invalid priority. Press 1-5 to set, 0 to clear, Esc to cancel"@)
            },
            _ => {
                &&& !saved
                &&& App::same_but_status(pre, post)
                &&& post.status_is("Invalid priority. Press 1-5 to set, 0 to clear, Esc to cancel"@)
            },
        }
    }

    /// Handles a keystroke while setting the selected task's priority.
    pub fn handle_priority_mode(&mut self, key: Key, now: i64) -> (saved: bool)
        requires
            old(self).wf(),
        ensures
            final(self).wf(),
            App::priority_mode_post(*old(self), *final(self), key, now, saved),
    {
        match key {
            Key::Esc => {
                self.input_mode = InputMode::Normal;
                self.status_message = Some(String::from_str("Priority change cancelled"));
                false
            },
            Key::Char(c) => {
                if c == '0' {
                    let saved: bool = match self.selected_store_index(now) {
                        None => false,
                        Some(i) => {
                            self.todos.set_priority(i, None);
                            self.status_message = Some(String::from_str("Priority cleared"));
                            true
                        },
                    };
                    self.input_mode = InputMode::Normal;
                    if saved {
                        self.reconcile_selection(now);
                    }
                    saved
                } else if '1' <= c && c <= '5' {
                    let p = digit_value(c) as u8;
                    let saved: bool = match self.selected_store_index(now) {
                        None => false,
                        Some(i) => {
                            self.todos.set_priority(i, Some(p));
                            let mut msg = string_to_chars("Priority set to ");
                            append_u32(&mut msg, p as u32);
                            append_str(&mut msg, " (");
                            append_str(&mut msg, priority_level_name(p));
                            append_str(&mut msg, ")");
                            proof {
                                assert(msg@ =~= spec_priority_set_message(p));
                            }
                            self.status_message = Some(chars_to_string(&msg));
                            true
                        },
                    };
                    self.input_mode = InputMode::Normal;
                    if saved {
                        self.reconcile_selection(now);
                    }
                    saved
                } else {
                    self.status_message = Some(
                        String::from_str("Invalid priority. Press 1-5 to set, 0 to clear, Esc to cancel"),
                    );
                    false
                }
            },
            _ => {
                self.status_message = Some(
                    String::from_str("Invalid priority. Press 1-5 to set, 0 to clear, Esc to cancel"),
                );
                false
            },
        }
    }

    /// What one key event does, whatever the mode: the active mode's own
    /// transition.
    pub open spec fn step_post(pre: App, post: App, key: Key, now: i64, saved: bool) -> bool {
        match pre.input_mode {
            InputMode::Normal => App::normal_post(pre, post, key, now, saved),
            InputMode::Insert => App::insert_post(pre, post, key, now, saved),
            InputMode::Editing => App::editing_post(pre, post, key, now, saved),
            InputMode::EditingDetails => App::details_mode_post(pre, post, key, now, saved),
            InputMode::EditingDueDate => App::due_mode_post(pre, post, key, now, saved),
            InputMode::SettingPriority => App::priority_mode_post(pre, post, key, now, saved),
        }
    }

    /// Feeds one key event to the active mode and reports whether the
    /// store changed and must be persisted before the change is shown.
    pub fn handle_key(&mut self, key: Key, now: i64) -> (saved: bool)
        requires
            old(self).wf(),
            old(self).todos.next_id < u32::MAX,
        ensures
            final(self).wf(),
            App::step_post(*old(self), *final(self), key, now, saved),
    {
        match self.input_mode {
            InputMode::Normal => self.handle_normal_mode(key, now),
            InputMode::Insert => self.handle_insert_mode(key, now),
            InputMode::Editing => self.handle_editing_mode(key, now),
            InputMode::EditingDetails => self.handle_editing_details_mode(key, now),
            InputMode::EditingDueDate => self.handle_due_date_mode(key, now),
            InputMode::SettingPriority => self.handle_priority_mode(key, now),
        }
    }

    /// The selection law: whenever the selection is consistent with the
    /// view — as reconciliation, navigation and every store-changing step
    /// leave it — it is absent exactly when the filtered view is empty and
    /// otherwise points inside `[0, len - 1]`.
    pub proof fn lemma_selection_in_bounds(app: App, now: i64)
        requires
            app.selection_ok(now),
        ensures
            app.selected_index is None <==> app.view_at(now).len() == 0,
            app.selected_index matches Some(i) ==> i < app.view_at(now).len(),
    {
    }
}

/// The status line after an addition: the stored description, and the
/// priority when the shorthand set one.
pub open spec fn spec_added_message(desc: Seq<char>, prio: Option<u8>) -> Seq<char> {
    match prio {
        Some(p) => "Added: "@ + desc + " (priority "@ + dec_str(p as int) + ")"@,
        None => "Added: "@ + desc,
    }
}

/// The word each priority level goes by.
pub open spec fn spec_priority_level_name(p: u8) -> Seq<char> {
    if p == 1 {
        "Low"@
    } else if p == 2 {
        "Normal"@
    } else if p == 3 {
        "Medium"@
    } else if p == 4 {
        "High"@
    } else if p == 5 {
        "Critical"@
    } else {
        "Unknown"@
    }
}

/// Executable priority level name.
pub fn priority_level_name(p: u8) -> (r: &'static str)
    ensures
        r@ == spec_priority_level_name(p),
{
    if p == 1 {
        "Low"
    } else if p == 2 {
        "Normal"
    } else if p == 3 {
        "Medium"
    } else if p == 4 {
        "High"
    } else if p == 5 {
        "Critical"
    } else {
        "Unknown"
    }
}

/// The status line after a priority was set.
pub open spec fn spec_priority_set_message(p: u8) -> Seq<char> {
    "Priority set to "@ + dec_str(p as int) + " ("@ + spec_priority_level_name(p) + ")"@
}

/// One day later, held inside the representable range.
pub open spec fn plus_day(now: i64) -> i64 {
    if now + 86400 <= i64::MAX {
        (now + 86400) as i64
    } else {
        i64::MAX
    }
}

} // verus!
