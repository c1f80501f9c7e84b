//! The render planner: a pure, deterministic mapping from the session state
//! and the clock reading to a plain description of the screen — title, one
//! row per visible task, the input line, the status line, and the help
//! overlay flag. The surrounding application turns the plan into styled
//! terminal widgets; nothing here touches the terminal.

use vstd::prelude::*;
use crate::task::Todo;
use crate::controller::{App, InputMode};
use crate::text::chars_to_string;

verus! {

/// The title region: the application's name and the active filter's name.
pub struct TitlePlan {
    /// The application name shown in the title.
    pub app_name: String,
    /// The active filter's display name.
    pub filter_name: String,
}

/// How urgently a due time should be coloured.
#[derive(Debug, Clone, Copy, PartialEq, Eq, Structural)]
pub enum DueUrgency {
    /// Pending and past due.
    Late,
    /// Pending and due within the soon window.
    Soon,
    /// Anything else.
    Calm,
}

/// One visible task, reduced to what the list region shows of it.
pub struct RowPlan {
    /// Where the task stands in the store.
    pub store_index: usize,
    /// The task's id.
    pub id: u32,
    /// The task's description.
    pub description: String,
    /// Whether the task is completed; decides the checkbox and the
    /// struck-through styling.
    pub completed: bool,
    /// The task's priority, for the glyph and its colour.
    pub priority: Option<u8>,
    /// The due label, present exactly when the task has a due time.
    pub due_label: Option<String>,
    /// The colour class of the due label.
    pub due_urgency: DueUrgency,
    /// The indented details line, present exactly when details are shown
    /// and the task has some.
    pub details: Option<String>,
    /// Whether this row is the selected one.
    pub selected: bool,
}

/// The input region: its label, the buffer, and the cursor.
pub struct InputPlan {
    /// The label above the buffer, naming the active mode's purpose.
    pub label: String,
    /// Whether the input region has focus.
    pub active: bool,
    /// The buffer contents.
    pub buffer: String,
    /// The cursor offset into the buffer.
    pub cursor: usize,
    /// Whether a cursor should be drawn at all.
    pub show_cursor: bool,
}

/// The status region: the mode, the counts, and the transient message.
pub struct StatusPlan {
    /// The active mode's display name.
    pub mode_text: String,
    /// How many tasks the store holds.
    pub total: usize,
    /// How many of them are completed.
    pub completed: usize,
    /// How many of them are pending.
    pub pending: usize,
    /// The transient status message, when one is set.
    pub message: Option<String>,
}

/// A planned screen: every region, plus the help overlay flag.
pub struct RenderPlan {
    /// The title region.
    pub title: TitlePlan,
    /// One row per visible task, in view order.
    pub rows: Vec<RowPlan>,
    /// The input region.
    pub input: InputPlan,
    /// The status region.
    pub status: StatusPlan,
    /// Whether the help overlay covers the screen.
    pub show_help: bool,
}

/// How many of the tasks are completed.
pub open spec fn spec_count_completed(s: Seq<Todo>) -> int
    decreases s.len(),
{
    if s.len() == 0 {
        0
    } else {
        spec_count_completed(s.drop_last()) + if s.last().completed {
            1int
        } else {
            0int
        }
    }
}

/// What one row must say about the task it stands for.
pub open spec fn row_ok(row: RowPlan, app: App, now: i64, k: int) -> bool {
    let i = app.view_at(now)[k];
    let t = app.todos.todos@[i];
    &&& row.store_index as int == i
    &&& row.id == t.id
    &&& row.description == t.description
    &&& row.completed == t.completed
    &&& row.priority == t.priority
    &&& (row.due_label is Some <==> t.due_date is Some)
    &&& (row.due_label matches Some(l) ==> l@ == Todo::spec_due_label(t.due_date->0, now))
    &&& row.due_urgency == (if t.spec_overdue(now) {
        DueUrgency::Late
    } else if t.spec_due_soon(now) {
        DueUrgency::Soon
    } else {
        DueUrgency::Calm
    })
    &&& (row.details is Some <==> app.show_details && t.details is Some)
    &&& (row.details matches Some(d) ==> d == t.details->0)
    &&& row.selected == (app.selected_index == Some(k as usize))
}

/// The label the input region carries in each mode.
pub open spec fn spec_input_label(m: InputMode) -> Seq<char> {
    match m {
        InputMode::Normal => "Commands (press 'i' to add todo)"@,
        InputMode::Insert => "Adding Todo (use :1-5 for priority | Esc to cancel)"@,
        InputMode::Editing => "Editing Todo Title (Esc to cancel)"@,
        InputMode::EditingDetails => "Editing Todo Details/Notes (Esc to cancel)"@,
        InputMode::EditingDueDate => "Set Due Date: today, tomorrow, or YYYY-MM-DD (Esc to cancel)"@,
        InputMode::SettingPriority => "Set Priority: 1-5 or 0 to clear (Esc to cancel)"@,
    }
}

/// The name the status region shows for each mode.
pub open spec fn spec_mode_text(m: InputMode) -> Seq<char> {
    match m {
        InputMode::Normal => "NORMAL"@,
        InputMode::Insert => "INSERT"@,
        InputMode::Editing => "EDIT"@,
        InputMode::EditingDetails => "DETAILS"@,
        InputMode::EditingDueDate => "DUE DATE"@,
        InputMode::SettingPriority => "PRIORITY"@,
    }
}

/// Whether a cursor is drawn: exactly in the four text-buffer modes.
pub open spec fn spec_shows_cursor(m: InputMode) -> bool {
    m == InputMode::Insert || m == InputMode::Editing || m == InputMode::EditingDetails || m
        == InputMode::EditingDueDate
}

/// Plans the title region.
pub fn plan_title(app: &App) -> (r: TitlePlan)
    ensures
        r.app_name@ == "Rust Todo"@,
        r.filter_name@ == app.filter.spec_name(),
{
    TitlePlan { app_name: String::from_str("Rust Todo"), filter_name: app.filter.name() }
}

/// Plans the list region: one row per visible task, in view order, each
/// carrying exactly what the screen shows of it.
pub fn plan_rows(app: &App, now: i64) -> (r: Vec<RowPlan>)
    requires
        app.wf(),
    ensures
        r@.len() == app.view_at(now).len(),
        forall|k: int| 0 <= k < r@.len() ==> row_ok(#[trigger] r@[k], *app, now, k),
{
    let view = app.todos.visible_indices(app.filter, now);
    proof {
        assert(view@.map_values(|u: usize| u as int).len() == app.view_at(now).len());
    }
    let mut rows: Vec<RowPlan> = Vec::new();
    let mut k: usize = 0;
    while k < view.len()
        invariant
            0 <= k <= view@.len(),
            app.wf(),
            view@.map_values(|u: usize| u as int) == app.view_at(now),
            forall|j: int| 0 <= j < view@.len() ==> (#[trigger] view@[j]) < app.todos.todos@.len(),
            rows@.len() == k,
            forall|j: int| 0 <= j < k ==> row_ok(#[trigger] rows@[j], *app, now, j),
        decreases view@.len() - k,
    {
        let i = view[k];
        proof {
            assert(view@.map_values(|u: usize| u as int)[k as int] == app.view_at(now)[k as int]);
        }
        let t = &app.todos.todos[i];
        let due_label: Option<String> = t.format_due_date_at(now);
        let due_urgency = if t.is_overdue_at(now) {
            DueUrgency::Late
        } else if t.is_due_soon_at(now) {
            DueUrgency::Soon
        } else {
            DueUrgency::Calm
        };
        let details: Option<String> = if app.show_details {
            match &t.details {
                Some(d) => Some(d.clone()),
                None => None,
            }
        } else {
            None
        };
        let selected = match app.selected_index {
            Some(s) => s == k,
            None => false,
        };
        let row = RowPlan {
            store_index: i,
            id: t.id,
            description: t.description.clone(),
            completed: t.completed,
            priority: t.priority,
            due_label,
            due_urgency,
            details,
            selected,
        };
        rows.push(row);
        k += 1;
    }
    rows
}

/// Plans the input region for the active mode.
pub fn plan_input(app: &App) -> (r: InputPlan)
    ensures
        r.label@ == spec_input_label(app.input_mode),
        r.active == (app.input_mode != InputMode::Normal),
        r.buffer@ == app.input@,
        r.cursor == app.cursor_position,
        r.show_cursor == spec_shows_cursor(app.input_mode),
{
    let label: &str = match app.input_mode {
        InputMode::Normal => "Commands (press 'i' to add todo)",
        InputMode::Insert => "Adding Todo (use :1-5 for priority | Esc to cancel)",
        InputMode::Editing => "Editing Todo Title (Esc to cancel)",
        InputMode::EditingDetails => "Editing Todo Details/Notes (Esc to cancel)",
        InputMode::EditingDueDate => "Set Due Date: today, tomorrow, or YYYY-MM-DD (Esc to cancel)",
        InputMode::SettingPriority => "Set Priority: 1-5 or 0 to clear (Esc to cancel)",
    };
    let active = match app.input_mode {
        InputMode::Normal => false,
        _ => true,
    };
    let show_cursor = match app.input_mode {
        InputMode::Insert => true,
        InputMode::Editing => true,
        InputMode::EditingDetails => true,
        InputMode::EditingDueDate => true,
        _ => false,
    };
    InputPlan {
        label: String::from_str(label),
        active,
        buffer: chars_to_string(&app.input),
        cursor: app.cursor_position,
        show_cursor,
    }
}

/// Plans the status region: the mode's name, the exact task counts, and
/// the transient message.
pub fn plan_status(app: &App) -> (r: StatusPlan)
    ensures
        r.mode_text@ == spec_mode_text(app.input_mode),
        r.total == app.todos.todos@.len(),
        r.completed as int == spec_count_completed(app.todos.todos@),
        r.pending as int == app.todos.todos@.len() - spec_count_completed(app.todos.todos@),
        r.message is Some <==> app.status_message is Some,
        r.message matches Some(m) ==> Some(m) == app.status_message,
{
    let mode_text: &str = match app.input_mode {
        InputMode::Normal => "NORMAL",
        InputMode::Insert => "INSERT",
        InputMode::Editing => "EDIT",
        InputMode::EditingDetails => "DETAILS",
        InputMode::EditingDueDate => "DUE DATE",
        InputMode::SettingPriority => "PRIORITY",
    };
    let total = app.todos.todos.len();
    let mut completed: usize = 0;
    let mut k: usize = 0;
    while k < total
        invariant
            0 <= k <= total,
            total == app.todos.todos@.len(),
            completed as int == spec_count_completed(app.todos.todos@.subrange(0, k as int)),
            completed <= k,
        decreases total - k,
    {
        proof {
            assert(app.todos.todos@.subrange(0, k + 1 as int).drop_last() =~= app.todos.todos@
                .subrange(0, k as int));
            assert(app.todos.todos@.subrange(0, k + 1 as int).last() == app.todos.todos@[k as int]);
        }
        if app.todos.todos[k].completed {
            completed += 1;
        }
        k += 1;
    }
    proof {
        assert(app.todos.todos@.subrange(0, total as int) =~= app.todos.todos@);
    }
    let message: Option<String> = match &app.status_message {
        Some(m) => Some(m.clone()),
        None => None,
    };
    StatusPlan {
        mode_text: String::from_str(mode_text),
        total,
        completed,
        pending: total - completed,
        message,
    }
}

/// Plans a whole screen from the session state and the clock reading; the
/// same state and reading always plan the same screen.
pub fn plan_render(app: &App, now: i64) -> (r: RenderPlan)
    requires
        app.wf(),
    ensures
        r.title.app_name@ == "Rust Todo"@,
        r.title.filter_name@ == app.filter.spec_name(),
        r.rows@.len() == app.view_at(now).len(),
        forall|k: int| 0 <= k < r.rows@.len() ==> row_ok(#[trigger] r.rows@[k], *app, now, k),
        r.input.label@ == spec_input_label(app.input_mode),
        r.input.active == (app.input_mode != InputMode::Normal),
        r.input.buffer@ == app.input@,
        r.input.cursor == app.cursor_position,
        r.input.show_cursor == spec_shows_cursor(app.input_mode),
        r.status.mode_text@ == spec_mode_text(app.input_mode),
        r.status.total == app.todos.todos@.len(),
        r.status.completed as int == spec_count_completed(app.todos.todos@),
        r.status.pending as int == app.todos.todos@.len() - spec_count_completed(app.todos.todos@),
        r.status.message is Some <==> app.status_message is Some,
        r.status.message matches Some(m) ==> Some(m) == app.status_message,
        r.show_help == app.show_help,
{
    RenderPlan {
        title: plan_title(app),
        rows: plan_rows(app, now),
        input: plan_input(app),
        status: plan_status(app),
        show_help: app.show_help,
    }
}

/// One line of the help overlay: a section heading, or a key binding with
/// its explanation.
pub struct HelpEntry {
    /// Whether this line is a section heading.
    pub heading: bool,
    /// The key, empty on a heading line.
    pub key: String,
    /// The heading or the explanation.
    pub text: String,
}

/// What the help overlay lists: four sections covering navigation, the
/// actions, the filters, and the rest.
pub open spec fn help_entries_ok(r: Seq<HelpEntry>) -> bool {
    &&& r.len() == 25
    &&& r[0].heading && r[0].text@ == "Navigation"@
    &&& !r[1].heading && r[1].key@ == "j/↓"@ && r[1].text@ == "Move down"@
    &&& !r[2].heading && r[2].key@ == "k/↑"@ && r[2].text@ == "Move up"@
    &&& !r[3].heading && r[3].key@ == "g"@ && r[3].text@ == "Go to top"@
    &&& !r[4].heading && r[4].key@ == "G"@ && r[4].text@ == "Go to bottom"@
    &&& r[5].heading && r[5].text@ == "Actions"@
    &&& !r[6].heading && r[6].key@ == "i"@ && r[6].text@ == "Insert new todo (add :N for priority)"@
    &&& !r[7].heading && r[7].key@ == "Enter"@ && r[7].text@ == "Complete/uncomplete todo"@
    &&& !r[8].heading && r[8].key@ == "d"@ && r[8].text@ == "Delete todo"@
    &&& !r[9].heading && r[9].key@ == "e"@ && r[9].text@ == "Edit todo title"@
    &&& !r[10].heading && r[10].key@ == "D"@ && r[10].text@ == "Edit details/notes"@
    &&& !r[11].heading && r[11].key@ == "u"@ && r[11].text@ == "Set/edit due date"@
    &&& !r[12].heading && r[12].key@ == "p"@ && r[12].text@
        == "Set/change priority (1-5, 0 to clear)"@
    &&& !r[13].heading && r[13].key@ == "v"@ && r[13].text@ == "Toggle detail view"@
    &&& r[14].heading && r[14].text@ == "Filters"@
    &&& !r[15].heading && r[15].key@ == "f"@ && r[15].text@ == "Cycle through all filters"@
    &&& !r[16].heading && r[16].key@ == "1"@ && r[16].text@ == "All tasks"@
    &&& !r[17].heading && r[17].key@ == "2"@ && r[17].text@ == "Pending tasks"@
    &&& !r[18].heading && r[18].key@ == "3"@ && r[18].text@ == "Completed tasks"@
    &&& !r[19].heading && r[19].key@ == "4-6"@ && r[19].text@
        == "Priority filters (High/Med/Low)"@
    &&& !r[20].heading && r[20].key@ == "7-0"@ && r[20].text@ == "Due date filters"@
    &&& r[21].heading && r[21].text@ == "Other"@
    &&& !r[22].heading && r[22].key@ == "h/?"@ && r[22].text@ == "Toggle this help"@
    &&& !r[23].heading && r[23].key@ == "q"@ && r[23].text@ == "Save and quit"@
    &&& !r[24].heading && r[24].key@ == "Esc"@ && r[24].text@ == "Cancel/close"@
}

/// Builds the help overlay's lines.
pub fn help_entries() -> (r: Vec<HelpEntry>)
    ensures
        help_entries_ok(r@),
{
    let mut r: Vec<HelpEntry> = Vec::new();
    r.push(heading_entry("Navigation"));
    r.push(binding_entry("j/↓", "Move down"));
    r.push(binding_entry("k/↑", "Move up"));
    r.push(binding_entry("g", "Go to top"));
    r.push(binding_entry("G", "Go to bottom"));
    r.push(heading_entry("Actions"));
    r.push(binding_entry("i", "Insert new todo (add :N for priority)"));
    r.push(binding_entry("Enter", "Complete/uncomplete todo"));
    r.push(binding_entry("d", "Delete todo"));
    r.push(binding_entry("e", "Edit todo title"));
    r.push(binding_entry("D", "Edit details/notes"));
    r.push(binding_entry("u", "Set/edit due date"));
    r.push(binding_entry("p", "Set/change priority (1-5, 0 to clear)"));
    r.push(binding_entry("v", "Toggle detail view"));
    r.push(heading_entry("Filters"));
    r.push(binding_entry("f", "Cycle through all filters"));
    r.push(binding_entry("1", "All tasks"));
    r.push(binding_entry("2", "Pending tasks"));
    r.push(binding_entry("3", "Completed tasks"));
    r.push(binding_entry("4-6", "Priority filters (High/Med/Low)"));
    r.push(binding_entry("7-0", "Due date filters"));
    r.push(heading_entry("Other"));
    r.push(binding_entry("h/?", "Toggle this help"));
    r.push(binding_entry("q", "Save and quit"));
    r.push(binding_entry("Esc", "Cancel/close"));
    r
}

/// A section heading line.
fn heading_entry(text: &str) -> (r: HelpEntry)
    ensures
        r.heading,
        r.key@ =~= Seq::<char>::empty(),
        r.text@ == text@,
{
    HelpEntry { heading: true, key: String::new(), text: String::from_str(text) }
}

/// A key-binding line.
fn binding_entry(key: &str, text: &str) -> (r: HelpEntry)
    ensures
        !r.heading,
        r.key@ == key@,
        r.text@ == text@,
{
    HelpEntry { heading: false, key: String::from_str(key), text: String::from_str(text) }
}

} // verus!
