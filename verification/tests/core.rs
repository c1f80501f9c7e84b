// Scenario and unit tests for the task store, the filter engine, the
// selection tracker, and the modal input controller.

use rust_todo::task::Todo;
use rust_todo::store::{TodoList, TodoError};
use rust_todo::filter::TodoFilter;
use rust_todo::controller::{App, InputMode, Key};

// A clock reading inside the calendar day 2024-03-01.
const NOW: i64 = 1709300000;

fn type_line(app: &mut App, line: &str) {
    for c in line.chars() {
        assert!(!app.handle_key(Key::Char(c), NOW));
    }
}

#[test]
fn test_create_todo() {
    let todo = Todo::new(1, "Learn Rust".to_string(), None);
    assert_eq!(todo.id, 1);
    assert_eq!(todo.description, "Learn Rust");
    assert!(!todo.completed);
    assert!(todo.completed_at.is_none());
    assert!(todo.priority.is_none());
}

#[test]
fn test_create_todo_with_priority() {
    let todo = Todo::new(1, "Important task".to_string(), Some(5));
    assert_eq!(todo.priority, Some(5));
}

#[test]
fn test_create_todo_with_all_fields() {
    let todo = Todo::new_with_details(
        3,
        "Plan trip".to_string(),
        Some("pack light".to_string()),
        Some(NOW + 86400),
        Some(2),
    );
    assert_eq!(todo.id, 3);
    assert_eq!(todo.description, "Plan trip");
    assert_eq!(todo.details.as_deref(), Some("pack light"));
    assert_eq!(todo.due_date, Some(NOW + 86400));
    assert_eq!(todo.priority, Some(2));
    assert!(!todo.completed);
}

#[test]
fn test_complete_todo() {
    let mut todo = Todo::new(1, "Learn Rust".to_string(), None);
    todo.complete();
    assert!(todo.completed);
    assert!(todo.completed_at.is_some());
}

#[test]
fn test_todo_list_add() {
    let mut list = TodoList::new();
    let id = list.add_todo("First todo".to_string(), None).unwrap();
    assert_eq!(id, 1);
    assert_eq!(list.todos.len(), 1);

    let id2 = list.add_todo("Second todo".to_string(), Some(3)).unwrap();
    assert_eq!(id2, 2);
    assert_eq!(list.todos.len(), 2);
    assert_eq!(list.todos[1].priority, Some(3));
}

#[test]
fn test_todo_list_find_and_complete() {
    let mut list = TodoList::new();
    let id = list.add_todo("Test todo".to_string(), None).unwrap();

    if let Some(i) = list.find_index(id) {
        list.todos[i].complete();
    }

    let i = list.find_index(id).expect("Todo should exist");
    assert!(list.todos[i].completed);
}

#[test]
fn test_todo_list_remove() {
    let mut list = TodoList::new();
    let id = list.add_todo("To be removed".to_string(), None).unwrap();

    assert!(list.remove_todo(id));
    assert_eq!(list.todos.len(), 0);
    assert!(!list.remove_todo(id));
}

#[test]
fn test_todo_list_filter() {
    let mut list = TodoList::new();
    let id1 = list.add_todo("Todo 1".to_string(), None).unwrap();
    let _id2 = list.add_todo("Todo 2".to_string(), None).unwrap();

    if let Some(i) = list.find_index(id1) {
        list.todos[i].complete();
    }

    let all = list.filter_todos(TodoFilter::All, NOW);
    assert_eq!(all.len(), 2);

    let completed = list.filter_todos(TodoFilter::Completed, NOW);
    assert_eq!(completed.len(), 1);
    assert!(completed[0].completed);

    let pending = list.filter_todos(TodoFilter::Pending, NOW);
    assert_eq!(pending.len(), 1);
}

#[test]
fn test_ids_strictly_increase_and_never_return() {
    let mut list = TodoList::new();
    let a = list.add_todo("a".to_string(), None).unwrap();
    let b = list.add_todo("b".to_string(), None).unwrap();
    assert!(a < b);
    assert!(list.remove_todo(a));
    assert!(list.remove_todo(b));
    let c = list.add_todo("c".to_string(), None).unwrap();
    assert!(c > b, "ids are never reused after deletions");
}

#[test]
fn test_add_rejects_blank_description() {
    let mut list = TodoList::new();
    assert_eq!(list.add_todo("".to_string(), None), Err(TodoError::EmptyDescription));
    assert_eq!(list.add_todo("   \t ".to_string(), None), Err(TodoError::EmptyDescription));
    assert_eq!(list.todos.len(), 0);
    assert_eq!(list.next_id, 1);
}

#[test]
fn test_add_rejects_out_of_band_priority() {
    let mut list = TodoList::new();
    assert_eq!(list.add_todo("fine".to_string(), Some(0)), Err(TodoError::InvalidPriority));
    assert_eq!(list.add_todo("fine".to_string(), Some(6)), Err(TodoError::InvalidPriority));
    assert_eq!(list.todos.len(), 0);
}

#[test]
fn test_error_messages() {
    assert_eq!(TodoError::EmptyDescription.message(), "Todo description cannot be empty");
    assert_eq!(TodoError::InvalidPriority.message(), "Priority must be between 1 and 5");
}

#[test]
fn test_completion_pair_moves_as_unit() {
    let mut list = TodoList::new();
    list.add_todo("t".to_string(), None).unwrap();
    list.set_completed_at(0, NOW);
    assert!(list.todos[0].completed);
    assert_eq!(list.todos[0].completed_at, Some(NOW));
    list.set_pending(0);
    assert!(!list.todos[0].completed);
    assert!(list.todos[0].completed_at.is_none());
}

#[test]
fn test_complete_and_uncomplete_by_id() {
    let mut list = TodoList::new();
    let id = list.add_todo("t".to_string(), None).unwrap();
    assert!(list.complete_todo(id));
    assert!(list.todos[0].completed);
    assert!(list.todos[0].completed_at.is_some());
    assert!(list.uncomplete_todo(id));
    assert!(!list.todos[0].completed);
    assert!(list.todos[0].completed_at.is_none());
    assert!(!list.complete_todo(999));
    assert!(!list.uncomplete_todo(999));
}

#[test]
fn test_retain_pending_bulk_clear() {
    // Two completed tasks and one pending one: the clear removes exactly
    // the completed two and keeps the pending task's id and description.
    let mut list = TodoList::new();
    let a = list.add_todo("done one".to_string(), None).unwrap();
    let b = list.add_todo("keep me".to_string(), None).unwrap();
    let c = list.add_todo("done two".to_string(), None).unwrap();
    list.set_completed_at(0, NOW);
    list.set_completed_at(2, NOW);
    let removed = list.retain_pending();
    assert_eq!(removed, 2);
    assert_eq!(list.todos.len(), 1);
    assert_eq!(list.todos[0].id, b);
    assert_eq!(list.todos[0].description, "keep me");
    assert!(list.find_index(a).is_none());
    assert!(list.find_index(c).is_none());
}

#[test]
fn test_is_wf_rejects_broken_stores() {
    let good = TodoList::new();
    assert!(good.is_wf());
    let bad_priority = TodoList {
        todos: vec![Todo {
            id: 1,
            description: "x".to_string(),
            details: None,
            completed: false,
            created_at: 0,
            completed_at: None,
            due_date: None,
            priority: Some(9),
        }],
        next_id: 2,
    };
    assert!(!bad_priority.is_wf());
    let bad_counter = TodoList {
        todos: vec![Todo {
            id: 7,
            description: "x".to_string(),
            details: None,
            completed: false,
            created_at: 0,
            completed_at: None,
            due_date: None,
            priority: None,
        }],
        next_id: 3,
    };
    assert!(!bad_counter.is_wf());
    let bad_flag = TodoList {
        todos: vec![Todo {
            id: 1,
            description: "x".to_string(),
            details: None,
            completed: true,
            created_at: 0,
            completed_at: None,
            due_date: None,
            priority: None,
        }],
        next_id: 2,
    };
    assert!(!bad_flag.is_wf());
}

#[test]
fn test_compose_round_trip_priority_suffix() {
    // Composing "Buy milk:4" stores description "Buy milk" with priority 4.
    let mut app = App::new(TodoList::new(), NOW);
    assert!(!app.handle_key(Key::Char('i'), NOW));
    assert_eq!(app.input_mode, InputMode::Insert);
    type_line(&mut app, "Buy milk:4");
    assert!(app.handle_key(Key::Enter, NOW));
    assert_eq!(app.input_mode, InputMode::Normal);
    assert_eq!(app.todos.todos.len(), 1);
    assert_eq!(app.todos.todos[0].description, "Buy milk");
    assert_eq!(app.todos.todos[0].priority, Some(4));
}

#[test]
fn test_compose_without_suffix_keeps_line() {
    let mut app = App::new(TodoList::new(), NOW);
    app.handle_key(Key::Char('i'), NOW);
    type_line(&mut app, "Call 10:30 meeting off");
    assert!(app.handle_key(Key::Enter, NOW));
    assert_eq!(app.todos.todos[0].description, "Call 10:30 meeting off");
    assert_eq!(app.todos.todos[0].priority, None);
}

#[test]
fn test_compose_out_of_band_suffix_is_plain_text() {
    let mut app = App::new(TodoList::new(), NOW);
    app.handle_key(Key::Char('i'), NOW);
    type_line(&mut app, "task:9");
    assert!(app.handle_key(Key::Enter, NOW));
    assert_eq!(app.todos.todos[0].description, "task:9");
    assert_eq!(app.todos.todos[0].priority, None);
}

#[test]
fn test_pending_completed_scenario() {
    // Empty store, add "A", add "B" with priority 2, complete "A":
    // Pending shows exactly ["B"], Completed exactly ["A"].
    let mut list = TodoList::new();
    let a = list.add_todo("A".to_string(), None).unwrap();
    let _b = list.add_todo("B".to_string(), Some(2)).unwrap();
    let i = list.find_index(a).unwrap();
    list.set_completed_at(i, NOW);

    let pending = list.filter_todos(TodoFilter::Pending, NOW);
    assert_eq!(pending.len(), 1);
    assert_eq!(pending[0].description, "B");

    let completed = list.filter_todos(TodoFilter::Completed, NOW);
    assert_eq!(completed.len(), 1);
    assert_eq!(completed[0].description, "A");
}

#[test]
fn test_due_today_scenario() {
    // Setting the due date to "today" leaves the task not overdue and
    // showing under the due-today filter.
    let mut app = App::new(TodoList::new(), NOW);
    app.handle_key(Key::Char('i'), NOW);
    type_line(&mut app, "Water plants");
    assert!(app.handle_key(Key::Enter, NOW));
    assert!(!app.handle_key(Key::Char('u'), NOW));
    assert_eq!(app.input_mode, InputMode::EditingDueDate);
    type_line(&mut app, "today");
    assert!(app.handle_key(Key::Enter, NOW));
    let task = &app.todos.todos[0];
    assert_eq!(task.due_date, Some(NOW));
    assert!(!task.is_overdue_at(NOW));
    let due_today = app.todos.filter_todos(TodoFilter::DueToday, NOW);
    assert_eq!(due_today.len(), 1);
    assert_eq!(due_today[0].description, "Water plants");
}

#[test]
fn test_escape_leaves_title_unchanged() {
    // Escape from title editing, after the buffer was pre-populated with
    // "Old text", leaves the description exactly "Old text".
    let mut list = TodoList::new();
    list.add_todo("Old text".to_string(), None).unwrap();
    let mut app = App::new(list, NOW);
    assert!(!app.handle_key(Key::Char('e'), NOW));
    assert_eq!(app.input_mode, InputMode::Editing);
    assert_eq!(app.input.iter().collect::<String>(), "Old text");
    type_line(&mut app, " changed");
    assert!(!app.handle_key(Key::Esc, NOW));
    assert_eq!(app.input_mode, InputMode::Normal);
    assert_eq!(app.todos.todos[0].description, "Old text");
}

#[test]
fn test_title_edit_commit() {
    let mut list = TodoList::new();
    list.add_todo("before".to_string(), None).unwrap();
    let mut app = App::new(list, NOW);
    app.handle_key(Key::Char('e'), NOW);
    for _ in 0.."before".len() {
        app.handle_key(Key::Backspace, NOW);
    }
    type_line(&mut app, "after");
    assert!(app.handle_key(Key::Enter, NOW));
    assert_eq!(app.todos.todos[0].description, "after");
}

#[test]
fn test_selection_moves_clamp() {
    let mut list = TodoList::new();
    list.add_todo("a".to_string(), None).unwrap();
    list.add_todo("b".to_string(), None).unwrap();
    list.add_todo("c".to_string(), None).unwrap();
    let mut app = App::new(list, NOW);
    assert_eq!(app.selected_index, Some(0));
    app.handle_key(Key::Char('k'), NOW);
    assert_eq!(app.selected_index, Some(0), "moving up from the top stays");
    app.handle_key(Key::Down, NOW);
    assert_eq!(app.selected_index, Some(1));
    app.handle_key(Key::Char('G'), NOW);
    assert_eq!(app.selected_index, Some(2));
    app.handle_key(Key::Char('j'), NOW);
    assert_eq!(app.selected_index, Some(2), "moving down from the bottom stays");
    app.handle_key(Key::Char('g'), NOW);
    assert_eq!(app.selected_index, Some(0));
}

#[test]
fn test_selection_empty_iff_view_empty() {
    let mut app = App::new(TodoList::new(), NOW);
    assert_eq!(app.selected_index, None);
    app.handle_key(Key::Char('i'), NOW);
    type_line(&mut app, "only");
    app.handle_key(Key::Enter, NOW);
    assert_eq!(app.selected_index, Some(0));
    assert!(app.handle_key(Key::Char('d'), NOW));
    assert_eq!(app.todos.todos.len(), 0);
    assert_eq!(app.selected_index, None);
}

#[test]
fn test_selection_after_delete_keeps_position() {
    let mut list = TodoList::new();
    list.add_todo("a".to_string(), None).unwrap();
    list.add_todo("b".to_string(), None).unwrap();
    list.add_todo("c".to_string(), None).unwrap();
    let mut app = App::new(list, NOW);
    app.handle_key(Key::Down, NOW);
    assert_eq!(app.selected_index, Some(1));
    assert!(app.handle_key(Key::Char('d'), NOW));
    // The next task now holds the same view index.
    assert_eq!(app.selected_index, Some(1));
    assert_eq!(app.todos.todos[1].description, "c");
    app.handle_key(Key::Char('G'), NOW);
    assert!(app.handle_key(Key::Char('d'), NOW));
    // The deleted entry was the last visible one: fall back by one.
    assert_eq!(app.selected_index, Some(0));
}

#[test]
fn test_toggle_complete_under_pending_filter() {
    let mut list = TodoList::new();
    list.add_todo("a".to_string(), None).unwrap();
    list.add_todo("b".to_string(), None).unwrap();
    let mut app = App::new(list, NOW);
    app.handle_key(Key::Char('2'), NOW);
    assert_eq!(app.filter, TodoFilter::Pending);
    assert!(app.handle_key(Key::Enter, NOW));
    assert!(app.todos.todos[0].completed);
    // The completed task left the pending view; the selection stays inside.
    assert_eq!(app.selected_index, Some(0));
    assert!(app.handle_key(Key::Enter, NOW));
    assert!(app.todos.todos[1].completed);
    assert_eq!(app.selected_index, None);
}

#[test]
fn test_filter_cycle_returns_to_start() {
    let mut f = TodoFilter::All;
    for _ in 0..11 {
        f = f.next();
    }
    assert_eq!(f, TodoFilter::All);
    assert_eq!(TodoFilter::All.next(), TodoFilter::Pending);
    assert_eq!(TodoFilter::HasDueDate.next(), TodoFilter::All);
}

#[test]
fn test_filter_partition_concrete() {
    let mut list = TodoList::new();
    list.add_todo("a".to_string(), None).unwrap();
    list.add_todo("b".to_string(), None).unwrap();
    list.add_todo("c".to_string(), None).unwrap();
    list.set_completed_at(1, NOW);
    let all: Vec<u32> = list.filter_todos(TodoFilter::All, NOW).iter().map(|t| t.id).collect();
    let mut split: Vec<u32> = list
        .filter_todos(TodoFilter::Pending, NOW)
        .iter()
        .chain(list.filter_todos(TodoFilter::Completed, NOW).iter())
        .map(|t| t.id)
        .collect();
    split.sort();
    assert_eq!(split, all, "completed and pending split the store exactly");
}

#[test]
fn test_filtering_preserves_order() {
    let mut list = TodoList::new();
    for name in ["a", "b", "c", "d", "e"] {
        list.add_todo(name.to_string(), None).unwrap();
    }
    list.set_completed_at(1, NOW);
    list.set_completed_at(3, NOW);
    let all: Vec<String> =
        list.filter_todos(TodoFilter::All, NOW).into_iter().map(|t| t.description).collect();
    assert_eq!(all, vec!["a", "b", "c", "d", "e"]);
    let pending: Vec<String> =
        list.filter_todos(TodoFilter::Pending, NOW).into_iter().map(|t| t.description).collect();
    assert_eq!(pending, vec!["a", "c", "e"], "the view keeps the store's relative order");
    let completed: Vec<String> = list
        .filter_todos(TodoFilter::Completed, NOW)
        .into_iter()
        .map(|t| t.description)
        .collect();
    assert_eq!(completed, vec!["b", "d"]);
}

#[test]
fn test_priority_filters() {
    let mut list = TodoList::new();
    list.add_todo("none".to_string(), None).unwrap();
    list.add_todo("low".to_string(), Some(1)).unwrap();
    list.add_todo("med".to_string(), Some(3)).unwrap();
    list.add_todo("high".to_string(), Some(5)).unwrap();
    assert_eq!(list.filter_todos(TodoFilter::HighPriority, NOW).len(), 1);
    assert_eq!(list.filter_todos(TodoFilter::MediumPriority, NOW).len(), 1);
    assert_eq!(list.filter_todos(TodoFilter::LowPriority, NOW).len(), 1);
    assert_eq!(list.filter_todos(TodoFilter::NoPriority, NOW).len(), 1);
    assert_eq!(list.filter_todos(TodoFilter::NoPriority, NOW)[0].description, "none");
}

#[test]
fn test_due_filters() {
    let mut list = TodoList::new();
    list.add_todo("overdue".to_string(), None).unwrap();
    list.add_todo("soon".to_string(), None).unwrap();
    list.add_todo("later".to_string(), None).unwrap();
    list.add_todo("dateless".to_string(), None).unwrap();
    list.set_due(0, Some(NOW - 10));
    list.set_due(1, Some(NOW + 3600));
    list.set_due(2, Some(NOW + 10 * 86400));
    let overdue = list.filter_todos(TodoFilter::Overdue, NOW);
    assert_eq!(overdue.len(), 1);
    assert_eq!(overdue[0].description, "overdue");
    let soon = list.filter_todos(TodoFilter::DueSoon, NOW);
    assert_eq!(soon.len(), 1);
    assert_eq!(soon[0].description, "soon");
    assert_eq!(list.filter_todos(TodoFilter::HasDueDate, NOW).len(), 3);
    // A completed task is never overdue.
    list.set_completed_at(0, NOW);
    assert_eq!(list.filter_todos(TodoFilter::Overdue, NOW).len(), 0);
}

#[test]
fn test_priority_mode_keystrokes() {
    let mut list = TodoList::new();
    list.add_todo("t".to_string(), None).unwrap();
    let mut app = App::new(list, NOW);
    assert!(!app.handle_key(Key::Char('p'), NOW));
    assert_eq!(app.input_mode, InputMode::SettingPriority);
    assert!(!app.handle_key(Key::Char('x'), NOW));
    assert_eq!(app.input_mode, InputMode::SettingPriority, "invalid keys keep the mode");
    assert!(app.handle_key(Key::Char('5'), NOW));
    assert_eq!(app.todos.todos[0].priority, Some(5));
    assert_eq!(app.input_mode, InputMode::Normal);
    app.handle_key(Key::Char('p'), NOW);
    assert!(app.handle_key(Key::Char('0'), NOW));
    assert_eq!(app.todos.todos[0].priority, None);
}

#[test]
fn test_due_date_invalid_input_keeps_mode() {
    let mut list = TodoList::new();
    list.add_todo("t".to_string(), None).unwrap();
    let mut app = App::new(list, NOW);
    app.handle_key(Key::Char('u'), NOW);
    type_line(&mut app, "not a date");
    assert!(!app.handle_key(Key::Enter, NOW));
    assert_eq!(app.input_mode, InputMode::EditingDueDate, "a bad date keeps the mode active");
    assert_eq!(app.todos.todos[0].due_date, None);
    assert_eq!(
        app.status_message.as_deref(),
        Some("Invalid date format. Use YYYY-MM-DD")
    );
}

#[test]
fn test_due_date_calendar_input() {
    let mut list = TodoList::new();
    list.add_todo("t".to_string(), None).unwrap();
    let mut app = App::new(list, NOW);
    app.handle_key(Key::Char('u'), NOW);
    type_line(&mut app, "2024-12-25");
    assert!(app.handle_key(Key::Enter, NOW));
    // The last second of 2024-12-25.
    assert_eq!(app.todos.todos[0].due_date, Some(1735171199));
    assert_eq!(app.status_message.as_deref(), Some("Due date set to 2024-12-25"));
}

#[test]
fn test_details_edit_and_clear() {
    let mut list = TodoList::new();
    list.add_todo("t".to_string(), None).unwrap();
    let mut app = App::new(list, NOW);
    app.handle_key(Key::Char('D'), NOW);
    assert_eq!(app.input_mode, InputMode::EditingDetails);
    type_line(&mut app, "some notes");
    assert!(app.handle_key(Key::Enter, NOW));
    assert_eq!(app.todos.todos[0].details.as_deref(), Some("some notes"));
    app.handle_key(Key::Char('D'), NOW);
    assert_eq!(app.input.iter().collect::<String>(), "some notes");
    for _ in 0.."some notes".len() {
        app.handle_key(Key::Backspace, NOW);
    }
    assert!(app.handle_key(Key::Enter, NOW));
    assert_eq!(app.todos.todos[0].details, None);
}

#[test]
fn test_quit_keys_and_help_toggle() {
    let mut app = App::new(TodoList::new(), NOW);
    assert!(!app.show_help);
    app.handle_key(Key::Char('h'), NOW);
    assert!(app.show_help);
    app.handle_key(Key::Char('?'), NOW);
    assert!(!app.show_help);
    assert!(!app.should_quit);
    app.handle_key(Key::Char('q'), NOW);
    assert!(app.should_quit);
    let mut app2 = App::new(TodoList::new(), NOW);
    app2.handle_key(Key::CtrlC, NOW);
    assert!(app2.should_quit);
}

#[test]
fn test_line_editor_cursor() {
    let mut app = App::new(TodoList::new(), NOW);
    app.handle_key(Key::Char('i'), NOW);
    type_line(&mut app, "ac");
    app.handle_key(Key::Left, NOW);
    app.handle_key(Key::Char('b'), NOW);
    assert_eq!(app.input.iter().collect::<String>(), "abc");
    app.handle_key(Key::Right, NOW);
    app.handle_key(Key::Backspace, NOW);
    assert_eq!(app.input.iter().collect::<String>(), "ab");
    assert_eq!(app.cursor_position, 2);
}
