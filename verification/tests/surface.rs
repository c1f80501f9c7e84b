// Tests for the command-surface helpers, the calendar arithmetic, the
// exports, the render planner, the palette, and the animation helpers.

use rust_todo::store::TodoList;
use rust_todo::filter::TodoFilter;
use rust_todo::cli::{FilterArg, format_priority, is_affirmative};
use rust_todo::controller::{App, InputMode, Key};
use rust_todo::task::Todo;
use rust_todo::export::{compute_stats, generate_text, generate_csv, generate_markdown};
use rust_todo::date::{parse_date_chars, format_date, format_datetime, day_of_timestamp};
use rust_todo::render::{plan_render, help_entries, DueUrgency};
use rust_todo::theme::{Theme, BorderSet, Icons, Rgb};
use rust_todo::animation::{Spinner, ProgressBar, ScrollIndicator, Transition};

// A clock reading inside the calendar day 2024-03-01.
const NOW: i64 = 1709300000;

fn chars(s: &str) -> Vec<char> {
    s.chars().collect()
}

#[test]
fn test_filter_arg_conversion() {
    assert_eq!(TodoFilter::from(FilterArg::All), TodoFilter::All);
    assert_eq!(TodoFilter::from(FilterArg::Completed), TodoFilter::Completed);
    assert_eq!(TodoFilter::from(FilterArg::Pending), TodoFilter::Pending);
}

#[test]
fn test_format_priority() {
    assert_eq!(format_priority(Some(1)), "🔵 Low");
    assert_eq!(format_priority(Some(5)), "🔴 Critical");
    assert_eq!(format_priority(None), "No priority");
}

#[test]
fn test_confirmation_parsing() {
    let test_cases = vec![
        ("y", true),
        ("Y", true),
        ("yes", true),
        ("YES", true),
        ("n", false),
        ("N", false),
        ("no", false),
        ("", false),
        ("maybe", false),
    ];

    for (input, expected) in test_cases {
        let result = is_affirmative(input);
        assert_eq!(result, expected, "Failed for input: {}", input);
    }
}

#[test]
fn test_parse_date() {
    // The last second of the named day.
    assert_eq!(parse_date_chars(&chars("2024-03-01")), Some(1709337599));
    assert_eq!(parse_date_chars(&chars("2024-02-29")), Some(1709251199));
    assert_eq!(parse_date_chars(&chars("2023-02-29")), None);
    assert_eq!(parse_date_chars(&chars("2024-13-01")), None);
    assert_eq!(parse_date_chars(&chars("2024-00-10")), None);
    assert_eq!(parse_date_chars(&chars("2024-04-31")), None);
    assert_eq!(parse_date_chars(&chars("24-04-01")), None);
    assert_eq!(parse_date_chars(&chars("2024/04/01")), None);
    assert_eq!(parse_date_chars(&chars("1970-01-01")), Some(86399));
    assert_eq!(parse_date_chars(&chars("1969-12-31")), Some(-1));
}

#[test]
fn test_format_date_round_trip() {
    let ts = parse_date_chars(&chars("2024-03-01")).unwrap();
    assert_eq!(format_date(ts).iter().collect::<String>(), "2024-03-01");
    assert_eq!(
        format_datetime(ts, true).iter().collect::<String>(),
        "2024-03-01 23:59:59"
    );
    assert_eq!(
        format_datetime(1709300000, false).iter().collect::<String>(),
        "2024-03-01 13:33"
    );
    assert_eq!(format_date(0).iter().collect::<String>(), "1970-01-01");
    assert_eq!(format_date(-1).iter().collect::<String>(), "1969-12-31");
}

#[test]
fn test_calendar_round_trip_sweep() {
    // Formatting the timestamp of a day and parsing it back lands on the
    // same day, across several decades including leap years.
    let mut day: i64 = -3000;
    while day < 40000 {
        let ts = day * 86400;
        let text: String = format_date(ts).iter().collect();
        let parsed = parse_date_chars(&text.chars().collect()).expect(&text);
        assert_eq!(day_of_timestamp(parsed), day, "round trip failed for {}", text);
        day += 7;
    }
}

#[test]
fn test_day_of_timestamp() {
    assert_eq!(day_of_timestamp(0), 0);
    assert_eq!(day_of_timestamp(86399), 0);
    assert_eq!(day_of_timestamp(86400), 1);
    assert_eq!(day_of_timestamp(-1), -1);
    assert_eq!(day_of_timestamp(-86400), -1);
    assert_eq!(day_of_timestamp(-86401), -2);
}

#[test]
fn test_due_labels() {
    let mut t = Todo::new(1, "x".to_string(), None);
    t.due_date = Some(NOW);
    assert_eq!(t.format_due_date_at(NOW).as_deref(), Some("Today"));
    t.due_date = Some(NOW + 86400);
    assert_eq!(t.format_due_date_at(NOW).as_deref(), Some("Tomorrow"));
    t.due_date = Some(1735171199);
    assert_eq!(t.format_due_date_at(NOW).as_deref(), Some("Dec 25"));
    t.due_date = None;
    assert_eq!(t.format_due_date_at(NOW), None);
}

#[test]
fn test_stats() {
    let mut list = TodoList::new();
    list.add_todo("one".to_string(), None).unwrap();
    list.add_todo("two".to_string(), Some(5)).unwrap();
    list.add_todo("three".to_string(), Some(5)).unwrap();
    list.add_todo("four".to_string(), Some(1)).unwrap();
    list.set_completed_at(0, NOW);
    // Make the second task the oldest pending one.
    list.todos[1].created_at = -50;
    list.todos[2].created_at = 10;
    list.todos[3].created_at = 10;
    let stats = compute_stats(&list);
    assert_eq!(stats.total, 4);
    assert_eq!(stats.completed, 1);
    assert_eq!(stats.pending, 3);
    assert_eq!(stats.no_priority, 1);
    assert_eq!(stats.by_priority, vec![1, 0, 0, 0, 2]);
    assert_eq!(stats.completion_permille, 250);
    assert_eq!(stats.oldest_pending, Some(1));
}

#[test]
fn test_stats_empty() {
    let list = TodoList::new();
    let stats = compute_stats(&list);
    assert_eq!(stats.total, 0);
    assert_eq!(stats.completion_permille, 0);
    assert_eq!(stats.oldest_pending, None);
}

#[test]
fn test_generate_text() {
    let mut list = TodoList::new();
    list.add_todo("first".to_string(), None).unwrap();
    list.add_todo("second".to_string(), None).unwrap();
    list.set_completed_at(0, NOW);
    assert_eq!(generate_text(&list), "[DONE] #1: first\n[TODO] #2: second\n");
}

#[test]
fn test_generate_csv() {
    let mut list = TodoList::new();
    list.add_todo("say \"hi\"".to_string(), Some(3)).unwrap();
    list.todos[0].created_at = 1709337599;
    let csv = generate_csv(&list);
    assert!(csv.starts_with("ID,Description,Priority,Completed,Created,Completed At\n"));
    assert_eq!(
        csv,
        "ID,Description,Priority,Completed,Created,Completed At\n1,\"say \"\"hi\"\"\",3,false,2024-03-01 23:59:59,\n"
    );
}

#[test]
fn test_generate_markdown() {
    let mut list = TodoList::new();
    list.add_todo("open".to_string(), Some(1)).unwrap();
    list.add_todo("shut".to_string(), None).unwrap();
    list.set_completed_at(1, NOW);
    let md = generate_markdown(&list);
    assert!(md.contains("# Todo List"));
    assert!(md.contains("## Pending"));
    assert!(md.contains("- [ ] [#1] open _🔵 Low_"));
    assert!(md.contains("## Completed"));
    assert!(md.contains("- [x] [#2] shut"));
    assert_eq!(generate_markdown(&TodoList::new()), "# Todo List\n\nNo todos.\n");
}

#[test]
fn test_render_plan() {
    let mut list = TodoList::new();
    list.add_todo("visible".to_string(), Some(2)).unwrap();
    list.add_todo("late".to_string(), None).unwrap();
    list.set_due(1, Some(NOW - 100));
    let mut app = App::new(list, NOW);
    app.show_details = true;
    app.todos.set_details(0, Some("notes".to_string()));
    let plan = plan_render(&app, NOW);
    assert_eq!(plan.title.app_name, "Rust Todo");
    assert_eq!(plan.title.filter_name, "All Tasks");
    assert_eq!(plan.rows.len(), 2);
    assert_eq!(plan.rows[0].id, 1);
    assert_eq!(plan.rows[0].description, "visible");
    assert_eq!(plan.rows[0].priority, Some(2));
    assert!(plan.rows[0].selected);
    assert_eq!(plan.rows[0].details.as_deref(), Some("notes"));
    assert_eq!(plan.rows[0].due_urgency, DueUrgency::Calm);
    assert_eq!(plan.rows[1].due_urgency, DueUrgency::Late);
    assert_eq!(plan.rows[1].due_label.as_deref(), Some("Today"));
    assert!(!plan.rows[1].selected);
    assert_eq!(plan.status.mode_text, "NORMAL");
    assert_eq!(plan.status.total, 2);
    assert_eq!(plan.status.completed, 0);
    assert_eq!(plan.status.pending, 2);
    assert!(!plan.show_help);
    assert_eq!(plan.input.label, "Commands (press 'i' to add todo)");
    assert!(!plan.input.active);
    assert!(!plan.input.show_cursor);
}

#[test]
fn test_render_plan_input_modes() {
    let mut app = App::new(TodoList::new(), NOW);
    app.handle_key(Key::Char('i'), NOW);
    assert_eq!(app.input_mode, InputMode::Insert);
    for c in "abc".chars() {
        app.handle_key(Key::Char(c), NOW);
    }
    let plan = plan_render(&app, NOW);
    assert_eq!(plan.input.label, "Adding Todo (use :1-5 for priority | Esc to cancel)");
    assert!(plan.input.active);
    assert!(plan.input.show_cursor);
    assert_eq!(plan.input.buffer, "abc");
    assert_eq!(plan.input.cursor, 3);
    assert_eq!(plan.status.mode_text, "INSERT");
}

#[test]
fn test_help_entries() {
    let entries = help_entries();
    assert_eq!(entries.len(), 25);
    assert!(entries[0].heading);
    assert_eq!(entries[0].text, "Navigation");
    assert_eq!(entries[1].key, "j/↓");
    assert_eq!(entries[23].key, "q");
    assert_eq!(entries[23].text, "Save and quit");
    assert_eq!(entries[24].key, "Esc");
}

#[test]
fn test_theme_palette() {
    let dark = Theme::modern_dark();
    assert_eq!(dark.primary, Rgb { red: 147, green: 51, blue: 234 });
    assert_eq!(dark.priority_color(Some(1)), dark.priority_lowest);
    assert_eq!(dark.priority_color(Some(5)), dark.priority_highest);
    assert_eq!(dark.priority_color(None), dark.text_muted);
    assert_eq!(dark.priority_color(Some(9)), dark.text_muted);
    let done = dark.completed_style();
    assert!(done.crossed_out && done.dim && !done.bold);
    assert_eq!(done.fg, Some(dark.text_muted));
    let sel = dark.selected_style();
    assert!(sel.bold);
    assert_eq!(sel.bg, Some(dark.bg_highlight));
    assert_eq!(dark.border_style(true).fg, Some(dark.accent));
    assert_eq!(dark.border_style(false).fg, Some(dark.bg_highlight));
    let pastel = Theme::soft_pastel();
    assert_eq!(pastel.bg_primary, Rgb { red: 249, green: 250, blue: 251 });
    let neon = Theme::cyberpunk();
    assert_eq!(neon.accent, Rgb { red: 0, green: 255, blue: 255 });
}

#[test]
fn test_border_sets_and_icons() {
    assert_eq!(BorderSet::rounded().top_left, "╭");
    assert_eq!(BorderSet::double().horizontal, "═");
    assert_eq!(BorderSet::thick().vertical, "┃");
    assert_eq!(Icons::checkbox_checked(), "▣");
    assert_eq!(Icons::checkbox_empty(), "□");
}

#[test]
fn test_spinner_tick() {
    let mut s = Spinner::modern();
    let first = s.tick(0).to_string();
    assert_eq!(first, "⠋", "no advance before the hold time passes");
    let second = s.tick(80).to_string();
    assert_eq!(second, "⠙", "the frame advances after the hold time");
    assert_eq!(s.current_frame, 1);
    let mut c = Spinner::circle();
    for k in 1..=4u64 {
        c.tick(k * 120);
    }
    assert_eq!(c.current_frame, 0, "the frames wrap around");
    assert_eq!(Spinner::dots().frames.len(), 8);
}

#[test]
fn test_progress_bar() {
    let half = ProgressBar::render(1, 2, 10);
    assert_eq!(half.len(), 10);
    assert_eq!(half[4], '█');
    assert_eq!(half[5], '░');
    let empty = ProgressBar::render(0, 5, 4);
    assert!(empty.iter().all(|&c| c == '░'));
    let full = ProgressBar::render(5, 5, 4);
    assert!(full.iter().all(|&c| c == '█'));
}

#[test]
fn test_scroll_indicator() {
    assert_eq!(ScrollIndicator::render(0, 3, 5).len(), 0, "everything fits on screen");
    let bars = ScrollIndicator::render(9, 10, 4);
    assert_eq!(bars.len(), 4);
    assert_eq!(bars[3], "◆");
    assert_eq!(bars[0], "│");
    assert_eq!(ScrollIndicator::mini(0, 0), "");
    assert_eq!(ScrollIndicator::mini(0, 10), "▁");
    assert_eq!(ScrollIndicator::mini(9, 10), "█");
}

#[test]
fn test_transition() {
    let t = Transition::new(200);
    assert!(!t.is_complete(0));
    assert!(!t.is_complete(199));
    assert!(t.is_complete(200));
    assert_eq!(t.progress_permille(0), 0);
    assert_eq!(t.progress_permille(100), 500);
    assert_eq!(t.progress_permille(400), 1000);
    let instant = Transition::new(0);
    assert!(instant.is_complete(0));
    assert_eq!(instant.progress_permille(0), 1000);
    assert_eq!(t.progress_permille(50), 250);
    assert_eq!(t.ease_in_out_permille(50), 125, "quadratic ease-in at a quarter");
    assert_eq!(t.ease_in_out_permille(100), 500, "the easing meets halfway");
    assert_eq!(t.ease_in_out_permille(400), 1000);
}

#[test]
fn test_filter_names() {
    assert_eq!(TodoFilter::All.name(), "All Tasks");
    assert_eq!(TodoFilter::HighPriority.name(), "High Priority (4-5)");
    assert_eq!(TodoFilter::DueSoon.name(), "Due Soon (24h)");
    assert_eq!(TodoFilter::HasDueDate.name(), "Has Due Date");
}
