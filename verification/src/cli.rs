//! The scripted command surface's value types and pure helpers: the filter
//! and export-format choices an invocation can name, priority formatting,
//! and the reading of a yes/no answer. Argument parsing itself and the
//! prompt's input live in the surrounding application.

use vstd::prelude::*;
use crate::filter::TodoFilter;
use crate::text::{trimmed, trim_chars, string_to_chars, lower_char};

verus! {

/// The filter choices the list command accepts.
#[derive(Debug, Clone, Copy, PartialEq, Eq, Structural)]
pub enum FilterArg {
    /// Show all tasks.
    All,
    /// Show only completed tasks.
    Completed,
    /// Show only pending tasks.
    Pending,
}

impl From<FilterArg> for TodoFilter {
    /// Maps a command-line filter choice onto the filter engine's own.
    fn from(arg: FilterArg) -> (r: TodoFilter) {
        match arg {
            FilterArg::All => TodoFilter::All,
            FilterArg::Completed => TodoFilter::Completed,
            FilterArg::Pending => TodoFilter::Pending,
        }
    }
}

impl vstd::std_specs::convert::FromSpecImpl<FilterArg> for TodoFilter {
    open spec fn obeys_from_spec() -> bool {
        true
    }

    open spec fn from_spec(arg: FilterArg) -> TodoFilter {
        match arg {
            FilterArg::All => TodoFilter::All,
            FilterArg::Completed => TodoFilter::Completed,
            FilterArg::Pending => TodoFilter::Pending,
        }
    }
}

/// The formats an export can be written in.
#[derive(Debug, Clone, Copy, PartialEq, Eq, Structural)]
pub enum ExportFormat {
    /// The persistence format itself.
    Json,
    /// A readable outline.
    Markdown,
    /// A spreadsheet table.
    Csv,
    /// Plain lines.
    Text,
}

/// The display text of a priority value.
pub open spec fn spec_format_priority(priority: Option<u8>) -> Seq<char> {
    match priority {
        Some(1u8) => "🔵 Low"@,
        Some(2u8) => "🟢 Normal"@,
        Some(3u8) => "🟡 Medium"@,
        Some(4u8) => "🟠 High"@,
        Some(5u8) => "🔴 Critical"@,
        Some(p) => "Priority "@ + crate::text::dec_str(p as int),
        None => "No priority"@,
    }
}

/// Formats a priority for display: a coloured dot and the level's word,
/// a plain fallback outside the band, a fixed phrase for none.
pub fn format_priority(priority: Option<u8>) -> (r: String)
    ensures
        r@ == spec_format_priority(priority),
{
    match priority {
        Some(p) => {
            if p == 1 {
                String::from_str("🔵 Low")
            } else if p == 2 {
                String::from_str("🟢 Normal")
            } else if p == 3 {
                String::from_str("🟡 Medium")
            } else if p == 4 {
                String::from_str("🟠 High")
            } else if p == 5 {
                String::from_str("🔴 Critical")
            } else {
                let mut out = string_to_chars("Priority ");
                crate::text::append_u32(&mut out, p as u32);
                crate::text::chars_to_string(&out)
            }
        },
        None => String::from_str("No priority"),
    }
}

/// Whether an answer counts as a yes: its first visible character, case
/// folded, is a `y`.
pub open spec fn spec_is_affirmative(s: Seq<char>) -> bool {
    trimmed(s).len() > 0 && lower_char(trimmed(s)[0]) == 'y'
}

/// Reads a confirmation answer: yes exactly when the first visible
/// character is `y` or `Y`.
pub fn is_affirmative(s: &str) -> (r: bool)
    ensures
        r == spec_is_affirmative(s@),
{
    let chars = string_to_chars(s);
    let t = trim_chars(&chars);
    if t.len() == 0 {
        return false;
    }
    let c = crate::text::to_lower_char(t[0]);
    c == 'y'
}

} // verus!
