//! Statistics over a store, and the three textual export formats: plain
//! lines, a spreadsheet table, and a readable outline. Each export is
//! specified character for character; the surrounding application only
//! writes the finished text out.

use vstd::prelude::*;
use vstd::arithmetic::div_mod::{lemma_div_is_ordered, lemma_div_multiples_vanish};
use crate::task::Todo;
use crate::store::TodoList;
use crate::render::spec_count_completed;
use crate::cli::spec_format_priority;
use crate::date::{spec_format_datetime, format_datetime};
use crate::text::{
    dec_str, append_u32, append_str, append_chars, chars_to_string, string_to_chars,
};

verus! {

/// The concatenation of `f` over the tasks, in store order.
pub open spec fn concat_map(s: Seq<Todo>, f: spec_fn(Todo) -> Seq<char>) -> Seq<char>
    decreases s.len(),
{
    if s.len() == 0 {
        Seq::empty()
    } else {
        concat_map(s.drop_last(), f) + f(s.last())
    }
}

/// How many tasks carry this priority.
pub open spec fn count_priority(s: Seq<Todo>, p: Option<u8>) -> int
    decreases s.len(),
{
    if s.len() == 0 {
        0
    } else {
        count_priority(s.drop_last(), p) + if s.last().priority == p {
            1int
        } else {
            0int
        }
    }
}

/// A summary of the store.
pub struct Stats {
    /// How many tasks there are.
    pub total: usize,
    /// How many are completed.
    pub completed: usize,
    /// How many are pending.
    pub pending: usize,
    /// How many carry no priority.
    pub no_priority: usize,
    /// How many carry each priority, one through five.
    pub by_priority: Vec<usize>,
    /// Completed tasks per thousand, zero for an empty store.
    pub completion_permille: u32,
    /// The store index of the earliest-created pending task, if any: the
    /// first one whose creation time no other pending task undercuts.
    pub oldest_pending: Option<usize>,
}

/// What a summary must say about its store.
pub open spec fn stats_ok(r: Stats, s: Seq<Todo>) -> bool {
    &&& r.total == s.len()
    &&& r.completed as int == spec_count_completed(s)
    &&& r.pending as int == s.len() - spec_count_completed(s)
    &&& r.no_priority as int == count_priority(s, None)
    &&& r.by_priority@.len() == 5
    &&& forall|p: int|
        1 <= p <= 5 ==> (#[trigger] r.by_priority@[p - 1]) as int == count_priority(
            s,
            Some(p as u8),
        )
    &&& (if s.len() == 0 {
        r.completion_permille == 0
    } else {
        r.completion_permille as int == spec_count_completed(s) * 1000 / (s.len() as int)
    })
    &&& match r.oldest_pending {
        None => forall|j: int| 0 <= j < s.len() ==> (#[trigger] s[j]).completed,
        Some(i) => {
            &&& i < s.len()
            &&& !s[i as int].completed
            &&& forall|j: int|
                0 <= j < s.len() && !(#[trigger] s[j]).completed ==> s[i as int].created_at
                    <= s[j].created_at
            &&& forall|j: int|
                0 <= j < i && !(#[trigger] s[j]).completed ==> s[i as int].created_at
                    < s[j].created_at
        },
    }
}

/// Summarises a store: the counts, the completion rate, the priority
/// breakdown, and the earliest-created pending task.
pub fn compute_stats(l: &TodoList) -> (r: Stats)
    ensures
        stats_ok(r, l.todos@),
    {
    let s = &l.todos;
    let total = s.len();
    let mut completed: usize = 0;
    let mut no_priority: usize = 0;
    let mut p1: usize = 0;
    let mut p2: usize = 0;
    let mut p3: usize = 0;
    let mut p4: usize = 0;
    let mut p5: usize = 0;
    let mut oldest: Option<usize> = None;
    let mut k: usize = 0;
    while k < total
        invariant
            0 <= k <= total,
            total == s@.len(),
            completed as int == spec_count_completed(s@.subrange(0, k as int)),
            completed <= k,
            no_priority as int == count_priority(s@.subrange(0, k as int), None),
            no_priority <= k,
            p1 as int == count_priority(s@.subrange(0, k as int), Some(1u8)),
            p2 as int == count_priority(s@.subrange(0, k as int), Some(2u8)),
            p3 as int == count_priority(s@.subrange(0, k as int), Some(3u8)),
            p4 as int == count_priority(s@.subrange(0, k as int), Some(4u8)),
            p5 as int == count_priority(s@.subrange(0, k as int), Some(5u8)),
            p1 <= k && p2 <= k && p3 <= k && p4 <= k && p5 <= k,
            match oldest {
                None => forall|j: int| 0 <= j < k ==> (#[trigger] s@[j]).completed,
                Some(i) => {
                    &&& i < k
                    &&& !s@[i as int].completed
                    &&& forall|j: int|
                        0 <= j < k && !(#[trigger] s@[j]).completed ==> s@[i as int].created_at
                            <= s@[j].created_at
                    &&& forall|j: int|
                        0 <= j < i && !(#[trigger] s@[j]).completed ==> s@[i as int].created_at
                            < s@[j].created_at
                },
            },
        decreases total - k,
    {
        proof {
            assert(s@.subrange(0, k + 1 as int).drop_last() =~= s@.subrange(0, k as int));
            assert(s@.subrange(0, k + 1 as int).last() == s@[k as int]);
        }
        let t = &s[k];
        if t.completed {
            completed += 1;
        } else {
            match oldest {
                None => {
                    oldest = Some(k);
                },
                Some(i) => {
                    if t.created_at < s[i].created_at {
                        oldest = Some(k);
                    }
                },
            }
        }
        match t.priority {
            None => {
                no_priority += 1;
            },
            Some(p) => {
                if p == 1 {
                    p1 += 1;
                } else if p == 2 {
                    p2 += 1;
                } else if p == 3 {
                    p3 += 1;
                } else if p == 4 {
                    p4 += 1;
                } else if p == 5 {
                    p5 += 1;
                }
            },
        }
        k += 1;
    }
    proof {
        assert(s@.subrange(0, total as int) =~= s@);
    }
    let completion_permille: u32 = if total == 0 {
        0
    } else {
        proof {
            lemma_div_is_ordered(
                (completed as int) * 1000,
                (total as int) * 1000,
                total as int,
            );
            lemma_div_multiples_vanish(1000, total as int);
            assert((total as int) * 1000 == (total as int) * 1000);
        }
        let q: u128 = (completed as u128) * 1000 / (total as u128);
        q as u32
    };
    let mut by_priority: Vec<usize> = Vec::new();
    by_priority.push(p1);
    by_priority.push(p2);
    by_priority.push(p3);
    by_priority.push(p4);
    by_priority.push(p5);
    Stats {
        total,
        completed,
        pending: total - completed,
        no_priority,
        by_priority,
        completion_permille,
        oldest_pending: oldest,
    }
}

/// One line of the plain export: a done marker, the id, the description.
pub open spec fn spec_text_line(t: Todo) -> Seq<char> {
    (if t.completed {
        "[DONE]"@
    } else {
        "[TODO]"@
    }) + " #"@ + dec_str(t.id as int) + ": "@ + t.description@ + "\n"@
}

/// The plain export: one line per task, in store order.
pub open spec fn spec_text_export(s: Seq<Todo>) -> Seq<char> {
    concat_map(s, |t: Todo| spec_text_line(t))
}

/// Writes the plain export.
pub fn generate_text(l: &TodoList) -> (r: String)
    ensures
        r@ == spec_text_export(l.todos@),
{
    let ghost f = |t: Todo| spec_text_line(t);
    let mut out: Vec<char> = Vec::new();
    let mut k: usize = 0;
    proof {
        assert(l.todos@.subrange(0, 0) =~= Seq::<Todo>::empty());
        assert(out@ =~= concat_map(l.todos@.subrange(0, 0), f));
    }
    while k < l.todos.len()
        invariant
            0 <= k <= l.todos@.len(),
            out@ == concat_map(l.todos@.subrange(0, k as int), (|t: Todo| spec_text_line(t))),
        decreases l.todos@.len() - k,
    {
        let t = &l.todos[k];
        if t.completed {
            append_str(&mut out, "[DONE]");
        } else {
            append_str(&mut out, "[TODO]");
        }
        append_str(&mut out, " #");
        append_u32(&mut out, t.id);
        append_str(&mut out, ": ");
        append_str(&mut out, t.description.as_str());
        append_str(&mut out, "\n");
        proof {
            assert(l.todos@.subrange(0, k + 1 as int).drop_last() =~= l.todos@.subrange(
                0,
                k as int,
            ));
            assert(l.todos@.subrange(0, k + 1 as int).last() == l.todos@[k as int]);
            assert(out@ =~= concat_map(
                l.todos@.subrange(0, k + 1 as int),
                (|t: Todo| spec_text_line(t)),
            ));
        }
        k += 1;
    }
    proof {
        assert(l.todos@.subrange(0, l.todos@.len() as int) =~= l.todos@);
    }
    chars_to_string(&out)
}

/// A description with every double quote doubled, as the table format
/// requires.
pub open spec fn csv_escape(s: Seq<char>) -> Seq<char>
    decreases s.len(),
{
    if s.len() == 0 {
        Seq::empty()
    } else {
        csv_escape(s.drop_last()) + (if s.last() == '"' {
            seq!['"', '"']
        } else {
            seq![s.last()]
        })
    }
}

/// Appends a description with its double quotes doubled.
fn append_csv_escaped(out: &mut Vec<char>, s: &str)
    ensures
        final(out)@ == old(out)@ + csv_escape(s@),
{
    let n = s.unicode_len();
    let mut k: usize = 0;
    proof {
        assert(s@.subrange(0, 0) =~= Seq::<char>::empty());
        assert(out@ =~= old(out)@ + csv_escape(s@.subrange(0, 0)));
    }
    while k < n
        invariant
            0 <= k <= n,
            n == s@.len(),
            out@ == old(out)@ + csv_escape(s@.subrange(0, k as int)),
        decreases n - k,
    {
        let c = s.get_char(k);
        if c == '"' {
            out.push('"');
            out.push('"');
        } else {
            out.push(c);
        }
        proof {
            assert(s@.subrange(0, k + 1 as int).drop_last() =~= s@.subrange(0, k as int));
            assert(s@.subrange(0, k + 1 as int).last() == s@[k as int]);
            assert(out@ =~= old(out)@ + csv_escape(s@.subrange(0, k + 1 as int)));
        }
        k += 1;
    }
    proof {
        assert(s@.subrange(0, s@.len() as int) =~= s@);
    }
}

/// One row of the table export: id, quoted description, priority,
/// completion flag, and the two timestamps.
pub open spec fn spec_csv_line(t: Todo) -> Seq<char> {
    dec_str(t.id as int) + ",\""@ + csv_escape(t.description@) + "\","@ + (match t.priority {
        Some(p) => dec_str(p as int),
        None => Seq::<char>::empty(),
    }) + ","@ + (if t.completed {
        "true"@
    } else {
        "false"@
    }) + ","@ + spec_format_datetime(t.created_at as int, true) + ","@ + (match t.completed_at {
        Some(ts) => spec_format_datetime(ts as int, true),
        None => Seq::<char>::empty(),
    }) + "\n"@
}

/// The header row of the table export.
pub open spec fn spec_csv_header() -> Seq<char> {
    "ID,Description,Priority,Completed,Created,Completed At\n"@
}

/// The table export: the header, then one row per task in store order.
pub open spec fn spec_csv_export(s: Seq<Todo>) -> Seq<char> {
    spec_csv_header() + concat_map(s, |t: Todo| spec_csv_line(t))
}

/// Writes the table export.
#[verifier::rlimit(50)]
pub fn generate_csv(l: &TodoList) -> (r: String)
    ensures
        r@ == spec_csv_export(l.todos@),
{
    let mut out: Vec<char> = string_to_chars(
        "ID,Description,Priority,Completed,Created,Completed At\n",
    );
    let mut k: usize = 0;
    proof {
        assert(l.todos@.subrange(0, 0) =~= Seq::<Todo>::empty());
        assert(out@ =~= spec_csv_header() + concat_map(
            l.todos@.subrange(0, 0),
            (|t: Todo| spec_csv_line(t)),
        ));
    }
    while k < l.todos.len()
        invariant
            0 <= k <= l.todos@.len(),
            out@ == spec_csv_header() + concat_map(
                l.todos@.subrange(0, k as int),
                (|t: Todo| spec_csv_line(t)),
            ),
        decreases l.todos@.len() - k,
    {
        let t = &l.todos[k];
        let mut row: Vec<char> = Vec::new();
        append_u32(&mut row, t.id);
        append_str(&mut row, ",\"");
        append_csv_escaped(&mut row, t.description.as_str());
        append_str(&mut row, "\",");
        match t.priority {
            Some(p) => {
                append_u32(&mut row, p as u32);
            },
            None => {},
        }
        append_str(&mut row, ",");
        if t.completed {
            append_str(&mut row, "true");
        } else {
            append_str(&mut row, "false");
        }
        append_str(&mut row, ",");
        let created = format_datetime(t.created_at, true);
        append_chars(&mut row, &created);
        append_str(&mut row, ",");
        match t.completed_at {
            Some(ts) => {
                let done = format_datetime(ts, true);
                append_chars(&mut row, &done);
            },
            None => {},
        }
        append_str(&mut row, "\n");
        proof {
            assert(row@ =~= spec_csv_line(l.todos@[k as int]));
        }
        append_chars(&mut out, &row);
        proof {
            assert(l.todos@.subrange(0, k + 1 as int).drop_last() =~= l.todos@.subrange(
                0,
                k as int,
            ));
            assert(l.todos@.subrange(0, k + 1 as int).last() == l.todos@[k as int]);
            assert(out@ =~= spec_csv_header() + concat_map(
                l.todos@.subrange(0, k + 1 as int),
                (|t: Todo| spec_csv_line(t)),
            ));
        }
        k += 1;
    }
    proof {
        assert(l.todos@.subrange(0, l.todos@.len() as int) =~= l.todos@);
    }
    chars_to_string(&out)
}

/// One pending line of the outline export, empty for a completed task.
pub open spec fn spec_md_pending_line(t: Todo) -> Seq<char> {
    if t.completed {
        Seq::empty()
    } else {
        "- [ ] [#"@ + dec_str(t.id as int) + "] "@ + t.description@ + (match t.priority {
            Some(p) => " _"@ + spec_format_priority(Some(p)) + "_"@,
            None => Seq::<char>::empty(),
        }) + "\n"@
    }
}

/// One completed line of the outline export, empty for a pending task.
pub open spec fn spec_md_completed_line(t: Todo) -> Seq<char> {
    if t.completed {
        "- [x] [#"@ + dec_str(t.id as int) + "] "@ + t.description@ + "\n"@
    } else {
        Seq::empty()
    }
}

/// The outline export: the heading, then the pending and the completed
/// section; a fixed phrase when the store is empty.
pub open spec fn spec_md_export(s: Seq<Todo>) -> Seq<char> {
    if s.len() == 0 {
        "# Todo List\n\n"@ + "No todos.\n"@
    } else {
        "# Todo List\n\n"@ + "## Pending\n\n"@ + concat_map(s, |t: Todo| spec_md_pending_line(t))
            + "\n## Completed\n\n"@ + concat_map(s, |t: Todo| spec_md_completed_line(t))
    }
}

/// Writes the outline export.
#[verifier::rlimit(50)]
pub fn generate_markdown(l: &TodoList) -> (r: String)
    ensures
        r@ == spec_md_export(l.todos@),
{
    let mut out: Vec<char> = string_to_chars("# Todo List\n\n");
    if l.todos.len() == 0 {
        append_str(&mut out, "No todos.\n");
        return chars_to_string(&out);
    }
    append_str(&mut out, "## Pending\n\n");
    let ghost header = "# Todo List\n\n"@ + "## Pending\n\n"@;
    let mut k: usize = 0;
    proof {
        assert(l.todos@.subrange(0, 0) =~= Seq::<Todo>::empty());
        assert(out@ =~= header + concat_map(
            l.todos@.subrange(0, 0),
            (|t: Todo| spec_md_pending_line(t)),
        ));
    }
    while k < l.todos.len()
        invariant
            0 <= k <= l.todos@.len(),
            out@ == header + concat_map(
                l.todos@.subrange(0, k as int),
                (|t: Todo| spec_md_pending_line(t)),
            ),
            header == "# Todo List\n\n"@ + "## Pending\n\n"@,
        decreases l.todos@.len() - k,
    {
        let t = &l.todos[k];
        if !t.completed {
            append_str(&mut out, "- [ ] [#");
            append_u32(&mut out, t.id);
            append_str(&mut out, "] ");
            append_str(&mut out, t.description.as_str());
            match t.priority {
                Some(p) => {
                    append_str(&mut out, " _");
                    let pr = crate::cli::format_priority(Some(p));
                    append_str(&mut out, pr.as_str());
                    append_str(&mut out, "_");
                },
                None => {},
            }
            append_str(&mut out, "\n");
        }
        proof {
            assert(l.todos@.subrange(0, k + 1 as int).drop_last() =~= l.todos@.subrange(
                0,
                k as int,
            ));
            assert(l.todos@.subrange(0, k + 1 as int).last() == l.todos@[k as int]);
            assert(out@ =~= header + concat_map(
                l.todos@.subrange(0, k + 1 as int),
                (|t: Todo| spec_md_pending_line(t)),
            ));
        }
        k += 1;
    }
    append_str(&mut out, "\n## Completed\n\n");
    let ghost header2 = header + concat_map(l.todos@, |t: Todo| spec_md_pending_line(t))
        + "\n## Completed\n\n"@;
    proof {
        assert(l.todos@.subrange(0, l.todos@.len() as int) =~= l.todos@);
        assert(out@ =~= header2 + concat_map(
            l.todos@.subrange(0, 0),
            (|t: Todo| spec_md_completed_line(t)),
        ));
    }
    let mut k2: usize = 0;
    while k2 < l.todos.len()
        invariant
            0 <= k2 <= l.todos@.len(),
            out@ == header2 + concat_map(
                l.todos@.subrange(0, k2 as int),
                (|t: Todo| spec_md_completed_line(t)),
            ),
            header2 == "# Todo List\n\n"@ + "## Pending\n\n"@ + concat_map(
                l.todos@,
                (|t: Todo| spec_md_pending_line(t)),
            ) + "\n## Completed\n\n"@,
        decreases l.todos@.len() - k2,
    {
        let t = &l.todos[k2];
        if t.completed {
            append_str(&mut out, "- [x] [#");
            append_u32(&mut out, t.id);
            append_str(&mut out, "] ");
            append_str(&mut out, t.description.as_str());
            append_str(&mut out, "\n");
        }
        proof {
            assert(l.todos@.subrange(0, k2 + 1 as int).drop_last() =~= l.todos@.subrange(
                0,
                k2 as int,
            ));
            assert(l.todos@.subrange(0, k2 + 1 as int).last() == l.todos@[k2 as int]);
            assert(out@ =~= header2 + concat_map(
                l.todos@.subrange(0, k2 + 1 as int),
                (|t: Todo| spec_md_completed_line(t)),
            ));
        }
        k2 += 1;
    }
    proof {
        assert(l.todos@.subrange(0, l.todos@.len() as int) =~= l.todos@);
        assert(out@ =~= spec_md_export(l.todos@));
    }
    chars_to_string(&out)
}

} // verus!
