//! Which assistant tools a project is set up for: turning a selection into the
//! command-line argument, and reading the supported tools out of the help text.

use crate::errors::OpenSpecCommandError;
use crate::text::{
    copy_range, find, find_chars, from_chars, join, join_chars, matches_at, rows, split_chars,
    split_on, starts_with, starts_with_chars, texts, to_chars, trim, trim_chars,
};
use vstd::prelude::*;
use vstd::string::StringExecFns;

verus! {

/// How the tools of a new project are chosen.
#[derive(Debug)]
pub enum OpenSpecToolsMode {
    All,
    Custom,
    /// No tool at all.
    NoTools,
}

/// The names that count in a custom selection: each name trimmed, blank ones
/// left out, in the order given.
pub open spec fn selected_tools(tools: Seq<Seq<char>>) -> Seq<Seq<char>>
    decreases tools.len(),
{
    if tools.len() == 0 {
        Seq::empty()
    } else {
        let earlier = selected_tools(tools.drop_last());
        let name = trim(tools.last());
        if name.len() > 0 {
            earlier.push(name)
        } else {
            earlier
        }
    }
}

/// The value of the `--tools` argument, where the selection allows one.
pub open spec fn tools_arg(mode: OpenSpecToolsMode, tools: Seq<Seq<char>>) -> Option<Seq<char>> {
    match mode {
        OpenSpecToolsMode::All => Some("all"@),
        OpenSpecToolsMode::NoTools => Some("none"@),
        OpenSpecToolsMode::Custom => if selected_tools(tools).len() == 0 {
            None
        } else {
            Some(join(selected_tools(tools), ","@))
        },
    }
}

/// Builds the value of the `--tools` argument. The list of names is read in
/// custom mode only; there, a list without a single non-blank name is refused.
pub fn build_tools_arg(mode: &OpenSpecToolsMode, tools: &[String]) -> (result: Result<
    String,
    OpenSpecCommandError,
>)
    ensures
        match result {
            Ok(arg) => tools_arg(*mode, texts(tools@)) == Some(arg@),
            Err(error) => error is MissingToolsSelection && tools_arg(*mode, texts(tools@))
                is None,
        },
{
    match mode {
        OpenSpecToolsMode::All => Ok(String::from_str("all")),
        OpenSpecToolsMode::NoTools => Ok(String::from_str("none")),
        OpenSpecToolsMode::Custom => {
            let mut selected: Vec<Vec<char>> = Vec::new();
            let mut i: usize = 0;
            while i < tools.len()
                invariant
                    i <= tools.len(),
                    rows(selected@) == selected_tools(texts(tools@).take(i as int)),
                decreases tools.len() - i,
            {
                let name = trim_chars(&to_chars(tools[i].as_str()));
                proof {
                    let next = texts(tools@).take(i + 1);
                    assert(next.drop_last() =~= texts(tools@).take(i as int));
                    assert(next.last() == tools@[i as int]@);
                    assert(rows(selected@.push(name)) =~= rows(selected@).push(name@));
                }
                if name.len() > 0 {
                    selected.push(name);
                }
                i += 1;
            }
            assert(texts(tools@).take(tools.len() as int) =~= texts(tools@));
            if selected.len() == 0 {
                return Err(OpenSpecCommandError::MissingToolsSelection);
            }
            let separator = to_chars(",");
            Ok(from_chars(&join_chars(&selected, &separator)))
        },
    }
}

/// The phrase that introduces the list of tools in the help text.
pub open spec fn list_marker() -> Seq<char> {
    "list of:"@
}

/// Whether a trimmed line closes the list: it is empty, or begins with a dash
/// or with one of the section headings.
pub open spec fn closes_list(line: Seq<char>) -> bool {
    ||| line.len() == 0
    ||| line.first() == '-'
    ||| starts_with(line, "Options:"@)
    ||| starts_with(line, "Usage:"@)
}

/// The index of the first line at or after `from` that holds the marker.
pub open spec fn marker_line(lines: Seq<Seq<char>>, from: int) -> Option<int>
    decreases lines.len() - from,
{
    if from < 0 || from >= lines.len() {
        None
    } else if find(lines[from], list_marker()) is Some {
        Some(from)
    } else {
        marker_line(lines, from + 1)
    }
}

/// What stands on the marker's own line behind the marker: one fragment, or
/// none where only white space follows.
pub open spec fn head_fragment(line: Seq<char>) -> Seq<Seq<char>> {
    match find(line, list_marker()) {
        Some(at) => {
            let tail = trim(line.skip(at + list_marker().len()));
            if tail.len() == 0 {
                Seq::empty()
            } else {
                seq![tail]
            }
        },
        None => Seq::empty(),
    }
}

/// The lines from `from` on, trimmed, up to the first one that closes the list.
pub open spec fn continuation(lines: Seq<Seq<char>>, from: int) -> Seq<Seq<char>>
    decreases lines.len() - from,
{
    if from < 0 || from >= lines.len() || closes_list(trim(lines[from])) {
        Seq::empty()
    } else {
        seq![trim(lines[from])] + continuation(lines, from + 1)
    }
}

/// One entry of the list: trimmed, and without one full stop at its end.
pub open spec fn clean_entry(entry: Seq<char>) -> Seq<char> {
    let name = trim(entry);
    if name.len() > 0 && name.last() == '.' {
        name.drop_last()
    } else {
        name
    }
}

/// The entries that remain of the given pieces: each cleaned, empty ones left
/// out, in the order given.
pub open spec fn kept_entries(pieces: Seq<Seq<char>>) -> Seq<Seq<char>>
    decreases pieces.len(),
{
    if pieces.len() == 0 {
        Seq::empty()
    } else {
        let earlier = kept_entries(pieces.drop_last());
        let name = clean_entry(pieces.last());
        if name.len() > 0 {
            earlier.push(name)
        } else {
            earlier
        }
    }
}

/// The tools that a help text lists: the fragments behind the first marker,
/// joined by single blanks, cut at the commas. Empty where no line holds the
/// marker.
pub open spec fn listed_tools(help: Seq<char>) -> Seq<Seq<char>> {
    let lines = split_on(help, '\n');
    match marker_line(lines, 0) {
        Some(k) => kept_entries(
            split_on(join(head_fragment(lines[k]) + continuation(lines, k + 1), " "@), ','),
        ),
        None => Seq::empty(),
    }
}

/// Reads the supported tools out of the help text of the init command. Fails
/// where the text holds no marker, or where nothing is listed behind it.
pub fn parse_openspec_tools(help_text: &str) -> (result: Result<Vec<String>, OpenSpecCommandError>)
    ensures
        match result {
            Ok(tools) => tools@.len() > 0 && texts(tools@) == listed_tools(help_text@),
            Err(error) => error is ToolsParseFailed && listed_tools(help_text@).len() == 0,
        },
{
    let lines = split_chars(&to_chars(help_text), '\n');
    let marker = to_chars("list of:");
    let mut k: usize = 0;
    while k < lines.len()
        invariant
            k <= lines.len(),
            marker@ == list_marker(),
            rows(lines@) == split_on(help_text@, '\n'),
            marker_line(rows(lines@), 0) == marker_line(rows(lines@), k as int),
        decreases lines.len() - k,
    {
        assert(rows(lines@)[k as int] == lines@[k as int]@);
        if let Some(at) = find_chars(&lines[k], &marker) {
            assert(marker_line(rows(lines@), 0) == Some(k as int));
            let fragments = collect_fragments(&lines, k, at, &marker);
            let blank = to_chars(" ");
            let pieces = split_chars(&join_chars(&fragments, &blank), ',');
            let tools = keep_entries(&pieces);
            if tools.len() == 0 {
                return Err(OpenSpecCommandError::ToolsParseFailed);
            }
            return Ok(tools);
        }
        k += 1;
    }
    Err(OpenSpecCommandError::ToolsParseFailed)
}

/// Gathers what is listed behind the marker found at `at` in line `k`.
fn collect_fragments(lines: &Vec<Vec<char>>, k: usize, at: usize, marker: &Vec<char>) -> (out: Vec<
    Vec<char>,
>)
    requires
        k < lines.len(),
        marker@ == list_marker(),
        find(lines@[k as int]@, marker@) == Some(at as int),
        matches_at(lines@[k as int]@, marker@, at as int),
    ensures
        rows(out@) == head_fragment(rows(lines@)[k as int]) + continuation(rows(lines@), k + 1),
{
    let line = &lines[k];
    let mut out: Vec<Vec<char>> = Vec::new();
    assert(rows(lines@)[k as int] == line@);
    assert(at + marker@.len() <= line@.len());
    let end = line.len();
    let tail = trim_chars(&copy_range(line, at + marker.len(), end));
    proof {
        assert(line@.subrange(at + marker@.len(), line@.len() as int) =~= line@.skip(
            at + marker@.len(),
        ));
        assert(rows(out@.push(tail)) =~= seq![tail@]);
        assert(rows(out@) =~= Seq::<Seq<char>>::empty());
    }
    if tail.len() > 0 {
        out.push(tail);
    }
    let ghost head = head_fragment(rows(lines@)[k as int]);
    assert(rows(out@) == head);
    let options = to_chars("Options:");
    let usage = to_chars("Usage:");
    let mut i: usize = k + 1;
    while i < lines.len()
        invariant
            k < i <= lines.len(),
            options@ == "Options:"@,
            usage@ == "Usage:"@,
            head == head_fragment(rows(lines@)[k as int]),
            head + continuation(rows(lines@), k + 1) == rows(out@) + continuation(
                rows(lines@),
                i as int,
            ),
        decreases lines.len() - i,
    {
        let trimmed = trim_chars(&lines[i]);
        assert(rows(lines@)[i as int] == lines@[i as int]@);
        let closing = trimmed.len() == 0 || trimmed[0] == '-' || starts_with_chars(
            &trimmed,
            &options,
        ) || starts_with_chars(&trimmed, &usage);
        assert(closing == closes_list(trim(rows(lines@)[i as int])));
        if closing {
            assert(rows(out@) + Seq::<Seq<char>>::empty() =~= rows(out@));
            return out;
        }
        proof {
            assert(rows(out@.push(trimmed)) =~= rows(out@).push(trimmed@));
            assert(rows(out@).push(trimmed@) + continuation(rows(lines@), i + 1) =~= rows(out@)
                + continuation(rows(lines@), i as int));
        }
        out.push(trimmed);
        i += 1;
    }
    assert(rows(out@) + Seq::<Seq<char>>::empty() =~= rows(out@));
    out
}

/// Cleans each piece and keeps those that are not empty.
fn keep_entries(pieces: &Vec<Vec<char>>) -> (out: Vec<String>)
    ensures
        texts(out@) == kept_entries(rows(pieces@)),
{
    let mut out: Vec<String> = Vec::new();
    let mut i: usize = 0;
    assert(texts(out@) =~= Seq::<Seq<char>>::empty());
    while i < pieces.len()
        invariant
            i <= pieces.len(),
            texts(out@) == kept_entries(rows(pieces@).take(i as int)),
        decreases pieces.len() - i,
    {
        let name = trim_chars(&pieces[i]);
        let n = name.len();
        let cleaned = if n > 0 && name[n - 1] == '.' {
            copy_range(&name, 0, n - 1)
        } else {
            name
        };
        let entry = from_chars(&cleaned);
        proof {
            let next = rows(pieces@).take(i + 1);
            assert(next.drop_last() =~= rows(pieces@).take(i as int));
            assert(next.last() == pieces@[i as int]@);
            let t = trim(pieces@[i as int]@);
            if t.len() > 0 && t.last() == '.' {
                assert(t.subrange(0, t.len() - 1) =~= t.drop_last());
            }
            assert(entry@ == clean_entry(pieces@[i as int]@));
            assert(texts(out@.push(entry)) =~= texts(out@).push(entry@));
        }
        if cleaned.len() > 0 {
            out.push(entry);
        }
        i += 1;
    }
    assert(rows(pieces@).take(pieces.len() as int) =~= rows(pieces@));
    out
}

} // verus!
