//! The text lines that each app shows in its viewport.

use vstd::prelude::*;
use crate::text::{decimal, decimal_chars, push_str, string_from_chars, views};
use crate::workspace::render::{numbered_content_lines, numbered_line};
use crate::workspace::state::{
    CliApp, CliRecord, ComputeRecord, DirectoryEntry, EditorApp, FileTreeApp,
    FilesystemSearchApp, JobRecord, SearchApp, SearchMatch, SearchResultRecord,
};

verus! {

/// Concatenation of groups of lines.
pub open spec fn flatten(groups: Seq<Seq<Seq<char>>>) -> Seq<Seq<char>>
    decreases groups.len(),
{
    if groups.len() == 0 {
        Seq::empty()
    } else {
        flatten(groups.drop_last()) + groups.last()
    }
}

/// The lines of one command-line record: the command, its state and
/// working directory, then its transcript or `(no output)`.
pub open spec fn cli_record_lines(r: CliRecord) -> Seq<Seq<char>> {
    seq!["$ "@ + r.command@, "state: "@ + r.state@ + " :: cwd: "@ + r.cwd@] + if r.transcript@.len()
        == 0 {
        seq!["(no output)"@]
    } else {
        views(r.transcript@)
    }
}

/// The lines of the command-line app.
pub open spec fn cli_view(history: Seq<CliRecord>) -> Seq<Seq<char>> {
    flatten(history.map_values(|r: CliRecord| cli_record_lines(r)))
}

/// Appends one line made of `chars`.
fn push_line(out: &mut Vec<String>, chars: &Vec<char>)
    ensures
        views(final(out)@) == views(old(out)@).push(chars@),
{
    let s = string_from_chars(chars);
    out.push(s);
    assert(views(out@) =~= views(old(out)@).push(chars@));
}

/// Appends copies of `lines`.
fn push_all(out: &mut Vec<String>, lines: &Vec<String>)
    ensures
        views(final(out)@) == views(old(out)@) + views(lines@),
{
    let ghost start = views(out@);
    let mut i: usize = 0;
    while i < lines.len()
        invariant
            i <= lines.len(),
            views(out@) == start + views(lines@.take(i as int)),
        decreases lines.len() - i,
    {
        let ghost before = out@;
        out.push(lines[i].clone());
        assert(views(out@) =~= views(before).push(lines@[i as int]@));
        i = i + 1;
        assert(views(lines@.take(i as int)) =~= views(lines@.take(i - 1)).push(lines@[i - 1]@));
    }
    assert(lines@.take(lines.len() as int) == lines@);
}

/// The lines of the command-line app.
pub fn cli_lines(app: &CliApp) -> (r: Vec<String>)
    ensures
        views(r@) == cli_view(app.history@),
{
    let mut out: Vec<String> = Vec::new();
    let mut i: usize = 0;
    let ghost h = app.history@;
    assert(h.take(0).map_values(|r: CliRecord| cli_record_lines(r)) =~= Seq::<Seq<Seq<char>>>::empty());
    while i < app.history.len()
        invariant
            h == app.history@,
            i <= h.len(),
            views(out@) == cli_view(h.take(i as int)),
        decreases h.len() - i,
    {
        let record = &app.history[i];
        let mut first: Vec<char> = Vec::new();
        push_str(&mut first, "$ ");
        push_str(&mut first, record.command.as_str());
        push_line(&mut out, &first);
        let mut second: Vec<char> = Vec::new();
        push_str(&mut second, "state: ");
        push_str(&mut second, record.state.as_str());
        push_str(&mut second, " :: cwd: ");
        push_str(&mut second, record.cwd.as_str());
        push_line(&mut out, &second);
        if record.transcript.len() == 0 {
            let mut none: Vec<char> = Vec::new();
            push_str(&mut none, "(no output)");
            push_line(&mut out, &none);
        } else {
            push_all(&mut out, &record.transcript);
        }
        proof {
            let groups = h.take(i + 1).map_values(|r: CliRecord| cli_record_lines(r));
            assert(groups.drop_last() =~= h.take(i as int).map_values(|r: CliRecord| cli_record_lines(r)));
            assert(groups.last() == cli_record_lines(h[i as int]));
            assert(views(out@) =~= cli_view(h.take(i as int)) + cli_record_lines(h[i as int]));
        }
        i = i + 1;
    }
    assert(h.take(h.len() as int) == h);
    out
}

/// The line of one directory entry: its path and kind.
pub open spec fn entry_line(e: DirectoryEntry) -> Seq<char> {
    e.path@ + " :: "@ + e.kind@
}

/// The lines of the file tree app: the working directory, then each entry.
pub open spec fn file_tree_view(app: FileTreeApp) -> Seq<Seq<char>> {
    seq!["cwd: "@ + app.cwd@] + app.entries@.map_values(|e: DirectoryEntry| entry_line(e))
}

/// The lines of the file tree app.
pub fn file_tree_lines(app: &FileTreeApp) -> (r: Vec<String>)
    ensures
        views(r@) == file_tree_view(*app),
{
    let mut out: Vec<String> = Vec::new();
    let mut head: Vec<char> = Vec::new();
    push_str(&mut head, "cwd: ");
    push_str(&mut head, app.cwd.as_str());
    push_line(&mut out, &head);
    let ghost es = app.entries@;
    let mut i: usize = 0;
    while i < app.entries.len()
        invariant
            es == app.entries@,
            i <= es.len(),
            views(out@) == seq!["cwd: "@ + app.cwd@] + es.take(i as int).map_values(
                |e: DirectoryEntry| entry_line(e),
            ),
        decreases es.len() - i,
    {
        let entry = &app.entries[i];
        let mut line: Vec<char> = Vec::new();
        push_str(&mut line, entry.path.as_str());
        push_str(&mut line, " :: ");
        push_str(&mut line, entry.kind.as_str());
        push_line(&mut out, &line);
        i = i + 1;
        assert(es.take(i as int).map_values(|e: DirectoryEntry| entry_line(e)) =~= es.take(
            i - 1,
        ).map_values(|e: DirectoryEntry| entry_line(e)).push(entry_line(es[i - 1])));
    }
    assert(es.take(es.len() as int) == es);
    out
}

/// The header lines of an editor with an open buffer.
pub open spec fn editor_head(app: EditorApp) -> Seq<Seq<char>> {
    let b = app.buffer.unwrap();
    seq![
        "path: "@ + b.path@,
        "language_id: "@ + match app.language_id {
            Some(l) => l@,
            None => "unknown"@,
        },
        "conflict_token: "@ + match b.conflict_token {
            Some(t) => t@,
            None => "none"@,
        },
        "diagnostics: "@ + decimal(app.diagnostics@.len()),
    ]
}

/// The lines of the editor app: the working directory, then the buffer's
/// path, language, conflict token, diagnostic count and numbered rows, or
/// `buffer: empty`.
pub open spec fn editor_view(app: EditorApp) -> Seq<Seq<char>> {
    seq!["cwd: "@ + app.cwd@] + match app.buffer {
        Some(b) => editor_head(app) + Seq::new(
            b.lines@.len(),
            |i: int| numbered_line(i as nat, b.lines@[i]@),
        ),
        None => seq!["buffer: empty"@],
    }
}

/// The lines of the editor app.
pub fn editor_lines(app: &EditorApp) -> (r: Vec<String>)
    ensures
        views(r@) == editor_view(*app),
{
    let mut out: Vec<String> = Vec::new();
    let mut head: Vec<char> = Vec::new();
    push_str(&mut head, "cwd: ");
    push_str(&mut head, app.cwd.as_str());
    push_line(&mut out, &head);
    match &app.buffer {
        Some(buffer) => {
            let mut path: Vec<char> = Vec::new();
            push_str(&mut path, "path: ");
            push_str(&mut path, buffer.path.as_str());
            push_line(&mut out, &path);
            let mut lang: Vec<char> = Vec::new();
            push_str(&mut lang, "language_id: ");
            match &app.language_id {
                Some(l) => push_str(&mut lang, l.as_str()),
                None => push_str(&mut lang, "unknown"),
            }
            push_line(&mut out, &lang);
            let mut token: Vec<char> = Vec::new();
            push_str(&mut token, "conflict_token: ");
            match &buffer.conflict_token {
                Some(t) => push_str(&mut token, t.as_str()),
                None => push_str(&mut token, "none"),
            }
            push_line(&mut out, &token);
            let mut diag: Vec<char> = Vec::new();
            push_str(&mut diag, "diagnostics: ");
            let count = decimal_chars(app.diagnostics.len() as u64);
            crate::text::push_chars(&mut diag, &count);
            push_line(&mut out, &diag);
            let numbered = numbered_content_lines(&buffer.lines);
            push_all(&mut out, &numbered);
            assert(views(numbered@) =~= Seq::new(
                buffer.lines@.len(),
                |i: int| numbered_line(i as nat, buffer.lines@[i]@),
            ));
            assert(views(out@) =~= editor_view(*app));
        },
        None => {
            let mut empty: Vec<char> = Vec::new();
            push_str(&mut empty, "buffer: empty");
            push_line(&mut out, &empty);
            assert(views(out@) =~= editor_view(*app));
        },
    }
    out
}

/// The line of one filesystem match: path, line and column (0 when
/// unknown), and the matching text.
pub open spec fn match_line(m: SearchMatch) -> Seq<char> {
    m.path@ + ":"@ + decimal(match m.line {
        Some(l) => l as nat,
        None => 0,
    }) + ":"@ + decimal(match m.column {
        Some(c) => c as nat,
        None => 0,
    }) + " :: "@ + m.excerpt@
}

/// The lines of the filesystem search app: scope, query when there is one,
/// then each match.
pub open spec fn file_search_view(app: FilesystemSearchApp) -> Seq<Seq<char>> {
    seq!["scope: "@ + app.scope_root@] + match app.focused_query {
        Some(q) => seq!["query: "@ + q@],
        None => Seq::empty(),
    } + app.matches@.map_values(|m: SearchMatch| match_line(m))
}

/// The lines of the filesystem search app.
pub fn file_search_lines(app: &FilesystemSearchApp) -> (r: Vec<String>)
    ensures
        views(r@) == file_search_view(*app),
{
    let mut out: Vec<String> = Vec::new();
    let mut head: Vec<char> = Vec::new();
    push_str(&mut head, "scope: ");
    push_str(&mut head, app.scope_root.as_str());
    push_line(&mut out, &head);
    match &app.focused_query {
        Some(q) => {
            let mut line: Vec<char> = Vec::new();
            push_str(&mut line, "query: ");
            push_str(&mut line, q.as_str());
            push_line(&mut out, &line);
        },
        None => {},
    }
    let ghost prefix = views(out@);
    let ghost ms = app.matches@;
    let mut i: usize = 0;
    while i < app.matches.len()
        invariant
            ms == app.matches@,
            i <= ms.len(),
            views(out@) == prefix + ms.take(i as int).map_values(|m: SearchMatch| match_line(m)),
        decreases ms.len() - i,
    {
        let m = &app.matches[i];
        let mut line: Vec<char> = Vec::new();
        push_str(&mut line, m.path.as_str());
        push_str(&mut line, ":");
        let l: u64 = match m.line {
            Some(l) => l,
            None => 0,
        };
        let c: u64 = match m.column {
            Some(c) => c,
            None => 0,
        };
        let ld = decimal_chars(l);
        crate::text::push_chars(&mut line, &ld);
        push_str(&mut line, ":");
        let cd = decimal_chars(c);
        crate::text::push_chars(&mut line, &cd);
        push_str(&mut line, " :: ");
        push_str(&mut line, m.excerpt.as_str());
        push_line(&mut out, &line);
        i = i + 1;
        assert(ms.take(i as int).map_values(|m: SearchMatch| match_line(m)) =~= ms.take(
            i - 1,
        ).map_values(|m: SearchMatch| match_line(m)).push(match_line(ms[i - 1])));
    }
    assert(ms.take(ms.len() as int) == ms);
    assert(views(out@) =~= file_search_view(*app));
    out
}

/// The line of the `rank`-th search result: rank, title, URL in angle
/// brackets when there is one, and the snippet when it is not empty.
pub open spec fn result_line(rank: nat, r: SearchResultRecord) -> Seq<char> {
    decimal(rank) + ". "@ + r.title@ + match r.url {
        Some(u) => " <"@ + u@ + ">"@,
        None => Seq::empty(),
    } + if r.snippet@.len() == 0 {
        Seq::empty()
    } else {
        " :: "@ + r.snippet@
    }
}

/// The lines of a search app: its header with `APP`, the query when there
/// is one, then the results ranked from 1.
pub open spec fn search_view(app: SearchApp, header: Seq<char>) -> Seq<Seq<char>> {
    seq![header + " APP"@] + match app.focused_query {
        Some(q) => seq!["query: "@ + q@],
        None => Seq::empty(),
    } + Seq::new(app.results@.len(), |i: int| result_line((i + 1) as nat, app.results@[i]))
}

/// The lines of a search app under `header`.
pub fn search_lines(app: &SearchApp, header: &str) -> (r: Vec<String>)
    ensures
        views(r@) == search_view(*app, header@),
{
    let mut out: Vec<String> = Vec::new();
    let mut head: Vec<char> = Vec::new();
    push_str(&mut head, header);
    push_str(&mut head, " APP");
    push_line(&mut out, &head);
    match &app.focused_query {
        Some(q) => {
            let mut line: Vec<char> = Vec::new();
            push_str(&mut line, "query: ");
            push_str(&mut line, q.as_str());
            push_line(&mut out, &line);
        },
        None => {},
    }
    let ghost prefix = views(out@);
    let ghost rs = app.results@;
    let mut i: usize = 0;
    while i < app.results.len()
        invariant
            rs == app.results@,
            i <= rs.len(),
            views(out@) == prefix + Seq::new(i as nat, |k: int| result_line((k + 1) as nat, rs[k])),
        decreases rs.len() - i,
    {
        let result = &app.results[i];
        let rank = decimal_chars((i as u64) + 1);
        let mut line: Vec<char> = Vec::new();
        crate::text::push_chars(&mut line, &rank);
        push_str(&mut line, ". ");
        push_str(&mut line, result.title.as_str());
        match &result.url {
            Some(u) => {
                push_str(&mut line, " <");
                push_str(&mut line, u.as_str());
                push_str(&mut line, ">");
            },
            None => {},
        }
        if result.snippet.as_str().unicode_len() != 0 {
            push_str(&mut line, " :: ");
            push_str(&mut line, result.snippet.as_str());
        }
        assert(line@ =~= result_line((i + 1) as nat, rs[i as int]));
        push_line(&mut out, &line);
        i = i + 1;
        assert(Seq::new(i as nat, |k: int| result_line((k + 1) as nat, rs[k])) =~= Seq::new(
            (i - 1) as nat,
            |k: int| result_line((k + 1) as nat, rs[k]),
        ).push(result_line(i as nat, rs[i - 1])));
    }
    assert(views(out@) =~= search_view(*app, header@));
    out
}

/// The line of one compute record: summary and payload.
pub open spec fn compute_line(r: ComputeRecord) -> Seq<char> {
    r.summary@ + " :: "@ + r.payload@
}

/// The line of one job: summary, state and detail.
pub open spec fn job_line(r: JobRecord) -> Seq<char> {
    r.summary@ + " :: "@ + r.state@ + " :: "@ + r.detail@
}

/// Each compute record as `summary :: payload`, each optionally prefixed.
pub fn compute_record_lines(history: &Vec<ComputeRecord>, bullet: bool) -> (r: Vec<String>)
    ensures
        views(r@) == history@.map_values(
            |x: ComputeRecord| if bullet {
                "- "@ + compute_line(x)
            } else {
                compute_line(x)
            },
        ),
{
    let mut out: Vec<String> = Vec::new();
    let mut i: usize = 0;
    let ghost f = |x: ComputeRecord| if bullet {
        "- "@ + compute_line(x)
    } else {
        compute_line(x)
    };
    while i < history.len()
        invariant
            i <= history.len(),
            views(out@) == history@.take(i as int).map_values(f),
            f == (|x: ComputeRecord| if bullet {
                "- "@ + compute_line(x)
            } else {
                compute_line(x)
            }),
        decreases history.len() - i,
    {
        let r = &history[i];
        let mut line: Vec<char> = Vec::new();
        if bullet {
            push_str(&mut line, "- ");
        }
        push_str(&mut line, r.summary.as_str());
        push_str(&mut line, " :: ");
        push_str(&mut line, r.payload.as_str());
        assert(line@ =~= f(history@[i as int]));
        push_line(&mut out, &line);
        i = i + 1;
        assert(history@.take(i as int).map_values(f) =~= history@.take(i - 1).map_values(f).push(
            f(history@[i - 1]),
        ));
    }
    assert(history@.take(history.len() as int) == history@);
    out
}

/// Each job as `summary :: state :: detail`.
pub fn job_record_lines(history: &Vec<JobRecord>) -> (r: Vec<String>)
    ensures
        views(r@) == history@.map_values(|x: JobRecord| job_line(x)),
{
    let mut out: Vec<String> = Vec::new();
    let mut i: usize = 0;
    while i < history.len()
        invariant
            i <= history.len(),
            views(out@) == history@.take(i as int).map_values(|x: JobRecord| job_line(x)),
        decreases history.len() - i,
    {
        let r = &history[i];
        let mut line: Vec<char> = Vec::new();
        push_str(&mut line, r.summary.as_str());
        push_str(&mut line, " :: ");
        push_str(&mut line, r.state.as_str());
        push_str(&mut line, " :: ");
        push_str(&mut line, r.detail.as_str());
        push_line(&mut out, &line);
        i = i + 1;
        assert(history@.take(i as int).map_values(|x: JobRecord| job_line(x)) =~= history@.take(
            i - 1,
        ).map_values(|x: JobRecord| job_line(x)).push(job_line(history@[i - 1])));
    }
    assert(history@.take(history.len() as int) == history@);
    out
}

} // verus!
