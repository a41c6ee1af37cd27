//! Row-based text editing, shared by the scratchpad, editor and filesystem
//! patch tools: reading an edit's arguments, splitting replacement text
//! into rows, and splicing a row patch into a text file.

use vstd::prelude::*;
use crate::agent::action::AgentAction;
use crate::agent::error::AgentError;
use crate::agent::tools::ScratchpadEditTool;
use crate::compute::translate::{json_quote, json_string_text};
use crate::memory::WorkingMemory;
use crate::vpath::{absolute, from_absolute, path_error_text, VirtualPathError};
use crate::workspace::delta::WorkspaceDelta;
use crate::json::{member, text_of, uint_of, Json};
use crate::text::{
    chars_of, decimal, decimal_chars, ends_with, join, lines, lines_of, push_chars, push_str,
    split_chars, split_on, str_eq, string_from_chars, strings_from, views,
};

verus! {

/// The rows of a replacement text: its `\n`-separated pieces, without the
/// empty piece after a final newline; no rows for the empty text.
pub open spec fn replacement_rows(text: Seq<char>) -> Seq<Seq<char>> {
    if text.len() == 0 {
        Seq::empty()
    } else if text.last() == '\n' {
        split_on(text, '\n').drop_last()
    } else {
        split_on(text, '\n')
    }
}

/// Splits a replacement text into rows.
pub fn split_replacement_text(text: &str) -> (r: Vec<String>)
    ensures
        views(r@) == replacement_rows(text@),
{
    let cs = chars_of(text);
    if cs.len() == 0 {
        let v: Vec<String> = Vec::new();
        assert(views(v@) =~= Seq::<Seq<char>>::empty());
        return v;
    }
    let pieces = split_chars(&cs, '\n');
    let mut lines = strings_from(&pieces);
    proof {
        assert(views(lines@) =~= split_on(text@, '\n'));
    }
    if cs[cs.len() - 1] == '\n' {
        let ghost all = lines@;
        lines.pop();
        assert(views(lines@) =~= views(all).drop_last());
    }
    lines
}

/// The row an append starts at: the number of lines of the content.
pub open spec fn line_count(content: Seq<char>) -> nat {
    if content.len() == 0 {
        0
    } else {
        lines(content).len()
    }
}

/// The row an append starts at.
pub fn append_line_index(content: &str) -> (r: usize)
    ensures
        r == line_count(content@),
{
    let cs = chars_of(content);
    if cs.len() == 0 {
        return 0;
    }
    let ls = lines_of(&cs);
    ls.len()
}

/// `tool` and `rest` as a provider error message.
pub open spec fn tool_msg(tool: Seq<char>, rest: Seq<char>) -> Seq<char> {
    tool + rest
}

/// A provider error whose message is `tool` then `rest`.
fn tool_error<T>(tool: &str, rest: &str) -> (r: Result<T, AgentError>)
    ensures
        crate::agent::error::is_provider_error(r, tool_msg(tool@, rest@)),
{
    let mut m: Vec<char> = Vec::new();
    push_str(&mut m, tool);
    push_str(&mut m, rest);
    Err(AgentError::Provider(string_from_chars(&m)))
}

/// The replacement rows an edit carries, or why it carries none: without
/// `replacement_text`, `delete` carries none and the other operations fail;
/// a `replacement_text` that is not a string fails.
pub open spec fn replacement_of(args: Json, op: Seq<char>, tool: Seq<char>) -> Result<Seq<Seq<char>>, Seq<char>> {
    match member(args, "replacement_text"@) {
        None => if op == "append"@ || op == "replace"@ || op == "insert"@ {
            Err(tool_msg(tool, " requires string 'replacement_text' for append, replace, and insert"@))
        } else if op == "delete"@ {
            Ok(Seq::empty())
        } else {
            Err(tool_msg(tool, " received unsupported operation"@))
        },
        Some(Json::Str(t)) => Ok(replacement_rows(t@)),
        Some(_) => Err(tool_msg(tool, " 'replacement_text' must be a string"@)),
    }
}

/// Reads an edit's replacement rows.
pub fn parse_replacement_lines(args: &Json, op: &str, tool: &str) -> (r: Result<Vec<String>, AgentError>)
    ensures
        match replacement_of(*args, op@, tool@) {
            Ok(rows) => r matches Ok(v) && views(v@) == rows,
            Err(m) => crate::agent::error::is_provider_error(r, m),
        },
{
    match args.get("replacement_text") {
        None => {
            if str_eq(op, "append") || str_eq(op, "replace") || str_eq(op, "insert") {
                tool_error(tool, " requires string 'replacement_text' for append, replace, and insert")
            } else if str_eq(op, "delete") {
                let v: Vec<String> = Vec::new();
                assert(views(v@) =~= Seq::<Seq<char>>::empty());
                Ok(v)
            } else {
                tool_error(tool, " received unsupported operation")
            }
        },
        Some(Json::Str(t)) => Ok(split_replacement_text(t.as_str())),
        Some(_) => tool_error(tool, " 'replacement_text' must be a string"),
    }
}

/// The row an edit starts at: `append_row` for an append, the
/// `row_start` integer for the others.
pub open spec fn row_start_of(args: Json, op: Seq<char>, append_row: usize, tool: Seq<char>) -> Result<usize, Seq<char>> {
    if op == "append"@ {
        Ok(append_row)
    } else if op == "replace"@ || op == "insert"@ || op == "delete"@ {
        match uint_of(member(args, "row_start"@)) {
            Some(n) => Ok(n as usize),
            None => Err(tool_msg(tool, " requires integer 'row_start'"@)),
        }
    } else {
        Err(tool_msg(tool, " received unsupported operation"@))
    }
}

/// The row an edit ends before: its start for an append or insert, the
/// `row_end` integer for a replace or delete.
pub open spec fn row_end_of(args: Json, op: Seq<char>, start: usize, tool: Seq<char>) -> Result<usize, Seq<char>> {
    if op == "append"@ || op == "insert"@ {
        Ok(start)
    } else if op == "replace"@ || op == "delete"@ {
        match uint_of(member(args, "row_end"@)) {
            Some(n) => Ok(n as usize),
            None => Err(tool_msg(tool, " requires integer 'row_end' for replace and delete"@)),
        }
    } else {
        Err(tool_msg(tool, " received unsupported operation"@))
    }
}

/// Reads the row an edit starts at.
pub fn parse_row_start(args: &Json, op: &str, append_row: usize, tool: &str) -> (r: Result<usize, AgentError>)
    ensures
        match row_start_of(*args, op@, append_row, tool@) {
            Ok(n) => r == Ok::<usize, AgentError>(n),
            Err(m) => crate::agent::error::is_provider_error(r, m),
        },
{
    if str_eq(op, "append") {
        Ok(append_row)
    } else if str_eq(op, "replace") || str_eq(op, "insert") || str_eq(op, "delete") {
        match crate::json::member_u64(args, "row_start") {
            Some(n) => Ok(n as usize),
            None => tool_error(tool, " requires integer 'row_start'"),
        }
    } else {
        tool_error(tool, " received unsupported operation")
    }
}

/// Reads the row an edit ends before.
pub fn parse_row_end(args: &Json, op: &str, start: usize, tool: &str) -> (r: Result<usize, AgentError>)
    ensures
        match row_end_of(*args, op@, start, tool@) {
            Ok(n) => r == Ok::<usize, AgentError>(n),
            Err(m) => crate::agent::error::is_provider_error(r, m),
        },
{
    if str_eq(op, "append") || str_eq(op, "insert") {
        Ok(start)
    } else if str_eq(op, "replace") || str_eq(op, "delete") {
        match crate::json::member_u64(args, "row_end") {
            Some(n) => Ok(n as usize),
            None => tool_error(tool, " requires integer 'row_end' for replace and delete"),
        }
    } else {
        tool_error(tool, " received unsupported operation")
    }
}

/// The rows of a file and a final empty row when it ends with a newline,
/// as a row patch sees them.
pub open spec fn patch_rows(current: Seq<char>) -> Seq<Seq<char>> {
    if current.len() > 0 && current.last() == '\n' {
        lines(current).push(Seq::empty())
    } else {
        lines(current)
    }
}

/// The text of patched rows: joined by newlines, a final empty row
/// standing for a final newline.
pub open spec fn rows_text(rows: Seq<Seq<char>>) -> Seq<char> {
    if rows.len() > 0 && rows.last().len() == 0 {
        join(rows.drop_last(), "\n"@) + "\n"@
    } else {
        join(rows, "\n"@)
    }
}

/// The text after replacing `delete_count` rows from `start_line` with
/// `new_lines`, or why the patch cannot apply: a start beyond the rows.
pub open spec fn patched_text(current: Seq<char>, start_line: usize, delete_count: usize, new_lines: Seq<Seq<char>>, path: Seq<char>) -> Result<Seq<char>, Seq<char>> {
    let rows = patch_rows(current);
    if start_line > rows.len() {
        Err("patch start_line "@ + decimal(start_line as nat) + " exceeds file line count "@ + decimal(
            rows.len(),
        ) + " for '"@ + path + "'"@)
    } else {
        let end = if start_line + delete_count > rows.len() {
            rows.len() as int
        } else {
            start_line + delete_count
        };
        Ok(rows_text(rows.take(start_line as int) + new_lines + rows.skip(end)))
    }
}

/// Applies a row patch to the text of the file at `path`.
pub fn apply_row_patch(current: &str, start_line: usize, delete_count: usize, new_lines: &Vec<String>, path: &str) -> (r: Result<String, String>)
    ensures
        match patched_text(current@, start_line, delete_count, views(new_lines@), path@) {
            Ok(t) => r matches Ok(s) && s@ == t,
            Err(m) => r matches Err(s) && s@ == m,
        },
{
    let cs = chars_of(current);
    let pieces = lines_of(&cs);
    let mut rows = strings_from(&pieces);
    proof {
        assert(views(rows@) =~= lines(current@));
    }
    if cs.len() > 0 && cs[cs.len() - 1] == '\n' {
        let ghost before = views(rows@);
        rows.push(String::new());
        proof {
            reveal_strlit("");
            assert(views(rows@) =~= before.push(Seq::<char>::empty()));
        }
    }
    let n = rows.len();
    if start_line > n {
        let mut m: Vec<char> = Vec::new();
        push_str(&mut m, "patch start_line ");
        let a = decimal_chars(start_line as u64);
        push_chars(&mut m, &a);
        push_str(&mut m, " exceeds file line count ");
        let b = decimal_chars(n as u64);
        push_chars(&mut m, &b);
        push_str(&mut m, " for '");
        push_str(&mut m, path);
        push_str(&mut m, "'");
        return Err(string_from_chars(&m));
    }
    let end = if delete_count > n - start_line {
        n
    } else {
        start_line + delete_count
    };
    let mut out: Vec<String> = Vec::new();
    let mut i: usize = 0;
    while i < start_line
        invariant
            i <= start_line <= rows@.len(),
            views(out@) == views(rows@).take(i as int),
        decreases start_line - i,
    {
        let ghost before = out@;
        out.push(rows[i].clone());
        proof {
            assert(out@ =~= before.push(rows@[i as int]));
            assert(views(out@) =~= views(before).push(rows@[i as int]@));
        }
        i = i + 1;
        assert(views(out@) =~= views(rows@).take(i as int));
    }
    let mut k: usize = 0;
    while k < new_lines.len()
        invariant
            k <= new_lines@.len(),
            views(out@) == views(rows@).take(start_line as int) + views(new_lines@).take(k as int),
        decreases new_lines@.len() - k,
    {
        let ghost before = out@;
        out.push(new_lines[k].clone());
        proof {
            assert(out@ =~= before.push(new_lines@[k as int]));
            assert(views(out@) =~= views(before).push(new_lines@[k as int]@));
        }
        k = k + 1;
        assert(views(out@) =~= views(rows@).take(start_line as int) + views(new_lines@).take(k as int));
    }
    assert(views(new_lines@).take(new_lines@.len() as int) =~= views(new_lines@));
    let mut j: usize = end;
    while j < n
        invariant
            end <= j <= n,
            n == rows@.len(),
            views(out@) == views(rows@).take(start_line as int) + views(new_lines@) + views(rows@).subrange(end as int, j as int),
        decreases n - j,
    {
        let ghost before = out@;
        out.push(rows[j].clone());
        proof {
            assert(out@ =~= before.push(rows@[j as int]));
            assert(views(out@) =~= views(before).push(rows@[j as int]@));
        }
        j = j + 1;
        assert(views(out@) =~= views(rows@).take(start_line as int) + views(new_lines@) + views(rows@).subrange(end as int, j as int));
    }
    assert(views(rows@).subrange(end as int, n as int) =~= views(rows@).skip(end as int));
    let last_empty = out.len() > 0 && out[out.len() - 1].as_str().is_empty();
    let text = if last_empty {
        let ghost all = out@;
        out.pop();
        assert(views(out@) =~= views(all).drop_last());
        let mut t = crate::text::join_strings(&out, "\n");
        push_str(&mut t, "\n");
        t
    } else {
        crate::text::join_strings(&out, "\n")
    };
    Ok(string_from_chars(&text))
}

/// The rows an edit spans, `(start, end)`, or why it spans none: the
/// start and end as read, and an end before the start refused.
pub open spec fn row_span_of(args: Json, op: Seq<char>, append_row: usize, tool: Seq<char>) -> Result<(usize, usize), Seq<char>> {
    match row_start_of(args, op, append_row, tool) {
        Err(m) => Err(m),
        Ok(start) => match row_end_of(args, op, start, tool) {
            Err(m) => Err(m),
            Ok(end) => if end < start {
                Err(tool_msg(tool, " requires row_end >= row_start"@))
            } else {
                Ok((start, end))
            },
        },
    }
}

/// Reads the rows an edit spans.
pub fn parse_row_span(args: &Json, op: &str, append_row: usize, tool: &str) -> (r: Result<(usize, usize), AgentError>)
    ensures
        match row_span_of(*args, op@, append_row, tool@) {
            Ok(span) => r == Ok::<(usize, usize), AgentError>(span),
            Err(m) => crate::agent::error::is_provider_error(r, m),
        },
{
    let start = match parse_row_start(args, op, append_row, tool) {
        Ok(n) => n,
        Err(e) => return Err(e),
    };
    let end = match parse_row_end(args, op, start, tool) {
        Ok(n) => n,
        Err(e) => return Err(e),
    };
    if end < start {
        return tool_error(tool, " requires row_end >= row_start");
    }
    Ok((start, end))
}

/// The operation an edit names.
pub open spec fn operation_of(args: Json) -> Option<Seq<char>> {
    text_of(member(args, "operation"@))
}

/// Reads the operation an edit names; without one the tool fails.
pub fn parse_operation(args: &Json, tool: &str) -> (r: Result<String, AgentError>)
    ensures
        match operation_of(*args) {
            Some(op) => r matches Ok(s) && s@ == op,
            None => crate::agent::error::is_provider_error(r, tool_msg(tool@, " requires an 'operation' string"@)),
        },
{
    match crate::json::member_text(args, "operation") {
        Some(op) => Ok(op),
        None => tool_error(tool, " requires an 'operation' string"),
    }
}

/// The patch a file edit applies, `(start, delete_count)`, given the span
/// it covers: appends and inserts delete nothing.
pub open spec fn file_patch_of(op: Seq<char>, span: (usize, usize)) -> (usize, usize) {
    if op == "replace"@ || op == "delete"@ {
        (span.0, (span.1 - span.0) as usize)
    } else {
        (span.0, 0)
    }
}

/// The scratchpad patch an edit asks for: `(start, delete_count, rows)`.
/// An append starts past every row; a delete carries no rows.
pub open spec fn scratchpad_edit_of(args: Json) -> Result<(usize, usize, Seq<Seq<char>>), Seq<char>> {
    let tool = "scratchpad_edit"@;
    match operation_of(args) {
        None => Err(tool_msg(tool, " requires an 'operation' string"@)),
        Some(op) => match replacement_of(args, op, tool) {
            Err(m) => Err(m),
            Ok(rows) => match row_span_of(args, op, 0, tool) {
                Err(m) => Err(m),
                Ok(span) => if op == "append"@ {
                    Ok((usize::MAX, 0, rows))
                } else if op == "replace"@ {
                    Ok((span.0, (span.1 - span.0) as usize, rows))
                } else if op == "insert"@ {
                    Ok((span.0, 0, rows))
                } else {
                    Ok((span.0, (span.1 - span.0) as usize, Seq::empty()))
                },
            },
        },
    }
}

impl ScratchpadEditTool {
    /// The tool's name.
    pub fn name(&self) -> (r: &'static str)
        ensures
            r@ == "scratchpad_edit"@,
    {
        "scratchpad_edit"
    }

    /// The scratchpad patch that `args` ask for.
    pub fn action(&self, args: &Json) -> (r: Result<AgentAction, AgentError>)
        ensures
            match scratchpad_edit_of(*args) {
                Ok((start, count, rows)) => r matches Ok(AgentAction::UpdateWorkspace(
                    WorkspaceDelta::ScratchpadPatch { start_line, delete_count, new_lines },
                )) && start_line == start && delete_count == count && views(new_lines@) == rows,
                Err(m) => crate::agent::error::is_provider_error(r, m),
            },
    {
        let tool = "scratchpad_edit";
        let op = match parse_operation(args, tool) {
            Ok(op) => op,
            Err(e) => return Err(e),
        };
        let new_lines = match parse_replacement_lines(args, op.as_str(), tool) {
            Ok(v) => v,
            Err(e) => return Err(e),
        };
        let (start, end) = match parse_row_span(args, op.as_str(), 0, tool) {
            Ok(span) => span,
            Err(e) => return Err(e),
        };
        let delta = if str_eq(op.as_str(), "append") {
            WorkspaceDelta::ScratchpadPatch { start_line: usize::MAX, delete_count: 0, new_lines }
        } else if str_eq(op.as_str(), "replace") {
            WorkspaceDelta::ScratchpadPatch { start_line: start, delete_count: end - start, new_lines }
        } else if str_eq(op.as_str(), "insert") {
            WorkspaceDelta::ScratchpadPatch { start_line: start, delete_count: 0, new_lines }
        } else {
            let none: Vec<String> = Vec::new();
            assert(views(none@) =~= Seq::<Seq<char>>::empty());
            WorkspaceDelta::ScratchpadPatch { start_line: start, delete_count: end - start, new_lines: none }
        };
        Ok(AgentAction::UpdateWorkspace(delta))
    }
}

/// A row patch for a file, as the editor and filesystem patch tools
/// hand it to the sandbox.
#[derive(Debug)]
pub struct FilePatch {
    pub path: String,
    pub start_line: usize,
    pub delete_count: usize,
    pub new_lines: Vec<String>,
    pub expected_conflict_token: Option<String>,
}

/// What a file edit reads before the file is opened: its operation, its
/// replacement rows and the file it targets.
#[derive(Debug)]
pub struct FileEditRequest {
    pub operation: String,
    pub new_lines: Vec<String>,
    pub path: String,
}

/// The message of a path that cannot be read, for `tool`.
pub open spec fn path_error_msg(tool: Seq<char>, e: VirtualPathError) -> Seq<char> {
    tool_msg(tool, " path error: "@ + path_error_text(e))
}

/// The JSON text of a row patch, keys in order.
pub open spec fn patch_json(start: usize, count: usize, rows: Seq<Seq<char>>) -> Seq<char> {
    "{\"delete_count\":"@ + decimal(count as nat) + ",\"new_lines\":["@ + join(
        rows.map_values(|r: Seq<char>| json_string_text(r)),
        ","@,
    ) + "],\"start_line\":"@ + decimal(start as nat) + "}"@
}

impl FilePatch {
    /// The JSON text of this patch.
    pub fn patch_text(&self) -> (r: String)
        ensures
            r@ == patch_json(self.start_line, self.delete_count, views(self.new_lines@)),
    {
        let mut quoted: Vec<String> = Vec::new();
        let mut i: usize = 0;
        while i < self.new_lines.len()
            invariant
                i <= self.new_lines@.len(),
                views(quoted@) == views(self.new_lines@).take(i as int).map_values(|r: Seq<char>| json_string_text(r)),
            decreases self.new_lines@.len() - i,
        {
            let ghost before = quoted@;
            quoted.push(json_quote(self.new_lines[i].as_str()));
            proof {
                assert(quoted@ =~= before.push(quoted@.last()));
                assert(views(quoted@) =~= views(before).push(json_string_text(self.new_lines@[i as int]@)));
            }
            i = i + 1;
            assert(views(quoted@) =~= views(self.new_lines@).take(i as int).map_values(|r: Seq<char>| json_string_text(r)));
        }
        assert(views(self.new_lines@).take(self.new_lines@.len() as int) =~= views(self.new_lines@));
        let mut m: Vec<char> = Vec::new();
        push_str(&mut m, "{\"delete_count\":");
        let c = decimal_chars(self.delete_count as u64);
        push_chars(&mut m, &c);
        push_str(&mut m, ",\"new_lines\":[");
        let body = crate::text::join_strings(&quoted, ",");
        push_chars(&mut m, &body);
        push_str(&mut m, "],\"start_line\":");
        let st = decimal_chars(self.start_line as u64);
        push_chars(&mut m, &st);
        push_str(&mut m, "}");
        string_from_chars(&m)
    }
}

/// The file an editor edit targets: its absolute `path` when it names a
/// string, the open buffer's path otherwise.
pub open spec fn editor_target_of(args: Json, buffer_path: Option<Seq<char>>) -> Result<Seq<char>, Seq<char>> {
    match text_of(member(args, "path"@)) {
        Some(p) => match absolute(p) {
            Ok(q) => Ok(q),
            Err(e) => Err(path_error_msg("editor_edit"@, e)),
        },
        None => match buffer_path {
            Some(b) => Ok(b),
            None => Err("editor_edit requires 'path' when no editor buffer is open"@),
        },
    }
}

/// The path of the open editor buffer, if any.
pub open spec fn buffer_path_of(memory: WorkingMemory) -> Option<Seq<char>> {
    match memory.workspace.editor.buffer {
        Some(b) => Some(b.path@),
        None => None,
    }
}

/// The conflict token an editor edit expects: its own
/// `expected_conflict_token` string, else the open buffer's token when the
/// buffer holds `path`, else the token the file was read with.
pub open spec fn editor_token_of(args: Json, memory: WorkingMemory, path: Seq<char>, fallback: Option<Seq<char>>) -> Result<Option<Seq<char>>, Seq<char>> {
    match member(args, "expected_conflict_token"@) {
        Some(Json::Str(t)) => Ok(Some(t@)),
        Some(_) => Err("editor_edit 'expected_conflict_token' must be a string"@),
        None => match memory.workspace.editor.buffer {
            Some(b) => if b.path@ == path && b.conflict_token is Some {
                Ok(Some(b.conflict_token->0@))
            } else {
                Ok(fallback)
            },
            None => Ok(fallback),
        },
    }
}

/// The view of an optional text.
pub open spec fn opt_view(o: Option<String>) -> Option<Seq<char>> {
    match o {
        Some(s) => Some(s@),
        None => None,
    }
}

/// What an editor edit reads before opening the file.
pub open spec fn editor_request_of(args: Json, memory: WorkingMemory) -> Result<(Seq<char>, Seq<Seq<char>>, Seq<char>), Seq<char>> {
    match operation_of(args) {
        None => Err(tool_msg("editor_edit"@, " requires an 'operation' string"@)),
        Some(op) => match replacement_of(args, op, "editor_edit"@) {
            Err(m) => Err(m),
            Ok(rows) => match editor_target_of(args, buffer_path_of(memory)) {
                Err(m) => Err(m),
                Ok(path) => Ok((op, rows, path)),
            },
        },
    }
}

/// The patch an editor edit applies to a file with `content`, read with
/// conflict token `read_token`.
pub open spec fn editor_patch_of(args: Json, memory: WorkingMemory, op: Seq<char>, rows: Seq<Seq<char>>, path: Seq<char>, content: Seq<char>, read_token: Option<Seq<char>>) -> Result<(usize, usize, Seq<Seq<char>>, Option<Seq<char>>), Seq<char>> {
    match row_span_of(args, op, line_count(content) as usize, "editor_edit"@) {
        Err(m) => Err(m),
        Ok(span) => match editor_token_of(args, memory, path, read_token) {
            Err(m) => Err(m),
            Ok(token) => {
                let (start, count) = file_patch_of(op, span);
                Ok((start, count, if op == "delete"@ { Seq::empty() } else { rows }, token))
            },
        },
    }
}

/// Edits the open editor buffer or a named file by rows.
pub struct EditorEditTool {
    /// The directory that stands for the sandbox root, when not the
    /// configured one.
    pub sandbox_root_override: Option<String>,
}

impl EditorEditTool {
    /// The tool over the configured sandbox.
    pub fn new() -> (r: Self)
        ensures
            r.sandbox_root_override is None,
    {
        EditorEditTool { sandbox_root_override: None }
    }

    /// The tool's name.
    pub fn name(&self) -> (r: &'static str)
        ensures
            r@ == "editor_edit"@,
    {
        "editor_edit"
    }

    /// Reads the operation, the replacement rows and the target file.
    pub fn prepare(&self, args: &Json, memory: &WorkingMemory) -> (r: Result<FileEditRequest, AgentError>)
        ensures
            match editor_request_of(*args, *memory) {
                Ok((op, rows, path)) => r matches Ok(q) && q.operation@ == op && views(q.new_lines@) == rows
                    && q.path@ == path,
                Err(m) => crate::agent::error::is_provider_error(r, m),
            },
    {
        let tool = "editor_edit";
        let op = match parse_operation(args, tool) {
            Ok(op) => op,
            Err(e) => return Err(e),
        };
        let new_lines = match parse_replacement_lines(args, op.as_str(), tool) {
            Ok(v) => v,
            Err(e) => return Err(e),
        };
        let path = match crate::json::member_text(args, "path") {
            Some(p) => match from_absolute(p.as_str()) {
                Ok(q) => q,
                Err(e) => return tool_error(tool, path_error_suffix(e).as_str()),
            },
            None => match &memory.workspace.editor.buffer {
                Some(b) => b.path.clone(),
                None => {
                    return Err(AgentError::Provider(String::from_str(
                        "editor_edit requires 'path' when no editor buffer is open",
                    )))
                },
            },
        };
        Ok(FileEditRequest { operation: op, new_lines, path })
    }

    /// The patch for the file of `request`, whose text is `content` and
    /// which was read with `read_token`.
    pub fn plan(&self, args: &Json, memory: &WorkingMemory, request: FileEditRequest, content: &str, read_token: Option<String>) -> (r: Result<FilePatch, AgentError>)
        ensures
            match editor_patch_of(*args, *memory, request.operation@, views(request.new_lines@), request.path@, content@, opt_view(read_token)) {
                Ok((start, count, rows, token)) => r matches Ok(p) && p.path == request.path && p.start_line == start
                    && p.delete_count == count && views(p.new_lines@) == rows
                    && opt_view(p.expected_conflict_token) == token,
                Err(m) => crate::agent::error::is_provider_error(r, m),
            },
    {
        let tool = "editor_edit";
        let FileEditRequest { operation, new_lines, path } = request;
        let rows_now = append_line_index(content);
        let (start, end) = match parse_row_span(args, operation.as_str(), rows_now, tool) {
            Ok(span) => span,
            Err(e) => return Err(e),
        };
        let token = match args.get("expected_conflict_token") {
            Some(Json::Str(t)) => Some(t.clone()),
            Some(_) => {
                return Err(AgentError::Provider(String::from_str(
                    "editor_edit 'expected_conflict_token' must be a string",
                )))
            },
            None => match &memory.workspace.editor.buffer {
                Some(b) => {
                    if str_eq(b.path.as_str(), path.as_str()) && b.conflict_token.is_some() {
                        b.conflict_token.clone()
                    } else {
                        read_token
                    }
                },
                None => read_token,
            },
        };
        let replaced = str_eq(operation.as_str(), "replace") || str_eq(operation.as_str(), "delete");
        let count = if replaced { end - start } else { 0 };
        let lines = if str_eq(operation.as_str(), "delete") {
            let none: Vec<String> = Vec::new();
            assert(views(none@) =~= Seq::<Seq<char>>::empty());
            none
        } else {
            new_lines
        };
        Ok(FilePatch { path, start_line: start, delete_count: count, new_lines: lines, expected_conflict_token: token })
    }
}

/// The text after a tool's name in the message of a path error.
fn path_error_suffix(e: VirtualPathError) -> (r: String)
    ensures
        r@ == " path error: "@ + path_error_text(e),
{
    let mut m: Vec<char> = Vec::new();
    push_str(&mut m, " path error: ");
    push_str(&mut m, e.message());
    string_from_chars(&m)
}

/// What a filesystem patch reads before the file is opened: its
/// operation and its absolute path.
pub open spec fn fs_request_of(args: Json) -> Result<(Seq<char>, Seq<char>), Seq<char>> {
    let tool = "filesystem_patch"@;
    match operation_of(args) {
        None => Err(tool_msg(tool, " requires an 'operation' string"@)),
        Some(op) => match text_of(member(args, "path"@)) {
            None => Err(tool_msg(tool, " requires a string 'path'"@)),
            Some(p) => match absolute(p) {
                Err(e) => Err(path_error_msg(tool, e)),
                Ok(path) => Ok((op, path)),
            },
        },
    }
}

/// The patch a filesystem patch applies to a file with `content`: the
/// rows it spans, then its replacement rows; its `expected_conflict_token`
/// when that is a string.
pub open spec fn fs_patch_of(args: Json, op: Seq<char>, content: Seq<char>) -> Result<(usize, usize, Seq<Seq<char>>, Option<Seq<char>>), Seq<char>> {
    let tool = "filesystem_patch"@;
    match row_span_of(args, op, line_count(content) as usize, tool) {
        Err(m) => Err(m),
        Ok(span) => match replacement_of(args, op, tool) {
            Err(m) => Err(m),
            Ok(rows) => {
                let (start, count) = file_patch_of(op, span);
                Ok((start, count, if op == "delete"@ { Seq::empty() } else { rows },
                    text_of(member(args, "expected_conflict_token"@))))
            },
        },
    }
}

/// Applies a row edit to a sandboxed file.
pub struct FilesystemPatchTool {
    /// The directory that stands for the sandbox root, when not the
    /// configured one.
    pub sandbox_root_override: Option<String>,
}

impl FilesystemPatchTool {
    /// The tool over the configured sandbox.
    pub fn new() -> (r: Self)
        ensures
            r.sandbox_root_override is None,
    {
        FilesystemPatchTool { sandbox_root_override: None }
    }

    /// The tool over the sandbox rooted at `root`.
    pub fn new_with_root(root: String) -> (r: Self)
        ensures
            r.sandbox_root_override == Some(root),
    {
        FilesystemPatchTool { sandbox_root_override: Some(root) }
    }

    /// The tool's name.
    pub fn name(&self) -> (r: &'static str)
        ensures
            r@ == "filesystem_patch"@,
    {
        "filesystem_patch"
    }

    /// Reads the operation and the target path.
    pub fn prepare(&self, args: &Json) -> (r: Result<(String, String), AgentError>)
        ensures
            match fs_request_of(*args) {
                Ok((op, path)) => r matches Ok((o, p)) && o@ == op && p@ == path,
                Err(m) => crate::agent::error::is_provider_error(r, m),
            },
    {
        let tool = "filesystem_patch";
        let op = match parse_operation(args, tool) {
            Ok(op) => op,
            Err(e) => return Err(e),
        };
        let raw = match crate::json::member_text(args, "path") {
            Some(p) => p,
            None => return tool_error(tool, " requires a string 'path'"),
        };
        match from_absolute(raw.as_str()) {
            Ok(path) => Ok((op, path)),
            Err(e) => tool_error(tool, path_error_suffix(e).as_str()),
        }
    }

    /// The patch for the file at `path`, whose text is `content`.
    pub fn plan(&self, args: &Json, operation: &str, path: String, content: &str) -> (r: Result<FilePatch, AgentError>)
        ensures
            match fs_patch_of(*args, operation@, content@) {
                Ok((start, count, rows, token)) => r matches Ok(p) && p.path == path && p.start_line == start
                    && p.delete_count == count && views(p.new_lines@) == rows
                    && opt_view(p.expected_conflict_token) == token,
                Err(m) => crate::agent::error::is_provider_error(r, m),
            },
    {
        let tool = "filesystem_patch";
        let rows_now = append_line_index(content);
        let (start, end) = match parse_row_span(args, operation, rows_now, tool) {
            Ok(span) => span,
            Err(e) => return Err(e),
        };
        let new_lines = match parse_replacement_lines(args, operation, tool) {
            Ok(v) => v,
            Err(e) => return Err(e),
        };
        let replaced = str_eq(operation, "replace") || str_eq(operation, "delete");
        let count = if replaced { end - start } else { 0 };
        let lines = if str_eq(operation, "delete") {
            let none: Vec<String> = Vec::new();
            assert(views(none@) =~= Seq::<Seq<char>>::empty());
            none
        } else {
            new_lines
        };
        let token = crate::json::member_text(args, "expected_conflict_token");
        Ok(FilePatch { path, start_line: start, delete_count: count, new_lines: lines, expected_conflict_token: token })
    }
}

/// An append lands after every row of the file: its patch starts at the
/// number of rows the content has (none for empty content) and deletes
/// nothing.
pub proof fn append_starts_after_the_last_row(args: Json, content: Seq<char>)
    requires
        fs_patch_of(args, "append"@, content) is Ok,
    ensures
        fs_patch_of(args, "append"@, content) matches Ok((start, count, rows, token)) && start == (if content.len()
            == 0 {
            0nat
        } else {
            lines(content).len()
        }) as usize && count == 0,
{
    reveal_strlit("append");
    reveal_strlit("replace");
    reveal_strlit("delete");
    reveal_strlit("insert");
    assert("append"@.len() != "replace"@.len() && "append"@[0] != "delete"@[0]);
    assert("append"@[0] != "insert"@[0]);
}

/// An editor append lands after every row of the file as well: its patch
/// starts at the number of rows the content has and deletes nothing.
pub proof fn editor_append_starts_after_the_last_row(
    args: Json,
    memory: WorkingMemory,
    rows: Seq<Seq<char>>,
    path: Seq<char>,
    content: Seq<char>,
    read_token: Option<Seq<char>>,
)
    requires
        editor_patch_of(args, memory, "append"@, rows, path, content, read_token) is Ok,
    ensures
        editor_patch_of(args, memory, "append"@, rows, path, content, read_token) matches Ok((start, count, r, t))
            && start == (if content.len() == 0 {
            0nat
        } else {
            lines(content).len()
        }) as usize && count == 0 && r == rows,
{
    reveal_strlit("append");
    reveal_strlit("replace");
    reveal_strlit("delete");
    reveal_strlit("insert");
    assert("append"@.len() != "replace"@.len() && "append"@[0] != "delete"@[0]);
    assert("append"@[0] != "insert"@[0]);
}

} // verus!
