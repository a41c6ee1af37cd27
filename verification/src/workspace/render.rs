//! Rendering of viewport windows and token accounting.

use vstd::prelude::*;
use crate::text::{
    chars_of, chars_slice, decimal, decimal_chars, lines, lines_of, push_str, str_eq,
    string_from_chars, strings_from, views,
};
use crate::workspace::model::{
    base_utility, clamped, utility_of, AppId, AppLifecycle, AppPriorityClass, TextViewport,
    ViewportCandidate, ViewportTier,
};

verus! {

/// Estimated token cost of a text of `len` characters: a quarter of its
/// length rounded up, and at least one.
pub open spec fn token_cost(len: nat) -> nat {
    if (len + 3) / 4 < 1 {
        1
    } else {
        ((len + 3) / 4) as nat
    }
}

/// The estimated token cost of `text`.
pub fn estimate_token_cost(text: &str) -> (r: usize)
    ensures
        r == token_cost(text@.len()),
        r <= usize::MAX / 4 + 1,
{
    let cs = chars_of(text);
    let n = cs.len();
    let q = n / 4 + if n % 4 == 0 { 0 } else { 1 };
    assert(q == (n + 3) / 4) by (nonlinear_arith)
        requires
            q == n / 4 + if n % 4 == 0 { 0int } else { 1int },
    ;
    if q < 1 {
        1
    } else {
        q
    }
}

/// How many characters a budget of `budget_tokens` admits: four per token,
/// saturating at `usize::MAX`.
pub open spec fn char_allowance(budget_tokens: nat) -> nat {
    if budget_tokens * 4 > usize::MAX {
        usize::MAX as nat
    } else {
        budget_tokens * 4
    }
}

/// A text cut to the characters that a token budget admits.
pub open spec fn clamped_text(text: Seq<char>, budget_tokens: nat) -> Seq<char> {
    if text.len() <= char_allowance(budget_tokens) {
        text
    } else {
        text.take(char_allowance(budget_tokens) as int)
    }
}

/// `text` cut to the first `4 * budget_tokens` characters.
pub fn clamp_text_to_budget(text: &str, budget_tokens: usize) -> (r: String)
    ensures
        r@ == clamped_text(text@, budget_tokens as nat),
{
    let max_chars: usize = if budget_tokens > usize::MAX / 4 {
        usize::MAX
    } else {
        budget_tokens * 4
    };
    let cs = chars_of(text);
    if cs.len() <= max_chars {
        return string_from_chars(&cs);
    }
    let cut = chars_slice(&cs, 0, max_chars);
    assert(cs@.subrange(0, max_chars as int) == cs@.take(max_chars as int));
    string_from_chars(&cut)
}

/// The last line (exclusive) that a viewport shows of a text of `total` lines.
pub open spec fn window_end(v: TextViewport, total: nat) -> nat {
    let c = clamped(v, total);
    if c.start_line + c.line_count < total {
        (c.start_line + c.line_count) as nat
    } else {
        total
    }
}

/// The end of the window of a clamped viewport over `total` lines.
fn window_end_of(c: TextViewport, total: usize) -> (r: usize)
    requires
        total == 0 ==> c.start_line == 0,
        total > 0 ==> c.start_line < total,
    ensures
        r == (if c.start_line + c.line_count < total {
            (c.start_line + c.line_count) as nat
        } else {
            total as nat
        }),
        c.start_line <= r <= total,
{
    if c.line_count < total - c.start_line {
        c.start_line + c.line_count
    } else {
        total
    }
}

/// The lines that a viewport shows.
pub open spec fn visible<T>(lines: Seq<T>, v: TextViewport) -> Seq<T> {
    lines.subrange(clamped(v, lines.len()).start_line as int, window_end(v, lines.len()) as int)
}

/// Each line as a bullet: `- line` and a newline.
pub open spec fn bullets(lines: Seq<Seq<char>>) -> Seq<char>
    decreases lines.len(),
{
    if lines.len() == 0 {
        Seq::empty()
    } else {
        bullets(lines.drop_last()) + "- "@ + lines.last() + "\n"@
    }
}

/// A window of `lines` under `header`: the header line, then the visible
/// lines as bullets, or `- empty` when there are no lines.
pub open spec fn window_text(header: Seq<char>, lines: Seq<Seq<char>>, v: TextViewport) -> Seq<
    char,
> {
    header + "\n"@ + if lines.len() == 0 {
        "- empty\n"@
    } else {
        bullets(visible(lines, v))
    }
}

/// Copies `lines[from..to]`.
fn copy_range(lines: &Vec<String>, from: usize, to: usize) -> (r: Vec<String>)
    requires
        from <= to <= lines.len(),
    ensures
        r@ == lines@.subrange(from as int, to as int),
{
    let mut out: Vec<String> = Vec::new();
    let mut i = from;
    while i < to
        invariant
            from <= i <= to <= lines.len(),
            out@ == lines@.subrange(from as int, i as int),
        decreases to - i,
    {
        out.push(lines[i].clone());
        i = i + 1;
        assert(lines@.subrange(from as int, i as int) =~= lines@.subrange(from as int, i - 1).push(
            lines@[i - 1],
        ));
    }
    out
}

/// The lines of `lines` that `viewport` shows.
pub fn visible_lines(lines: &Vec<String>, viewport: TextViewport) -> (r: Vec<String>)
    ensures
        r@ == visible(lines@, viewport),
{
    let clamped_view = viewport.clamp(lines.len());
    let end = window_end_of(clamped_view, lines.len());
    copy_range(lines, clamped_view.start_line, end)
}

/// Appends `- line` and a newline for each line of `lines[from..to]`.
fn push_bullets(out: &mut Vec<char>, lines: &Vec<String>, from: usize, to: usize)
    requires
        from <= to <= lines.len(),
    ensures
        final(out)@ == old(out)@ + bullets(views(lines@.subrange(from as int, to as int))),
{
    let ghost start = out@;
    let mut i = from;
    assert(views(lines@.subrange(from as int, from as int)) =~= Seq::<Seq<char>>::empty());
    while i < to
        invariant
            from <= i <= to <= lines.len(),
            out@ == start + bullets(views(lines@.subrange(from as int, i as int))),
        decreases to - i,
    {
        push_str(out, "- ");
        push_str(out, lines[i].as_str());
        push_str(out, "\n");
        proof {
            let next = views(lines@.subrange(from as int, i + 1));
            assert(next.drop_last() =~= views(lines@.subrange(from as int, i as int)));
            assert(next.last() == lines@[i as int]@);
        }
        i = i + 1;
    }
}

/// The window of `lines` starting at `start_line` and `line_count` long,
/// under `header`.
pub fn render_window(header: &str, lines: &Vec<String>, start_line: usize, line_count: usize) -> (r:
    String)
    ensures
        r@ == window_text(header@, views(lines@), TextViewport { start_line, line_count }),
{
    let mut content: Vec<char> = Vec::new();
    push_str(&mut content, header);
    push_str(&mut content, "\n");
    if lines.len() == 0 {
        push_str(&mut content, "- empty\n");
        return string_from_chars(&content);
    }
    let clamped_view = TextViewport::new(start_line, line_count).clamp(lines.len());
    let end = window_end_of(clamped_view, lines.len());
    push_bullets(&mut content, lines, clamped_view.start_line, end);
    proof {
        let v = TextViewport { start_line, line_count };
        assert(views(lines@.subrange(clamped_view.start_line as int, end as int)) =~= visible(
            views(lines@),
            v,
        ));
    }
    string_from_chars(&content)
}

/// A content line prefixed with its row number: `row | line`.
pub open spec fn numbered_line(row: nat, line: Seq<char>) -> Seq<char> {
    decimal(row) + " | "@ + line
}

/// Each line prefixed with its zero-based row number.
pub fn numbered_content_lines(lines: &Vec<String>) -> (r: Vec<String>)
    ensures
        r@.len() == lines@.len(),
        forall|i: int| 0 <= i < r@.len() ==> #[trigger] r@[i]@ == numbered_line(
            i as nat,
            lines@[i]@,
        ),
{
    let mut out: Vec<String> = Vec::new();
    let mut i: usize = 0;
    while i < lines.len()
        invariant
            i <= lines.len(),
            out@.len() == i,
            forall|k: int| 0 <= k < i ==> #[trigger] out@[k]@ == numbered_line(
                k as nat,
                lines@[k]@,
            ),
        decreases lines.len() - i,
    {
        let mut line = decimal_chars(i as u64);
        push_str(&mut line, " | ");
        push_str(&mut line, lines[i].as_str());
        out.push(string_from_chars(&line));
        i = i + 1;
    }
    out
}

/// The rows of an editor buffer holding `content`: its lines, plus an empty
/// last row when the content ends with a newline; no rows when it is empty.
pub open spec fn editor_rows(content: Seq<char>) -> Seq<Seq<char>> {
    if content.len() == 0 {
        Seq::empty()
    } else if content.last() == '\n' {
        lines(content).push(Seq::empty())
    } else {
        lines(content)
    }
}

/// Splits editor content into rows.
pub fn split_editor_content(content: &str) -> (r: Vec<String>)
    ensures
        views(r@) == editor_rows(content@),
{
    let cs = chars_of(content);
    if cs.len() == 0 {
        let empty: Vec<String> = Vec::new();
        assert(views(empty@) =~= editor_rows(content@));
        return empty;
    }
    let ls = lines_of(&cs);
    let mut out = strings_from(&ls);
    if cs[cs.len() - 1] == '\n' {
        out.push(String::new());
    }
    assert(views(out@) =~= editor_rows(content@));
    out
}

/// The language of a file name by its extension (the text after its last
/// `.`), for the extensions the editor knows.
pub open spec fn language_for_extension(ext: Seq<char>) -> Option<Seq<char>> {
    if ext == "rs"@ {
        Some("rust"@)
    } else if ext == "ts"@ {
        Some("typescript"@)
    } else if ext == "tsx"@ {
        Some("typescriptreact"@)
    } else if ext == "js"@ {
        Some("javascript"@)
    } else if ext == "jsx"@ {
        Some("javascriptreact"@)
    } else if ext == "json"@ {
        Some("json"@)
    } else if ext == "md"@ {
        Some("markdown"@)
    } else if ext == "py"@ {
        Some("python"@)
    } else if ext == "toml"@ {
        Some("toml"@)
    } else if ext == "yaml"@ || ext == "yml"@ {
        Some("yaml"@)
    } else {
        None
    }
}

/// Index of the last occurrence of `c` in `s`, if any.
pub open spec fn last_index_of(s: Seq<char>, c: char) -> Option<int>
    decreases s.len(),
{
    if s.len() == 0 {
        None
    } else if s.last() == c {
        Some(s.len() - 1)
    } else {
        last_index_of(s.drop_last(), c)
    }
}

/// The language of a file: none without a `.`, else by the extension.
pub open spec fn language_of(file_name: Seq<char>) -> Option<Seq<char>> {
    match last_index_of(file_name, '.') {
        None => None,
        Some(i) => language_for_extension(file_name.skip(i + 1)),
    }
}

/// The last index of `c` in `s`.
pub fn rfind_char(s: &Vec<char>, c: char) -> (r: Option<usize>)
    ensures
        r matches Some(i) ==> last_index_of(s@, c) == Some(i as int) && i < s@.len(),
        r is None ==> last_index_of(s@, c) is None,
{
    let mut n: usize = s.len();
    assert(s@.take(n as int) == s@);
    while n > 0
        invariant
            n <= s.len(),
            last_index_of(s@, c) == last_index_of(s@.take(n as int), c),
        decreases n,
    {
        let t = Ghost(s@.take(n as int));
        assert(t@.last() == s@[n - 1]);
        assert(t@.drop_last() =~= s@.take(n - 1));
        if s[n - 1] == c {
            return Some(n - 1);
        }
        n = n - 1;
    }
    None
}

/// The editor language for a file name, if its extension is known.
pub fn infer_language_id(file_name: &str) -> (r: Option<String>)
    ensures
        r matches Some(s) ==> language_of(file_name@) == Some(s@),
        r is None ==> language_of(file_name@) is None,
{
    let cs = chars_of(file_name);
    let dot = match rfind_char(&cs, '.') {
        None => return None,
        Some(i) => i,
    };
    assert(dot < cs.len());
    let ext_chars = chars_slice(&cs, dot + 1, cs.len());
    assert(ext_chars@ == cs@.skip(dot + 1));
    let ext = string_from_chars(&ext_chars);
    let e = ext.as_str();
    let language = if str_eq(e, "rs") {
        "rust"
    } else if str_eq(e, "ts") {
        "typescript"
    } else if str_eq(e, "tsx") {
        "typescriptreact"
    } else if str_eq(e, "js") {
        "javascript"
    } else if str_eq(e, "jsx") {
        "javascriptreact"
    } else if str_eq(e, "json") {
        "json"
    } else if str_eq(e, "md") {
        "markdown"
    } else if str_eq(e, "py") {
        "python"
    } else if str_eq(e, "toml") {
        "toml"
    } else if str_eq(e, "yaml") || str_eq(e, "yml") {
        "yaml"
    } else {
        return None;
    };
    Some(String::from_str(language))
}

/// Lines shown in the preferred tier: at least six.
pub open spec fn preferred_lines(v: TextViewport) -> usize {
    if v.line_count < 6 {
        6
    } else {
        v.line_count
    }
}

/// Lines shown in the minimal tier: the preferred count clamped to `[4, 8]`.
pub open spec fn minimal_lines(v: TextViewport) -> usize {
    if preferred_lines(v) > 8 {
        8
    } else {
        preferred_lines(v)
    }
}

/// The two viewport candidates of an open app: a minimal tier (mandatory
/// when the app is pinned or focused, utility base + 20) and a preferred
/// tier (never mandatory, utility base + 50), each costing the tokens of
/// its rendered window. A closed app has no candidates.
pub fn build_text_candidates(
    app_id: AppId,
    lifecycle: AppLifecycle,
    pinned: bool,
    lines: &Vec<String>,
    viewport: TextViewport,
    header: &str,
    priority: AppPriorityClass,
) -> (r: Vec<ViewportCandidate>)
    ensures
        lifecycle == AppLifecycle::InstalledClosed ==> r@.len() == 0,
        lifecycle != AppLifecycle::InstalledClosed ==> {
            &&& r@.len() == 2
            &&& r@[0].app_id == app_id
            &&& r@[0].tier == ViewportTier::Minimal
            &&& r@[0].mandatory == (pinned || lifecycle == AppLifecycle::OpenMountedFocused)
            &&& r@[0].utility == utility_of(priority) + 20
            &&& r@[0].content@ == window_text(
                header@,
                views(lines@),
                TextViewport { start_line: viewport.start_line, line_count: minimal_lines(viewport) },
            )
            &&& r@[0].cost_tokens == token_cost(r@[0].content@.len())
            &&& r@[1].app_id == app_id
            &&& r@[1].tier == ViewportTier::Preferred
            &&& !r@[1].mandatory
            &&& r@[1].utility == utility_of(priority) + 50
            &&& r@[1].content@ == window_text(
                header@,
                views(lines@),
                TextViewport {
                    start_line: viewport.start_line,
                    line_count: preferred_lines(viewport),
                },
            )
            &&& r@[1].cost_tokens == token_cost(r@[1].content@.len())
        },
{
    let mut out: Vec<ViewportCandidate> = Vec::new();
    if !lifecycle.is_open() {
        return out;
    }
    let preferred: usize = if viewport.line_count < 6 {
        6
    } else {
        viewport.line_count
    };
    let minimal: usize = if preferred > 8 {
        8
    } else {
        preferred
    };
    let minimal_content = render_window(header, lines, viewport.start_line, minimal);
    let preferred_content = render_window(header, lines, viewport.start_line, preferred);
    let mandatory = pinned || lifecycle.is_focused();
    let base = base_utility(priority);
    let minimal_cost = estimate_token_cost(minimal_content.as_str());
    let preferred_cost = estimate_token_cost(preferred_content.as_str());
    out.push(
        ViewportCandidate {
            app_id,
            tier: ViewportTier::Minimal,
            mandatory,
            utility: base + 20,
            cost_tokens: minimal_cost,
            content: minimal_content,
        },
    );
    out.push(
        ViewportCandidate {
            app_id,
            tier: ViewportTier::Preferred,
            mandatory: false,
            utility: base + 50,
            cost_tokens: preferred_cost,
            content: preferred_content,
        },
    );
    out
}

} // verus!
