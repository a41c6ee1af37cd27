//! Pieces of the JavaScript-to-Python translation: dotted `input`
//! accesses become subscripts, and comma- or colon-separated lists are
//! split at the top level only.

use vstd::prelude::*;
use crate::text::{chars_of, is_word_char, push_chars, push_str, string_from_chars, trim, trim_chars};

verus! {

/// The lower-case hex digit of `n`, below sixteen.
pub open spec fn hex_digit(n: int) -> char {
    if n < 10 {
        (48 + n) as char
    } else {
        (87 + n) as char
    }
}

/// How JSON writes a character inside a string: a quote, a backslash and
/// the control characters are escaped (the short forms where JSON has
/// them, else `\u00` and two hex digits); every other character stands as
/// it is.
pub open spec fn escaped_char(c: char) -> Seq<char> {
    if c == '"' {
        seq!['\\', '"']
    } else if c == '\\' {
        seq!['\\', '\\']
    } else if c == '\u{8}' {
        seq!['\\', 'b']
    } else if c == '\t' {
        seq!['\\', 't']
    } else if c == '\n' {
        seq!['\\', 'n']
    } else if c == '\u{c}' {
        seq!['\\', 'f']
    } else if c == '\r' {
        seq!['\\', 'r']
    } else if (c as int) < 0x20 {
        seq!['\\', 'u', '0', '0', hex_digit((c as int) / 16), hex_digit((c as int) % 16)]
    } else {
        seq![c]
    }
}

/// The characters of `s`, each as JSON writes it inside a string.
pub open spec fn escaped(s: Seq<char>) -> Seq<char>
    decreases s.len(),
{
    if s.len() == 0 {
        Seq::empty()
    } else {
        escaped(s.drop_last()) + escaped_char(s.last())
    }
}

/// The JSON text of a string, as `serde_json::to_string` writes it: its
/// characters escaped, between double quotes.
pub open spec fn json_string_text(s: Seq<char>) -> Seq<char> {
    seq!['"'] + escaped(s) + seq!['"']
}

/// A text that JSON writes without escapes: no control character, quote
/// or backslash.
pub open spec fn needs_no_escape(s: Seq<char>) -> bool {
    forall|i: int| 0 <= i < s.len() ==> ' ' <= #[trigger] s[i] && s[i] != '"' && s[i] != '\\'
}

/// The JSON text of a string, through `serde_json::to_string`: the
/// contract claims that serde_json escapes exactly the quote, the
/// backslash and the control characters, as `escaped_char` says.
#[verifier::external_body]
pub(crate) fn json_quote(s: &str) -> (r: String)
    ensures
        r@ == json_string_text(s@),
{
    serde_json::to_string(s).unwrap_or_default()
}

/// A text that needs no escapes is written between double quotes as it is.
pub proof fn lemma_plain_quoted(s: Seq<char>)
    requires
        needs_no_escape(s),
    ensures
        json_string_text(s) == seq!['"'] + s + seq!['"'],
{
    lemma_plain_escaped(s);
}

proof fn lemma_plain_escaped(s: Seq<char>)
    requires
        needs_no_escape(s),
    ensures
        escaped(s) == s,
    decreases s.len(),
{
    if s.len() > 0 {
        let c = s.last();
        assert(' ' <= s[s.len() - 1]);
        assert(needs_no_escape(s.drop_last()));
        lemma_plain_escaped(s.drop_last());
        assert((c as int) >= 0x20);
        assert(escaped_char(c) == seq![c]);
        assert(escaped(s) =~= s);
    }
}

/// The end of the run of identifier characters that starts at `k`.
pub open spec fn word_end(s: Seq<char>, k: int) -> int
    decreases s.len() - k,
{
    if 0 <= k < s.len() && is_word_char(s[k]) {
        word_end(s, k + 1)
    } else {
        k
    }
}

pub(crate) proof fn lemma_word_end(s: Seq<char>, k: int)
    requires
        0 <= k,
    ensures
        k <= word_end(s, k),
        k <= s.len() ==> word_end(s, k) <= s.len(),
        forall|j: int| k <= j < word_end(s, k) ==> is_word_char(#[trigger] s[j]),
    decreases s.len() - k,
{
    if 0 <= k < s.len() && is_word_char(s[k]) {
        lemma_word_end(s, k + 1);
    }
}

/// The `.segment` chain that starts at `c`: its segments and where it
/// ends. A `.` with no identifier after it ends the chain and is dropped.
pub open spec fn chain(s: Seq<char>, c: int) -> (Seq<Seq<char>>, int)
    decreases s.len() - c,
{
    if 0 <= c < s.len() && s[c] == '.' {
        let st = c + 1;
        let e = word_end(s, st);
        if e <= st || e > s.len() {
            (Seq::empty(), st)
        } else {
            let rest = chain(s, e);
            (seq![s.subrange(st, e)] + rest.0, rest.1)
        }
    } else {
        (Seq::empty(), c)
    }
}

/// A dotted access to `input` starts at `i`.
pub open spec fn starts_chain(s: Seq<char>, i: int) -> bool {
    &&& 0 <= i
    &&& i + 6 <= s.len()
    &&& s.subrange(i, i + 6) == "input."@
    &&& (i == 0 || !is_word_char(s[i - 1]))
}

/// The subscripts for `segs`: each segment as a quoted key in brackets.
pub open spec fn subscripts(segs: Seq<Seq<char>>) -> Seq<char>
    decreases segs.len(),
{
    if segs.len() == 0 {
        Seq::empty()
    } else {
        subscripts(segs.drop_last()) + "[\""@ + segs.last() + "\"]"@
    }
}

/// `s` from `i` on with every dotted access to `input` turned into
/// subscripts: `input.a.b` becomes `input["a"]["b"]`.
pub open spec fn converted(s: Seq<char>, i: int) -> Seq<char>
    decreases s.len() - i,
{
    if i < 0 || i >= s.len() {
        Seq::empty()
    } else if !starts_chain(s, i) {
        seq![s[i]] + converted(s, i + 1)
    } else {
        let ch = chain(s, i + 5);
        if ch.0.len() == 0 || ch.1 <= i || ch.1 > s.len() {
            seq![s[i]] + converted(s, i + 1)
        } else {
            "input"@ + subscripts(ch.0) + converted(s, ch.1)
        }
    }
}

proof fn lemma_chain(s: Seq<char>, c: int)
    requires
        0 <= c,
    ensures
        c <= chain(s, c).1,
        c <= s.len() ==> chain(s, c).1 <= s.len(),
        chain(s, c).0.len() > 0 ==> c < chain(s, c).1,
        forall|k: int| 0 <= k < chain(s, c).0.len() ==> needs_no_escape(#[trigger] chain(s, c).0[k]),
    decreases s.len() - c,
{
    if 0 <= c < s.len() && s[c] == '.' {
        let st = c + 1;
        lemma_word_end(s, st);
        let e = word_end(s, st);
        if e > st {
            lemma_chain(s, e);
            let rest = chain(s, e);
            let seg = s.subrange(st, e);
            assert(needs_no_escape(seg)) by {
                assert forall|i: int| 0 <= i < seg.len() implies ' ' <= #[trigger] seg[i] && seg[i] != '"' && seg[i] != '\\' by {
                    assert(seg[i] == s[st + i]);
                    assert(is_word_char(s[st + i]));
                }
            }
            assert forall|k: int| 0 <= k < chain(s, c).0.len() implies needs_no_escape(#[trigger] chain(s, c).0[k]) by {
                if k > 0 {
                    assert(chain(s, c).0[k] == rest.0[k - 1]);
                }
            }
        }
    }
}

/// Whether a dotted access to `input` starts at `i`.
fn starts_chain_exec(s: &Vec<char>, i: usize) -> (r: bool)
    requires
        i < s@.len(),
    ensures
        r == starts_chain(s@, i as int),
{
    if s.len() - i < 6 {
        return false;
    }
    let pat = chars_of("input.");
    proof {
        reveal_strlit("input.");
    }
    if !crate::text::chars_occur_at(s, &pat, i) {
        return false;
    }
    i == 0 || !crate::text::char_is_word(s[i - 1])
}

/// Turns every dotted access to `input` into subscripts.
pub fn convert_input_accesses(input: &str) -> (r: String)
    ensures
        r@ == converted(input@, 0),
{
    let s = chars_of(input);
    let mut out: Vec<char> = Vec::new();
    let mut index: usize = 0;
    while index < s.len()
        invariant
            s@ == input@,
            index <= s@.len(),
            converted(s@, 0) == out@ + converted(s@, index as int),
        decreases s@.len() - index,
    {
        if !starts_chain_exec(&s, index) {
            let ghost before = out@;
            out.push(s[index]);
            assert(before + converted(s@, index as int) =~= out@ + converted(s@, index + 1));
            index = index + 1;
            continue;
        }
        let mut cursor: usize = index + 5;
        let mut segments: Vec<String> = Vec::new();
        proof {
            lemma_chain(s@, index + 5);
        }
        let ghost whole = chain(s@, index + 5);
        while cursor < s.len() && s[cursor] == '.'
            invariant_except_break
                whole.0 == crate::text::views(segments@) + chain(s@, cursor as int).0,
                whole.1 == chain(s@, cursor as int).1,
            invariant
                index + 5 <= cursor <= s@.len(),
                whole == chain(s@, index + 5),
            ensures
                whole.0 == crate::text::views(segments@),
                whole.1 == cursor,
            decreases s@.len() - cursor,
        {
            let dot = cursor;
            cursor = cursor + 1;
            let start = cursor;
            while cursor < s.len() && crate::text::char_is_word(s[cursor])
                invariant
                    start <= cursor <= s@.len(),
                    word_end(s@, start as int) == word_end(s@, cursor as int),
                decreases s@.len() - cursor,
            {
                cursor = cursor + 1;
            }
            proof {
                lemma_word_end(s@, start as int);
            }
            if start == cursor {
                assert(chain(s@, dot as int) == (Seq::<Seq<char>>::empty(), start as int));
                assert(crate::text::views(segments@) + Seq::<Seq<char>>::empty() =~= crate::text::views(segments@));
                break;
            }
            let seg = crate::text::chars_slice(&s, start, cursor);
            let ghost before = crate::text::views(segments@);
            segments.push(string_from_chars(&seg));
            proof {
                let rest = chain(s@, cursor as int);
                assert(chain(s@, dot as int).0 == seq![s@.subrange(start as int, cursor as int)] + rest.0);
                assert(crate::text::views(segments@) =~= before.push(seg@));
                assert(crate::text::views(segments@) + rest.0 =~= before + (seq![seg@] + rest.0));
            }
        }
        proof {
            assert forall|j: int| 0 <= j < segments@.len() implies needs_no_escape(#[trigger] segments@[j]@) by {
                assert(whole.0[j] == segments@[j]@);
            }
        }
        if segments.len() == 0 {
            let ghost before = out@;
            out.push(s[index]);
            assert(before + converted(s@, index as int) =~= out@ + converted(s@, index + 1));
            index = index + 1;
            continue;
        }
        let ghost before = out@;
        push_str(&mut out, "input");
        let mut k: usize = 0;
        assert(crate::text::views(segments@).take(0) =~= Seq::<Seq<char>>::empty());
        while k < segments.len()
            invariant
                k <= segments@.len(),
                out@ == before + "input"@ + subscripts(crate::text::views(segments@).take(k as int)),
                forall|j: int| 0 <= j < segments@.len() ==> needs_no_escape(#[trigger] segments@[j]@),
            decreases segments@.len() - k,
        {
            push_str(&mut out, "[");
            let quoted = json_quote(segments[k].as_str());
            proof {
                lemma_plain_quoted(segments@[k as int]@);
            }
            push_str(&mut out, quoted.as_str());
            push_str(&mut out, "]");
            proof {
                reveal_strlit("[");
                reveal_strlit("]");
                reveal_strlit("[\"");
                reveal_strlit("\"]");
                let v = crate::text::views(segments@);
                assert(v.take(k + 1).drop_last() =~= v.take(k as int));
                assert(v.take(k + 1).last() == segments@[k as int]@);
            }
            k = k + 1;
        }
        assert(crate::text::views(segments@).take(segments@.len() as int) =~= crate::text::views(segments@));
        index = cursor;
    }
    assert(out@ + Seq::<char>::empty() =~= out@);
    string_from_chars(&out)
}

/// The splitter's state: finished parts, the part being read, the depths
/// of open parentheses, brackets and braces, the open quote if any, and
/// whether a backslash escape is pending inside it.
pub type SplitState = (Seq<Seq<char>>, Seq<char>, int, int, int, Option<char>, bool);

/// One less, but not below zero.
pub open spec fn sub1(d: int) -> int {
    if d > 0 {
        d - 1
    } else {
        0
    }
}

/// One step of the splitter: inside quotes everything is kept (an escape
/// keeps the next character, the matching quote closes); outside, quotes
/// open, brackets nest, and `sep` at depth zero ends a part.
pub open spec fn split_step(st: SplitState, ch: char, sep: char) -> SplitState {
    let (parts, cur, p, b, c, q, esc) = st;
    match q {
        Some(active) => if esc {
            (parts, cur.push(ch), p, b, c, q, false)
        } else if ch == '\\' {
            (parts, cur.push(ch), p, b, c, q, true)
        } else if ch == active {
            (parts, cur.push(ch), p, b, c, None, false)
        } else {
            (parts, cur.push(ch), p, b, c, q, false)
        },
        None => if ch == '\'' || ch == '"' {
            (parts, cur.push(ch), p, b, c, Some(ch), esc)
        } else if ch == '(' {
            (parts, cur.push(ch), p + 1, b, c, q, esc)
        } else if ch == ')' {
            (parts, cur.push(ch), sub1(p), b, c, q, esc)
        } else if ch == '[' {
            (parts, cur.push(ch), p, b + 1, c, q, esc)
        } else if ch == ']' {
            (parts, cur.push(ch), p, sub1(b), c, q, esc)
        } else if ch == '{' {
            (parts, cur.push(ch), p, b, c + 1, q, esc)
        } else if ch == '}' {
            (parts, cur.push(ch), p, b, sub1(c), q, esc)
        } else if ch == sep && p == 0 && b == 0 && c == 0 {
            (parts.push(trim(cur)), Seq::empty(), p, b, c, q, esc)
        } else {
            (parts, cur.push(ch), p, b, c, q, esc)
        },
    }
}

/// The splitter's state after reading `s`.
pub open spec fn split_scan(s: Seq<char>, sep: char) -> SplitState
    decreases s.len(),
{
    if s.len() == 0 {
        (Seq::empty(), Seq::empty(), 0, 0, 0, None, false)
    } else {
        split_step(split_scan(s.drop_last(), sep), s.last(), sep)
    }
}

/// The top-level parts of `s` between separators `sep`, each trimmed; a
/// blank last part is left out.
pub open spec fn top_level_parts(s: Seq<char>, sep: char) -> Seq<Seq<char>> {
    let st = split_scan(s, sep);
    if trim(st.1).len() > 0 {
        st.0.push(trim(st.1))
    } else {
        st.0
    }
}

/// Splits `input` at the separators `sep` that stand outside quotes and
/// brackets.
pub fn split_top_level(input: &str, separator: char) -> (r: Vec<String>)
    ensures
        crate::text::views(r@) == top_level_parts(input@, separator),
{
    let s = chars_of(input);
    let mut parts: Vec<String> = Vec::new();
    let mut cur: Vec<char> = Vec::new();
    let mut dp: usize = 0;
    let mut db: usize = 0;
    let mut dc: usize = 0;
    let mut quote: Option<char> = None;
    let mut escape = false;
    let mut i: usize = 0;
    assert(s@.take(0) =~= Seq::<char>::empty());
    while i < s.len()
        invariant
            s@ == input@,
            i <= s@.len(),
            dp <= i && db <= i && dc <= i,
            split_scan(s@.take(i as int), separator) == (
                crate::text::views(parts@),
                cur@,
                dp as int,
                db as int,
                dc as int,
                quote,
                escape,
            ),
        decreases s@.len() - i,
    {
        let ch = s[i];
        proof {
            assert(s@.take(i + 1).drop_last() =~= s@.take(i as int));
            assert(s@.take(i + 1).last() == ch);
        }
        match quote {
            Some(active) => {
                cur.push(ch);
                if escape {
                    escape = false;
                } else if ch == '\\' {
                    escape = true;
                } else if ch == active {
                    quote = None;
                }
            },
            None => {
                if ch == '\'' || ch == '"' {
                    quote = Some(ch);
                    cur.push(ch);
                } else if ch == '(' {
                    dp = dp + 1;
                    cur.push(ch);
                } else if ch == ')' {
                    dp = if dp > 0 { dp - 1 } else { 0 };
                    cur.push(ch);
                } else if ch == '[' {
                    db = db + 1;
                    cur.push(ch);
                } else if ch == ']' {
                    db = if db > 0 { db - 1 } else { 0 };
                    cur.push(ch);
                } else if ch == '{' {
                    dc = dc + 1;
                    cur.push(ch);
                } else if ch == '}' {
                    dc = if dc > 0 { dc - 1 } else { 0 };
                    cur.push(ch);
                } else if ch == separator && dp == 0 && db == 0 && dc == 0 {
                    let t = trim_chars(&cur);
                    let ghost before = crate::text::views(parts@);
                    parts.push(string_from_chars(&t));
                    assert(crate::text::views(parts@) =~= before.push(t@));
                    cur = Vec::new();
                } else {
                    cur.push(ch);
                }
            },
        }
        i = i + 1;
    }
    assert(s@.take(s@.len() as int) =~= s@);
    let t = trim_chars(&cur);
    if t.len() > 0 {
        let ghost before = crate::text::views(parts@);
        parts.push(string_from_chars(&t));
        assert(crate::text::views(parts@) =~= before.push(t@));
    }
    parts
}

} // verus!
