//! Light-compute source handling: refusing forbidden constructs, telling
//! failures apart, and the token rewriting that the Python backend's
//! translator is built from.

use vstd::prelude::*;
use crate::text::{
    chars_contain, chars_of, contains, is_word_char, lower, lower_chars, push_chars, push_str,
    string_from_chars,
};

verus! {

/// The forbidden constructs, each with the reason it is refused, in the
/// order they are checked.
pub open spec fn forbidden_checks() -> Seq<(Seq<char>, Seq<char>)> {
    seq![
        ("import "@, "imports are disabled"@),
        ("import("@, "dynamic imports are disabled"@),
        ("require("@, "require() is disabled"@),
        ("fetch("@, "network access is disabled"@),
        ("websocket"@, "network access is disabled"@),
        ("worker("@, "workers are disabled"@),
        ("process."@, "process access is disabled"@),
        ("deno."@, "runtime access is disabled"@),
    ]
}

/// The reason of the first forbidden construct at or after check `k` that
/// the lower-cased source contains.
pub open spec fn forbidden_from(lowered: Seq<char>, k: int) -> Option<Seq<char>>
    decreases 8 - k,
{
    if k < 0 || k >= 8 {
        None
    } else if contains(lowered, forbidden_checks()[k].0) {
        Some(forbidden_checks()[k].1)
    } else {
        forbidden_from(lowered, k + 1)
    }
}

/// Why a source is refused, if it is: the first forbidden construct that
/// its ASCII-lower-cased text contains.
pub fn forbidden_construct_reason(code: &str) -> (r: Option<&'static str>)
    ensures
        match forbidden_from(lower(code@), 0) {
            Some(reason) => r matches Some(s) && s@ == reason,
            None => r is None,
        },
{
    let cs = chars_of(code);
    let low = lower_chars(&cs);
    let needles: [&str; 8] = ["import ", "import(", "require(", "fetch(", "websocket", "worker(", "process.", "deno."];
    let reasons: [&str; 8] = [
        "imports are disabled",
        "dynamic imports are disabled",
        "require() is disabled",
        "network access is disabled",
        "network access is disabled",
        "workers are disabled",
        "process access is disabled",
        "runtime access is disabled",
    ];
    let mut k: usize = 0;
    while k < 8
        invariant
            low@ == lower(code@),
            k <= 8,
            forall|j: int| 0 <= j < 8 ==> (#[trigger] needles@[j])@ == forbidden_checks()[j].0,
            forall|j: int| 0 <= j < 8 ==> (#[trigger] reasons@[j])@ == forbidden_checks()[j].1,
            forbidden_from(lower(code@), 0) == forbidden_from(lower(code@), k as int),
        decreases 8 - k,
    {
        let needle = chars_of(needles[k]);
        if chars_contain(&low, &needle) {
            return Some(reasons[k]);
        }
        k = k + 1;
    }
    None
}

/// Whether a failure message speaks of memory exhaustion.
pub open spec fn oom_message(m: Seq<char>) -> bool {
    let l = lower(m);
    contains(l, "out of memory"@) || contains(l, "heap"@) || contains(l, "allocation failed"@)
        || contains(l, "memory limit"@)
}

/// Whether `needle` occurs in the already lower-cased `low`.
fn has(low: &Vec<char>, needle: &str) -> (r: bool)
    ensures
        r == contains(low@, needle@),
{
    let n = chars_of(needle);
    chars_contain(low, &n)
}

/// Whether a failure message speaks of memory exhaustion.
pub fn classify_oom(message: &str) -> (r: bool)
    ensures
        r == oom_message(message@),
{
    let cs = chars_of(message);
    let low = lower_chars(&cs);
    has(&low, "out of memory") || has(&low, "heap") || has(&low, "allocation failed") || has(&low, "memory limit")
}

/// The type recorded for a failed run: a refused source, memory
/// exhaustion, output over its limit, or any other runtime failure.
pub open spec fn failure_kind(m: Seq<char>) -> Seq<char> {
    if contains(lower(m), "rejected source"@) {
        "forbidden"@
    } else if oom_message(m) {
        "oom"@
    } else if contains(lower(m), "output exceeds"@) {
        "output_too_large"@
    } else {
        "runtime"@
    }
}

/// The type recorded for a failed run with message `message`.
pub fn classify_failure(message: &str) -> (r: &'static str)
    ensures
        r@ == failure_kind(message@),
{
    let cs = chars_of(message);
    let low = lower_chars(&cs);
    if has(&low, "rejected source") {
        "forbidden"
    } else if classify_oom(message) {
        "oom"
    } else if has(&low, "output exceeds") {
        "output_too_large"
    } else {
        "runtime"
    }
}

/// `tok` stands at `i` of `s` as a whole word: it matches there and no
/// identifier character touches it on either side.
pub open spec fn token_at(s: Seq<char>, tok: Seq<char>, i: int) -> bool {
    &&& 0 <= i
    &&& i + tok.len() <= s.len()
    &&& s.subrange(i, i + tok.len()) == tok
    &&& (i == 0 || !is_word_char(s[i - 1]))
    &&& (i + tok.len() == s.len() || !is_word_char(s[i + tok.len()]))
}

/// `s` from position `i` on with every whole-word `tok` replaced by `rep`,
/// scanning left to right.
pub open spec fn replaced_tokens(s: Seq<char>, tok: Seq<char>, rep: Seq<char>, i: int) -> Seq<char>
    decreases s.len() - i,
{
    if i < 0 || i >= s.len() {
        Seq::empty()
    } else if tok.len() > 0 && token_at(s, tok, i) {
        rep + replaced_tokens(s, tok, rep, i + tok.len())
    } else {
        seq![s[i]] + replaced_tokens(s, tok, rep, i + 1)
    }
}

/// Whether `tok` stands at `i` of `s` as a whole word.
fn token_at_exec(s: &Vec<char>, tok: &Vec<char>, i: usize) -> (r: bool)
    requires
        i < s@.len(),
    ensures
        r == token_at(s@, tok@, i as int),
{
    if tok.len() > s.len() - i {
        return false;
    }
    if !crate::text::chars_occur_at(s, tok, i) {
        return false;
    }
    let before_ok = i == 0 || !crate::text::char_is_word(s[i - 1]);
    let end = i + tok.len();
    let after_ok = end == s.len() || !crate::text::char_is_word(s[end]);
    before_ok && after_ok
}

/// Replaces every whole-word occurrence of `token` in `input` by
/// `replacement`.
pub fn replace_token(input: &str, token: &str, replacement: &str) -> (r: String)
    requires
        token@.len() > 0,
    ensures
        r@ == replaced_tokens(input@, token@, replacement@, 0),
{
    let s = chars_of(input);
    let tok = chars_of(token);
    let rep = chars_of(replacement);
    let mut out: Vec<char> = Vec::new();
    let mut i: usize = 0;
    while i < s.len()
        invariant
            s@ == input@,
            tok@ == token@,
            rep@ == replacement@,
            tok@.len() > 0,
            i <= s@.len(),
            replaced_tokens(s@, tok@, rep@, 0) == out@ + replaced_tokens(s@, tok@, rep@, i as int),
        decreases s@.len() - i,
    {
        if token_at_exec(&s, &tok, i) {
            let ghost before = out@;
            push_chars(&mut out, &rep);
            assert(before + replaced_tokens(s@, tok@, rep@, i as int) =~= out@ + replaced_tokens(
                s@,
                tok@,
                rep@,
                i + tok@.len(),
            ));
            i = i + tok.len();
        } else {
            let ghost before = out@;
            out.push(s[i]);
            assert(before + replaced_tokens(s@, tok@, rep@, i as int) =~= out@ + replaced_tokens(
                s@,
                tok@,
                rep@,
                i + 1,
            ));
            i = i + 1;
        }
    }
    assert(out@ + Seq::<char>::empty() =~= out@);
    string_from_chars(&out)
}

/// `s` from position `i` on with every occurrence of `from` replaced by
/// `to`, left to right and without overlap, as `str::replace` does.
pub open spec fn replaced_all(s: Seq<char>, from: Seq<char>, to: Seq<char>, i: int) -> Seq<char>
    decreases s.len() - i,
{
    if i < 0 || i >= s.len() {
        Seq::empty()
    } else if from.len() > 0 && i + from.len() <= s.len() && s.subrange(i, i + from.len()) == from {
        to + replaced_all(s, from, to, i + from.len())
    } else {
        seq![s[i]] + replaced_all(s, from, to, i + 1)
    }
}

/// Replaces every occurrence of the non-empty `from` in `s` by `to`.
pub fn replace_all(s: &Vec<char>, from: &str, to: &str) -> (r: Vec<char>)
    requires
        from@.len() > 0,
    ensures
        r@ == replaced_all(s@, from@, to@, 0),
{
    let pat = chars_of(from);
    let rep = chars_of(to);
    let mut out: Vec<char> = Vec::new();
    let mut i: usize = 0;
    while i < s.len()
        invariant
            pat@ == from@,
            rep@ == to@,
            pat@.len() > 0,
            i <= s@.len(),
            replaced_all(s@, pat@, rep@, 0) == out@ + replaced_all(s@, pat@, rep@, i as int),
        decreases s@.len() - i,
    {
        let hit = pat.len() <= s.len() - i && crate::text::chars_occur_at(s, &pat, i);
        if hit {
            let ghost before = out@;
            push_chars(&mut out, &rep);
            assert(before + replaced_all(s@, pat@, rep@, i as int) =~= out@ + replaced_all(
                s@,
                pat@,
                rep@,
                i + pat@.len(),
            ));
            i = i + pat.len();
        } else {
            let ghost before = out@;
            out.push(s[i]);
            assert(before + replaced_all(s@, pat@, rep@, i as int) =~= out@ + replaced_all(
                s@,
                pat@,
                rep@,
                i + 1,
            ));
            i = i + 1;
        }
    }
    assert(out@ + Seq::<char>::empty() =~= out@);
    out
}

} // verus!
