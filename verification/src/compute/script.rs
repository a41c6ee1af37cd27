//! Translating a light-compute JavaScript body into the Python subset of
//! the embedded interpreter: literals and `input` accesses are rewritten,
//! object literals are rebuilt entry by entry, and the statements are
//! wrapped in a main function.

use vstd::prelude::*;
use crate::agent::error::AgentError;
use crate::compute::source::{replace_all, replace_token, replaced_all, replaced_tokens, token_at};
use crate::compute::translate::{
    chain, convert_input_accesses, converted, json_quote, json_string_text, lemma_word_end, split_scan,
    split_top_level, starts_chain, subscripts, top_level_parts, word_end,
};
use crate::text::{
    chars_of, chars_slice, chars_start_with, is_word_char, join, join_strings, leading_ws, lines, push_chars, push_str,
    starts_with, string_from_chars, trailing_ws, trim, trim_chars, trim_end, trim_start, views,
};

verus! {

// ---------------------------------------------------------------------
// How many `{` a text holds: each object literal that is rebuilt hands
// its entries' values on with fewer of them, which bounds the recursion.
// ---------------------------------------------------------------------

/// How many `{` stand in `s`.
pub open spec fn braces(s: Seq<char>) -> nat
    decreases s.len(),
{
    if s.len() == 0 {
        0
    } else {
        braces(s.drop_last()) + if s.last() == '{' {
            1nat
        } else {
            0nat
        }
    }
}

proof fn lemma_braces_concat(a: Seq<char>, b: Seq<char>)
    ensures
        braces(a + b) == braces(a) + braces(b),
    decreases b.len(),
{
    if b.len() > 0 {
        lemma_braces_concat(a, b.drop_last());
        assert((a + b).drop_last() =~= a + b.drop_last());
    } else {
        assert(a + b =~= a);
    }
}

proof fn lemma_braces_none(s: Seq<char>)
    requires
        forall|k: int| 0 <= k < s.len() ==> s[k] != '{',
    ensures
        braces(s) == 0,
    decreases s.len(),
{
    if s.len() > 0 {
        lemma_braces_none(s.drop_last());
    }
}

proof fn lemma_braces_subrange(s: Seq<char>, i: int, j: int)
    requires
        0 <= i <= j <= s.len(),
    ensures
        braces(s.subrange(i, j)) <= braces(s),
{
    lemma_braces_concat(s.take(i), s.subrange(i, j));
    lemma_braces_concat(s.take(i) + s.subrange(i, j), s.skip(j));
    assert(s =~= s.take(i) + s.subrange(i, j) + s.skip(j));
}

proof fn lemma_leading_ws_len(s: Seq<char>)
    ensures
        leading_ws(s) <= s.len(),
    decreases s.len(),
{
    if s.len() > 0 {
        lemma_leading_ws_len(s.drop_first());
    }
}

proof fn lemma_trailing_ws_len(s: Seq<char>)
    ensures
        trailing_ws(s) <= s.len(),
    decreases s.len(),
{
    if s.len() > 0 {
        lemma_trailing_ws_len(s.drop_last());
    }
}

proof fn lemma_braces_trim(s: Seq<char>)
    ensures
        braces(trim(s)) <= braces(s),
{
    lemma_leading_ws_len(s);
    let a = trim_start(s);
    assert(a =~= s.subrange(leading_ws(s) as int, s.len() as int));
    lemma_braces_subrange(s, leading_ws(s) as int, s.len() as int);
    lemma_trailing_ws_len(a);
    assert(trim_end(a) =~= a.subrange(0, a.len() - trailing_ws(a)));
    lemma_braces_subrange(a, 0, a.len() - trailing_ws(a));
}

/// `s` without the copies of `c` that end it, as `str::trim_end_matches`.
pub open spec fn trim_end_char(s: Seq<char>, c: char) -> Seq<char>
    decreases s.len(),
{
    if s.len() > 0 && s.last() == c {
        trim_end_char(s.drop_last(), c)
    } else {
        s
    }
}

proof fn lemma_braces_trim_end_char(s: Seq<char>, c: char)
    ensures
        braces(trim_end_char(s, c)) <= braces(s),
    decreases s.len(),
{
    if s.len() > 0 && s.last() == c {
        lemma_braces_trim_end_char(s.drop_last(), c);
    }
}

proof fn lemma_braces_tokens(s: Seq<char>, tok: Seq<char>, rep: Seq<char>, i: int)
    requires
        0 <= i <= s.len(),
        braces(rep) == 0,
    ensures
        braces(replaced_tokens(s, tok, rep, i)) <= braces(s.subrange(i, s.len() as int)),
    decreases s.len() - i,
{
    if i < s.len() {
        if tok.len() > 0 && token_at(s, tok, i) {
            lemma_braces_tokens(s, tok, rep, i + tok.len());
            lemma_braces_concat(rep, replaced_tokens(s, tok, rep, i + tok.len()));
            lemma_braces_concat(s.subrange(i, i + tok.len()), s.subrange(i + tok.len(), s.len() as int));
            assert(s.subrange(i, s.len() as int) =~= s.subrange(i, i + tok.len()) + s.subrange(
                i + tok.len(),
                s.len() as int,
            ));
        } else {
            lemma_braces_tokens(s, tok, rep, i + 1);
            lemma_braces_concat(seq![s[i]], replaced_tokens(s, tok, rep, i + 1));
            lemma_braces_concat(seq![s[i]], s.subrange(i + 1, s.len() as int));
            assert(s.subrange(i, s.len() as int) =~= seq![s[i]] + s.subrange(i + 1, s.len() as int));
        }
    }
}

proof fn lemma_braces_replaced(s: Seq<char>, from: Seq<char>, to: Seq<char>, i: int)
    requires
        0 <= i <= s.len(),
        braces(to) == 0,
    ensures
        braces(replaced_all(s, from, to, i)) <= braces(s.subrange(i, s.len() as int)),
    decreases s.len() - i,
{
    if i < s.len() {
        if from.len() > 0 && i + from.len() <= s.len() && s.subrange(i, i + from.len()) == from {
            lemma_braces_replaced(s, from, to, i + from.len());
            lemma_braces_concat(to, replaced_all(s, from, to, i + from.len()));
            lemma_braces_concat(s.subrange(i, i + from.len()), s.subrange(i + from.len(), s.len() as int));
            assert(s.subrange(i, s.len() as int) =~= s.subrange(i, i + from.len()) + s.subrange(
                i + from.len(),
                s.len() as int,
            ));
        } else {
            lemma_braces_replaced(s, from, to, i + 1);
            lemma_braces_concat(seq![s[i]], replaced_all(s, from, to, i + 1));
            lemma_braces_concat(seq![s[i]], s.subrange(i + 1, s.len() as int));
            assert(s.subrange(i, s.len() as int) =~= seq![s[i]] + s.subrange(i + 1, s.len() as int));
        }
    }
}

proof fn lemma_chain_words(s: Seq<char>, c: int)
    requires
        0 <= c,
    ensures
        forall|k: int, j: int|
            0 <= k < chain(s, c).0.len() && 0 <= j < chain(s, c).0[k].len() ==> is_word_char(
                #[trigger] chain(s, c).0[k][j],
            ),
    decreases s.len() - c,
{
    if 0 <= c < s.len() && s[c] == '.' {
        let st = c + 1;
        let e = word_end(s, st);
        if !(e <= st || e > s.len()) {
            lemma_word_end(s, st);
            lemma_chain_words(s, e);
            let rest = chain(s, e);
            assert forall|k: int, j: int|
                0 <= k < chain(s, c).0.len() && 0 <= j < chain(s, c).0[k].len() implies is_word_char(
                #[trigger] chain(s, c).0[k][j],
            ) by {
                if k == 0 {
                    assert(chain(s, c).0[0] == s.subrange(st, e));
                    assert(s.subrange(st, e)[j] == s[st + j]);
                } else {
                    assert(chain(s, c).0[k] == rest.0[k - 1]);
                }
            }
        }
    }
}

proof fn lemma_braces_subscripts(segs: Seq<Seq<char>>)
    requires
        forall|k: int, j: int| 0 <= k < segs.len() && 0 <= j < segs[k].len() ==> is_word_char(#[trigger] segs[k][j]),
    ensures
        braces(subscripts(segs)) == 0,
    decreases segs.len(),
{
    if segs.len() > 0 {
        let last = segs.last();
        assert forall|j: int| 0 <= j < last.len() implies last[j] != '{' by {
            assert(is_word_char(segs[segs.len() - 1][j]));
        }
        lemma_braces_none(last);
        reveal_strlit("[\"");
        reveal_strlit("\"]");
        lemma_braces_none("[\""@);
        lemma_braces_none("\"]"@);
        lemma_braces_subscripts(segs.drop_last());
        let a = subscripts(segs.drop_last());
        lemma_braces_concat(a, "[\""@);
        lemma_braces_concat(a + "[\""@, last);
        lemma_braces_concat(a + "[\""@ + last, "\"]"@);
    }
}

proof fn lemma_braces_converted(s: Seq<char>, i: int)
    requires
        0 <= i <= s.len(),
    ensures
        braces(converted(s, i)) <= braces(s.subrange(i, s.len() as int)),
    decreases s.len() - i,
{
    if i < s.len() {
        let ch = chain(s, i + 5);
        if starts_chain(s, i) && !(ch.0.len() == 0 || ch.1 <= i || ch.1 > s.len()) {
            lemma_braces_converted(s, ch.1);
            lemma_chain_words(s, i + 5);
            lemma_braces_subscripts(ch.0);
            reveal_strlit("input");
            lemma_braces_none("input"@);
            lemma_braces_concat("input"@, subscripts(ch.0));
            lemma_braces_concat("input"@ + subscripts(ch.0), converted(s, ch.1));
            lemma_braces_concat(s.subrange(i, ch.1), s.subrange(ch.1, s.len() as int));
            assert(s.subrange(i, s.len() as int) =~= s.subrange(i, ch.1) + s.subrange(ch.1, s.len() as int));
        } else {
            lemma_braces_converted(s, i + 1);
            lemma_braces_concat(seq![s[i]], converted(s, i + 1));
            lemma_braces_concat(seq![s[i]], s.subrange(i + 1, s.len() as int));
            assert(s.subrange(i, s.len() as int) =~= seq![s[i]] + s.subrange(i + 1, s.len() as int));
        }
    }
}

/// How many `{` the texts of `ps` hold together.
pub open spec fn sum_braces(ps: Seq<Seq<char>>) -> nat
    decreases ps.len(),
{
    if ps.len() == 0 {
        0
    } else {
        sum_braces(ps.drop_last()) + braces(ps.last())
    }
}

proof fn lemma_split_braces(s: Seq<char>, sep: char)
    ensures
        sum_braces(split_scan(s, sep).0) + braces(split_scan(s, sep).1) <= braces(s),
    decreases s.len(),
{
    if s.len() > 0 {
        lemma_split_braces(s.drop_last(), sep);
        let st = split_scan(s.drop_last(), sep);
        lemma_braces_trim(st.1);
        assert(st.1.push(s.last()).drop_last() =~= st.1);
        assert(st.0.push(trim(st.1)).drop_last() =~= st.0);
    }
}

proof fn lemma_parts_braces(s: Seq<char>, sep: char)
    ensures
        sum_braces(top_level_parts(s, sep)) <= braces(s),
{
    lemma_split_braces(s, sep);
    let st = split_scan(s, sep);
    lemma_braces_trim(st.1);
    assert(st.0.push(trim(st.1)).drop_last() =~= st.0);
}

proof fn lemma_sum_elem(ps: Seq<Seq<char>>, k: int)
    requires
        0 <= k < ps.len(),
    ensures
        braces(ps[k]) <= sum_braces(ps),
    decreases ps.len(),
{
    if k < ps.len() - 1 {
        lemma_sum_elem(ps.drop_last(), k);
    }
}

proof fn lemma_sum_drop_first(ps: Seq<Seq<char>>)
    requires
        ps.len() > 0,
    ensures
        sum_braces(ps) == braces(ps[0]) + sum_braces(ps.drop_first()),
    decreases ps.len(),
{
    if ps.len() > 1 {
        lemma_sum_drop_first(ps.drop_last());
        assert(ps.drop_first().drop_last() =~= ps.drop_last().drop_first());
        assert(ps.drop_first().last() == ps.last());
        assert(ps.drop_last()[0] == ps[0]);
        assert(sum_braces(ps.drop_first()) == sum_braces(ps.drop_first().drop_last()) + braces(ps.drop_first().last()));
    } else {
        assert(ps.drop_first().len() == 0);
        assert(ps.drop_last().len() == 0);
        assert(sum_braces(ps.drop_first()) == 0);
        assert(sum_braces(ps.drop_last()) == 0);
        assert(ps.last() == ps[0]);
    }
}

proof fn lemma_join_braces(ps: Seq<Seq<char>>, sep: Seq<char>)
    requires
        braces(sep) == 0,
    ensures
        braces(join(ps, sep)) == sum_braces(ps),
    decreases ps.len(),
{
    if ps.len() == 1 {
        assert(ps.drop_last().len() == 0);
        assert(sum_braces(ps.drop_last()) == 0);
        assert(ps.last() == ps[0]);
    } else if ps.len() > 1 {
        lemma_join_braces(ps.drop_last(), sep);
        lemma_braces_concat(join(ps.drop_last(), sep), sep);
        lemma_braces_concat(join(ps.drop_last(), sep) + sep, ps.last());
    }
}

// ---------------------------------------------------------------------
// Expressions
// ---------------------------------------------------------------------

/// An expression made ready for Python: trimmed, without trailing `;`,
/// `true`, `false` and `null` as Python spells them, `input` accesses as
/// subscripts, and `hstack.` helpers as `hstack_` functions.
pub open spec fn normalized_expr(expr: Seq<char>) -> Seq<char> {
    let t = trim(trim_end_char(trim(expr), ';'));
    let a = replaced_tokens(t, "true"@, "True"@, 0);
    let b = replaced_tokens(a, "false"@, "False"@, 0);
    let c = replaced_tokens(b, "null"@, "None"@, 0);
    replaced_all(converted(c, 0), "hstack."@, "hstack_"@, 0)
}

/// Whether `n` is written as an object literal.
pub open spec fn is_object_literal(n: Seq<char>) -> bool {
    n.len() > 0 && n[0] == '{' && n.last() == '}'
}

/// The Python key of an object entry: a quoted key as it is, any other
/// key as a JSON string.
pub open spec fn key_literal(key: Seq<char>) -> Seq<char> {
    if key.len() > 0 && (key[0] == '"' || key[0] == '\'') {
        key
    } else {
        json_string_text(key)
    }
}

/// The value of an entry split at its top-level colons: everything after
/// the first, colons put back.
pub open spec fn entry_value(pair: Seq<Seq<char>>) -> Seq<char> {
    join(pair.drop_first(), ":"@)
}

/// The message for an object entry without a `key: value` shape.
pub open spec fn bad_entry(entry: Seq<char>) -> Seq<char> {
    "light_compute could not translate object literal entry: "@ + entry
}

/// The Python form of an expression: an object literal is rebuilt from
/// its entries (`{}` when it has none), anything else is its normalized
/// text.
pub open spec fn translated_expr(expr: Seq<char>) -> Result<Seq<char>, Seq<char>>
    decreases braces(expr), 1nat, 0nat,
{
    let n = normalized_expr(expr);
    if is_object_literal(n) {
        let inner = n.subrange(1, n.len() - 1);
        if trim(inner).len() == 0 {
            Ok("{}"@)
        } else {
            match translated_entries(top_level_parts(inner, ','), braces(expr)) {
                Ok(es) => Ok("{"@ + join(es, ", "@) + "}"@),
                Err(e) => Err(e),
            }
        }
    } else {
        Ok(n)
    }
}

/// The Python entries of an object literal whose text holds `bound`
/// braces, in order, or the error of the first entry that fails. (Each
/// entry's value holds fewer braces than the literal around it.)
pub open spec fn translated_entries(entries: Seq<Seq<char>>, bound: nat) -> Result<Seq<Seq<char>>, Seq<char>>
    decreases bound, 0nat, entries.len(),
{
    if entries.len() == 0 {
        Ok(Seq::empty())
    } else {
        match translated_entries(entries.drop_last(), bound) {
            Err(e) => Err(e),
            Ok(done) => {
                let entry = entries.last();
                let pair = top_level_parts(entry, ':');
                if pair.len() < 2 || braces(entry_value(pair)) >= bound {
                    Err(bad_entry(entry))
                } else {
                    match translated_expr(entry_value(pair)) {
                        Ok(v) => Ok(done.push(key_literal(trim(pair[0])) + ": "@ + v)),
                        Err(e) => Err(e),
                    }
                }
            },
        }
    }
}

/// `r` is the outcome `t`, a failure as a provider error.
pub open spec fn outcome_is(r: Result<String, AgentError>, t: Result<Seq<char>, Seq<char>>) -> bool {
    match t {
        Ok(s) => r matches Ok(x) && x@ == s,
        Err(m) => r matches Err(AgentError::Provider(x)) && x@ == m,
    }
}

proof fn lemma_normalized_braces(expr: Seq<char>)
    ensures
        braces(normalized_expr(expr)) <= braces(expr),
{
    reveal_strlit("True");
    reveal_strlit("False");
    reveal_strlit("None");
    reveal_strlit("hstack_");
    lemma_braces_none("True"@);
    lemma_braces_none("False"@);
    lemma_braces_none("None"@);
    lemma_braces_none("hstack_"@);
    let t1 = trim(expr);
    let t2 = trim_end_char(t1, ';');
    let t = trim(t2);
    lemma_braces_trim(expr);
    lemma_braces_trim_end_char(t1, ';');
    lemma_braces_trim(t2);
    let a = replaced_tokens(t, "true"@, "True"@, 0);
    let b = replaced_tokens(a, "false"@, "False"@, 0);
    let c = replaced_tokens(b, "null"@, "None"@, 0);
    let d = converted(c, 0);
    lemma_braces_tokens(t, "true"@, "True"@, 0);
    assert(t.subrange(0, t.len() as int) =~= t);
    lemma_braces_tokens(a, "false"@, "False"@, 0);
    assert(a.subrange(0, a.len() as int) =~= a);
    lemma_braces_tokens(b, "null"@, "None"@, 0);
    assert(b.subrange(0, b.len() as int) =~= b);
    lemma_braces_converted(c, 0);
    assert(c.subrange(0, c.len() as int) =~= c);
    lemma_braces_replaced(d, "hstack."@, "hstack_"@, 0);
    assert(d.subrange(0, d.len() as int) =~= d);
}

/// Each entry of an object literal `n` hands on a value with fewer braces
/// than `n`.
proof fn lemma_entry_value_braces(n: Seq<char>, k: int)
    requires
        is_object_literal(n),
        0 <= k < top_level_parts(n.subrange(1, n.len() - 1), ',').len(),
        top_level_parts(top_level_parts(n.subrange(1, n.len() - 1), ',')[k], ':').len() >= 2,
    ensures
        braces(entry_value(top_level_parts(top_level_parts(n.subrange(1, n.len() - 1), ',')[k], ':'))) < braces(n),
{
    let inner = n.subrange(1, n.len() - 1);
    let es = top_level_parts(inner, ',');
    let pair = top_level_parts(es[k], ':');
    lemma_braces_concat(n.subrange(0, 1), n.subrange(1, n.len() as int));
    assert(n =~= n.subrange(0, 1) + n.subrange(1, n.len() as int));
    assert(n.subrange(0, 1).drop_last().len() == 0);
    assert(braces(n.subrange(0, 1).drop_last()) == 0);
    assert(n.subrange(0, 1).last() == '{');
    assert(braces(n.subrange(0, 1)) == 1);
    lemma_braces_subrange(n.subrange(1, n.len() as int), 0, n.len() - 2);
    assert(n.subrange(1, n.len() as int).subrange(0, n.len() - 2) =~= inner);
    lemma_parts_braces(inner, ',');
    lemma_sum_elem(es, k);
    lemma_parts_braces(es[k], ':');
    lemma_sum_drop_first(pair);
    reveal_strlit(":");
    lemma_braces_none(":"@);
    lemma_join_braces(pair.drop_first(), ":"@);
}

proof fn lemma_entries_err(es: Seq<Seq<char>>, j: int, bound: nat)
    requires
        0 <= j <= es.len(),
        translated_entries(es.take(j), bound) is Err,
    ensures
        translated_entries(es, bound) == translated_entries(es.take(j), bound),
    decreases es.len() - j,
{
    if j < es.len() {
        assert(es.take(j + 1).drop_last() =~= es.take(j));
        lemma_entries_err(es, j + 1, bound);
    } else {
        assert(es.take(j) =~= es);
    }
}

/// `s` without its trailing semicolons.
fn trim_end_semicolons(s: &Vec<char>) -> (r: Vec<char>)
    ensures
        r@ == trim_end_char(s@, ';'),
{
    let mut n: usize = s.len();
    assert(s@.take(n as int) =~= s@);
    while n > 0 && s[n - 1] == ';'
        invariant
            n <= s@.len(),
            trim_end_char(s@, ';') == trim_end_char(s@.take(n as int), ';'),
        decreases n,
    {
        assert(s@.take(n as int).drop_last() =~= s@.take(n - 1));
        n = n - 1;
    }
    chars_slice(s, 0, n)
}

/// The expression made ready for Python.
fn normalize_expr(expr: &str) -> (r: Vec<char>)
    ensures
        r@ == normalized_expr(expr@),
{
    proof {
        reveal_strlit("true");
        reveal_strlit("false");
        reveal_strlit("null");
        reveal_strlit("hstack.");
    }
    let cs = chars_of(expr);
    let t1 = trim_chars(&cs);
    let t2 = trim_end_semicolons(&t1);
    let t3 = trim_chars(&t2);
    let s3 = string_from_chars(&t3);
    let a = replace_token(s3.as_str(), "true", "True");
    let b = replace_token(a.as_str(), "false", "False");
    let c = replace_token(b.as_str(), "null", "None");
    let d = convert_input_accesses(c.as_str());
    let dc = chars_of(d.as_str());
    replace_all(&dc, "hstack.", "hstack_")
}

/// The Python key of an entry.
fn key_text(key: &Vec<char>) -> (r: String)
    ensures
        r@ == key_literal(key@),
{
    let s = string_from_chars(key);
    if key.len() > 0 && (key[0] == '"' || key[0] == '\'') {
        s
    } else {
        json_quote(s.as_str())
    }
}

/// The Python form of one JavaScript expression; an object literal is
/// rebuilt entry by entry, and an entry without `key: value` is refused.
pub fn translate_js_expression(expr: &str) -> (r: Result<String, AgentError>)
    ensures
        outcome_is(r, translated_expr(expr@)),
    decreases braces(expr@),
{
    proof {
        reveal_strlit("{}");
        reveal_strlit("{");
        reveal_strlit("}");
        reveal_strlit(", ");
        reveal_strlit(": ");
        reveal_strlit(":");
        reveal_strlit("light_compute could not translate object literal entry: ");
        lemma_normalized_braces(expr@);
    }
    let n = normalize_expr(expr);
    if !(n.len() > 0 && n[0] == '{' && n[n.len() - 1] == '}') {
        return Ok(string_from_chars(&n));
    }
    let inner = chars_slice(&n, 1, n.len() - 1);
    let trimmed = trim_chars(&inner);
    if trimmed.len() == 0 {
        return Ok(String::from_str("{}"));
    }
    let inner_text = string_from_chars(&inner);
    let entries = split_top_level(inner_text.as_str(), ',');
    let ghost bound = braces(expr@);
    let ghost es = views(entries@);
    let mut out: Vec<String> = Vec::new();
    let mut i: usize = 0;
    assert(es.take(0) =~= Seq::<Seq<char>>::empty());
    assert(views(out@) =~= Seq::<Seq<char>>::empty());
    while i < entries.len()
        invariant
            i <= entries@.len(),
            es == views(entries@),
            es == top_level_parts(n@.subrange(1, n@.len() - 1), ','),
            is_object_literal(n@),
            n@ == normalized_expr(expr@),
            trim(n@.subrange(1, n@.len() - 1)).len() > 0,
            braces(n@) <= bound,
            bound == braces(expr@),
            translated_entries(es.take(i as int), bound) == Ok::<Seq<Seq<char>>, Seq<char>>(views(out@)),
        decreases entries@.len() - i,
    {
        assert(es.take(i + 1).drop_last() =~= es.take(i as int));
        assert(es.take(i + 1).last() == entries@[i as int]@);
        let entry = &entries[i];
        let pair = split_top_level(entry.as_str(), ':');
        if pair.len() < 2 {
            let mut m: Vec<char> = Vec::new();
            push_str(&mut m, "light_compute could not translate object literal entry: ");
            push_str(&mut m, entry.as_str());
            proof {
                assert(views(pair@) == top_level_parts(entry@, ':'));
                assert(translated_entries(es.take(i + 1), bound) == Err::<Seq<Seq<char>>, Seq<char>>(bad_entry(entry@)));
                lemma_entries_err(es, i + 1, bound);
                assert(translated_expr(expr@) == Err::<Seq<char>, Seq<char>>(bad_entry(entry@)));
            }
            return Err(AgentError::Provider(string_from_chars(&m)));
        }
        let mut rest: Vec<String> = Vec::new();
        let mut k: usize = 1;
        while k < pair.len()
            invariant
                1 <= k <= pair@.len(),
                views(rest@) =~= views(pair@).subrange(1, k as int),
            decreases pair@.len() - k,
        {
            let c = pair[k].clone();
            let ghost before = views(rest@);
            rest.push(c);
            assert(views(rest@) =~= before.push(c@));
            k = k + 1;
        }
        assert(views(rest@) =~= views(pair@).drop_first());
        let value_chars = join_strings(&rest, ":");
        let value = string_from_chars(&value_chars);
        proof {
            assert(views(pair@) == top_level_parts(entry@, ':'));
            lemma_entry_value_braces(n@, i as int);
            assert(value@ == entry_value(top_level_parts(entry@, ':')));
            assert(braces(value@) < bound);
        }
        let key_chars = chars_of(pair[0].as_str());
        let key_trimmed = trim_chars(&key_chars);
        let key = key_text(&key_trimmed);
        match translate_js_expression(value.as_str()) {
            Err(e) => {
                proof {
                    let m = translated_expr(value@)->Err_0;
                    assert(translated_entries(es.take(i + 1), bound) == Err::<Seq<Seq<char>>, Seq<char>>(m));
                    lemma_entries_err(es, i + 1, bound);
                    assert(translated_expr(expr@) == Err::<Seq<char>, Seq<char>>(m));
                }
                return Err(e);
            },
            Ok(v) => {
                let mut line: Vec<char> = Vec::new();
                push_str(&mut line, key.as_str());
                push_str(&mut line, ": ");
                push_str(&mut line, v.as_str());
                let ghost before = views(out@);
                out.push(string_from_chars(&line));
                assert(views(out@) =~= before.push(line@));
                assert(line@ == key_literal(trim(top_level_parts(entry@, ':')[0])) + ": "@ + translated_expr(value@)->Ok_0);
            },
        }
        i = i + 1;
    }
    assert(es.take(entries@.len() as int) =~= es);
    let body = join_strings(&out, ", ");
    let mut text: Vec<char> = Vec::new();
    push_str(&mut text, "{");
    push_chars(&mut text, &body);
    push_str(&mut text, "}");
    Ok(string_from_chars(&text))
}


// ---------------------------------------------------------------------
// Statements and bodies
// ---------------------------------------------------------------------

/// The first position of `c` in `s`.
pub open spec fn first_pos(s: Seq<char>, c: char) -> Option<int>
    decreases s.len(),
{
    if s.len() == 0 {
        None
    } else {
        match first_pos(s.drop_last(), c) {
            Some(k) => Some(k),
            None => if s.last() == c {
                Some(s.len() - 1)
            } else {
                None
            },
        }
    }
}

/// An assignment `name = expression` (what follows `const ` or `let `):
/// the name trimmed, then the expression translated; `err` without `=`.
pub open spec fn translated_assignment(rest: Seq<char>, err: Seq<char>) -> Result<Seq<char>, Seq<char>> {
    match first_pos(rest, '=') {
        None => Err(err),
        Some(k) => match translated_expr(rest.skip(k + 1)) {
            Ok(v) => Ok(trim(rest.take(k)) + " = "@ + v),
            Err(e) => Err(e),
        },
    }
}

/// The Python form of one trimmed statement: a `return`, a `const` or
/// `let` assignment, or an expression.
#[verifier::opaque]
pub open spec fn translated_statement(line: Seq<char>) -> Result<Seq<char>, Seq<char>> {
    if starts_with(line, "return "@) {
        match translated_expr(line.skip(7)) {
            Ok(v) => Ok("return "@ + v),
            Err(e) => Err(e),
        }
    } else if starts_with(line, "const "@) {
        translated_assignment(line.skip(6), "light_compute could not translate const assignment"@)
    } else if starts_with(line, "let "@) {
        translated_assignment(line.skip(4), "light_compute could not translate let assignment"@)
    } else {
        translated_expr(line)
    }
}

/// The Python statements of the lines `ls`, blank lines left out, or the
/// error of the first line that fails.
pub open spec fn translated_statements(ls: Seq<Seq<char>>) -> Result<Seq<Seq<char>>, Seq<char>>
    decreases ls.len(),
{
    if ls.len() == 0 {
        Ok(Seq::empty())
    } else {
        match translated_statements(ls.drop_last()) {
            Err(e) => Err(e),
            Ok(done) => {
                let line = trim(ls.last());
                if line.len() == 0 {
                    Ok(done)
                } else {
                    match translated_statement(line) {
                        Ok(x) => Ok(done.push(x)),
                        Err(e) => Err(e),
                    }
                }
            },
        }
    }
}

/// The statements `ls`, each on a line of its own, indented once.
pub open spec fn indented(ls: Seq<Seq<char>>) -> Seq<char>
    decreases ls.len(),
{
    if ls.len() == 0 {
        Seq::empty()
    } else {
        indented(ls.drop_last()) + "    "@ + ls.last() + "\n"@
    }
}

/// The Python program of a light-compute body: the empty busy loop as a
/// Python loop, else the translated statements as the body of a main
/// function that is then called; a body without statements is refused.
pub open spec fn translated_body(code: Seq<char>) -> Result<Seq<char>, Seq<char>> {
    let t = trim(code);
    if t == "while (true) {}"@ || t == "while(true){}"@ {
        Ok("while True:\n        pass"@)
    } else {
        match translated_statements(lines(t)) {
            Err(e) => Err(e),
            Ok(ls) => if ls.len() == 0 {
                Err("light_compute requires non-empty 'code'"@)
            } else {
                Ok("def __hstack_light_compute_main():\n"@ + indented(ls) + "__hstack_light_compute_main()\n"@)
            },
        }
    }
}

proof fn lemma_first_pos_found(s: Seq<char>, c: char, j: int)
    requires
        0 <= j <= s.len(),
        first_pos(s.take(j), c) is Some,
    ensures
        first_pos(s, c) == first_pos(s.take(j), c),
    decreases s.len() - j,
{
    if j < s.len() {
        assert(s.take(j + 1).drop_last() =~= s.take(j));
        lemma_first_pos_found(s, c, j + 1);
    } else {
        assert(s.take(j) =~= s);
    }
}

proof fn lemma_statements_err(ls: Seq<Seq<char>>, j: int)
    requires
        0 <= j <= ls.len(),
        translated_statements(ls.take(j)) is Err,
    ensures
        translated_statements(ls) == translated_statements(ls.take(j)),
    decreases ls.len() - j,
{
    if j < ls.len() {
        assert(ls.take(j + 1).drop_last() =~= ls.take(j));
        lemma_statements_err(ls, j + 1);
    } else {
        assert(ls.take(j) =~= ls);
    }
}

/// The first position of `c` in `s`.
fn first_position(s: &Vec<char>, c: char) -> (r: Option<usize>)
    ensures
        r matches Some(k) ==> first_pos(s@, c) == Some(k as int) && k < s@.len(),
        r is None ==> first_pos(s@, c) is None,
{
    let mut i: usize = 0;
    assert(s@.take(0).len() == 0);
    while i < s.len()
        invariant
            i <= s@.len(),
            first_pos(s@.take(i as int), c) is None,
        decreases s@.len() - i,
    {
        assert(s@.take(i + 1).drop_last() =~= s@.take(i as int));
        if s[i] == c {
            proof {
                lemma_first_pos_found(s@, c, i + 1);
            }
            return Some(i);
        }
        i = i + 1;
    }
    assert(s@.take(s@.len() as int) =~= s@);
    None
}

/// The Python form of an assignment.
fn translate_assignment(rest: &Vec<char>, err: &str) -> (r: Result<String, AgentError>)
    ensures
        outcome_is(r, translated_assignment(rest@, err@)),
{
    proof {
        reveal_strlit(" = ");
    }
    let pos = first_position(rest, '=');
    match pos {
        None => Err(AgentError::Provider(String::from_str(err))),
        Some(k) => {
            let n = rest.len();
            let name = chars_slice(rest, 0, k);
            let name_trimmed = trim_chars(&name);
            let expr = chars_slice(rest, k + 1, n);
            let expr_text = string_from_chars(&expr);
            assert(expr@ =~= rest@.skip(k + 1));
            let v = match translate_js_expression(expr_text.as_str()) {
                Ok(v) => v,
                Err(e) => return Err(e),
            };
            let mut out: Vec<char> = Vec::new();
            push_chars(&mut out, &name_trimmed);
            push_str(&mut out, " = ");
            push_str(&mut out, v.as_str());
            assert(name@ =~= rest@.take(k as int));
            Ok(string_from_chars(&out))
        },
    }
}

/// The Python form of one trimmed statement.
fn translate_statement(line: &Vec<char>) -> (r: Result<String, AgentError>)
    ensures
        outcome_is(r, translated_statement(line@)),
{
    proof {
        reveal(translated_statement);
        reveal_strlit("return ");
        reveal_strlit("const ");
        reveal_strlit("let ");
    }
    let ret = chars_of("return ");
    let cst = chars_of("const ");
    let lt = chars_of("let ");
    if chars_start_with(line, &ret) {
        let rest = chars_slice(line, 7, line.len());
        assert(rest@ =~= line@.skip(7));
        let v = match translate_js_expression(string_from_chars(&rest).as_str()) {
            Ok(v) => v,
            Err(e) => return Err(e),
        };
        let mut out: Vec<char> = Vec::new();
        push_str(&mut out, "return ");
        push_str(&mut out, v.as_str());
        Ok(string_from_chars(&out))
    } else if chars_start_with(line, &cst) {
        let rest = chars_slice(line, 6, line.len());
        assert(rest@ =~= line@.skip(6));
        translate_assignment(&rest, "light_compute could not translate const assignment")
    } else if chars_start_with(line, &lt) {
        let rest = chars_slice(line, 4, line.len());
        assert(rest@ =~= line@.skip(4));
        translate_assignment(&rest, "light_compute could not translate let assignment")
    } else {
        translate_js_expression(string_from_chars(line).as_str())
    }
}

/// The Python program of a light-compute body, or why it cannot be
/// translated.
pub fn translate_js_body_to_monty(code: &str) -> (r: Result<String, AgentError>)
    ensures
        outcome_is(r, translated_body(code@)),
{
    proof {
        reveal_strlit("while (true) {}");
        reveal_strlit("while(true){}");
        reveal_strlit("    ");
        reveal_strlit("\n");
    }
    let cs = chars_of(code);
    let t = trim_chars(&cs);
    if crate::text::chars_eq(&t, &chars_of("while (true) {}")) || crate::text::chars_eq(&t, &chars_of("while(true){}")) {
        return Ok(String::from_str("while True:\n        pass"));
    }
    let ls = crate::text::lines_of(&t);
    let ghost gl = crate::text::lines(t@);
    let mut out: Vec<String> = Vec::new();
    let mut i: usize = 0;
    assert(gl.take(0) =~= Seq::<Seq<char>>::empty());
    assert(views(out@) =~= Seq::<Seq<char>>::empty());
    while i < ls.len()
        invariant
            i <= ls@.len(),
            gl == lines(t@),
            t@ == trim(code@),
            t@ != "while (true) {}"@ && t@ != "while(true){}"@,
            ls@.len() == gl.len(),
            forall|k: int| 0 <= k < ls@.len() ==> #[trigger] ls@[k]@ == gl[k],
            translated_statements(gl.take(i as int)) == Ok::<Seq<Seq<char>>, Seq<char>>(views(out@)),
        decreases ls@.len() - i,
    {
        assert(gl.take(i + 1).drop_last() =~= gl.take(i as int));
        assert(gl.take(i + 1).last() == ls@[i as int]@);
        let line = trim_chars(&ls[i]);
        if line.len() > 0 {
            match translate_statement(&line) {
                Err(e) => {
                    proof {
                        let m = translated_statement(line@)->Err_0;
                        assert(translated_statements(gl.take(i + 1)) == Err::<Seq<Seq<char>>, Seq<char>>(m));
                        lemma_statements_err(gl, i + 1);
                    }
                    return Err(e);
                },
                Ok(x) => {
                    let ghost before = views(out@);
                    out.push(x);
                    assert(views(out@) =~= before.push(x@));
                },
            }
        }
        i = i + 1;
    }
    assert(gl.take(ls@.len() as int) =~= gl);
    if out.len() == 0 {
        return Err(AgentError::Provider(String::from_str("light_compute requires non-empty 'code'")));
    }
    let mut text: Vec<char> = Vec::new();
    push_str(&mut text, "def __hstack_light_compute_main():\n");
    let mut k: usize = 0;
    while k < out.len()
        invariant
            k <= out@.len(),
            text@ == "def __hstack_light_compute_main():\n"@ + indented(views(out@).take(k as int)),
        decreases out@.len() - k,
    {
        assert(views(out@).take(k + 1).drop_last() =~= views(out@).take(k as int));
        push_str(&mut text, "    ");
        push_str(&mut text, out[k].as_str());
        push_str(&mut text, "\n");
        k = k + 1;
    }
    assert(views(out@).take(out@.len() as int) =~= views(out@));
    push_str(&mut text, "__hstack_light_compute_main()\n");
    Ok(string_from_chars(&text))
}

/// The script that runs `code` on V8: the input parsed from its JSON text
/// (written as a JSON string literal), the code run as a function body,
/// and its result (`null` for none) returned as JSON text.
pub open spec fn v8_script_text(code: Seq<char>, input_json: Seq<char>) -> Seq<char> {
    "(() => {\n  const input = JSON.parse("@ + json_string_text(input_json) + ");\n  const __result = (() => {\n"@ + code
        + "\n  })();\n  return JSON.stringify(__result === undefined ? null : __result);\n})()"@
}

/// The script that runs `code` on V8 over the input with JSON text
/// `input_json`.
pub fn v8_script(code: &str, input_json: &str) -> (r: String)
    ensures
        r@ == v8_script_text(code@, input_json@),
{
    let mut out: Vec<char> = Vec::new();
    push_str(&mut out, "(() => {\n  const input = JSON.parse(");
    let quoted = json_quote(input_json);
    push_str(&mut out, quoted.as_str());
    push_str(&mut out, ");\n  const __result = (() => {\n");
    push_str(&mut out, code);
    push_str(&mut out, "\n  })();\n  return JSON.stringify(__result === undefined ? null : __result);\n})()");
    string_from_chars(&out)
}

} // verus!
