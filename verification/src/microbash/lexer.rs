//! Splitting a microbash command line into words, and reading numbers.

use vstd::prelude::*;
use crate::text::{char_is_ws, chars_of, is_ws, string_from_chars};

verus! {

/// The kinds of microbash error.
#[derive(Debug, Clone, Copy, PartialEq, Eq, Structural)]
pub enum MicrobashErrorKind {
    Parse,
    UnsupportedConstruct,
    UnsupportedCommand,
    InvalidOption,
    MissingArgument,
    InvalidPath,
}

/// Why a command line was refused, with its message.
#[derive(Debug, Clone, PartialEq, Eq)]
pub struct MicrobashError {
    pub kind: MicrobashErrorKind,
    pub message: String,
}

/// `e` is the error `(kind, message)`.
pub open spec fn is_error(e: MicrobashError, spec: (MicrobashErrorKind, Seq<char>)) -> bool {
    e.kind == spec.0 && e.message@ == spec.1
}

/// An error of `kind` with the text `msg`.
pub fn error_of(kind: MicrobashErrorKind, msg: Vec<char>) -> (r: MicrobashError)
    ensures
        r.kind == kind,
        r.message@ == msg@,
{
    MicrobashError { kind, message: string_from_chars(&msg) }
}

/// The tokenizer's state: finished words, the word being read, whether a
/// quoted string is open, whether a backslash escape is pending, and
/// whether a pipeline was met (which stops everything).
pub type LexState = (Seq<Seq<char>>, Seq<char>, bool, bool, bool);

/// The character an escape sequence stands for.
pub open spec fn unescaped(c: char) -> char {
    if c == 'n' {
        '\n'
    } else if c == 't' {
        '\t'
    } else {
        c
    }
}

/// One step of the tokenizer: a pending escape takes the next character;
/// an unquoted `|` is a pipeline; `"` opens or closes a string; a
/// backslash inside a string starts an escape; unquoted whitespace ends a
/// word; anything else joins the word.
pub open spec fn lex_step(st: LexState, c: char) -> LexState {
    let (words, cur, quoted, escaping, piped) = st;
    if piped {
        st
    } else if escaping {
        (words, cur.push(unescaped(c)), quoted, false, false)
    } else if c == '|' && !quoted {
        (words, cur, quoted, false, true)
    } else if c == '"' {
        (words, cur, !quoted, false, false)
    } else if c == '\\' && quoted {
        (words, cur, quoted, true, false)
    } else if is_ws(c) && !quoted {
        if cur.len() > 0 {
            (words.push(cur), Seq::empty(), quoted, false, false)
        } else {
            st
        }
    } else {
        (words, cur.push(c), quoted, false, false)
    }
}

/// The tokenizer's state after reading `s`.
pub open spec fn lex(s: Seq<char>) -> LexState
    decreases s.len(),
{
    if s.len() == 0 {
        (Seq::empty(), Seq::empty(), false, false, false)
    } else {
        lex_step(lex(s.drop_last()), s.last())
    }
}

/// The words of a command line, or why it cannot be split.
pub open spec fn words_of(s: Seq<char>) -> Result<Seq<Seq<char>>, (MicrobashErrorKind, Seq<char>)> {
    let (words, cur, quoted, escaping, piped) = lex(s);
    if piped {
        Err((MicrobashErrorKind::UnsupportedConstruct, "pipelines are not supported in the public baseline"@))
    } else if escaping {
        Err((MicrobashErrorKind::Parse, "unterminated escape sequence"@))
    } else if quoted {
        Err((MicrobashErrorKind::Parse, "unterminated string literal"@))
    } else if cur.len() > 0 {
        Ok(words.push(cur))
    } else {
        Ok(words)
    }
}

/// Splits a command line into words: whitespace separates words outside
/// double quotes; inside them `\n`, `\t`, `\"` and `\\` are escapes;
/// pipelines are refused.
pub fn tokenize(input: &str) -> (r: Result<Vec<String>, MicrobashError>)
    ensures
        match words_of(input@) {
            Ok(ws) => r matches Ok(v) && crate::text::views(v@) == ws,
            Err(e) => r matches Err(x) && is_error(x, e),
        },
{
    let cs = chars_of(input);
    let mut words: Vec<String> = Vec::new();
    let mut cur: Vec<char> = Vec::new();
    let mut quoted = false;
    let mut escaping = false;
    let mut i: usize = 0;
    assert(cs@.take(0) =~= Seq::<char>::empty());
    while i < cs.len()
        invariant
            cs@ == input@,
            i <= cs@.len(),
            lex(cs@.take(i as int)) == (crate::text::views(words@), cur@, quoted, escaping, false),
        decreases cs@.len() - i,
    {
        let c = cs[i];
        proof {
            assert(cs@.take(i + 1).drop_last() =~= cs@.take(i as int));
            assert(cs@.take(i + 1).last() == c);
        }
        if escaping {
            let e = if c == 'n' {
                '\n'
            } else if c == 't' {
                '\t'
            } else {
                c
            };
            cur.push(e);
            escaping = false;
        } else if c == '|' && !quoted {
            proof {
                lemma_piped_stays(cs@, i as int + 1);
                assert(cs@.take(cs@.len() as int) =~= cs@);
            }
            let mut m: Vec<char> = Vec::new();
            crate::text::push_str(&mut m, "pipelines are not supported in the public baseline");
            return Err(error_of(MicrobashErrorKind::UnsupportedConstruct, m));
        } else if c == '"' {
            quoted = !quoted;
        } else if c == '\\' && quoted {
            escaping = true;
        } else if char_is_ws(c) && !quoted {
            if cur.len() > 0 {
                let ghost before = words@;
                words.push(string_from_chars(&cur));
                cur = Vec::new();
                assert(crate::text::views(words@) =~= crate::text::views(before).push(
                    lex(cs@.take(i as int)).1,
                ));
            }
        } else {
            cur.push(c);
        }
        i = i + 1;
    }
    assert(cs@.take(cs@.len() as int) =~= cs@);
    if escaping {
        let mut m: Vec<char> = Vec::new();
        crate::text::push_str(&mut m, "unterminated escape sequence");
        return Err(error_of(MicrobashErrorKind::Parse, m));
    }
    if quoted {
        let mut m: Vec<char> = Vec::new();
        crate::text::push_str(&mut m, "unterminated string literal");
        return Err(error_of(MicrobashErrorKind::Parse, m));
    }
    if cur.len() > 0 {
        let ghost before = words@;
        words.push(string_from_chars(&cur));
        assert(crate::text::views(words@) =~= crate::text::views(before).push(cur@));
    }
    Ok(words)
}

/// Once a pipeline is met, the rest of the line changes nothing.
proof fn lemma_piped_stays(s: Seq<char>, k: int)
    requires
        0 < k <= s.len(),
        lex(s.take(k)).4,
    ensures
        lex(s).4,
    decreases s.len() - k,
{
    if k < s.len() {
        assert(s.take(k + 1).drop_last() =~= s.take(k));
        lemma_piped_stays(s, k + 1);
    } else {
        assert(s.take(k) =~= s);
    }
}

/// The value of a decimal numeral, most significant digit first.
pub open spec fn numeral_value(d: Seq<char>) -> int
    decreases d.len(),
{
    if d.len() == 0 {
        0
    } else {
        numeral_value(d.drop_last()) * 10 + (d.last() as int - '0' as int)
    }
}

/// Whether every character is an ASCII digit.
pub open spec fn all_digits(d: Seq<char>) -> bool {
    forall|i: int| 0 <= i < d.len() ==> '0' <= #[trigger] d[i] <= '9'
}

/// `s` without one leading `+`.
pub open spec fn digits_part(s: Seq<char>) -> Seq<char> {
    if s.len() > 0 && s[0] == '+' {
        s.drop_first()
    } else {
        s
    }
}

/// The `u64` that `s` spells, as `str::parse::<u64>` reads it: an optional
/// `+`, then one or more ASCII digits, with a value that fits.
pub open spec fn u64_of(s: Seq<char>) -> Option<int> {
    let d = digits_part(s);
    if d.len() > 0 && all_digits(d) && numeral_value(d) <= u64::MAX {
        Some(numeral_value(d))
    } else {
        None
    }
}

proof fn lemma_numeral_nonneg(d: Seq<char>)
    requires
        all_digits(d),
    ensures
        numeral_value(d) >= 0,
    decreases d.len(),
{
    if d.len() > 0 {
        assert(all_digits(d.drop_last())) by {
            assert forall|i: int| 0 <= i < d.drop_last().len() implies '0' <= #[trigger] d.drop_last()[i] <= '9' by {
                assert(d.drop_last()[i] == d[i]);
            }
        }
        lemma_numeral_nonneg(d.drop_last());
    }
}

proof fn lemma_numeral_grows(d: Seq<char>, k: int)
    requires
        all_digits(d),
        0 <= k <= d.len(),
    ensures
        numeral_value(d.take(k)) <= numeral_value(d),
    decreases d.len() - k,
{
    if k < d.len() {
        lemma_numeral_grows(d, k + 1);
        assert(d.take(k + 1).drop_last() =~= d.take(k));
        assert(all_digits(d.take(k))) by {
            assert forall|i: int| 0 <= i < d.take(k).len() implies '0' <= #[trigger] d.take(k)[i] <= '9' by {
                assert(d.take(k)[i] == d[i]);
            }
        }
        lemma_numeral_nonneg(d.take(k));
    } else {
        assert(d.take(k) =~= d);
    }
}

/// Reads a `u64` as `str::parse::<u64>` does.
pub fn parse_u64(s: &str) -> (r: Option<u64>)
    ensures
        match u64_of(s@) {
            Some(n) => r matches Some(v) && v as int == n,
            None => r is None,
        },
{
    let cs = chars_of(s);
    let start: usize = if cs.len() > 0 && cs[0] == '+' {
        1
    } else {
        0
    };
    let ghost d = digits_part(cs@);
    assert(d =~= cs@.skip(start as int));
    if start >= cs.len() {
        assert(d.len() == 0);
        assert(u64_of(s@) is None);
        return None;
    }
    let mut value: u64 = 0;
    let mut i: usize = start;
    assert(d.take(0) =~= Seq::<char>::empty());
    while i < cs.len()
        invariant
            cs@ == s@,
            start <= i <= cs@.len(),
            d == cs@.skip(start as int),
            d == digits_part(s@),
            all_digits(d.take(i - start)),
            value == numeral_value(d.take(i - start)),
        decreases cs@.len() - i,
    {
        let c = cs[i];
        assert(d[i - start] == c);
        if c < '0' || c > '9' {
            assert(!all_digits(d));
            return None;
        }
        let digit: u64 = (c as u32 - '0' as u32) as u64;
        proof {
            assert(d.take(i + 1 - start).drop_last() =~= d.take(i - start));
            assert(all_digits(d.take(i + 1 - start))) by {
                assert forall|k: int| 0 <= k < d.take(i + 1 - start).len() implies '0' <= #[trigger] d.take(i + 1 - start)[k] <= '9' by {
                    if k < i - start {
                        assert(d.take(i + 1 - start)[k] == d.take(i - start)[k]);
                    }
                }
            }
        }
        if value > (u64::MAX - digit) / 10 {
            proof {
                assert(numeral_value(d.take(i + 1 - start)) > u64::MAX) by (nonlinear_arith)
                    requires
                        numeral_value(d.take(i + 1 - start)) == value * 10 + digit,
                        value > (u64::MAX - digit) / 10,
                        digit <= 9,
                ;
                let rest = d;
                if all_digits(rest) {
                    lemma_numeral_grows(rest, i + 1 - start);
                    assert(numeral_value(rest) > u64::MAX);
                }
                assert(u64_of(s@) is None);
            }
            return None;
        }
        value = value * 10 + digit;
        i = i + 1;
    }
    assert(d.take(d.len() as int) =~= d);
    Some(value)
}

/// The label of an error kind in a failure record.
pub open spec fn failure_label(k: MicrobashErrorKind) -> Seq<char> {
    match k {
        MicrobashErrorKind::Parse => "parse"@,
        MicrobashErrorKind::UnsupportedConstruct | MicrobashErrorKind::UnsupportedCommand => "unsupported"@,
        MicrobashErrorKind::InvalidOption | MicrobashErrorKind::MissingArgument => "invalid_arguments"@,
        MicrobashErrorKind::InvalidPath => "path_policy"@,
    }
}

/// The prefix of an error's display text.
pub open spec fn display_prefix(k: MicrobashErrorKind) -> Seq<char> {
    match k {
        MicrobashErrorKind::Parse => "parse error: "@,
        MicrobashErrorKind::UnsupportedConstruct => "unsupported construct: "@,
        MicrobashErrorKind::UnsupportedCommand => "unsupported command: "@,
        MicrobashErrorKind::InvalidOption => "invalid option: "@,
        MicrobashErrorKind::MissingArgument => "missing argument: "@,
        MicrobashErrorKind::InvalidPath => "invalid path: "@,
    }
}

impl MicrobashError {
    /// The failure type recorded for this error.
    pub fn failure_type(&self) -> (r: &'static str)
        ensures
            r@ == failure_label(self.kind),
    {
        match self.kind {
            MicrobashErrorKind::Parse => "parse",
            MicrobashErrorKind::UnsupportedConstruct | MicrobashErrorKind::UnsupportedCommand => "unsupported",
            MicrobashErrorKind::InvalidOption | MicrobashErrorKind::MissingArgument => "invalid_arguments",
            MicrobashErrorKind::InvalidPath => "path_policy",
        }
    }

    /// The display text: the kind, then the message.
    pub fn to_text(&self) -> (r: String)
        ensures
            r@ == display_prefix(self.kind) + self.message@,
    {
        let prefix = match self.kind {
            MicrobashErrorKind::Parse => "parse error: ",
            MicrobashErrorKind::UnsupportedConstruct => "unsupported construct: ",
            MicrobashErrorKind::UnsupportedCommand => "unsupported command: ",
            MicrobashErrorKind::InvalidOption => "invalid option: ",
            MicrobashErrorKind::MissingArgument => "missing argument: ",
            MicrobashErrorKind::InvalidPath => "invalid path: ",
        };
        let mut m: Vec<char> = Vec::new();
        crate::text::push_str(&mut m, prefix);
        crate::text::push_str(&mut m, self.message.as_str());
        string_from_chars(&m)
    }
}

} // verus!
