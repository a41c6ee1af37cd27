//! A JSON value as the tools read their arguments: objects keep their
//! entries in order, integers are exact, and any other number is kept as
//! its text.

use vstd::prelude::*;
use crate::compute::translate::{json_quote, json_string_text};
use crate::text::{decimal, trim};

verus! {

/// A JSON value.
#[derive(Debug)]
pub enum Json {
    Null,
    Bool(bool),
    /// A number without fraction or exponent, within the 64-bit ranges.
    Integer(i128),
    /// Any other number, as its text.
    Fractional(String),
    Str(String),
    Array(Vec<Json>),
    Object(Vec<(String, Json)>),
}

/// The value of the first entry named `key` among `entries`.
pub open spec fn entry_of(entries: Seq<(String, Json)>, key: Seq<char>) -> Option<Json>
    decreases entries.len(),
{
    if entries.len() == 0 {
        None
    } else if entries[0].0@ == key {
        Some(entries[0].1)
    } else {
        entry_of(entries.drop_first(), key)
    }
}

/// The member `key` of an object; nothing for any other value.
pub open spec fn member(v: Json, key: Seq<char>) -> Option<Json> {
    match v {
        Json::Object(entries) => entry_of(entries@, key),
        _ => None,
    }
}

/// The text of a string value.
pub open spec fn text_of(v: Option<Json>) -> Option<Seq<char>> {
    match v {
        Some(Json::Str(s)) => Some(s@),
        _ => None,
    }
}

/// The text of member `key`, trimmed, when it is a string that is not
/// blank.
pub open spec fn trimmed_member(v: Json, key: Seq<char>) -> Option<Seq<char>> {
    match text_of(member(v, key)) {
        Some(t) => if trim(t).len() > 0 {
            Some(trim(t))
        } else {
            None
        },
        None => None,
    }
}

/// The value of an integer member that fits an `i64`, as `Value::as_i64`.
pub open spec fn int_of(v: Option<Json>) -> Option<int> {
    match v {
        Some(Json::Integer(n)) => if i64::MIN <= n <= i64::MAX {
            Some(n as int)
        } else {
            None
        },
        _ => None,
    }
}

/// The value of an integer member that fits a `u64`, as `Value::as_u64`.
pub open spec fn uint_of(v: Option<Json>) -> Option<int> {
    match v {
        Some(Json::Integer(n)) => if 0 <= n <= u64::MAX {
            Some(n as int)
        } else {
            None
        },
        _ => None,
    }
}

/// The first entry named `key`.
fn find_entry<'a>(entries: &'a Vec<(String, Json)>, key: &str) -> (r: Option<&'a Json>)
    ensures
        match r {
            Some(v) => entry_of(entries@, key@) == Some(*v),
            None => entry_of(entries@, key@) is None,
        },
{
    let mut i: usize = 0;
    assert(entries@.skip(0) =~= entries@);
    while i < entries.len()
        invariant
            i <= entries@.len(),
            entry_of(entries@, key@) == entry_of(entries@.skip(i as int), key@),
        decreases entries@.len() - i,
    {
        assert(entries@.skip(i as int).drop_first() =~= entries@.skip(i + 1));
        if crate::text::str_eq(entries[i].0.as_str(), key) {
            return Some(&entries[i].1);
        }
        i = i + 1;
    }
    None
}

impl Json {
    /// The member `key` of an object.
    pub fn get(&self, key: &str) -> (r: Option<&Json>)
        ensures
            match r {
                Some(v) => member(*self, key@) == Some(*v),
                None => member(*self, key@) is None,
            },
    {
        match self {
            Json::Object(entries) => find_entry(entries, key),
            _ => None,
        }
    }

    /// The text of a string value.
    pub fn as_str(&self) -> (r: Option<&str>)
        ensures
            match r {
                Some(s) => text_of(Some(*self)) == Some(s@),
                None => text_of(Some(*self)) is None,
            },
    {
        match self {
            Json::Str(s) => Some(s.as_str()),
            _ => None,
        }
    }

    /// Whether this is `null`.
    pub fn is_null(&self) -> (r: bool)
        ensures
            r == (*self is Null),
    {
        match self {
            Json::Null => true,
            _ => false,
        }
    }
}

/// The text of member `key` of `v`, when it is a string.
pub fn member_text(v: &Json, key: &str) -> (r: Option<String>)
    ensures
        match r {
            Some(s) => text_of(member(*v, key@)) == Some(s@),
            None => text_of(member(*v, key@)) is None,
        },
{
    match v.get(key) {
        Some(m) => match m.as_str() {
            Some(s) => Some(s.to_string()),
            None => None,
        },
        None => None,
    }
}

/// The text of member `key` of `v`, trimmed, when it is a string that is
/// not blank.
pub fn trimmed_member_text(v: &Json, key: &str) -> (r: Option<String>)
    ensures
        match r {
            Some(s) => trimmed_member(*v, key@) == Some(s@),
            None => trimmed_member(*v, key@) is None,
        },
{
    match member_text(v, key) {
        Some(s) => {
            let cs = crate::text::chars_of(s.as_str());
            let t = crate::text::trim_chars(&cs);
            if t.len() > 0 {
                Some(crate::text::string_from_chars(&t))
            } else {
                None
            }
        },
        None => None,
    }
}

/// The value of member `key` of `v` as an `i64`.
pub fn member_i64(v: &Json, key: &str) -> (r: Option<i64>)
    ensures
        match r {
            Some(n) => int_of(member(*v, key@)) == Some(n as int),
            None => int_of(member(*v, key@)) is None,
        },
{
    match v.get(key) {
        Some(Json::Integer(n)) => {
            if i64::MIN as i128 <= *n && *n <= i64::MAX as i128 {
                Some(*n as i64)
            } else {
                None
            }
        },
        _ => None,
    }
}

/// The value of member `key` of `v` as a `u64`.
pub fn member_u64(v: &Json, key: &str) -> (r: Option<u64>)
    ensures
        match r {
            Some(n) => uint_of(member(*v, key@)) == Some(n as int),
            None => uint_of(member(*v, key@)) is None,
        },
{
    match v.get(key) {
        Some(Json::Integer(n)) => {
            if 0 <= *n && *n <= u64::MAX as i128 {
                Some(*n as u64)
            } else {
                None
            }
        },
        _ => None,
    }
}

/// The text of an integer: its decimal digits, after `-` when negative.
pub open spec fn int_text(n: int) -> Seq<char> {
    if n < 0 {
        seq!['-'] + decimal((-n) as nat)
    } else {
        decimal(n as nat)
    }
}

/// The compact JSON text of a value, as `serde_json::to_string` writes
/// it: no spaces, entries in order, strings quoted by JSON's rules.
pub open spec fn json_text(v: Json) -> Seq<char>
    decreases v, 1int,
{
    match v {
        Json::Null => "null"@,
        Json::Bool(b) => if b { "true"@ } else { "false"@ },
        Json::Integer(n) => int_text(n as int),
        Json::Fractional(t) => t@,
        Json::Str(s) => json_string_text(s@),
        Json::Array(items) => "["@ + items_text(items@) + "]"@,
        Json::Object(entries) => "{"@ + entries_text(entries@) + "}"@,
    }
}

/// The texts of `items`, comma-separated.
pub open spec fn items_text(items: Seq<Json>) -> Seq<char>
    decreases items, 0int,
{
    if items.len() == 0 {
        Seq::empty()
    } else if items.len() == 1 {
        json_text(items[0])
    } else {
        items_text(items.subrange(0, items.len() - 1)) + ","@ + json_text(items[items.len() - 1])
    }
}

/// The texts of `entries` as `"key":value`, comma-separated.
pub open spec fn entries_text(entries: Seq<(String, Json)>) -> Seq<char>
    decreases entries, 0int,
{
    if entries.len() == 0 {
        Seq::empty()
    } else if entries.len() == 1 {
        json_string_text(entries[0].0@) + ":"@ + json_text(entries[0].1)
    } else {
        entries_text(entries.subrange(0, entries.len() - 1)) + ","@ + json_string_text(
            entries[entries.len() - 1].0@,
        ) + ":"@ + json_text(entries[entries.len() - 1].1)
    }
}

/// The decimal digits of `n`.
fn digits_u128(n: u128) -> (r: Vec<char>)
    ensures
        r@ == decimal(n as nat),
    decreases n,
{
    let d = crate::text::digit((n % 10) as u64);
    let mut out = if n < 10 {
        Vec::new()
    } else {
        digits_u128(n / 10)
    };
    out.push(d);
    out
}

/// The text of an integer.
pub(crate) fn integer_text(n: i128) -> (r: Vec<char>)
    ensures
        r@ == int_text(n as int),
{
    if n < 0 {
        let m: u128 = ((-(n + 1)) as u128) + 1;
        let digits = digits_u128(m);
        let mut out: Vec<char> = Vec::new();
        out.push('-');
        crate::text::push_chars(&mut out, &digits);
        assert(out@ =~= seq!['-'] + decimal((-n) as nat));
        out
    } else {
        digits_u128(n as u128)
    }
}

impl Json {
    /// The compact JSON text of this value.
    pub fn to_text(&self) -> (r: String)
        ensures
            r@ == json_text(*self),
    {
        let cs = self.text_chars();
        crate::text::string_from_chars(&cs)
    }

    /// The characters of this value's compact JSON text.
    fn text_chars(&self) -> (r: Vec<char>)
        ensures
            r@ == json_text(*self),
        decreases self,
    {
        let mut out: Vec<char> = Vec::new();
        match self {
            Json::Null => {
                crate::text::push_str(&mut out, "null");
                proof { reveal_strlit("null"); }
                assert(out@ =~= "null"@);
            },
            Json::Bool(b) => {
                if *b {
                    crate::text::push_str(&mut out, "true");
                    assert(out@ =~= "true"@);
                } else {
                    crate::text::push_str(&mut out, "false");
                    assert(out@ =~= "false"@);
                }
            },
            Json::Integer(n) => {
                out = integer_text(*n);
            },
            Json::Fractional(t) => {
                crate::text::push_str(&mut out, t.as_str());
                assert(out@ =~= t@);
            },
            Json::Str(s) => {
                let q = json_quote(s.as_str());
                crate::text::push_str(&mut out, q.as_str());
                assert(out@ =~= json_string_text(s@));
            },
            Json::Array(items) => {
                crate::text::push_str(&mut out, "[");
                let mut i: usize = 0;
                while i < items.len()
                    invariant
                        i <= items@.len(),
                        out@ == "["@ + items_text(items@.take(i as int)),
                        *self == Json::Array(*items),
                    decreases items@.len() - i,
                {
                    proof {
                        assert((*self)->Array_0 == *items);
                        assert(decreases_to!(*self => (*self)->Array_0));
                        assert(decreases_to!(*items => items@));
                        assert(decreases_to!(items@ => items@[i as int]));
                        assert(decreases_to!(*self => items@[i as int]));
                    }
                    let t = items[i].text_chars();
                    if i > 0 {
                        crate::text::push_str(&mut out, ",");
                    }
                    crate::text::push_chars(&mut out, &t);
                    proof {
                        let next = items@.take(i + 1);
                        assert(next.subrange(0, i as int) =~= items@.take(i as int));
                        assert(next[i as int] == items@[i as int]);
                        if i == 0 {
                            assert(items@.take(0) =~= Seq::<Json>::empty());
                        }
                    }
                    i = i + 1;
                    assert(out@ =~= "["@ + items_text(items@.take(i as int)));
                }
                crate::text::push_str(&mut out, "]");
                assert(items@.take(items@.len() as int) =~= items@);
            },
            Json::Object(entries) => {
                crate::text::push_str(&mut out, "{");
                let mut i: usize = 0;
                while i < entries.len()
                    invariant
                        i <= entries@.len(),
                        out@ == "{"@ + entries_text(entries@.take(i as int)),
                        *self == Json::Object(*entries),
                    decreases entries@.len() - i,
                {
                    proof {
                        assert((*self)->Object_0 == *entries);
                        assert(decreases_to!(*self => (*self)->Object_0));
                        assert(decreases_to!(*entries => entries@));
                        assert(decreases_to!(entries@ => entries@[i as int]));
                        assert(decreases_to!(entries@[i as int] => entries@[i as int].1));
                        assert(decreases_to!(*self => entries@[i as int].1));
                    }
                    let t = entries[i].1.text_chars();
                    if i > 0 {
                        crate::text::push_str(&mut out, ",");
                    }
                    let k = json_quote(entries[i].0.as_str());
                    crate::text::push_str(&mut out, k.as_str());
                    crate::text::push_str(&mut out, ":");
                    crate::text::push_chars(&mut out, &t);
                    proof {
                        let next = entries@.take(i + 1);
                        assert(next.subrange(0, i as int) =~= entries@.take(i as int));
                        assert(next[i as int] == entries@[i as int]);
                        if i == 0 {
                            assert(entries@.take(0) =~= Seq::<(String, Json)>::empty());
                        }
                    }
                    i = i + 1;
                    assert(out@ =~= "{"@ + entries_text(entries@.take(i as int)));
                }
                crate::text::push_str(&mut out, "}");
                assert(entries@.take(entries@.len() as int) =~= entries@);
            },
        }
        out
    }
}

} // verus!
