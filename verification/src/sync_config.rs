//! The remote sync configuration: the normalized base URL, the tickets API
//! URL and the user's websocket URL derived from it with the `url` crate,
//! and the bearer token of the signed-in session.

use vstd::prelude::*;
use crate::sync::{base_url_of, normalize_base_url, sync_ws_path, sync_ws_path_of, websocket_scheme, ws_scheme_of};
use crate::agent::provider::trim_end_slashes;
use crate::json::int_text;
use crate::text::{decimal, leading_ws, push_str, string_from_chars, trailing_ws, trim};

verus! {

/// The longest base URL, in characters, that the configuration takes: the
/// `url` crate keeps its offsets in 32 bits.
pub const MAX_SYNC_BASE_URL_CHARS: usize = 100_000_000;

/// What `url::Url::parse` gives for a text: the scheme of the URL, or the
/// text of the parse error.
pub uninterp spec fn url_parsed(base: Seq<char>) -> Result<Seq<char>, Seq<char>>;

/// The text of the URL parsed from `base` after its path is set to `path`
/// and its query and fragment are removed.
pub uninterp spec fn url_path_replaced(base: Seq<char>, path: Seq<char>) -> Seq<char>;

/// The text of the URL parsed from `base` after its scheme is set to
/// `scheme`, its path to `path`, and its query and fragment are removed;
/// nothing where the parse or the change of scheme fails.
pub uninterp spec fn url_scheme_path_replaced(base: Seq<char>, scheme: Seq<char>, path: Seq<char>) -> Option<
    Seq<char>,
>;

/// Parses `base` with `url::Url::parse` and gives the URL's scheme
/// (`Url::scheme`), or the parse error's text (its `Display`). The
/// contract claims only that the outcome is the named function of `base`.
#[verifier::external_body]
fn url_scheme(base: &str) -> (r: Result<String, String>)
    requires
        base@.len() <= MAX_SYNC_BASE_URL_CHARS,
    ensures
        match url_parsed(base@) {
            Ok(s) => r matches Ok(x) && x@ == s,
            Err(e) => r matches Err(x) && x@ == e,
        },
{
    match url::Url::parse(base) {
        Ok(u) => Ok(u.scheme().to_string()),
        Err(e) => Err(e.to_string()),
    }
}

/// Parses `base` with `url::Url::parse`, then calls `set_path(path)`,
/// `set_query(None)` and `set_fragment(None)` and gives the URL's text; or
/// the parse error's text. The contract claims that the parse error is the
/// one `url_scheme` reports for the same text, and that the URL's text is
/// the named function of `base` and `path`.
#[verifier::external_body]
fn url_with_path(base: &str, path: &str) -> (r: Result<String, String>)
    requires
        base@.len() <= MAX_SYNC_BASE_URL_CHARS,
        path@.len() <= MAX_SYNC_BASE_URL_CHARS,
    ensures
        match url_parsed(base@) {
            Ok(_) => r matches Ok(u) && u@ == url_path_replaced(base@, path@),
            Err(e) => r matches Err(x) && x@ == e,
        },
{
    let mut u = match url::Url::parse(base) {
        Ok(u) => u,
        Err(e) => return Err(e.to_string()),
    };
    u.set_path(path);
    u.set_query(None);
    u.set_fragment(None);
    Ok(u.to_string())
}

/// Parses `base` with `url::Url::parse`, then calls `set_scheme(scheme)`,
/// `set_path(path)`, `set_query(None)` and `set_fragment(None)` and gives
/// the URL's text; nothing where the parse or `set_scheme` fails. The
/// contract claims only that the outcome is the named function of its
/// arguments.
#[verifier::external_body]
fn url_with_scheme_and_path(base: &str, scheme: &str, path: &str) -> (r: Option<String>)
    requires
        base@.len() <= MAX_SYNC_BASE_URL_CHARS,
        path@.len() <= MAX_SYNC_BASE_URL_CHARS,
    ensures
        match url_scheme_path_replaced(base@, scheme@, path@) {
            Some(t) => r matches Some(u) && u@ == t,
            None => r is None,
        },
{
    let mut u = url::Url::parse(base).ok()?;
    u.set_scheme(scheme).ok()?;
    u.set_path(path);
    u.set_query(None);
    u.set_fragment(None);
    Some(u.to_string())
}

/// The API URL for `path` on the server at `base`.
pub open spec fn api_url_of(base: Seq<char>, path: Seq<char>) -> Result<Seq<char>, Seq<char>> {
    match url_parsed(base) {
        Err(e) => Err("invalid sync base URL: "@ + e),
        Ok(_) => Ok(url_path_replaced(base, path)),
    }
}

/// The websocket URL of a user's sync channel on the server at `base`:
/// `wss` for `https`, `ws` for `http`, any other scheme refused.
pub open spec fn ws_url_of(base: Seq<char>, user_id: int) -> Result<Seq<char>, Seq<char>> {
    match url_parsed(base) {
        Err(e) => Err("invalid sync base URL: "@ + e),
        Ok(s) => match ws_scheme_of(s) {
            Err(m) => Err(m),
            Ok(w) => match url_scheme_path_replaced(base, w, sync_ws_path_of(user_id)) {
                Some(u) => Ok(u),
                None => Err("failed to convert sync URL to websocket scheme"@),
            },
        },
    }
}

/// `r` is the text result `t`.
pub open spec fn text_result_is(r: Result<String, String>, t: Result<Seq<char>, Seq<char>>) -> bool {
    match t {
        Ok(u) => r matches Ok(x) && x@ == u,
        Err(m) => r matches Err(x) && x@ == m,
    }
}

/// `"invalid sync base URL: "` and the parse error.
fn invalid_base(e: &String) -> (r: String)
    ensures
        r@ == "invalid sync base URL: "@ + e@,
{
    let mut v: Vec<char> = Vec::new();
    push_str(&mut v, "invalid sync base URL: ");
    push_str(&mut v, e.as_str());
    string_from_chars(&v)
}

/// The API URL for `path` on the server at `base_url`: the base URL with
/// its path replaced and its query and fragment removed.
pub fn build_api_url(base_url: &str, path: &str) -> (r: Result<String, String>)
    requires
        base_url@.len() <= MAX_SYNC_BASE_URL_CHARS,
        path@.len() <= MAX_SYNC_BASE_URL_CHARS,
    ensures
        text_result_is(r, api_url_of(base_url@, path@)),
{
    match url_with_path(base_url, path) {
        Ok(u) => Ok(u),
        Err(e) => Err(invalid_base(&e)),
    }
}

/// The websocket URL of `user_id`'s sync channel on the server at
/// `base_url`.
pub fn build_ws_url(base_url: &str, user_id: i64) -> (r: Result<String, String>)
    requires
        base_url@.len() <= MAX_SYNC_BASE_URL_CHARS,
    ensures
        text_result_is(r, ws_url_of(base_url@, user_id as int)),
{
    let scheme = match url_scheme(base_url) {
        Ok(s) => s,
        Err(e) => return Err(invalid_base(&e)),
    };
    let ws = match websocket_scheme(scheme.as_str()) {
        Ok(w) => w,
        Err(m) => return Err(m),
    };
    let path = sync_ws_path(user_id);
    proof {
        lemma_ws_path_short(user_id);
    }
    match url_with_scheme_and_path(base_url, ws, path.as_str()) {
        Some(u) => Ok(u),
        None => Err(String::from_str("failed to convert sync URL to websocket scheme")),
    }
}

/// The signed-in session that sync runs for.
#[derive(Debug, Clone)]
pub struct SyncSessionInfo {
    pub user_id: Option<i64>,
    pub user_name: Option<String>,
    pub token: Option<String>,
}

/// Where and as whom the sync runtime connects.
#[derive(Debug, Clone)]
pub struct RemoteSyncConfig {
    pub base_url: String,
    pub api_url: String,
    pub ws_url: String,
    pub token: String,
}

/// The configuration for the base URL `base` and the session's user and
/// token, as (base URL, API URL, websocket URL, token), or the error that
/// refuses it: a blank base URL, a session without a user or without a
/// token, or a base URL that does not give both URLs.
pub open spec fn sync_config_of(base: Seq<char>, user_id: Option<i64>, token: Option<String>) -> Result<
    (Seq<char>, Seq<char>, Seq<char>, Seq<char>),
    Seq<char>,
> {
    match base_url_of(base) {
        Err(m) => Err(m),
        Ok(b) => match user_id {
            None => Err("sync session is missing user_id"@),
            Some(u) => match token {
                None => Err("sync session is missing token"@),
                Some(t) => match api_url_of(b, "/api/tickets"@) {
                    Err(m) => Err(m),
                    Ok(api) => match ws_url_of(b, u as int) {
                        Err(m) => Err(m),
                        Ok(ws) => Ok((b, api, ws, t@)),
                    },
                },
            },
        },
    }
}

/// Resolves the configuration of the sync runtime from the base URL and
/// the signed-in session.
pub fn resolve_remote_sync_config(base_url: String, session: SyncSessionInfo) -> (r: Result<
    RemoteSyncConfig,
    String,
>)
    requires
        base_url@.len() <= MAX_SYNC_BASE_URL_CHARS,
    ensures
        match sync_config_of(base_url@, session.user_id, session.token) {
            Ok((b, api, ws, t)) => r matches Ok(c) && c.base_url@ == b && c.api_url@ == api && c.ws_url@ == ws
                && c.token@ == t,
            Err(m) => r matches Err(x) && x@ == m,
        },
{
    let normalized = match normalize_base_url(base_url.as_str()) {
        Ok(b) => b,
        Err(m) => return Err(m),
    };
    proof {
        lemma_normalized_short(base_url@);
    }
    let user_id = match session.user_id {
        Some(u) => u,
        None => return Err(String::from_str("sync session is missing user_id")),
    };
    let token = match session.token {
        Some(t) => t,
        None => return Err(String::from_str("sync session is missing token")),
    };
    proof {
        reveal_strlit("/api/tickets");
    }
    let api_url = match build_api_url(normalized.as_str(), "/api/tickets") {
        Ok(u) => u,
        Err(m) => return Err(m),
    };
    let ws_url = match build_ws_url(normalized.as_str(), user_id) {
        Ok(u) => u,
        Err(m) => return Err(m),
    };
    Ok(RemoteSyncConfig { base_url: normalized, api_url, ws_url, token })
}

/// Ten to the power `k`.
spec fn pow10(k: nat) -> nat
    decreases k,
{
    if k == 0 {
        1
    } else {
        10 * pow10((k - 1) as nat)
    }
}

/// A number below `10^k` has at most `k` digits.
proof fn lemma_decimal_len(n: nat, k: nat)
    requires
        1 <= k,
        n < pow10(k),
    ensures
        decimal(n).len() <= k,
    decreases n,
{
    if n >= 10 {
        if k == 1 {
            reveal_with_fuel(pow10, 2);
            assert(false);
        }
        let p = pow10((k - 1) as nat);
        assert(n / 10 < p) by (nonlinear_arith)
            requires
                n < 10 * p,
        ;
        lemma_decimal_len(n / 10, (k - 1) as nat);
    }
}

/// The websocket path of any user is short.
proof fn lemma_ws_path_short(user_id: i64)
    ensures
        sync_ws_path_of(user_id as int).len() <= 40,
{
    assert(pow10(19) == 10_000_000_000_000_000_000nat) by {
        reveal_with_fuel(pow10, 20);
    }
    let u = user_id as int;
    if u < 0 {
        lemma_decimal_len((-u) as nat, 19);
    } else {
        lemma_decimal_len(u as nat, 19);
    }
    assert(int_text(u).len() <= 20);
    reveal_strlit("/ws/sync/");
}

/// Leading whitespace is part of the text.
proof fn lemma_leading_ws_len(s: Seq<char>)
    ensures
        leading_ws(s) <= s.len(),
    decreases s.len(),
{
    if s.len() > 0 {
        lemma_leading_ws_len(s.drop_first());
    }
}

/// Trailing whitespace is part of the text.
proof fn lemma_trailing_ws_len(s: Seq<char>)
    ensures
        trailing_ws(s) <= s.len(),
    decreases s.len(),
{
    if s.len() > 0 {
        lemma_trailing_ws_len(s.drop_last());
    }
}

/// Dropping the slashes at the end shortens a text.
proof fn lemma_trim_end_slashes_len(s: Seq<char>)
    ensures
        trim_end_slashes(s).len() <= s.len(),
    decreases s.len(),
{
    if s.len() > 0 && s.last() == '/' {
        lemma_trim_end_slashes_len(s.drop_last());
    }
}

/// The normalized base URL is no longer than the setting.
proof fn lemma_normalized_short(s: Seq<char>)
    ensures
        trim_end_slashes(trim(s)).len() <= s.len(),
{
    lemma_leading_ws_len(s);
    let t = s.skip(leading_ws(s) as int);
    lemma_trailing_ws_len(t);
    assert(trim(s).len() <= s.len());
    lemma_trim_end_slashes_len(trim(s));
}

} // verus!
