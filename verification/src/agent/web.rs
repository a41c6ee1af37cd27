//! Web search: which provider is configured, whether it can run, what a
//! search asks for, the request the provider is sent, and the results read
//! back from its reply.

use vstd::prelude::*;
use crate::agent::action::AgentAction;
use crate::agent::error::AgentError;
use crate::compute::translate::{json_quote, json_string_text};
use crate::json::{json_text, member, trimmed_member, uint_of, Json};
use crate::text::{chars_of, lower, lower_chars, push_chars, push_str, str_eq, string_from_chars, trim, trim_chars};
use crate::workspace::delta::WorkspaceDelta;
use crate::workspace::model::AppId;
use crate::workspace::state::SearchResultRecord;

verus! {

/// The view of an optional text.
pub open spec fn opt_str(o: Option<&str>) -> Option<Seq<char>> {
    match o {
        Some(s) => Some(s@),
        None => None,
    }
}

/// The provider configured by the `HSTACK_WEB_SEARCH_PROVIDER` setting:
/// the setting trimmed and lower-cased, `exa` when absent or blank.
pub open spec fn provider_name_of(setting: Option<Seq<char>>) -> Seq<char> {
    match setting {
        Some(s) => if trim(s).len() > 0 {
            lower(trim(s))
        } else {
            "exa"@
        },
        None => "exa"@,
    }
}

/// The configured provider's name.
pub fn configured_provider_name(setting: Option<&str>) -> (r: String)
    ensures
        r@ == provider_name_of(opt_str(setting)),
{
    match setting {
        Some(s) => {
            let cs = chars_of(s);
            let t = trim_chars(&cs);
            if t.len() > 0 {
                let l = lower_chars(&t);
                string_from_chars(&l)
            } else {
                String::from_str("exa")
            }
        },
        None => String::from_str("exa"),
    }
}

/// Whether web search can run: the configured provider is Exa and its API
/// key is set and not blank.
pub open spec fn web_search_available_spec(setting: Option<Seq<char>>, api_key: Option<Seq<char>>) -> bool {
    provider_name_of(setting) == "exa"@ && (api_key matches Some(k) && trim(k).len() > 0)
}

/// Whether web search can run, given the provider setting and the Exa API
/// key as the environment holds them.
pub fn web_search_is_available(setting: Option<&str>, api_key: Option<&str>) -> (r: bool)
    ensures
        r == web_search_available_spec(opt_str(setting), opt_str(api_key)),
{
    let name = configured_provider_name(setting);
    if !str_eq(name.as_str(), "exa") {
        return false;
    }
    match api_key {
        Some(k) => {
            let cs = chars_of(k);
            let t = trim_chars(&cs);
            t.len() > 0
        },
        None => false,
    }
}

/// The error for a provider name that no provider answers to.
pub fn unsupported_provider(name: &str) -> (r: AgentError)
    ensures
        r matches AgentError::Configuration(m) && m@ == "Unsupported web search provider '"@ + name@
            + "'. Supported providers: exa"@,
{
    let mut m: Vec<char> = Vec::new();
    push_str(&mut m, "Unsupported web search provider '");
    push_str(&mut m, name);
    push_str(&mut m, "'. Supported providers: exa");
    AgentError::Configuration(string_from_chars(&m))
}

/// What a web search asks for.
#[derive(Debug)]
pub struct WebSearchRequest {
    pub query: String,
    pub num_results: u64,
    pub include_domains: Vec<String>,
}

/// The domains of an `include_domains` list: each a non-blank string,
/// trimmed; none when any item is not.
pub open spec fn domains_of(items: Seq<Json>) -> Option<Seq<Seq<char>>>
    decreases items.len(),
{
    if items.len() == 0 {
        Some(Seq::empty())
    } else {
        match domains_of(items.drop_last()) {
            None => None,
            Some(d) => match items.last() {
                Json::Str(s) => if trim(s@).len() > 0 {
                    Some(d.push(trim(s@)))
                } else {
                    None
                },
                _ => None,
            },
        }
    }
}

/// What `args` ask `tool` to search for: a non-blank `query`, trimmed; a
/// `num_results` integer from 1 to 25, 5 when absent; and an optional list
/// of domains.
pub open spec fn search_request_of(args: Json, tool: Seq<char>) -> Result<(Seq<char>, u64, Seq<Seq<char>>), Seq<char>> {
    match trimmed_member(args, "query"@) {
        None => Err(tool + " requires a non-empty 'query'"@),
        Some(q) => {
            let n: Result<int, Seq<char>> = match member(args, "num_results"@) {
                None => Ok(5),
                Some(v) => match uint_of(Some(v)) {
                    Some(k) => Ok(k),
                    None => Err(tool + " 'num_results' must be an integer"@),
                },
            };
            match n {
                Err(m) => Err(m),
                Ok(k) => if k < 1 || k > 25 {
                    Err(tool + " 'num_results' must be between 1 and 25"@)
                } else {
                    match member(args, "include_domains"@) {
                        None => Ok((q, k as u64, Seq::empty())),
                        Some(Json::Array(items)) => match domains_of(items@) {
                            Some(d) => Ok((q, k as u64, d)),
                            None => Err(tool + " 'include_domains' must contain non-empty strings"@),
                        },
                        Some(_) => Err(tool + " 'include_domains' must be an array of strings"@),
                    }
                },
            }
        },
    }
}

/// A provider error whose message is `tool` then `rest`.
fn search_error<T>(tool: &str, rest: &str) -> (r: Result<T, AgentError>)
    ensures
        r matches Err(AgentError::Provider(m)) && m@ == tool@ + rest@,
{
    let mut m: Vec<char> = Vec::new();
    push_str(&mut m, tool);
    push_str(&mut m, rest);
    Err(AgentError::Provider(string_from_chars(&m)))
}

/// Reads what `args` ask `tool` to search for.
pub fn parse_search_request(args: &Json, tool: &str) -> (r: Result<WebSearchRequest, AgentError>)
    ensures
        match search_request_of(*args, tool@) {
            Ok((q, n, d)) => r matches Ok(req) && req.query@ == q && req.num_results == n
                && crate::text::views(req.include_domains@) == d,
            Err(m) => r matches Err(AgentError::Provider(s)) && s@ == m,
        },
{
    let query = match crate::json::trimmed_member_text(args, "query") {
        Some(q) => q,
        None => return search_error(tool, " requires a non-empty 'query'"),
    };
    let num_results: u64 = match args.get("num_results") {
        None => 5,
        Some(_) => match crate::json::member_u64(args, "num_results") {
            Some(k) => k,
            None => return search_error(tool, " 'num_results' must be an integer"),
        },
    };
    if num_results < 1 || num_results > 25 {
        return search_error(tool, " 'num_results' must be between 1 and 25");
    }
    let include_domains: Vec<String> = match args.get("include_domains") {
        None => {
            let v: Vec<String> = Vec::new();
            assert(crate::text::views(v@) =~= Seq::<Seq<char>>::empty());
            v
        },
        Some(Json::Array(items)) => match read_domains(items) {
            Some(v) => v,
            None => return search_error(tool, " 'include_domains' must contain non-empty strings"),
        },
        Some(_) => return search_error(tool, " 'include_domains' must be an array of strings"),
    };
    Ok(WebSearchRequest { query, num_results, include_domains })
}

/// The domains of an `include_domains` list.
fn read_domains(items: &Vec<Json>) -> (r: Option<Vec<String>>)
    ensures
        match domains_of(items@) {
            Some(d) => r matches Some(v) && crate::text::views(v@) == d,
            None => r is None,
        },
{
    let mut out: Vec<String> = Vec::new();
    let mut i: usize = 0;
    while i < items.len()
        invariant
            i <= items@.len(),
            domains_of(items@.take(i as int)) == Some(crate::text::views(out@)),
        decreases items@.len() - i,
    {
        assert(items@.take(i + 1).drop_last() =~= items@.take(i as int));
        let ok = match &items[i] {
            Json::Str(s) => {
                let cs = chars_of(s.as_str());
                let t = trim_chars(&cs);
                if t.len() > 0 {
                    let ghost before = out@;
                    out.push(string_from_chars(&t));
                    assert(crate::text::views(out@) =~= crate::text::views(before).push(t@));
                    true
                } else {
                    false
                }
            },
            _ => false,
        };
        if !ok {
            proof {
                lemma_domains_stuck(items@, i as int + 1);
            }
            return None;
        }
        i = i + 1;
    }
    assert(items@.take(items@.len() as int) =~= items@);
    Some(out)
}

/// A list whose prefix holds a bad item holds one.
proof fn lemma_domains_stuck(items: Seq<Json>, k: int)
    requires
        0 <= k <= items.len(),
        domains_of(items.take(k)) is None,
    ensures
        domains_of(items) is None,
    decreases items.len() - k,
{
    if k < items.len() {
        assert(items.take(k + 1).drop_last() =~= items.take(k));
        lemma_domains_stuck(items, k + 1);
    } else {
        assert(items.take(k) =~= items);
    }
}

/// The request body sent to Exa: the domains when there are any, the
/// number of results and the query, keys in order.
pub open spec fn exa_body_is(j: Json, req: WebSearchRequest) -> bool {
    j matches Json::Object(es) && {
        let off: int = if req.include_domains@.len() > 0 { 1 } else { 0 };
        &&& es@.len() == 2 + off
        &&& (off == 1 ==> es@[0].0@ == "includeDomains"@ && crate::agent::trace::text_array_is(es@[0].1, req.include_domains@))
        &&& es@[off].0@ == "numResults"@ && es@[off].1 == Json::Integer(req.num_results as i128)
        &&& es@[off + 1].0@ == "query"@ && crate::agent::trace::text_is(es@[off + 1].1, req.query@)
    }
}

/// The request body sent to Exa.
pub fn exa_request_body(req: &WebSearchRequest) -> (r: Json)
    ensures
        exa_body_is(r, *req),
{
    let mut es: Vec<(String, Json)> = Vec::new();
    if req.include_domains.len() > 0 {
        let mut items: Vec<Json> = Vec::new();
        let mut i: usize = 0;
        while i < req.include_domains.len()
            invariant
                i <= req.include_domains@.len(),
                items@.len() == i,
                forall|k: int| 0 <= k < i ==> #[trigger] crate::agent::trace::text_is(items@[k], req.include_domains@[k]@),
            decreases req.include_domains@.len() - i,
        {
            items.push(Json::Str(req.include_domains[i].clone()));
            i = i + 1;
        }
        es.push((String::from_str("includeDomains"), Json::Array(items)));
    }
    es.push((String::from_str("numResults"), Json::Integer(req.num_results as i128)));
    es.push((String::from_str("query"), Json::Str(req.query.clone())));
    Json::Object(es)
}

/// The text of member `key` of `item`, or `fallback`.
pub open spec fn text_or(item: Json, key: Seq<char>, fallback: Seq<char>) -> Seq<char> {
    match member(item, key) {
        Some(Json::Str(s)) => s@,
        _ => fallback,
    }
}

/// The JSON text of member `key` of `item`, `null` when absent.
pub open spec fn value_text(item: Json, key: Seq<char>) -> Seq<char> {
    match member(item, key) {
        Some(v) => json_text(v),
        None => "null"@,
    }
}

/// The metadata text of one result: the provider's name when given, the
/// publication date and the score, keys in order.
pub open spec fn result_metadata(item: Json, provider: Option<Seq<char>>) -> Seq<char> {
    "{"@ + (match provider {
        Some(p) => "\"provider\":"@ + json_string_text(p) + ","@,
        None => Seq::empty(),
    }) + "\"published_date\":"@ + value_text(item, "publishedDate"@) + ",\"score\":"@ + value_text(item, "score"@)
        + "}"@
}

/// `r` is the result read from `item`: its title (`Untitled` when
/// absent), url, text and metadata.
pub open spec fn result_is(r: SearchResultRecord, item: Json, provider: Option<Seq<char>>) -> bool {
    &&& r.title@ == text_or(item, "title"@, "Untitled"@)
    &&& (match member(item, "url"@) {
        Some(Json::Str(u)) => r.url matches Some(x) && x@ == u@,
        _ => r.url is None,
    })
    &&& r.snippet@ == text_or(item, "text"@, Seq::empty())
    &&& r.metadata@ == result_metadata(item, provider)
}

/// The items of the reply's `results` array; none when it has none.
pub open spec fn result_items(payload: Json) -> Seq<Json> {
    match member(payload, "results"@) {
        Some(Json::Array(items)) => items@,
        _ => Seq::empty(),
    }
}

/// The JSON text of member `key` of `item`.
fn value_chars(item: &Json, key: &str) -> (r: Vec<char>)
    ensures
        r@ == value_text(*item, key@),
{
    match item.get(key) {
        Some(v) => {
            let t = v.to_text();
            chars_of(t.as_str())
        },
        None => {
            let mut m: Vec<char> = Vec::new();
            push_str(&mut m, "null");
            assert(m@ =~= "null"@);
            m
        },
    }
}

/// The text of member `key` of `item`, or `fallback`.
fn text_or_exec(item: &Json, key: &str, fallback: &str) -> (r: String)
    ensures
        r@ == text_or(*item, key@, fallback@),
{
    match item.get(key) {
        Some(Json::Str(s)) => s.clone(),
        _ => String::from_str(fallback),
    }
}

/// One result read from `item`.
fn read_result(item: &Json, provider: Option<&str>) -> (r: SearchResultRecord)
    ensures
        result_is(r, *item, opt_str(provider)),
{
    let ghost prov = opt_str(provider);
    let title = text_or_exec(item, "title", "Untitled");
    let url = match item.get("url") {
        Some(Json::Str(u)) => Some(u.clone()),
        _ => None,
    };
    let snippet = text_or_exec(item, "text", "");
    proof {
        reveal_strlit("");
        assert(""@ =~= Seq::<char>::empty());
    }
    assert(title@ == text_or(*item, "title"@, "Untitled"@));
    assert(snippet@ == text_or(*item, "text"@, Seq::empty()));
    let mut m: Vec<char> = Vec::new();
    push_str(&mut m, "{");
    match provider {
        Some(p) => {
            push_str(&mut m, "\"provider\":");
            let q = json_quote(p);
            push_str(&mut m, q.as_str());
            push_str(&mut m, ",");
        },
        None => {},
    }
    push_str(&mut m, "\"published_date\":");
    let d = value_chars(item, "publishedDate");
    push_chars(&mut m, &d);
    push_str(&mut m, ",\"score\":");
    let sc = value_chars(item, "score");
    push_chars(&mut m, &sc);
    push_str(&mut m, "}");
    let metadata = string_from_chars(&m);
    proof {
        assert(metadata@ =~= result_metadata(*item, prov));
    }
    SearchResultRecord { title, url, snippet, metadata }
}

/// The results of a provider's reply, named after `provider` when given.
pub fn read_search_results(payload: &Json, provider: Option<&str>) -> (r: Vec<SearchResultRecord>)
    ensures
        r@.len() == result_items(*payload).len(),
        forall|i: int| 0 <= i < r@.len() ==> #[trigger] result_is(r@[i], result_items(*payload)[i], opt_str(provider)),
{
    let ghost prov = opt_str(provider);
    let items = match payload.get("results") {
        Some(Json::Array(items)) => items,
        _ => {
            return Vec::new();
        },
    };
    let mut out: Vec<SearchResultRecord> = Vec::new();
    let mut i: usize = 0;
    while i < items.len()
        invariant
            i <= items@.len(),
            items@ == result_items(*payload),
            out@.len() == i,
            prov == opt_str(provider),
            forall|k: int| 0 <= k < i ==> #[trigger] result_is(out@[k], items@[k], prov),
        decreases items@.len() - i,
    {
        let rec = read_result(&items[i], provider);
        out.push(rec);
        i = i + 1;
    }
    out
}

/// The action that publishes web results for `query`.
pub fn publish_web_results(query: String, results: Vec<SearchResultRecord>) -> (r: AgentAction)
    ensures
        r == AgentAction::UpdateWorkspace(WorkspaceDelta::PublishSearchResults { app_id: AppId::WebSearch, query, results }),
{
    AgentAction::UpdateWorkspace(WorkspaceDelta::PublishSearchResults { app_id: AppId::WebSearch, query, results })
}

/// Web search through the configured provider.
pub struct WebSearchTool;

impl WebSearchTool {
    /// The tool's name.
    pub fn name(&self) -> (r: &'static str)
        ensures
            r@ == "web_search"@,
    {
        "web_search"
    }

    /// What `args` ask the tool to search for.
    pub fn parse_request(args: &Json) -> (r: Result<WebSearchRequest, AgentError>)
        ensures
            match search_request_of(*args, "web_search"@) {
                Ok((q, n, d)) => r matches Ok(req) && req.query@ == q && req.num_results == n
                    && crate::text::views(req.include_domains@) == d,
                Err(m) => r matches Err(AgentError::Provider(s)) && s@ == m,
            },
    {
        parse_search_request(args, "web_search")
    }
}

/// Web search through Exa.
pub struct ExaSearchTool;

impl ExaSearchTool {
    /// The tool's name.
    pub fn name(&self) -> (r: &'static str)
        ensures
            r@ == "exa_search"@,
    {
        "exa_search"
    }

    /// What `args` ask the tool to search for.
    pub fn parse_request(args: &Json) -> (r: Result<WebSearchRequest, AgentError>)
        ensures
            match search_request_of(*args, "exa_search"@) {
                Ok((q, n, d)) => r matches Ok(req) && req.query@ == q && req.num_results == n
                    && crate::text::views(req.include_domains@) == d,
                Err(m) => r matches Err(AgentError::Provider(s)) && s@ == m,
            },
    {
        parse_search_request(args, "exa_search")
    }
}

} // verus!
