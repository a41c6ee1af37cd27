//! What the provider is told of each tool: its description and the JSON
//! schema of its parameters, and the tool list of a request.

use vstd::prelude::*;
use crate::agent::catalog::{tool_names, tool_index, ToolKind};
use crate::agent::contract::ToolSpec;
use crate::agent::trace::{entries, text_is};
use crate::compute::tool::LightComputeBackendKind;
use crate::json::{member, Json};

verus! {

/// One parameter of a tool, as its schema describes it.
#[derive(Debug)]
pub struct ParamSpec {
    pub name: &'static str,
    pub ty: &'static str,
    pub description: Option<&'static str>,
    /// The values it may take (none: any).
    pub choices: Vec<&'static str>,
    pub minimum: Option<i64>,
    pub maximum: Option<i64>,
    /// An array of strings.
    pub string_items: bool,
}

/// A parameter as the contracts read it.
#[verifier::ext_equal]
pub struct ParamRow {
    pub name: Seq<char>,
    pub ty: Seq<char>,
    pub description: Option<Seq<char>>,
    pub choices: Seq<Seq<char>>,
    pub minimum: Option<int>,
    pub maximum: Option<int>,
    pub string_items: bool,
}

impl ParamSpec {
    /// This parameter as the contracts read it.
    pub open spec fn row(&self) -> ParamRow {
        ParamRow {
            name: self.name@,
            ty: self.ty@,
            description: match self.description {
                Some(d) => Some(d@),
                None => None,
            },
            choices: self.choices@.map_values(|c: &'static str| c@),
            minimum: match self.minimum {
                Some(m) => Some(m as int),
                None => None,
            },
            maximum: match self.maximum {
                Some(m) => Some(m as int),
                None => None,
            },
            string_items: self.string_items,
        }
    }
}

/// A parameter of type `ty`.
pub open spec fn param(name: Seq<char>, ty: Seq<char>) -> ParamRow {
    ParamRow { name, ty, description: None, choices: Seq::empty(), minimum: None, maximum: None, string_items: false }
}

/// A described parameter of type `ty`.
pub open spec fn described(name: Seq<char>, ty: Seq<char>, d: Seq<char>) -> ParamRow {
    ParamRow { description: Some(d), ..param(name, ty) }
}

/// A string parameter that takes one of `choices`.
pub open spec fn choice(name: Seq<char>, choices: Seq<Seq<char>>) -> ParamRow {
    ParamRow { choices, ..param(name, "string"@) }
}

/// An integer parameter of at least `min`.
pub open spec fn at_least(name: Seq<char>, min: int, d: Option<Seq<char>>) -> ParamRow {
    ParamRow { minimum: Some(min), description: d, ..param(name, "integer"@) }
}

/// An array-of-strings parameter.
pub open spec fn strings(name: Seq<char>, d: Option<Seq<char>>) -> ParamRow {
    ParamRow { string_items: true, description: d, ..param(name, "array"@) }
}

/// The app ids the dock tools take.
pub open spec fn app_choices() -> Seq<Seq<char>> {
    seq!["scratchpad"@, "websearch"@, "stack-search"@, "compute"@, "file-tree"@, "editor"@, "file-search"@, "jobs"@]
}

/// The row-span edit parameters the edit tools share, by name.
pub open spec fn span_rows() -> (ParamRow, ParamRow, ParamRow, ParamRow) {
    (
        choice("operation"@, seq!["append"@, "replace"@, "insert"@, "delete"@]),
        described("replacement_text"@, "string"@, "Replacement text block. Embedded newlines are allowed."@),
        at_least("row_end"@, 0, Some("Exclusive end row for replace/delete spans."@)),
        at_least("row_start"@, 0, None),
    )
}

/// The search parameters of the web search tool.
pub open spec fn web_rows() -> Seq<ParamRow> {
    seq![
        strings("include_domains"@, Some("Optional domain allowlist, for example ['docs.rs', 'github.com']."@)),
        ParamRow {
            maximum: Some(25),
            ..at_least("num_results"@, 1, Some("Number of results to return (1-25)."@))
        },
        described("query"@, "string"@, "Search query text."@),
    ]
}

/// The parameters of a tool, by name, and the ones it requires; nothing
/// for the ticket tools, whose schemas come with the ticket model.
pub open spec fn tool_schema(k: ToolKind) -> Option<(Seq<ParamRow>, Seq<Seq<char>>)> {
    let (op, text, row_end, row_start) = span_rows();
    match k {
        ToolKind::Identity => Some((
            seq![described("answer"@, "string"@, "The final natural language response to the user."@)],
            seq!["answer"@],
        )),
        ToolKind::FollowUp => Some((
            seq![
                described("question"@, "string"@, "The clarifying question to ask the user."@),
                described("reason"@, "string"@, "Optional short explanation of what is missing or ambiguous."@),
            ],
            seq!["question"@],
        )),
        ToolKind::SearchStack => Some((
            seq![described("query"@, "string"@, "Query over local HStack content only."@)],
            seq!["query"@],
        )),
        ToolKind::ScratchThought => Some((
            seq![
                described("metadata"@, "object"@, "Optional structured data."@),
                described("thought"@, "string"@, "The thought or reasoning step."@),
            ],
            seq!["thought"@],
        )),
        ToolKind::WebSearch => Some((web_rows(), seq!["query"@])),
        ToolKind::LightCompute => Some((
            seq![
                described(
                    "code"@,
                    "string"@,
                    "Sandboxed code body. Use return to produce output. The runtime language depends on the active backend: JavaScript on desktop V8, Python on Android Monty."@,
                ),
                described("input"@, "object"@, "Structured JSON object exposed as variable 'input' in the script."@),
            ],
            seq!["code"@],
        )),
        ToolKind::ManageApp => Some((
            seq![
                choice("action"@, seq!["open"@, "close"@, "focus"@, "pin"@, "unpin"@, "scroll_up"@, "scroll_down"@]),
                choice("app_id"@, app_choices()),
                at_least("lines"@, 1, Some("Optional scroll amount for scroll actions."@)),
            ],
            seq!["action"@, "app_id"@],
        )),
        ToolKind::InspectApp => Some((seq![choice("app_id"@, app_choices())], seq!["app_id"@])),
        ToolKind::EditorEdit => Some((
            seq![param("expected_conflict_token"@, "string"@), op, param("path"@, "string"@), text, row_end, row_start],
            seq!["operation"@],
        )),
        ToolKind::Microbash => Some((seq![param("command"@, "string"@)], seq!["command"@])),
        ToolKind::FilesystemPatch => Some((
            seq![param("expected_conflict_token"@, "string"@), op, param("path"@, "string"@), text, row_end, row_start],
            seq!["operation"@, "path"@],
        )),
        ToolKind::ScratchpadSearch => Some((seq![param("query"@, "string"@)], seq!["query"@])),
        ToolKind::ExecutionRequest => Some((
            seq![
                strings("argv"@, None),
                param("cwd"@, "string"@),
                strings("env_allowlist"@, None),
                choice("filesystem_capability_profile"@, seq!["safe_data_sandbox"@, "project_sandbox"@]),
                param("handle"@, "string"@),
                at_least("max_output_bytes"@, 1, None),
                choice("network_policy"@, seq!["deny"@]),
                choice("operation"@, seq!["run_tool"@, "poll_execution"@, "collect_output"@, "cancel_execution"@]),
                choice("output_streaming_policy"@, seq!["buffered"@, "streaming"@]),
                choice("stdin_policy"@, seq!["disabled"@, "empty"@]),
                at_least("timeout_ms"@, 1, None),
                param("tool_id"@, "string"@),
            ],
            seq!["operation"@],
        )),
        ToolKind::ScratchpadEdit => Some((seq![op, text, row_end, row_start], seq!["operation"@])),
        _ => None,
    }
}

/// The keys of an object, in order.
pub open spec fn keys_of(j: Json) -> Seq<Seq<char>> {
    entries(j).map_values(|e: (String, Json)| e.0@)
}

/// `j` is an array of the strings `ss`.
pub open spec fn strings_are(j: Json, ss: Seq<Seq<char>>) -> bool {
    j matches Json::Array(items) && items@.len() == ss.len() && forall|i: int|
        0 <= i < ss.len() ==> #[trigger] text_is(items@[i], ss[i])
}

/// The keys a parameter's schema has, in order.
pub open spec fn property_keys(r: ParamRow) -> Seq<Seq<char>> {
    (if r.description is Some { seq!["description"@] } else { Seq::empty() }) + (if r.choices.len() > 0 {
        seq!["enum"@]
    } else {
        Seq::empty()
    }) + (if r.string_items { seq!["items"@] } else { Seq::empty() }) + (if r.maximum is Some {
        seq!["maximum"@]
    } else {
        Seq::empty()
    }) + (if r.minimum is Some { seq!["minimum"@] } else { Seq::empty() }) + seq!["type"@]
}

/// `j` is the schema of parameter `r`.
pub open spec fn property_is(j: Json, r: ParamRow) -> bool {
    &&& j is Object && keys_of(j) == property_keys(r)
    &&& member(j, "type"@) matches Some(t) && text_is(t, r.ty)
    &&& (r.description matches Some(d) ==> member(j, "description"@) matches Some(x) && text_is(x, d))
    &&& (r.choices.len() > 0 ==> (member(j, "enum"@) matches Some(x) && strings_are(x, r.choices)))
    &&& (r.string_items ==> (member(j, "items"@) matches Some(x) && keys_of(x) == seq!["type"@] && (member(
        x,
        "type"@,
    ) matches Some(y) && text_is(y, "string"@))))
    &&& (r.maximum matches Some(m) ==> member(j, "maximum"@) == Some(Json::Integer(m as i128)))
    &&& (r.minimum matches Some(m) ==> member(j, "minimum"@) == Some(Json::Integer(m as i128)))
}

/// `j` is the schema of an object with the parameters `rows` (in order)
/// of which `required` must be given.
pub open spec fn schema_is(j: Json, rows: Seq<ParamRow>, required: Seq<Seq<char>>) -> bool {
    &&& j is Object && keys_of(j) == seq!["properties"@, "required"@, "type"@]
    &&& member(j, "type"@) matches Some(t) && text_is(t, "object"@)
    &&& member(j, "required"@) matches Some(x) && strings_are(x, required)
    &&& member(j, "properties"@) matches Some(p) && p is Object && keys_of(p) == rows.map_values(|r: ParamRow| r.name)
        && forall|i: int| 0 <= i < rows.len() ==> #[trigger] property_is(entries(p)[i].1, rows[i])
}

/// The first entry of `es` named `key` is entry `i`.
proof fn lemma_entry_at(es: Seq<(String, Json)>, i: int, key: Seq<char>)
    requires
        0 <= i < es.len(),
        es[i].0@ == key,
        forall|j: int| 0 <= j < i ==> (#[trigger] es[j]).0@ != key,
    ensures
        crate::json::entry_of(es, key) == Some(es[i].1),
    decreases i,
{
    if i > 0 {
        lemma_entry_at(es.drop_first(), i - 1, key);
        assert forall|j: int| 0 <= j < i - 1 implies (#[trigger] es.drop_first()[j]).0@ != key by {
            assert(es.drop_first()[j] == es[j + 1]);
        }
    }
}

/// No entry of `es` is named `key`.
proof fn lemma_entry_absent(es: Seq<(String, Json)>, key: Seq<char>)
    requires
        forall|j: int| 0 <= j < es.len() ==> (#[trigger] es[j]).0@ != key,
    ensures
        crate::json::entry_of(es, key) is None,
    decreases es.len(),
{
    if es.len() > 0 {
        assert forall|j: int| 0 <= j < es.len() - 1 implies (#[trigger] es.drop_first()[j]).0@ != key by {
            assert(es.drop_first()[j] == es[j + 1]);
        }
        lemma_entry_absent(es.drop_first(), key);
    }
}

/// The entry `key` holding `value`.
fn entry(key: &str, value: Json) -> (r: (String, Json))
    ensures
        r.0@ == key@ && r.1 == value,
{
    (String::from_str(key), value)
}

/// An array of the strings `ss`.
fn strings_json(ss: &Vec<&'static str>) -> (r: Json)
    ensures
        strings_are(r, ss@.map_values(|c: &'static str| c@)),
{
    let mut items: Vec<Json> = Vec::new();
    let mut i: usize = 0;
    while i < ss.len()
        invariant
            i <= ss@.len(),
            items@.len() == i,
            forall|k: int| 0 <= k < i ==> #[trigger] text_is(items@[k], ss@[k]@),
        decreases ss@.len() - i,
    {
        items.push(Json::Str(String::from_str(ss[i])));
        i = i + 1;
    }
    Json::Array(items)
}

/// The schema of one parameter.
fn property_json(p: &ParamSpec) -> (r: Json)
    ensures
        property_is(r, p.row()),
{
    proof {
        reveal_strlit("description");
        reveal_strlit("enum");
        reveal_strlit("items");
        reveal_strlit("maximum");
        reveal_strlit("minimum");
        reveal_strlit("type");
        reveal_strlit("string");
    }
    let mut es: Vec<(String, Json)> = Vec::new();
    match p.description {
        Some(d) => es.push(entry("description", Json::Str(String::from_str(d)))),
        None => {},
    }
    let ghost n_desc = es@.len();
    if p.choices.len() > 0 {
        es.push(entry("enum", strings_json(&p.choices)));
    }
    let ghost n_enum = es@.len();
    if p.string_items {
        let mut item: Vec<(String, Json)> = Vec::new();
        item.push(entry("type", Json::Str(String::from_str("string"))));
        proof {
            lemma_entry_at(item@, 0, "type"@);
            assert(keys_of(Json::Object(item)) =~= seq!["type"@]);
        }
        es.push(entry("items", Json::Object(item)));
    }
    let ghost n_items = es@.len();
    match p.maximum {
        Some(m) => es.push(entry("maximum", Json::Integer(m as i128))),
        None => {},
    }
    let ghost n_max = es@.len();
    match p.minimum {
        Some(m) => es.push(entry("minimum", Json::Integer(m as i128))),
        None => {},
    }
    let ghost n_min = es@.len();
    es.push(entry("type", Json::Str(String::from_str(p.ty))));
    let ghost g = es@;
    proof {
        assert(keys_of(Json::Object(es)) =~= property_keys(p.row()));
        let ks = property_keys(p.row());
        assert("description"@[0] == 'd' && "enum"@[0] == 'e' && "items"@[0] == 'i' && "maximum"@[0] == 'm'
            && "minimum"@[0] == 'm' && "type"@[0] == 't' && "maximum"@[1] == 'a' && "minimum"@[1] == 'i');
        assert forall|j: int| 0 <= j < g.len() ==> #[trigger] g[j].0@ == ks[j] by {}
        lemma_entry_at(g, g.len() - 1, "type"@);
        if p.description is Some {
            lemma_entry_at(g, 0, "description"@);
        }
        if p.choices@.len() > 0 {
            lemma_entry_at(g, n_desc as int, "enum"@);
        }
        if p.string_items {
            lemma_entry_at(g, n_enum as int, "items"@);
        }
        if p.maximum is Some {
            lemma_entry_at(g, n_items as int, "maximum"@);
        }
        if p.minimum is Some {
            lemma_entry_at(g, n_max as int, "minimum"@);
        }
    }
    Json::Object(es)
}

/// The rows of `params`.
pub open spec fn rows_of(params: Seq<ParamSpec>) -> Seq<ParamRow> {
    params.map_values(|p: ParamSpec| p.row())
}

/// The schema of an object with `params` (in order), of which `required`
/// must be given.
fn schema_json(params: &Vec<ParamSpec>, required: &Vec<&'static str>) -> (r: Json)
    ensures
        schema_is(r, rows_of(params@), required@.map_values(|c: &'static str| c@)),
{
    proof {
        reveal_strlit("properties");
        reveal_strlit("required");
        reveal_strlit("type");
        reveal_strlit("object");
    }
    let mut props: Vec<(String, Json)> = Vec::new();
    let mut i: usize = 0;
    while i < params.len()
        invariant
            i <= params@.len(),
            props@.len() == i,
            forall|k: int| 0 <= k < i ==> (#[trigger] props@[k]).0@ == params@[k].name@ && property_is(
                props@[k].1,
                params@[k].row(),
            ),
        decreases params@.len() - i,
    {
        let value = property_json(&params[i]);
        props.push(entry(params[i].name, value));
        i = i + 1;
    }
    let ghost pg = props@;
    let properties = Json::Object(props);
    proof {
        assert(keys_of(properties) =~= rows_of(params@).map_values(|r: ParamRow| r.name));
    }
    let mut es: Vec<(String, Json)> = Vec::new();
    es.push(entry("properties", properties));
    es.push(entry("required", strings_json(required)));
    es.push(entry("type", Json::Str(String::from_str("object"))));
    proof {
        let g = es@;
        assert("properties"@[0] == 'p' && "required"@[0] == 'r' && "type"@[0] == 't');
        lemma_entry_at(g, 0, "properties"@);
        lemma_entry_at(g, 1, "required"@);
        lemma_entry_at(g, 2, "type"@);
        assert(keys_of(Json::Object(es)) =~= seq!["properties"@, "required"@, "type"@]);
        assert forall|k: int| 0 <= k < rows_of(params@).len() implies #[trigger] property_is(
            entries(properties)[k].1,
            rows_of(params@)[k],
        ) by {
            assert(entries(properties)[k] == pg[k]);
        }
    }
    Json::Object(es)
}

/// The views of some static texts.
pub open spec fn texts(v: Seq<&'static str>) -> Seq<Seq<char>> {
    v.map_values(|c: &'static str| c@)
}

fn p_plain(name: &'static str, ty: &'static str) -> (r: ParamSpec)
    ensures
        r.row() =~~= param(name@, ty@),
{
    ParamSpec { name, ty, description: None, choices: Vec::new(), minimum: None, maximum: None, string_items: false }
}

fn p_described(name: &'static str, ty: &'static str, d: &'static str) -> (r: ParamSpec)
    ensures
        r.row() =~~= described(name@, ty@, d@),
{
    ParamSpec { name, ty, description: Some(d), choices: Vec::new(), minimum: None, maximum: None, string_items: false }
}

fn p_choice(name: &'static str, choices: Vec<&'static str>) -> (r: ParamSpec)
    ensures
        r.row() =~~= choice(name@, texts(choices@)),
{
    proof {
        reveal_strlit("string");
    }
    ParamSpec { name, ty: "string", description: None, choices, minimum: None, maximum: None, string_items: false }
}

fn p_at_least(name: &'static str, min: i64, d: Option<&'static str>) -> (r: ParamSpec)
    ensures
        r.row() =~~= at_least(
            name@,
            min as int,
            match d {
                Some(x) => Some(x@),
                None => None,
            },
        ),
{
    ParamSpec { name, ty: "integer", description: d, choices: Vec::new(), minimum: Some(min), maximum: None, string_items: false }
}

fn p_strings(name: &'static str, d: Option<&'static str>) -> (r: ParamSpec)
    ensures
        r.row() =~~= strings(
            name@,
            match d {
                Some(x) => Some(x@),
                None => None,
            },
        ),
{
    ParamSpec { name, ty: "array", description: d, choices: Vec::new(), minimum: None, maximum: None, string_items: true }
}

/// The app ids the dock tools take.
fn app_ids() -> (r: Vec<&'static str>)
    ensures
        texts(r@) =~= app_choices(),
{
    vec!["scratchpad", "websearch", "stack-search", "compute", "file-tree", "editor", "file-search", "jobs"]
}

/// The parameters of the web search tool.
fn web_params() -> (r: Vec<ParamSpec>)
    ensures
        rows_of(r@) =~~= web_rows(),
{
    let mut results = p_at_least("num_results", 1, Some("Number of results to return (1-25)."));
    results.maximum = Some(25);
    vec![
        p_strings("include_domains", Some("Optional domain allowlist, for example ['docs.rs', 'github.com'].")),
        results,
        p_described("query", "string", "Search query text."),
    ]
}

/// The row-span parameters of the scratchpad edit tool.
fn span_params() -> (r: Vec<ParamSpec>)
    ensures
        rows_of(r@) =~~= seq![span_rows().0, span_rows().1, span_rows().2, span_rows().3],
{
    vec![
        p_choice("operation", vec!["append", "replace", "insert", "delete"]),
        p_described("replacement_text", "string", "Replacement text block. Embedded newlines are allowed."),
        p_at_least("row_end", 0, Some("Exclusive end row for replace/delete spans.")),
        p_at_least("row_start", 0, None),
    ]
}

/// The parameters of the file edit tools: a path, a conflict token, and
/// the row span.
fn path_span_params() -> (r: Vec<ParamSpec>)
    ensures
        rows_of(r@) =~~= seq![
            param("expected_conflict_token"@, "string"@),
            span_rows().0,
            param("path"@, "string"@),
            span_rows().1,
            span_rows().2,
            span_rows().3,
        ],
{
    vec![
        p_plain("expected_conflict_token", "string"),
        p_choice("operation", vec!["append", "replace", "insert", "delete"]),
        p_plain("path", "string"),
        p_described("replacement_text", "string", "Replacement text block. Embedded newlines are allowed."),
        p_at_least("row_end", 0, Some("Exclusive end row for replace/delete spans.")),
        p_at_least("row_start", 0, None),
    ]
}

/// The parameters of the execution request tool.
fn execution_params() -> (r: Vec<ParamSpec>)
    ensures
        rows_of(r@) =~~= tool_schema(ToolKind::ExecutionRequest)->Some_0.0,
{
    vec![
        p_strings("argv", None),
        p_plain("cwd", "string"),
        p_strings("env_allowlist", None),
        p_choice("filesystem_capability_profile", vec!["safe_data_sandbox", "project_sandbox"]),
        p_plain("handle", "string"),
        p_at_least("max_output_bytes", 1, None),
        p_choice("network_policy", vec!["deny"]),
        p_choice("operation", vec!["run_tool", "poll_execution", "collect_output", "cancel_execution"]),
        p_choice("output_streaming_policy", vec!["buffered", "streaming"]),
        p_choice("stdin_policy", vec!["disabled", "empty"]),
        p_at_least("timeout_ms", 1, None),
        p_plain("tool_id", "string"),
    ]
}

/// The parameters of a tool, by name, and the ones it requires; nothing
/// for the ticket tools.
pub fn param_specs(k: ToolKind) -> (r: Option<(Vec<ParamSpec>, Vec<&'static str>)>)
    ensures
        match tool_schema(k) {
            Some(t) => r matches Some(x) && rows_of(x.0@) =~~= t.0 && texts(x.1@) =~= t.1,
            None => r is None,
        },
{
    match k {
        ToolKind::Identity => {
            let v = vec![p_described("answer", "string", "The final natural language response to the user.")];
            let req = vec!["answer"];
            proof {
                assert(rows_of(v@) =~~= tool_schema(k)->Some_0.0);
                assert(texts(req@) =~= tool_schema(k)->Some_0.1);
            }
            Some((v, req))
        },
        ToolKind::FollowUp => {
            let v = vec![p_described("question", "string", "The clarifying question to ask the user."), p_described("reason", "string", "Optional short explanation of what is missing or ambiguous.")];
            let req = vec!["question"];
            proof {
                assert(rows_of(v@) =~~= tool_schema(k)->Some_0.0);
                assert(texts(req@) =~= tool_schema(k)->Some_0.1);
            }
            Some((v, req))
        },
        ToolKind::SearchStack => {
            let v = vec![p_described("query", "string", "Query over local HStack content only.")];
            let req = vec!["query"];
            proof {
                assert(rows_of(v@) =~~= tool_schema(k)->Some_0.0);
                assert(texts(req@) =~= tool_schema(k)->Some_0.1);
            }
            Some((v, req))
        },
        ToolKind::ScratchThought => {
            let v = vec![p_described("metadata", "object", "Optional structured data."), p_described("thought", "string", "The thought or reasoning step.")];
            let req = vec!["thought"];
            proof {
                assert(rows_of(v@) =~~= tool_schema(k)->Some_0.0);
                assert(texts(req@) =~= tool_schema(k)->Some_0.1);
            }
            Some((v, req))
        },
        ToolKind::WebSearch => {
            let v = web_params();
            let req = vec!["query"];
            proof {
                assert(rows_of(v@) =~~= tool_schema(k)->Some_0.0);
                assert(texts(req@) =~= tool_schema(k)->Some_0.1);
            }
            Some((v, req))
        },
        ToolKind::LightCompute => {
            let v = vec![p_described("code", "string", "Sandboxed code body. Use return to produce output. The runtime language depends on the active backend: JavaScript on desktop V8, Python on Android Monty."), p_described("input", "object", "Structured JSON object exposed as variable 'input' in the script.")];
            let req = vec!["code"];
            proof {
                assert(rows_of(v@) =~~= tool_schema(k)->Some_0.0);
                assert(texts(req@) =~= tool_schema(k)->Some_0.1);
            }
            Some((v, req))
        },
        ToolKind::ManageApp => {
            let v = vec![p_choice("action", vec!["open", "close", "focus", "pin", "unpin", "scroll_up", "scroll_down"]), p_choice("app_id", app_ids()), p_at_least("lines", 1, Some("Optional scroll amount for scroll actions."))];
            let req = vec!["action", "app_id"];
            proof {
                assert(rows_of(v@) =~~= tool_schema(k)->Some_0.0);
                assert(texts(req@) =~= tool_schema(k)->Some_0.1);
            }
            Some((v, req))
        },
        ToolKind::InspectApp => {
            let v = vec![p_choice("app_id", app_ids())];
            let req = vec!["app_id"];
            proof {
                assert(rows_of(v@) =~~= tool_schema(k)->Some_0.0);
                assert(texts(req@) =~= tool_schema(k)->Some_0.1);
            }
            Some((v, req))
        },
        ToolKind::EditorEdit => {
            let v = path_span_params();
            let req = vec!["operation"];
            proof {
                assert(rows_of(v@) =~~= tool_schema(k)->Some_0.0);
                assert(texts(req@) =~= tool_schema(k)->Some_0.1);
            }
            Some((v, req))
        },
        ToolKind::Microbash => {
            let v = vec![p_plain("command", "string")];
            let req = vec!["command"];
            proof {
                assert(rows_of(v@) =~~= tool_schema(k)->Some_0.0);
                assert(texts(req@) =~= tool_schema(k)->Some_0.1);
            }
            Some((v, req))
        },
        ToolKind::FilesystemPatch => {
            let v = path_span_params();
            let req = vec!["operation", "path"];
            proof {
                assert(rows_of(v@) =~~= tool_schema(k)->Some_0.0);
                assert(texts(req@) =~= tool_schema(k)->Some_0.1);
            }
            Some((v, req))
        },
        ToolKind::ScratchpadSearch => {
            let v = vec![p_plain("query", "string")];
            let req = vec!["query"];
            proof {
                assert(rows_of(v@) =~~= tool_schema(k)->Some_0.0);
                assert(texts(req@) =~= tool_schema(k)->Some_0.1);
            }
            Some((v, req))
        },
        ToolKind::ExecutionRequest => {
            let v = execution_params();
            let req = vec!["operation"];
            proof {
                assert(rows_of(v@) =~~= tool_schema(k)->Some_0.0);
                assert(texts(req@) =~= tool_schema(k)->Some_0.1);
            }
            Some((v, req))
        },
        ToolKind::ScratchpadEdit => {
            let v = span_params();
            let req = vec!["operation"];
            proof {
                assert(rows_of(v@) =~~= tool_schema(k)->Some_0.0);
                assert(texts(req@) =~= tool_schema(k)->Some_0.1);
            }
            Some((v, req))
        },
        _ => None,
    }
}

/// What the provider is told a tool does; the light-compute tool names
/// the language of `backend`.
pub open spec fn tool_description(k: ToolKind, backend: LightComputeBackendKind) -> Seq<char> {
    match k {
        ToolKind::Identity => "Signals that the task is complete and returns the final answer."@,
        ToolKind::FollowUp => "Records the clarifying question and missing-information rationale when the request is underspecified or ambiguous."@,
        ToolKind::SearchStack => "Searches only the user's local HStack world for matching tickets, notes, habits, tasks, or events. Not for general web or world knowledge."@,
        ToolKind::ScratchThought => "Saves a technical thought or intermediate result to the agent's working memory."@,
        ToolKind::WebSearch => "Runs external web search with the configured provider (Exa by default) for public web facts, docs, and websites. Not for local HStack content."@,
        ToolKind::ManageApp => "Opens, closes, focuses, pins, unpins, or scrolls workspace apps through the dock control surface."@,
        ToolKind::InspectApp => "Inspects the current visible viewport and lifecycle state of a workspace app."@,
        ToolKind::EditorEdit => "Edits the open editor buffer or an explicit virtual file path by replacing a row span through the secured virtual filesystem backend."@,
        ToolKind::Microbash => "Runs constrained microbash commands against the configured sandboxed workspace and updates file tree, editor, search, and job apps."@,
        ToolKind::FilesystemPatch => "Applies a structured row-span edit to a sandboxed file and updates the editor and file tree apps."@,
        ToolKind::ScratchpadSearch => "Searches the scratchpad document like a bounded ctrl+F and returns matching lines."@,
        ToolKind::ExecutionRequest => "Runs, polls, collects, or cancels constrained execution requests without exposing any host-shell execution path. Public allowlist currently supports only internal light_compute execution."@,
        ToolKind::ScratchpadEdit => "Edits the scratchpad document by appending or replacing a row span with a replacement text block."@,
        ToolKind::CreateTicket => "Create a new ticket proposal in the user's stack."@,
        ToolKind::DeleteTicket => "Delete a ticket proposal from the user's stack given its ID string."@,
        ToolKind::DeleteAllTickets => "Delete all ticket proposals from the projected stack."@,
        ToolKind::EditTicket => "Edit an existing ticket proposal in the user's stack."@,
        ToolKind::AddCommute => "Register a recurring commute proposal for the user."@,
        ToolKind::GetDirections => "Create a directions commute proposal between two places."@,
        ToolKind::RemoveCommute => "Remove a commute proposal by its ticket ID."@,
        ToolKind::StartLiveDirections => "Start a live directions commute proposal with a deadline."@,
        ToolKind::CreateCountdown => "Create a countdown ticket proposal with a live timer."@,
        ToolKind::LightCompute => match backend {
            LightComputeBackendKind::V8 => "Runs short sandboxed JavaScript with strict limits and allowlisted helpers in global `hstack` (math, stats, strings, and object utilities)."@,
            LightComputeBackendKind::Monty => "Runs short sandboxed Python on Monty with strict limits and allowlisted helpers in `hstack` (math, stats, strings, and object utilities)."@,
        },
    }
}

/// `j` is the schema of an object without parameters.
pub open spec fn empty_schema_is(j: Json) -> bool {
    &&& j is Object && keys_of(j) == seq!["properties"@, "type"@]
    &&& member(j, "properties"@) matches Some(p) && p is Object && keys_of(p).len() == 0
    &&& member(j, "type"@) matches Some(t) && text_is(t, "object"@)
}

/// The schema of an object without parameters.
fn empty_schema() -> (r: Json)
    ensures
        empty_schema_is(r),
{
    proof {
        reveal_strlit("properties");
        reveal_strlit("type");
        reveal_strlit("object");
    }
    let mut es: Vec<(String, Json)> = Vec::new();
    es.push(entry("properties", Json::Object(Vec::new())));
    es.push(entry("type", Json::Str(String::from_str("object"))));
    proof {
        let g = es@;
        assert("properties"@[0] == 'p' && "type"@[0] == 't');
        lemma_entry_at(g, 0, "properties"@);
        lemma_entry_at(g, 1, "type"@);
        assert(keys_of(Json::Object(es)) =~= seq!["properties"@, "type"@]);
        assert(keys_of(g[0].1) =~= Seq::<Seq<char>>::empty());
    }
    Json::Object(es)
}

impl ToolKind {
    /// What the provider is told the tool does.
    pub fn description(self, backend: LightComputeBackendKind) -> (r: &'static str)
        ensures
            r@ == tool_description(self, backend),
    {
        match self {
            ToolKind::Identity => "Signals that the task is complete and returns the final answer.",
            ToolKind::FollowUp => "Records the clarifying question and missing-information rationale when the request is underspecified or ambiguous.",
            ToolKind::SearchStack => "Searches only the user's local HStack world for matching tickets, notes, habits, tasks, or events. Not for general web or world knowledge.",
            ToolKind::ScratchThought => "Saves a technical thought or intermediate result to the agent's working memory.",
            ToolKind::WebSearch => "Runs external web search with the configured provider (Exa by default) for public web facts, docs, and websites. Not for local HStack content.",
            ToolKind::ManageApp => "Opens, closes, focuses, pins, unpins, or scrolls workspace apps through the dock control surface.",
            ToolKind::InspectApp => "Inspects the current visible viewport and lifecycle state of a workspace app.",
            ToolKind::EditorEdit => "Edits the open editor buffer or an explicit virtual file path by replacing a row span through the secured virtual filesystem backend.",
            ToolKind::Microbash => "Runs constrained microbash commands against the configured sandboxed workspace and updates file tree, editor, search, and job apps.",
            ToolKind::FilesystemPatch => "Applies a structured row-span edit to a sandboxed file and updates the editor and file tree apps.",
            ToolKind::ScratchpadSearch => "Searches the scratchpad document like a bounded ctrl+F and returns matching lines.",
            ToolKind::ExecutionRequest => "Runs, polls, collects, or cancels constrained execution requests without exposing any host-shell execution path. Public allowlist currently supports only internal light_compute execution.",
            ToolKind::ScratchpadEdit => "Edits the scratchpad document by appending or replacing a row span with a replacement text block.",
            ToolKind::CreateTicket => "Create a new ticket proposal in the user's stack.",
            ToolKind::DeleteTicket => "Delete a ticket proposal from the user's stack given its ID string.",
            ToolKind::DeleteAllTickets => "Delete all ticket proposals from the projected stack.",
            ToolKind::EditTicket => "Edit an existing ticket proposal in the user's stack.",
            ToolKind::AddCommute => "Register a recurring commute proposal for the user.",
            ToolKind::GetDirections => "Create a directions commute proposal between two places.",
            ToolKind::RemoveCommute => "Remove a commute proposal by its ticket ID.",
            ToolKind::StartLiveDirections => "Start a live directions commute proposal with a deadline.",
            ToolKind::CreateCountdown => "Create a countdown ticket proposal with a live timer.",
            ToolKind::LightCompute => backend.description(),
        }
    }

    /// The schema of the tool's parameters; nothing for the ticket tools,
    /// whose schemas come with the ticket model.
    pub fn parameters(self) -> (r: Option<Json>)
        ensures
            match tool_schema(self) {
                Some(t) => r matches Some(j) && schema_is(j, t.0, t.1),
                None => r is None,
            },
    {
        match param_specs(self) {
            Some((params, required)) => Some(schema_json(&params, &required)),
            None => None,
        }
    }
}

/// `s` is what the provider is told of tool `k`: its name, its
/// description, and its parameters' schema, which for a ticket tool is
/// `ticket_schema` (an object without parameters when there is none).
pub open spec fn spec_of(s: ToolSpec, k: ToolKind, backend: LightComputeBackendKind, ticket_schema: Option<Json>) -> bool {
    &&& s.name@ == tool_names()[tool_index(k)]
    &&& s.description@ == tool_description(k, backend)
    &&& match tool_schema(k) {
        Some(t) => schema_is(s.parameters, t.0, t.1),
        None => match ticket_schema {
            Some(j) => s.parameters == j,
            None => empty_schema_is(s.parameters),
        },
    }
}

/// What the provider is told of tool `k`.
pub fn tool_spec(k: ToolKind, backend: LightComputeBackendKind, ticket_schema: Option<Json>) -> (r: ToolSpec)
    ensures
        spec_of(r, k, backend, ticket_schema),
{
    let parameters = match k.parameters() {
        Some(j) => j,
        None => match ticket_schema {
            Some(j) => j,
            None => empty_schema(),
        },
    };
    ToolSpec {
        name: String::from_str(k.name()),
        description: String::from_str(k.description(backend)),
        parameters,
    }
}

/// The tool list of a request: what the provider is told of each of
/// `tools`, in order; `ticket_schemas` holds, at the same positions, the
/// schemas of the ticket tools among them.
pub fn build_tool_schemas(
    tools: &Vec<ToolKind>,
    backend: LightComputeBackendKind,
    ticket_schemas: Vec<Option<Json>>,
) -> (r: Vec<ToolSpec>)
    requires
        ticket_schemas@.len() == tools@.len(),
    ensures
        r@.len() == tools@.len(),
        forall|i: int| 0 <= i < tools@.len() ==> spec_of(#[trigger] r@[i], tools@[i], backend, ticket_schemas@[i]),
{
    let ghost all = ticket_schemas@;
    let mut rest = ticket_schemas;
    let mut out: Vec<ToolSpec> = Vec::new();
    let mut i: usize = 0;
    while i < tools.len()
        invariant
            i <= tools@.len(),
            all.len() == tools@.len(),
            rest@ == all.subrange(i as int, all.len() as int),
            out@.len() == i,
            forall|k: int| 0 <= k < i ==> spec_of(#[trigger] out@[k], tools@[k], backend, all[k]),
        decreases tools@.len() - i,
    {
        let schema = rest.remove(0);
        out.push(tool_spec(tools[i], backend, schema));
        i = i + 1;
        assert(rest@ =~= all.subrange(i as int, all.len() as int));
    }
    out
}

} // verus!
