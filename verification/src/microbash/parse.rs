//! Parsing microbash words into one command.

use vstd::prelude::*;
use crate::microbash::lexer::{
    error_of, is_error, parse_u64, tokenize, u64_of, words_of, MicrobashError, MicrobashErrorKind,
};
use crate::text::{push_str, str_eq, views};

verus! {

/// How `write` treats an existing file.
#[derive(Debug, Clone, Copy, PartialEq, Eq, Structural)]
pub enum WriteMode {
    CreateOnly,
    Truncate,
    Replace,
    ReplaceIfTokenMatches,
}

/// One microbash command.
#[derive(Debug, Clone, PartialEq, Eq)]
pub enum Command {
    Ls { path: Option<String>, limit: Option<u64> },
    Cat { path: String, offset: u64, limit: u64 },
    Mkdir { path: String, recursive: bool },
    Mv { from: String, to: String, overwrite: bool },
    Rm { path: String, recursive: bool },
    Write { path: String, content: String, mode: WriteMode, expected_conflict_token: Option<String> },
    Grep { query: String, root: String, recursive: bool, limit: u64 },
}

/// A parsed command line.
#[derive(Debug, Clone, PartialEq, Eq)]
pub struct CommandLine {
    pub command: Command,
}

/// A spec-level error: its kind and message.
pub type ErrSpec = (MicrobashErrorKind, Seq<char>);

/// Whether a word looks like an option.
pub open spec fn dashed(a: Seq<char>) -> bool {
    a.len() > 0 && a[0] == '-'
}

/// The refusal of an option that a command does not support: `prefix`
/// names the command.
pub open spec fn unsupported_option(prefix: Seq<char>, a: Seq<char>) -> ErrSpec {
    (MicrobashErrorKind::InvalidOption, prefix + a + "'"@)
}

/// The numeric value that follows option `opt` at position `i`.
pub open spec fn numeric_arg(args: Seq<Seq<char>>, i: int, opt: Seq<char>) -> Result<int, ErrSpec> {
    if i + 1 >= args.len() {
        Err((MicrobashErrorKind::MissingArgument, opt + " requires a numeric value"@))
    } else {
        match u64_of(args[i + 1]) {
            Some(n) => Ok(n),
            None => Err(
                (MicrobashErrorKind::InvalidOption, opt + " requires a numeric value, got '"@ + args[i + 1] + "'"@),
            ),
        }
    }
}

/// `ls [--limit N] [PATH]`, read from position `i` on.
pub open spec fn ls_from(args: Seq<Seq<char>>, i: int, path: Option<Seq<char>>, limit: Option<int>) -> Result<(Option<Seq<char>>, Option<int>), ErrSpec>
    decreases args.len() - i,
{
    if i < 0 || i >= args.len() {
        Ok((path, limit))
    } else {
        let a = args[i];
        if a == "--limit"@ {
            match numeric_arg(args, i, "--limit"@) {
                Err(e) => Err(e),
                Ok(n) => ls_from(args, i + 2, path, Some(n)),
            }
        } else if dashed(a) {
            Err(unsupported_option("ls does not support '"@, a))
        } else if path is Some {
            Err((MicrobashErrorKind::Parse, "ls accepts at most one path"@))
        } else {
            ls_from(args, i + 1, Some(a), limit)
        }
    }
}

/// `cat PATH [--offset N] [--limit N]`, read from position `i` on.
pub open spec fn cat_from(args: Seq<Seq<char>>, i: int, path: Option<Seq<char>>, offset: int, limit: int) -> Result<(Option<Seq<char>>, int, int), ErrSpec>
    decreases args.len() - i,
{
    if i < 0 || i >= args.len() {
        Ok((path, offset, limit))
    } else {
        let a = args[i];
        if a == "--offset"@ {
            match numeric_arg(args, i, "--offset"@) {
                Err(e) => Err(e),
                Ok(n) => cat_from(args, i + 2, path, n, limit),
            }
        } else if a == "--limit"@ {
            match numeric_arg(args, i, "--limit"@) {
                Err(e) => Err(e),
                Ok(n) => cat_from(args, i + 2, path, offset, n),
            }
        } else if dashed(a) {
            Err(unsupported_option("cat does not support '"@, a))
        } else if path is Some {
            Err((MicrobashErrorKind::Parse, "cat accepts exactly one path"@))
        } else {
            cat_from(args, i + 1, Some(a), offset, limit)
        }
    }
}

/// A command that takes one path and one flag (`mkdir -p`, `rm -r`), read
/// from position `i` on.
pub open spec fn flag_path_from(
    args: Seq<Seq<char>>,
    i: int,
    names: (Seq<char>, Seq<char>, Seq<char>, Seq<char>),
    flag: bool,
    path: Option<Seq<char>>,
) -> Result<(bool, Option<Seq<char>>), ErrSpec>
    decreases args.len() - i,
{
    let (short, long, unsupported, one_path) = names;
    if i < 0 || i >= args.len() {
        Ok((flag, path))
    } else {
        let a = args[i];
        if a == short || a == long {
            flag_path_from(args, i + 1, names, true, path)
        } else if dashed(a) {
            Err(unsupported_option(unsupported, a))
        } else if path is Some {
            Err((MicrobashErrorKind::Parse, one_path))
        } else {
            flag_path_from(args, i + 1, names, flag, Some(a))
        }
    }
}

/// The words `mkdir` reads its flag and messages by.
pub open spec fn mkdir_names() -> (Seq<char>, Seq<char>, Seq<char>, Seq<char>) {
    ("-p"@, "--parents"@, "mkdir does not support '"@, "mkdir accepts exactly one path"@)
}

/// The words `rm` reads its flag and messages by.
pub open spec fn rm_names() -> (Seq<char>, Seq<char>, Seq<char>, Seq<char>) {
    ("-r"@, "--recursive"@, "rm does not support '"@, "rm accepts exactly one path"@)
}

/// `mv [--overwrite] FROM TO`, read from position `i` on.
pub open spec fn mv_from(args: Seq<Seq<char>>, i: int, overwrite: bool, positional: Seq<Seq<char>>) -> Result<(bool, Seq<Seq<char>>), ErrSpec>
    decreases args.len() - i,
{
    if i < 0 || i >= args.len() {
        Ok((overwrite, positional))
    } else {
        let a = args[i];
        if a == "--overwrite"@ {
            mv_from(args, i + 1, true, positional)
        } else if dashed(a) {
            Err(unsupported_option("mv does not support '"@, a))
        } else {
            mv_from(args, i + 1, overwrite, positional.push(a))
        }
    }
}

/// The write mode a word names.
pub open spec fn write_mode_named(v: Seq<char>) -> Option<WriteMode> {
    if v == "create_only"@ {
        Some(WriteMode::CreateOnly)
    } else if v == "truncate"@ {
        Some(WriteMode::Truncate)
    } else if v == "replace"@ {
        Some(WriteMode::Replace)
    } else if v == "replace_if_token_matches"@ {
        Some(WriteMode::ReplaceIfTokenMatches)
    } else {
        None
    }
}

/// `write PATH CONTENT [--mode M] [--expected-token T]`, read from
/// position `i` on.
pub open spec fn write_from(
    args: Seq<Seq<char>>,
    i: int,
    mode: WriteMode,
    token: Option<Seq<char>>,
    positional: Seq<Seq<char>>,
) -> Result<(WriteMode, Option<Seq<char>>, Seq<Seq<char>>), ErrSpec>
    decreases args.len() - i,
{
    if i < 0 || i >= args.len() {
        Ok((mode, token, positional))
    } else {
        let a = args[i];
        if a == "--mode"@ {
            if i + 1 >= args.len() {
                Err((MicrobashErrorKind::MissingArgument, "--mode requires a value"@))
            } else {
                match write_mode_named(args[i + 1]) {
                    None => Err(
                        (MicrobashErrorKind::InvalidOption, "unsupported write mode '"@ + args[i + 1] + "'"@),
                    ),
                    Some(m) => write_from(args, i + 2, m, token, positional),
                }
            }
        } else if a == "--expected-token"@ {
            if i + 1 >= args.len() {
                Err((MicrobashErrorKind::MissingArgument, "--expected-token requires a value"@))
            } else {
                write_from(args, i + 2, mode, Some(args[i + 1]), positional)
            }
        } else if dashed(a) {
            Err(unsupported_option("write does not support '"@, a))
        } else {
            write_from(args, i + 1, mode, token, positional.push(a))
        }
    }
}

/// `grep [-r] [--limit N] QUERY ROOT`, read from position `i` on.
pub open spec fn grep_from(args: Seq<Seq<char>>, i: int, recursive: bool, limit: int, positional: Seq<Seq<char>>) -> Result<(bool, int, Seq<Seq<char>>), ErrSpec>
    decreases args.len() - i,
{
    if i < 0 || i >= args.len() {
        Ok((recursive, limit, positional))
    } else {
        let a = args[i];
        if a == "-r"@ || a == "--recursive"@ {
            grep_from(args, i + 1, true, limit, positional)
        } else if a == "--limit"@ {
            match numeric_arg(args, i, "--limit"@) {
                Err(e) => Err(e),
                Ok(n) => grep_from(args, i + 2, recursive, n, positional),
            }
        } else if dashed(a) {
            Err(unsupported_option("grep does not support '"@, a))
        } else {
            grep_from(args, i + 1, recursive, limit, positional.push(a))
        }
    }
}

/// `c` is the command that the words `w` (the command's name first)
/// stand for, or `e` is why they stand for none.
pub open spec fn parsed_as(w: Seq<Seq<char>>, r: Result<CommandLine, MicrobashError>) -> bool {
    if w.len() == 0 {
        r matches Err(e) && is_error(e, (MicrobashErrorKind::Parse, "command line is empty"@))
    } else {
        let name = w[0];
        let args = w.drop_first();
        if name == "ls"@ {
            match ls_from(args, 0, None, None) {
                Err(e) => r matches Err(x) && is_error(x, e),
                Ok((p, l)) => r matches Ok(c) && c.command matches Command::Ls { path, limit }
                    && opt_view(path) == p && opt_int(limit) == l,
            }
        } else if name == "cat"@ {
            match cat_from(args, 0, None, 0, 16384) {
                Err(e) => r matches Err(x) && is_error(x, e),
                Ok((None, _, _)) => r matches Err(x) && is_error(
                    x,
                    (MicrobashErrorKind::MissingArgument, "cat requires a path"@),
                ),
                Ok((Some(p), o, l)) => r matches Ok(c) && c.command matches Command::Cat { path, offset, limit }
                    && path@ == p && offset == o && limit == l,
            }
        } else if name == "mkdir"@ {
            match flag_path_from(args, 0, mkdir_names(), false, None) {
                Err(e) => r matches Err(x) && is_error(x, e),
                Ok((_, None)) => r matches Err(x) && is_error(
                    x,
                    (MicrobashErrorKind::MissingArgument, "mkdir requires a path"@),
                ),
                Ok((f, Some(p))) => r matches Ok(c) && c.command matches Command::Mkdir { path, recursive }
                    && path@ == p && recursive == f,
            }
        } else if name == "mv"@ {
            match mv_from(args, 0, false, Seq::empty()) {
                Err(e) => r matches Err(x) && is_error(x, e),
                Ok((o, pos)) => if pos.len() != 2 {
                    r matches Err(x) && is_error(
                        x,
                        (MicrobashErrorKind::MissingArgument, "mv requires a source path and destination path"@),
                    )
                } else {
                    r matches Ok(c) && c.command matches Command::Mv { from, to, overwrite } && from@ == pos[0]
                        && to@ == pos[1] && overwrite == o
                },
            }
        } else if name == "rm"@ {
            match flag_path_from(args, 0, rm_names(), false, None) {
                Err(e) => r matches Err(x) && is_error(x, e),
                Ok((_, None)) => r matches Err(x) && is_error(
                    x,
                    (MicrobashErrorKind::MissingArgument, "rm requires a path"@),
                ),
                Ok((f, Some(p))) => r matches Ok(c) && c.command matches Command::Rm { path, recursive }
                    && path@ == p && recursive == f,
            }
        } else if name == "write"@ {
            match write_from(args, 0, WriteMode::CreateOnly, None, Seq::empty()) {
                Err(e) => r matches Err(x) && is_error(x, e),
                Ok((m, t, pos)) => if pos.len() != 2 {
                    r matches Err(x) && is_error(
                        x,
                        (MicrobashErrorKind::MissingArgument, "write requires a path and content string"@),
                    )
                } else {
                    r matches Ok(c) && c.command matches Command::Write { path, content, mode, expected_conflict_token }
                        && path@ == pos[0] && content@ == pos[1] && mode == m && opt_view(expected_conflict_token) == t
                },
            }
        } else if name == "grep"@ {
            match grep_from(args, 0, false, 50, Seq::empty()) {
                Err(e) => r matches Err(x) && is_error(x, e),
                Ok((rec, l, pos)) => if pos.len() != 2 {
                    r matches Err(x) && is_error(
                        x,
                        (MicrobashErrorKind::MissingArgument, "grep requires a query string and root path"@),
                    )
                } else {
                    r matches Ok(c) && c.command matches Command::Grep { query, root, recursive, limit }
                        && query@ == pos[0] && root@ == pos[1] && recursive == rec && limit == l
                },
            }
        } else {
            r matches Err(x) && is_error(x, (MicrobashErrorKind::UnsupportedCommand, name))
        }
    }
}

/// `prefix`, `word` and a closing quote, as an error of `kind`.
fn quoted_error(kind: MicrobashErrorKind, prefix: &str, word: &str) -> (r: MicrobashError)
    ensures
        r.kind == kind,
        r.message@ == prefix@ + word@ + "'"@,
{
    let mut m: Vec<char> = Vec::new();
    push_str(&mut m, prefix);
    push_str(&mut m, word);
    push_str(&mut m, "'");
    error_of(kind, m)
}

/// An error of `kind` with the text `msg`.
fn plain_error(kind: MicrobashErrorKind, msg: &str) -> (r: MicrobashError)
    ensures
        r.kind == kind,
        r.message@ == msg@,
{
    let mut m: Vec<char> = Vec::new();
    push_str(&mut m, msg);
    error_of(kind, m)
}

/// Whether a word starts with `-`.
fn is_dashed(a: &str) -> (r: bool)
    ensures
        r == dashed(a@),
{
    let cs = crate::text::chars_of(a);
    cs.len() > 0 && cs[0] == '-'
}

/// The numeric value that follows option `opt` at position `i`.
fn numeric_value(args: &Vec<String>, i: usize, opt: &str) -> (r: Result<u64, MicrobashError>)
    requires
        i < args@.len(),
    ensures
        match numeric_arg(views(args@), i as int, opt@) {
            Ok(n) => r matches Ok(v) && v as int == n,
            Err(e) => r matches Err(x) && is_error(x, e),
        },
{
    if i >= args.len() - 1 {
        let mut m: Vec<char> = Vec::new();
        push_str(&mut m, opt);
        push_str(&mut m, " requires a numeric value");
        return Err(error_of(MicrobashErrorKind::MissingArgument, m));
    }
    match parse_u64(args[i + 1].as_str()) {
        Some(n) => Ok(n),
        None => {
            let mut m: Vec<char> = Vec::new();
            push_str(&mut m, opt);
            push_str(&mut m, " requires a numeric value, got '");
            push_str(&mut m, args[i + 1].as_str());
            push_str(&mut m, "'");
            Err(error_of(MicrobashErrorKind::InvalidOption, m))
        },
    }
}

/// The view of an optional text.
pub open spec fn opt_view(o: Option<String>) -> Option<Seq<char>> {
    match o {
        Some(s) => Some(s@),
        None => None,
    }
}

/// The view of an optional number.
pub open spec fn opt_int(o: Option<u64>) -> Option<int> {
    match o {
        Some(n) => Some(n as int),
        None => None,
    }
}

/// Parses the arguments of `ls`.
fn parse_ls(args: &Vec<String>) -> (r: Result<Command, MicrobashError>)
    ensures
        match ls_from(views(args@), 0, None, None) {
            Err(e) => r matches Err(x) && is_error(x, e),
            Ok((p, l)) => r matches Ok(Command::Ls { path, limit }) && opt_view(path) == p && opt_int(limit) == l,
        },
{
    let ghost w = views(args@);
    let mut path: Option<String> = None;
    let mut limit: Option<u64> = None;
    let mut i: usize = 0;
    while i < args.len()
        invariant
            w == views(args@),
            i <= args@.len() + 1,
            ls_from(w, 0, None, None) == ls_from(w, i as int, opt_view(path), opt_int(limit)),
        decreases args@.len() + 1 - i,
    {
        let a = args[i].as_str();
        assert(w[i as int] == a@);
        if str_eq(a, "--limit") {
            match numeric_value(args, i, "--limit") {
                Ok(n) => {
                    assert(ls_from(w, i as int, opt_view(path), opt_int(limit)) == ls_from(w, i + 2, opt_view(path), Some(n as int)));
                    limit = Some(n);
                },
                Err(e) => return Err(e),
            }
            i = i + 2;
        } else if is_dashed(a) {
            return Err(quoted_error(MicrobashErrorKind::InvalidOption, "ls does not support '", a));
        } else if path.is_some() {
            return Err(plain_error(MicrobashErrorKind::Parse, "ls accepts at most one path"));
        } else {
            assert(ls_from(w, i as int, opt_view(path), opt_int(limit)) == ls_from(w, i + 1, Some(a@), opt_int(limit)));
            path = Some(args[i].clone());
            i = i + 1;
        }
    }
    Ok(Command::Ls { path, limit })
}

/// Parses the arguments of `cat`.
fn parse_cat(args: &Vec<String>) -> (r: Result<(Option<String>, u64, u64), MicrobashError>)
    ensures
        match cat_from(views(args@), 0, None, 0, 16384) {
            Err(e) => r matches Err(x) && is_error(x, e),
            Ok((p, o, l)) => r matches Ok((path, offset, limit)) && opt_view(path) == p && offset == o && limit == l,
        },
{
    let ghost w = views(args@);
    let mut path: Option<String> = None;
    let mut offset: u64 = 0;
    let mut limit: u64 = 16384;
    let mut i: usize = 0;
    while i < args.len()
        invariant
            w == views(args@),
            i <= args@.len() + 1,
            cat_from(w, 0, None, 0, 16384) == cat_from(w, i as int, opt_view(path), offset as int, limit as int),
        decreases args@.len() + 1 - i,
    {
        let a = args[i].as_str();
        assert(w[i as int] == a@);
        if str_eq(a, "--offset") {
            match numeric_value(args, i, "--offset") {
                Ok(n) => {
                    offset = n;
                },
                Err(e) => return Err(e),
            }
            i = i + 2;
        } else if str_eq(a, "--limit") {
            match numeric_value(args, i, "--limit") {
                Ok(n) => {
                    limit = n;
                },
                Err(e) => return Err(e),
            }
            i = i + 2;
        } else if is_dashed(a) {
            return Err(quoted_error(MicrobashErrorKind::InvalidOption, "cat does not support '", a));
        } else if path.is_some() {
            return Err(plain_error(MicrobashErrorKind::Parse, "cat accepts exactly one path"));
        } else {
            path = Some(args[i].clone());
            i = i + 1;
        }
    }
    Ok((path, offset, limit))
}

/// Parses the arguments of `mkdir` or `rm`: one flag and one path.
fn parse_flag_path(
    args: &Vec<String>,
    short: &str,
    long: &str,
    unsupported: &str,
    one_path: &str,
) -> (r: Result<(bool, Option<String>), MicrobashError>)
    ensures
        match flag_path_from(views(args@), 0, (short@, long@, unsupported@, one_path@), false, None) {
            Err(e) => r matches Err(x) && is_error(x, e),
            Ok((f, p)) => r matches Ok((flag, path)) && flag == f && opt_view(path) == p,
        },
{
    let ghost w = views(args@);
    let ghost names = (short@, long@, unsupported@, one_path@);
    let mut flag = false;
    let mut path: Option<String> = None;
    let mut i: usize = 0;
    while i < args.len()
        invariant
            w == views(args@),
            names == (short@, long@, unsupported@, one_path@),
            i <= args@.len(),
            flag_path_from(w, 0, names, false, None) == flag_path_from(w, i as int, names, flag, opt_view(path)),
        decreases args@.len() - i,
    {
        let a = args[i].as_str();
        assert(w[i as int] == a@);
        if str_eq(a, short) || str_eq(a, long) {
            flag = true;
        } else if is_dashed(a) {
            return Err(quoted_error(MicrobashErrorKind::InvalidOption, unsupported, a));
        } else if path.is_some() {
            return Err(plain_error(MicrobashErrorKind::Parse, one_path));
        } else {
            path = Some(args[i].clone());
        }
        i = i + 1;
    }
    Ok((flag, path))
}

/// Parses the arguments of `mv`.
fn parse_mv(args: &Vec<String>) -> (r: Result<(bool, Vec<String>), MicrobashError>)
    ensures
        match mv_from(views(args@), 0, false, Seq::empty()) {
            Err(e) => r matches Err(x) && is_error(x, e),
            Ok((o, pos)) => r matches Ok((overwrite, positional)) && overwrite == o && views(positional@) == pos,
        },
{
    let ghost w = views(args@);
    let mut overwrite = false;
    let mut positional: Vec<String> = Vec::new();
    let mut i: usize = 0;
    assert(views(positional@) =~= Seq::<Seq<char>>::empty());
    while i < args.len()
        invariant
            w == views(args@),
            i <= args@.len(),
            mv_from(w, 0, false, Seq::empty()) == mv_from(w, i as int, overwrite, views(positional@)),
        decreases args@.len() - i,
    {
        let a = args[i].as_str();
        assert(w[i as int] == a@);
        if str_eq(a, "--overwrite") {
            overwrite = true;
        } else if is_dashed(a) {
            return Err(quoted_error(MicrobashErrorKind::InvalidOption, "mv does not support '", a));
        } else {
            let ghost before = views(positional@);
            positional.push(args[i].clone());
            assert(views(positional@) =~= before.push(a@));
        }
        i = i + 1;
    }
    Ok((overwrite, positional))
}

/// The write mode a word names.
fn write_mode_by_name(v: &str) -> (r: Option<WriteMode>)
    ensures
        r == write_mode_named(v@),
{
    if str_eq(v, "create_only") {
        Some(WriteMode::CreateOnly)
    } else if str_eq(v, "truncate") {
        Some(WriteMode::Truncate)
    } else if str_eq(v, "replace") {
        Some(WriteMode::Replace)
    } else if str_eq(v, "replace_if_token_matches") {
        Some(WriteMode::ReplaceIfTokenMatches)
    } else {
        None
    }
}

/// Parses the arguments of `write`.
fn parse_write(args: &Vec<String>) -> (r: Result<(WriteMode, Option<String>, Vec<String>), MicrobashError>)
    ensures
        match write_from(views(args@), 0, WriteMode::CreateOnly, None, Seq::empty()) {
            Err(e) => r matches Err(x) && is_error(x, e),
            Ok((m, t, pos)) => r matches Ok((mode, token, positional)) && mode == m && opt_view(token) == t
                && views(positional@) == pos,
        },
{
    let ghost w = views(args@);
    let mut mode = WriteMode::CreateOnly;
    let mut token: Option<String> = None;
    let mut positional: Vec<String> = Vec::new();
    let mut i: usize = 0;
    assert(views(positional@) =~= Seq::<Seq<char>>::empty());
    while i < args.len()
        invariant
            w == views(args@),
            i <= args@.len() + 1,
            write_from(w, 0, WriteMode::CreateOnly, None, Seq::empty()) == write_from(
                w,
                i as int,
                mode,
                opt_view(token),
                views(positional@),
            ),
        decreases args@.len() + 1 - i,
    {
        let a = args[i].as_str();
        assert(w[i as int] == a@);
        if str_eq(a, "--mode") {
            if i >= args.len() - 1 {
                return Err(plain_error(MicrobashErrorKind::MissingArgument, "--mode requires a value"));
            }
            let v = args[i + 1].as_str();
            assert(w[i + 1] == v@);
            match write_mode_by_name(v) {
                Some(m) => {
                    mode = m;
                },
                None => return Err(quoted_error(MicrobashErrorKind::InvalidOption, "unsupported write mode '", v)),
            }
            i = i + 2;
        } else if str_eq(a, "--expected-token") {
            if i >= args.len() - 1 {
                return Err(plain_error(MicrobashErrorKind::MissingArgument, "--expected-token requires a value"));
            }
            assert(w[i + 1] == args@[i + 1]@);
            token = Some(args[i + 1].clone());
            i = i + 2;
        } else if is_dashed(a) {
            return Err(quoted_error(MicrobashErrorKind::InvalidOption, "write does not support '", a));
        } else {
            let ghost before = views(positional@);
            positional.push(args[i].clone());
            assert(views(positional@) =~= before.push(a@));
            i = i + 1;
        }
    }
    Ok((mode, token, positional))
}

/// Parses the arguments of `grep`.
fn parse_grep(args: &Vec<String>) -> (r: Result<(bool, u64, Vec<String>), MicrobashError>)
    ensures
        match grep_from(views(args@), 0, false, 50, Seq::empty()) {
            Err(e) => r matches Err(x) && is_error(x, e),
            Ok((rec, l, pos)) => r matches Ok((recursive, limit, positional)) && recursive == rec && limit == l
                && views(positional@) == pos,
        },
{
    let ghost w = views(args@);
    let mut recursive = false;
    let mut limit: u64 = 50;
    let mut positional: Vec<String> = Vec::new();
    let mut i: usize = 0;
    assert(views(positional@) =~= Seq::<Seq<char>>::empty());
    while i < args.len()
        invariant
            w == views(args@),
            i <= args@.len() + 1,
            grep_from(w, 0, false, 50, Seq::empty()) == grep_from(
                w,
                i as int,
                recursive,
                limit as int,
                views(positional@),
            ),
        decreases args@.len() + 1 - i,
    {
        let a = args[i].as_str();
        assert(w[i as int] == a@);
        if str_eq(a, "-r") || str_eq(a, "--recursive") {
            recursive = true;
            i = i + 1;
        } else if str_eq(a, "--limit") {
            match numeric_value(args, i, "--limit") {
                Ok(n) => {
                    limit = n;
                },
                Err(e) => return Err(e),
            }
            i = i + 2;
        } else if is_dashed(a) {
            return Err(quoted_error(MicrobashErrorKind::InvalidOption, "grep does not support '", a));
        } else {
            let ghost before = views(positional@);
            positional.push(args[i].clone());
            assert(views(positional@) =~= before.push(a@));
            i = i + 1;
        }
    }
    Ok((recursive, limit, positional))
}

/// The command the words `w` stand for.
fn parse_words(w: &Vec<String>) -> (r: Result<CommandLine, MicrobashError>)
    ensures
        parsed_as(views(w@), r),
{
    if w.len() == 0 {
        return Err(plain_error(MicrobashErrorKind::Parse, "command line is empty"));
    }
    let mut args: Vec<String> = Vec::new();
    let mut i: usize = 1;
    while i < w.len()
        invariant
            1 <= i <= w@.len(),
            views(args@) == views(w@).drop_first().take(i - 1),
        decreases w@.len() - i,
    {
        let ghost before = views(args@);
        args.push(w[i].clone());
        assert(views(args@) =~= before.push(w@[i as int]@));
        assert(views(w@).drop_first().take(i as int) =~= views(w@).drop_first().take(i - 1).push(
            views(w@)[i as int],
        ));
        i = i + 1;
    }
    assert(views(w@).drop_first().take(w@.len() - 1) =~= views(w@).drop_first());
    let name = w[0].as_str();
    assert(views(w@)[0] == name@);
    let command = if str_eq(name, "ls") {
        parse_ls(&args)?
    } else if str_eq(name, "cat") {
        let (path, offset, limit) = parse_cat(&args)?;
        match path {
            Some(path) => Command::Cat { path, offset, limit },
            None => return Err(plain_error(MicrobashErrorKind::MissingArgument, "cat requires a path")),
        }
    } else if str_eq(name, "mkdir") {
        let (recursive, path) = parse_flag_path(&args, "-p", "--parents", "mkdir does not support '", "mkdir accepts exactly one path")?;
        match path {
            Some(path) => Command::Mkdir { path, recursive },
            None => return Err(plain_error(MicrobashErrorKind::MissingArgument, "mkdir requires a path")),
        }
    } else if str_eq(name, "mv") {
        let (overwrite, positional) = parse_mv(&args)?;
        if positional.len() != 2 {
            return Err(plain_error(MicrobashErrorKind::MissingArgument, "mv requires a source path and destination path"));
        }
        Command::Mv { from: positional[0].clone(), to: positional[1].clone(), overwrite }
    } else if str_eq(name, "rm") {
        let (recursive, path) = parse_flag_path(&args, "-r", "--recursive", "rm does not support '", "rm accepts exactly one path")?;
        match path {
            Some(path) => Command::Rm { path, recursive },
            None => return Err(plain_error(MicrobashErrorKind::MissingArgument, "rm requires a path")),
        }
    } else if str_eq(name, "write") {
        let (mode, expected_conflict_token, positional) = parse_write(&args)?;
        if positional.len() != 2 {
            return Err(plain_error(MicrobashErrorKind::MissingArgument, "write requires a path and content string"));
        }
        Command::Write {
            path: positional[0].clone(),
            content: positional[1].clone(),
            mode,
            expected_conflict_token,
        }
    } else if str_eq(name, "grep") {
        let (recursive, limit, positional) = parse_grep(&args)?;
        if positional.len() != 2 {
            return Err(plain_error(MicrobashErrorKind::MissingArgument, "grep requires a query string and root path"));
        }
        Command::Grep { query: positional[0].clone(), root: positional[1].clone(), recursive, limit }
    } else {
        let mut m: Vec<char> = Vec::new();
        push_str(&mut m, name);
        return Err(error_of(MicrobashErrorKind::UnsupportedCommand, m));
    };
    Ok(CommandLine { command })
}

/// Parses a command line into one command.
pub fn parse_command_line(input: &str) -> (r: Result<CommandLine, MicrobashError>)
    ensures
        match words_of(input@) {
            Err(e) => r matches Err(x) && is_error(x, e),
            Ok(w) => parsed_as(w, r),
        },
{
    let words = tokenize(input)?;
    parse_words(&words)
}

/// The operands of a command line: the words after the command's name
/// that are not options.
pub open spec fn operands(w: Seq<Seq<char>>) -> Seq<Seq<char>> {
    w.drop_first().filter(|a: Seq<char>| !dashed(a))
}

/// Reading `mv`'s arguments from position `i` on adds the operands from
/// there to those already read, and turns overwriting on exactly when an
/// `--overwrite` is among them.
proof fn lemma_mv_operands(args: Seq<Seq<char>>, i: int, o: bool, pos: Seq<Seq<char>>)
    requires
        0 <= i <= args.len(),
    ensures
        mv_from(args, i, o, pos) matches Ok((o2, p2)) ==> p2 == pos + args.skip(i).filter(|a: Seq<char>| !dashed(a))
            && o2 == (o || args.skip(i).contains("--overwrite"@)),
    decreases args.len() - i,
{
    let nd = |a: Seq<char>| !dashed(a);
    if i == args.len() {
        assert(args.skip(i) =~= Seq::<Seq<char>>::empty());
        assert(Seq::<Seq<char>>::empty().filter(nd) =~= Seq::<Seq<char>>::empty()) by {
            reveal(Seq::filter);
        }
        assert(pos + Seq::<Seq<char>>::empty() =~= pos);
    } else {
        let a = args[i];
        let rest = args.skip(i + 1);
        assert(args.skip(i) =~= seq![a] + rest);
        rest.lemma_filter_prepend(a, nd);
        reveal_strlit("--overwrite");
        if a == "--overwrite"@ {
            lemma_mv_operands(args, i + 1, true, pos);
            assert(!nd(a));
            assert((seq![a] + rest).contains("--overwrite"@)) by {
                assert((seq![a] + rest)[0] == a);
            }
            assert(Seq::<Seq<char>>::empty() + rest.filter(nd) =~= rest.filter(nd));
        } else if dashed(a) {
        } else {
            lemma_mv_operands(args, i + 1, o, pos.push(a));
            assert(pos.push(a) + rest.filter(nd) =~= pos + (seq![a] + rest.filter(nd)));
            assert((seq![a] + rest).contains("--overwrite"@) == rest.contains("--overwrite"@)) by {
                if (seq![a] + rest).contains("--overwrite"@) {
                    let k = choose|k: int| 0 <= k < (seq![a] + rest).len() && (seq![a] + rest)[k] == "--overwrite"@;
                    assert(k > 0);
                    assert(rest[k - 1] == "--overwrite"@);
                }
                if rest.contains("--overwrite"@) {
                    let k = choose|k: int| 0 <= k < rest.len() && rest[k] == "--overwrite"@;
                    assert((seq![a] + rest)[k + 1] == "--overwrite"@);
                }
            }
        }
    }
}

/// `mv` moves its first operand to its second: when a command line that
/// names `mv` parses, it has exactly two operands, the source is the
/// first and the destination the second, and it overwrites exactly when
/// `--overwrite` is given.
pub proof fn mv_moves_first_operand_to_second(w: Seq<Seq<char>>, r: Result<CommandLine, MicrobashError>)
    requires
        w.len() > 0,
        w[0] == "mv"@,
        parsed_as(w, r),
        r is Ok,
    ensures
        operands(w).len() == 2,
        r matches Ok(c) && c.command matches Command::Mv { from, to, overwrite } && from@ == operands(w)[0] && to@
            == operands(w)[1] && overwrite == w.drop_first().contains("--overwrite"@),
{
    reveal_strlit("mv");
    reveal_strlit("ls");
    reveal_strlit("cat");
    reveal_strlit("mkdir");
    assert("mv"@[0] != "ls"@[0]);
    assert("mv"@.len() != "cat"@.len() && "mv"@.len() != "mkdir"@.len());
    let args = w.drop_first();
    lemma_mv_operands(args, 0, false, Seq::empty());
    assert(args.skip(0) =~= args);
    assert(Seq::<Seq<char>>::empty() + args.filter(|a: Seq<char>| !dashed(a)) =~= operands(w));
}

/// `mv A B` with two plain paths moves `A` to `B` without overwriting.
pub proof fn mv_of_two_paths(a: Seq<char>, b: Seq<char>, r: Result<CommandLine, MicrobashError>)
    requires
        !dashed(a),
        !dashed(b),
        parsed_as(seq!["mv"@, a, b], r),
    ensures
        r matches Ok(c) && c.command matches Command::Mv { from, to, overwrite } && from@ == a && to@ == b && !overwrite,
{
    let w = seq!["mv"@, a, b];
    reveal_strlit("mv");
    reveal_strlit("ls");
    reveal_strlit("cat");
    reveal_strlit("mkdir");
    reveal_strlit("--overwrite");
    assert("mv"@[0] != "ls"@[0]);
    assert("mv"@.len() != "cat"@.len() && "mv"@.len() != "mkdir"@.len());
    let args = w.drop_first();
    assert(args =~= seq![a, b]);
    assert(a != "--overwrite"@ && b != "--overwrite"@);
    let e = Seq::<Seq<char>>::empty();
    assert(mv_from(args, 2, false, seq![a, b]) == Ok::<(bool, Seq<Seq<char>>), ErrSpec>((false, seq![a, b])));
    assert(e.push(a) =~= seq![a]);
    assert(seq![a].push(b) =~= seq![a, b]);
    assert(mv_from(args, 1, false, seq![a]) == mv_from(args, 2, false, seq![a, b]));
    assert(mv_from(args, 0, false, e) == mv_from(args, 1, false, seq![a]));
}

/// `write P C` with two plain words writes the content `C` to the path
/// `P`, creating the file and checking no token.
pub proof fn write_of_path_then_content(a: Seq<char>, b: Seq<char>, r: Result<CommandLine, MicrobashError>)
    requires
        !dashed(a),
        !dashed(b),
        parsed_as(seq!["write"@, a, b], r),
    ensures
        r matches Ok(c) && c.command matches Command::Write { path, content, mode, expected_conflict_token } && path@
            == a && content@ == b && mode == WriteMode::CreateOnly && expected_conflict_token is None,
{
    let w = seq!["write"@, a, b];
    reveal_strlit("write");
    reveal_strlit("mv");
    reveal_strlit("rm");
    reveal_strlit("ls");
    reveal_strlit("cat");
    reveal_strlit("mkdir");
    reveal_strlit("--mode");
    reveal_strlit("--expected-token");
    assert("write"@[0] != "mkdir"@[0]);
    assert("write"@.len() != "ls"@.len() && "write"@.len() != "cat"@.len() && "write"@.len() != "mv"@.len());
    assert("write"@.len() != "rm"@.len());
    let args = w.drop_first();
    assert(args =~= seq![a, b]);
    assert(a != "--mode"@ && b != "--mode"@ && a != "--expected-token"@ && b != "--expected-token"@);
    let e = Seq::<Seq<char>>::empty();
    let m = WriteMode::CreateOnly;
    assert(e.push(a) =~= seq![a]);
    assert(seq![a].push(b) =~= seq![a, b]);
    assert(write_from(args, 2, m, None, seq![a, b]) == Ok::<(WriteMode, Option<Seq<char>>, Seq<Seq<char>>), ErrSpec>((m, None, seq![a, b])));
    assert(write_from(args, 1, m, None, seq![a]) == write_from(args, 2, m, None, seq![a, b]));
    assert(write_from(args, 0, m, None, e) == write_from(args, 1, m, None, seq![a]));
}

/// `grep Q R` with two plain words searches for the query `Q` under the
/// root `R`, not recursively, with the default limit of fifty.
pub proof fn grep_of_query_then_root(a: Seq<char>, b: Seq<char>, r: Result<CommandLine, MicrobashError>)
    requires
        !dashed(a),
        !dashed(b),
        parsed_as(seq!["grep"@, a, b], r),
    ensures
        r matches Ok(c) && c.command matches Command::Grep { query, root, recursive, limit } && query@ == a && root@
            == b && !recursive && limit == 50,
{
    let w = seq!["grep"@, a, b];
    reveal_strlit("grep");
    reveal_strlit("write");
    reveal_strlit("mv");
    reveal_strlit("rm");
    reveal_strlit("ls");
    reveal_strlit("cat");
    reveal_strlit("mkdir");
    reveal_strlit("-r");
    reveal_strlit("--recursive");
    reveal_strlit("--limit");
    assert("grep"@.len() != "ls"@.len() && "grep"@.len() != "cat"@.len() && "grep"@.len() != "mv"@.len());
    assert("grep"@.len() != "rm"@.len() && "grep"@.len() != "mkdir"@.len() && "grep"@.len() != "write"@.len());
    let args = w.drop_first();
    assert(args =~= seq![a, b]);
    assert(a != "-r"@ && b != "-r"@ && a != "--recursive"@ && b != "--recursive"@);
    assert(a != "--limit"@ && b != "--limit"@);
    let e = Seq::<Seq<char>>::empty();
    assert(e.push(a) =~= seq![a]);
    assert(seq![a].push(b) =~= seq![a, b]);
    assert(grep_from(args, 2, false, 50, seq![a, b]) == Ok::<(bool, int, Seq<Seq<char>>), ErrSpec>((false, 50, seq![a, b])));
    assert(grep_from(args, 1, false, 50, seq![a]) == grep_from(args, 2, false, 50, seq![a, b]));
    assert(grep_from(args, 0, false, 50, e) == grep_from(args, 1, false, 50, seq![a]));
}

} // verus!
