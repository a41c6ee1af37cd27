//! Lowering a parsed command against the working directory into the
//! filesystem instructions it stands for.

use vstd::prelude::*;
use crate::microbash::lexer::{error_of, is_error, words_of, MicrobashError, MicrobashErrorKind};
use crate::microbash::parse::{parse_command_line, parsed_as, Command, CommandLine, WriteMode};
use crate::text::push_str;
use crate::vpath::{resolve_path, resolved};

verus! {

/// How a deletion treats directories.
#[derive(Debug, Clone, Copy, PartialEq, Eq, Structural)]
pub enum DeleteMode {
    SinglePath,
    Recursive,
}

/// One operation on the sandboxed virtual filesystem; paths are canonical
/// virtual paths.
#[derive(Debug, Clone, PartialEq, Eq)]
pub enum FilesystemInstruction {
    ListDir { path: String, limit: Option<u64> },
    Stat { path: String },
    ReadFile { path: String, offset: u64, limit: u64 },
    WriteFile { path: String, content: String, mode: WriteMode, expected_conflict_token: Option<String> },
    PatchFile { path: String, patch: String, expected_conflict_token: Option<String> },
    CreateDir { path: String, recursive: bool },
    MovePath { from: String, to: String, overwrite: bool },
    DeletePath { path: String, mode: DeleteMode },
    SearchText { root: String, recursive: bool, query: String, limit: u64 },
}

/// The error of a path that climbs above the root.
pub open spec fn escape_error() -> (MicrobashErrorKind, Seq<char>) {
    (MicrobashErrorKind::InvalidPath, "path escapes the virtual root"@)
}

/// Resolves a path word against `cwd`.
fn resolve_token(cwd: &str, token: &str) -> (r: Result<String, MicrobashError>)
    ensures
        match resolved(cwd@, token@) {
            Some(p) => r matches Ok(s) && s@ == p,
            None => r matches Err(e) && is_error(e, escape_error()),
        },
{
    match resolve_path(cwd, token) {
        Ok(p) => Ok(p),
        Err(_) => {
            let mut m: Vec<char> = Vec::new();
            push_str(&mut m, "path escapes the virtual root");
            Err(error_of(MicrobashErrorKind::InvalidPath, m))
        },
    }
}

/// The single instruction of a successful lowering.
pub open spec fn single(r: Result<Vec<FilesystemInstruction>, MicrobashError>) -> Option<FilesystemInstruction> {
    match r {
        Ok(v) => if v@.len() == 1 {
            Some(v@[0])
        } else {
            None
        },
        Err(_) => None,
    }
}

/// `r` is the lowering of `c` against `cwd`: each path word resolved (the
/// first one that climbs above the root is an error), everything else
/// carried over.
pub open spec fn lowered(cwd: Seq<char>, c: Command, r: Result<Vec<FilesystemInstruction>, MicrobashError>) -> bool {
    match c {
        Command::Ls { path, limit } => {
            let token = match path {
                Some(p) => p@,
                None => "."@,
            };
            match resolved(cwd, token) {
                None => r matches Err(e) && is_error(e, escape_error()),
                Some(p) => single(r) matches Some(FilesystemInstruction::ListDir {
                    path: q,
                    limit: l,
                }) && q@ == p && l == limit,
            }
        },
        Command::Cat { path, offset, limit } => match resolved(cwd, path@) {
            None => r matches Err(e) && is_error(e, escape_error()),
            Some(p) => single(r) matches Some(FilesystemInstruction::ReadFile {
                path: q,
                offset: o,
                limit: l,
            }) && q@ == p && o == offset && l == limit,
        },
        Command::Mkdir { path, recursive } => match resolved(cwd, path@) {
            None => r matches Err(e) && is_error(e, escape_error()),
            Some(p) => single(r) matches Some(FilesystemInstruction::CreateDir {
                path: q,
                recursive: f,
            }) && q@ == p && f == recursive,
        },
        Command::Mv { from, to, overwrite } => match (resolved(cwd, from@), resolved(cwd, to@)) {
            (None, _) => r matches Err(e) && is_error(e, escape_error()),
            (Some(_), None) => r matches Err(e) && is_error(e, escape_error()),
            (Some(a), Some(b)) => single(r) matches Some(FilesystemInstruction::MovePath {
                from: x,
                to: y,
                overwrite: o,
            }) && x@ == a && y@ == b && o == overwrite,
        },
        Command::Rm { path, recursive } => match resolved(cwd, path@) {
            None => r matches Err(e) && is_error(e, escape_error()),
            Some(p) => single(r) matches Some(FilesystemInstruction::DeletePath {
                path: q,
                mode: m,
            }) && q@ == p && m == (if recursive {
                DeleteMode::Recursive
            } else {
                DeleteMode::SinglePath
            }),
        },
        Command::Write { path, content, mode, expected_conflict_token } => match resolved(cwd, path@) {
            None => r matches Err(e) && is_error(e, escape_error()),
            Some(p) => single(r) matches Some(FilesystemInstruction::WriteFile {
                path: q,
                content: b,
                mode: m,
                expected_conflict_token: t,
            }) && q@ == p && b == content && m == mode && t == expected_conflict_token,
        },
        Command::Grep { query, root, recursive, limit } => match resolved(cwd, root@) {
            None => r matches Err(e) && is_error(e, escape_error()),
            Some(p) => single(r) matches Some(FilesystemInstruction::SearchText {
                root: q,
                recursive: f,
                query: s,
                limit: l,
            }) && q@ == p && f == recursive && s == query && l == limit,
        },
    }
}

/// Lowers a parsed command against the working directory `cwd`.
pub fn lower_command_line(cwd: &str, command_line: &CommandLine) -> (r: Result<Vec<FilesystemInstruction>, MicrobashError>)
    ensures
        lowered(cwd@, command_line.command, r),
{
    let instruction = match &command_line.command {
        Command::Ls { path, limit } => {
            let token: &str = match path {
                Some(p) => p.as_str(),
                None => ".",
            };
            FilesystemInstruction::ListDir { path: resolve_token(cwd, token)?, limit: *limit }
        },
        Command::Cat { path, offset, limit } => FilesystemInstruction::ReadFile {
            path: resolve_token(cwd, path.as_str())?,
            offset: *offset,
            limit: *limit,
        },
        Command::Mkdir { path, recursive } => FilesystemInstruction::CreateDir {
            path: resolve_token(cwd, path.as_str())?,
            recursive: *recursive,
        },
        Command::Mv { from, to, overwrite } => {
            let a = resolve_token(cwd, from.as_str())?;
            let b = resolve_token(cwd, to.as_str())?;
            FilesystemInstruction::MovePath { from: a, to: b, overwrite: *overwrite }
        },
        Command::Rm { path, recursive } => FilesystemInstruction::DeletePath {
            path: resolve_token(cwd, path.as_str())?,
            mode: if *recursive {
                DeleteMode::Recursive
            } else {
                DeleteMode::SinglePath
            },
        },
        Command::Write { path, content, mode, expected_conflict_token } => FilesystemInstruction::WriteFile {
            path: resolve_token(cwd, path.as_str())?,
            content: content.clone(),
            mode: *mode,
            expected_conflict_token: match expected_conflict_token {
                Some(t) => Some(t.clone()),
                None => None,
            },
        },
        Command::Grep { query, root, recursive, limit } => FilesystemInstruction::SearchText {
            root: resolve_token(cwd, root.as_str())?,
            recursive: *recursive,
            query: query.clone(),
            limit: *limit,
        },
    };
    let mut out: Vec<FilesystemInstruction> = Vec::new();
    out.push(instruction);
    Ok(out)
}

/// Parses a command line and lowers it against `cwd`.
pub fn parse_and_lower(cwd: &str, input: &str) -> (r: Result<Vec<FilesystemInstruction>, MicrobashError>)
    ensures
        match words_of(input@) {
            Err(e) => r matches Err(x) && is_error(x, e),
            Ok(w) => exists|p: Result<CommandLine, MicrobashError>| #[trigger] parsed_as(w, p) && match p {
                Err(e) => r == Err::<Vec<FilesystemInstruction>, MicrobashError>(e),
                Ok(c) => lowered(cwd@, c.command, r),
            },
        },
{
    let parsed = parse_command_line(input);
    match parsed {
        Err(e) => Err(e),
        Ok(c) => lower_command_line(cwd, &c),
    }
}

/// `mv A B` with two plain paths, both inside the root, lowers to one
/// move from where `A` resolves to where `B` resolves, without
/// overwriting.
pub proof fn mv_lowers_to_a_move_from_first_to_second(
    cwd: Seq<char>,
    a: Seq<char>,
    b: Seq<char>,
    p: Result<CommandLine, MicrobashError>,
    r: Result<Vec<FilesystemInstruction>, MicrobashError>,
)
    requires
        !crate::microbash::parse::dashed(a),
        !crate::microbash::parse::dashed(b),
        parsed_as(seq!["mv"@, a, b], p),
        p matches Ok(c) ==> lowered(cwd, c.command, r),
        resolved(cwd, a) is Some,
        resolved(cwd, b) is Some,
    ensures
        r matches Ok(v) && v@.len() == 1 && (v@[0] matches FilesystemInstruction::MovePath { from, to, overwrite }
            && from@ == resolved(cwd, a)->0 && to@ == resolved(cwd, b)->0 && !overwrite),
{
    crate::microbash::parse::mv_of_two_paths(a, b, p);
}

} // verus!
