//! What the workspace shows after a filesystem instruction: the listing,
//! the opened or written file, the search results, and the refreshed
//! listings of the directories it touched.

use vstd::prelude::*;
use crate::agent::error::AgentError;
use crate::microbash::lower::FilesystemInstruction;
use crate::text::{push_str, string_from_chars};
use crate::vpath::{parent_of, parent_path};
use crate::workspace::delta::WorkspaceDelta;
use crate::workspace::state::{DirectoryEntry, SearchMatch};

verus! {

/// What reading a file gives.
#[derive(Debug, Clone)]
pub struct ReadResult {
    pub path: String,
    pub content: Vec<u8>,
    pub conflict_token: Option<String>,
}

/// What an instruction did.
#[derive(Debug, Clone)]
pub enum FilesystemOutcome {
    ListDir(Vec<DirectoryEntry>),
    Stat { kind: String, size: u64, conflict_token: Option<String> },
    ReadFile(ReadResult),
    WriteFile { conflict_token: Option<String> },
    PatchFile { conflict_token: Option<String> },
    CreateDir,
    MovePath { from: String, to: String },
    DeletePath { removed_entries: u64 },
    SearchText(Vec<SearchMatch>),
}

/// The text that UTF-8 bytes decode to, as `String::from_utf8` decodes
/// them; nothing when they are not UTF-8.
pub uninterp spec fn utf8_decoded(bytes: Seq<u8>) -> Option<Seq<char>>;

/// `String::from_utf8`: the contract claims only that the outcome is a
/// function of the bytes.
#[verifier::external_body]
fn utf8_text(bytes: Vec<u8>) -> (r: Option<String>)
    ensures
        match utf8_decoded(bytes@) {
            Some(t) => r matches Some(s) && s@ == t,
            None => r is None,
        },
{
    String::from_utf8(bytes).ok()
}

/// The parent of `p` as a list: empty for the root.
pub open spec fn parent_list(p: Seq<char>) -> Seq<Seq<char>> {
    match parent_of(p) {
        Some(q) => seq![q],
        None => Seq::empty(),
    }
}

/// The directories whose listings an instruction's outcome changes: the
/// parents of what it wrote, created, deleted or patched, and of both ends
/// of a move.
pub open spec fn touched_parents(i: FilesystemInstruction, o: FilesystemOutcome) -> Seq<Seq<char>> {
    match (i, o) {
        (FilesystemInstruction::WriteFile { path, .. }, FilesystemOutcome::WriteFile { .. }) => parent_list(path@),
        (FilesystemInstruction::CreateDir { path, .. }, FilesystemOutcome::CreateDir) => parent_list(path@),
        (FilesystemInstruction::DeletePath { path, .. }, FilesystemOutcome::DeletePath { .. }) => parent_list(path@),
        (FilesystemInstruction::PatchFile { path, .. }, FilesystemOutcome::PatchFile { .. }) => parent_list(path@),
        (FilesystemInstruction::MovePath { from, to, .. }, FilesystemOutcome::MovePath { .. }) => parent_list(from@)
            + parent_list(to@),
        _ => Seq::empty(),
    }
}

/// `ds` are the listings of `parents` that could be read (`listings`,
/// position by position), in order.
pub open spec fn trees_are(
    ds: Seq<WorkspaceDelta>,
    parents: Seq<Seq<char>>,
    listings: Seq<Option<Vec<DirectoryEntry>>>,
) -> bool
    decreases parents.len(),
{
    if parents.len() == 0 {
        ds.len() == 0
    } else {
        match listings[0] {
            Some(es) => ds.len() > 0 && (ds[0] matches WorkspaceDelta::PublishFilesystemTree { cwd, entries } && cwd@
                == parents[0] && entries@ == es@) && trees_are(ds.drop_first(), parents.drop_first(), listings.drop_first()),
            None => trees_are(ds, parents.drop_first(), listings.drop_first()),
        }
    }
}

/// `d` shows the file at `path` with `token`, its content `text`.
pub open spec fn buffer_is(d: WorkspaceDelta, path: Seq<char>, token: Option<String>, text: Seq<char>) -> bool {
    d matches WorkspaceDelta::PublishEditorBuffer { path: p, conflict_token, content } && p@ == path
        && conflict_token == token && content@ == text
}

/// `r` is what the workspace shows after instruction `i` gave `o`, with
/// `reread` the patched file read back and `listings` the listings of
/// `touched_parents(i, o)` (none where it could not be read).
pub open spec fn deltas_are(
    i: FilesystemInstruction,
    o: FilesystemOutcome,
    reread: Option<Vec<u8>>,
    listings: Seq<Option<Vec<DirectoryEntry>>>,
    r: Result<Vec<WorkspaceDelta>, AgentError>,
) -> bool {
    let parents = touched_parents(i, o);
    match (i, o) {
        (FilesystemInstruction::ListDir { path, .. }, FilesystemOutcome::ListDir(es)) => r matches Ok(ds) && ds@.len()
            == 1 && (ds@[0] matches WorkspaceDelta::PublishFilesystemTree { cwd, entries } && cwd@ == path@ && entries@
            == es@),
        (FilesystemInstruction::ReadFile { .. }, FilesystemOutcome::ReadFile(res)) => match utf8_decoded(res.content@) {
            Some(t) => r matches Ok(ds) && ds@.len() == 1 && buffer_is(ds@[0], res.path@, res.conflict_token, t),
            None => r matches Err(AgentError::Sandbox(m)) && m@ == "file '"@ + res.path@ + "' is not valid UTF-8"@,
        },
        (FilesystemInstruction::SearchText { root, query, .. }, FilesystemOutcome::SearchText(ms)) => r matches Ok(ds)
            && ds@.len() == 1 && (ds@[0] matches WorkspaceDelta::PublishFilesystemSearch { query: q, scope_root, matches }
            && q@ == query@ && scope_root@ == root@ && matches@ == ms@),
        (FilesystemInstruction::WriteFile { path, content, .. }, FilesystemOutcome::WriteFile { conflict_token }) => r matches Ok(
            ds,
        ) && ds@.len() >= 1 && buffer_is(ds@[0], path@, conflict_token, content@) && trees_are(
            ds@.drop_first(),
            parents,
            listings,
        ),
        (FilesystemInstruction::PatchFile { path, .. }, FilesystemOutcome::PatchFile { conflict_token }) => match utf8_decoded(
            reread->0@,
        ) {
            Some(t) => r matches Ok(ds) && ds@.len() >= 1 && buffer_is(ds@[0], path@, conflict_token, t) && trees_are(
                ds@.drop_first(),
                parents,
                listings,
            ),
            None => r matches Err(AgentError::Sandbox(m)) && m@ == "file '"@ + path@ + "' is not valid UTF-8"@,
        },
        _ => r matches Ok(ds) && trees_are(ds@, parents, listings),
    }
}

/// The parents of `p` as a list.
fn parent_vec(p: &String, out: &mut Vec<String>)
    ensures
        crate::text::views(final(out)@) == crate::text::views(old(out)@) + parent_list(p@),
{
    match parent_path(p.as_str()) {
        Some(q) => {
            let ghost before = out@;
            out.push(q);
            assert(crate::text::views(out@) =~= crate::text::views(before) + parent_list(p@));
        },
        None => {
            assert(crate::text::views(out@) =~= crate::text::views(out@) + parent_list(p@));
        },
    }
}

/// The directories whose listings the outcome `o` of `i` changes, to be
/// listed again.
pub fn touched_parent_paths(i: &FilesystemInstruction, o: &FilesystemOutcome) -> (r: Vec<String>)
    ensures
        crate::text::views(r@) == touched_parents(*i, *o),
{
    let mut out: Vec<String> = Vec::new();
    match (i, o) {
        (FilesystemInstruction::WriteFile { path, .. }, FilesystemOutcome::WriteFile { .. }) => parent_vec(path, &mut out),
        (FilesystemInstruction::CreateDir { path, .. }, FilesystemOutcome::CreateDir) => parent_vec(path, &mut out),
        (FilesystemInstruction::DeletePath { path, .. }, FilesystemOutcome::DeletePath { .. }) => parent_vec(path, &mut out),
        (FilesystemInstruction::PatchFile { path, .. }, FilesystemOutcome::PatchFile { .. }) => parent_vec(path, &mut out),
        (FilesystemInstruction::MovePath { from, to, .. }, FilesystemOutcome::MovePath { .. }) => {
            parent_vec(from, &mut out);
            parent_vec(to, &mut out);
        },
        _ => {},
    }
    assert(crate::text::views(out@) =~= touched_parents(*i, *o));
    out
}

/// The listings of `parents` that could be read, as trees, in order.
fn tree_deltas(parents: Vec<String>, listings: Vec<Option<Vec<DirectoryEntry>>>, out: &mut Vec<WorkspaceDelta>)
    requires
        parents@.len() == listings@.len(),
    ensures
        final(out)@.len() >= old(out)@.len(),
        final(out)@.take(old(out)@.len() as int) == old(out)@,
        trees_are(final(out)@.skip(old(out)@.len() as int), crate::text::views(parents@), listings@),
{
    let ghost start = out@.len();
    let ghost ps = crate::text::views(parents@);
    let ghost ls = listings@;
    let ghost o0 = out@;
    let mut parents = parents;
    let mut listings = listings;
    let mut k: usize = 0;
    let ghost n = ps.len();
    let total = parents.len();
    proof {
        assert(ps.len() == parents@.len());
        assert(n == total);
        assert(ps.skip(0) =~= ps);
        assert(ls.skip(0) =~= ls);
        assert forall|tail: Seq<WorkspaceDelta>| #[trigger] trees_are(tail, ps.skip(0), ls.skip(0)) implies trees_are(
            out@.skip(start as int) + tail,
            ps,
            ls,
        ) by {
            assert(out@.skip(start as int) + tail =~= tail);
        }
        assert(out@.take(start as int) =~= o0);
    }
    // The trees of the pairs still to come, once added, complete the run.
    while parents.len() > 0
        invariant
            parents@.len() == listings@.len(),
            k <= n,
            n == ps.len(),
            n <= usize::MAX,
            ps.len() == ls.len(),
            crate::text::views(parents@) == ps.skip(k as int),
            listings@ == ls.skip(k as int),
            out@.len() >= start,
            start == o0.len(),
            out@.take(start as int) == o0,
            forall|tail: Seq<WorkspaceDelta>| #[trigger] trees_are(tail, ps.skip(k as int), ls.skip(k as int)) ==> trees_are(
                out@.skip(start as int) + tail,
                ps,
                ls,
            ),
        decreases parents@.len(),
    {
        assert(ps.skip(k as int).len() > 0);
        let p = parents.remove(0);
        let l = listings.remove(0);
        let ghost rp = ps.skip(k as int);
        let ghost rl = ls.skip(k as int);
        proof {
            assert(rp.drop_first() =~= ps.skip(k + 1));
            assert(rl.drop_first() =~= ls.skip(k + 1));
            assert(rp[0] == p@);
            assert(rl[0] == l);
        }
        let ghost before = out@;
        match l {
            Some(es) => {
                out.push(WorkspaceDelta::PublishFilesystemTree { cwd: p, entries: es });
                proof {
                    let d = out@.last();
                    assert forall|tail: Seq<WorkspaceDelta>| #[trigger] trees_are(tail, ps.skip(k + 1), ls.skip(k + 1)) implies trees_are(
                        out@.skip(start as int) + tail,
                        ps,
                        ls,
                    ) by {
                        let t2 = seq![d] + tail;
                        assert(t2.drop_first() =~= tail);
                        assert(trees_are(t2, rp, rl));
                        assert(before.skip(start as int) + t2 =~= out@.skip(start as int) + tail);
                    }
                    assert(out@.take(start as int) =~= before.take(start as int));
                }
            },
            None => {
                proof {
                    assert forall|tail: Seq<WorkspaceDelta>| #[trigger] trees_are(tail, ps.skip(k + 1), ls.skip(k + 1)) implies trees_are(
                        out@.skip(start as int) + tail,
                        ps,
                        ls,
                    ) by {
                        assert(trees_are(tail, rp, rl));
                    }
                }
            },
        }
        k = k + 1;
    }
    proof {
        assert(ps.skip(k as int).len() == 0);
        assert(trees_are(Seq::<WorkspaceDelta>::empty(), ps.skip(k as int), ls.skip(k as int)));
        assert(out@.skip(start as int) + Seq::<WorkspaceDelta>::empty() =~= out@.skip(start as int));
    }
}

/// `"file '"`, the path, and `"' is not valid UTF-8"`.
fn not_utf8(path: &String) -> (r: AgentError)
    ensures
        r matches AgentError::Sandbox(m) && m@ == "file '"@ + path@ + "' is not valid UTF-8"@,
{
    let mut v: Vec<char> = Vec::new();
    push_str(&mut v, "file '");
    push_str(&mut v, path.as_str());
    push_str(&mut v, "' is not valid UTF-8");
    AgentError::Sandbox(string_from_chars(&v))
}

/// What the workspace shows after instruction `i` gave `o`: a listing, a
/// read file or search results as they are; a written or patched file (the
/// patched one as `reread` holds it) in the editor; then the listings
/// `listings` of the directories it touched (`touched_parent_paths`), where
/// they could be read.
pub fn instruction_deltas(
    i: &FilesystemInstruction,
    o: FilesystemOutcome,
    reread: Option<Vec<u8>>,
    listings: Vec<Option<Vec<DirectoryEntry>>>,
) -> (r: Result<Vec<WorkspaceDelta>, AgentError>)
    requires
        listings@.len() == touched_parents(*i, o).len(),
        (o is PatchFile && *i is PatchFile) ==> reread is Some,
    ensures
        deltas_are(*i, o, reread, listings@, r),
{
    let ghost o0 = o;
    let parents = touched_parent_paths(i, &o);
    let mut out: Vec<WorkspaceDelta> = Vec::new();
    match (i, o) {
        (FilesystemInstruction::ListDir { path, .. }, FilesystemOutcome::ListDir(es)) => {
            out.push(WorkspaceDelta::PublishFilesystemTree { cwd: path.clone(), entries: es });
            return Ok(out);
        },
        (FilesystemInstruction::ReadFile { .. }, FilesystemOutcome::ReadFile(res)) => {
            let ReadResult { path, content, conflict_token } = res;
            match utf8_text(content) {
                Some(text) => {
                    out.push(WorkspaceDelta::PublishEditorBuffer { path, conflict_token, content: text });
                    return Ok(out);
                },
                None => return Err(not_utf8(&path)),
            }
        },
        (FilesystemInstruction::SearchText { root, query, .. }, FilesystemOutcome::SearchText(ms)) => {
            out.push(
                WorkspaceDelta::PublishFilesystemSearch { query: query.clone(), scope_root: root.clone(), matches: ms },
            );
            return Ok(out);
        },
        (FilesystemInstruction::WriteFile { path, content, .. }, FilesystemOutcome::WriteFile { conflict_token }) => {
            out.push(
                WorkspaceDelta::PublishEditorBuffer { path: path.clone(), conflict_token, content: content.clone() },
            );
        },
        (FilesystemInstruction::PatchFile { path, .. }, FilesystemOutcome::PatchFile { conflict_token }) => {
            let bytes = match reread {
                Some(b) => b,
                None => Vec::new(),
            };
            match utf8_text(bytes) {
                Some(text) => {
                    out.push(WorkspaceDelta::PublishEditorBuffer { path: path.clone(), conflict_token, content: text });
                },
                None => return Err(not_utf8(path)),
            }
        },
        _ => {},
    }
    let ghost before = out@;
    tree_deltas(parents, listings, &mut out);
    proof {
        if before.len() == 1 {
            assert(out@[0] == before[0]);
            assert(out@.drop_first() =~= out@.skip(1));
        } else {
            assert(out@.skip(0) =~= out@);
        }
    }
    Ok(out)
}

} // verus!
