//! Virtual paths: the absolute, `/`-separated paths that the agent's
//! sandbox exposes. A path is taken by its non-empty segments, so `/`, `//`
//! and the empty text all name the root.

use vstd::prelude::*;
use crate::text::{join, join_strings, chars_of, split_chars, split_on, string_from_chars, views};

verus! {

/// Whether a segment holds any character.
pub open spec fn non_empty(s: Seq<char>) -> bool {
    s.len() > 0
}

/// The non-empty segments of a path, in order.
pub open spec fn segments(p: Seq<char>) -> Seq<Seq<char>> {
    split_on(p, '/').filter(|s: Seq<char>| non_empty(s))
}

/// The canonical text of the path made of `segs`.
pub open spec fn path_of(segs: Seq<Seq<char>>) -> Seq<char> {
    "/"@ + join(segs, "/"@)
}

/// The parent of a path; the root has none.
pub open spec fn parent_of(p: Seq<char>) -> Option<Seq<char>> {
    if segments(p).len() == 0 {
        None
    } else {
        Some(path_of(segments(p).drop_last()))
    }
}

/// The last segment of a path; the root has none.
pub open spec fn file_name_of(p: Seq<char>) -> Option<Seq<char>> {
    if segments(p).len() == 0 {
        None
    } else {
        Some(segments(p).last())
    }
}

/// Whether `path` lies at or below `root`: the segments of `root` begin
/// the segments of `path` (the root holds every path).
pub open spec fn under(path: Seq<char>, root: Seq<char>) -> bool {
    segments(root).is_prefix_of(segments(path))
}

/// The non-empty segments of `p`.
pub fn path_segments(p: &str) -> (r: Vec<String>)
    ensures
        views(r@) == segments(p@),
{
    let cs = chars_of(p);
    let pieces = split_chars(&cs, '/');
    let ghost all = split_on(p@, '/');
    let mut out: Vec<String> = Vec::new();
    let mut i: usize = 0;
    assert(all.take(0) =~= Seq::<Seq<char>>::empty());
    while i < pieces.len()
        invariant
            pieces@.len() == all.len(),
            forall|k: int| 0 <= k < pieces@.len() ==> #[trigger] pieces@[k]@ == all[k],
            i <= pieces@.len(),
            views(out@) == all.take(i as int).filter(|s: Seq<char>| non_empty(s)),
        decreases pieces@.len() - i,
    {
        assert(all.take(i + 1).drop_last() =~= all.take(i as int));
        assert(all.take(i + 1).last() == all[i as int]);
        reveal_with_fuel(Seq::filter, 1);
        if pieces[i].len() > 0 {
            let ghost before = out@;
            out.push(string_from_chars(&pieces[i]));
            assert(views(out@) =~= views(before).push(all[i as int]));
        }
        i = i + 1;
    }
    assert(all.take(all.len() as int) =~= all);
    out
}

/// The canonical text of the path made of `segs`.
pub fn path_from_segments(segs: &Vec<String>) -> (r: String)
    ensures
        r@ == path_of(views(segs@)),
{
    let mut out: Vec<char> = Vec::new();
    out.push('/');
    proof {
        reveal_strlit("/");
    }
    let body = join_strings(segs, "/");
    assert(out@ =~= "/"@ + body@.take(0));
    let mut i: usize = 0;
    while i < body.len()
        invariant
            i <= body@.len(),
            out@ == "/"@ + body@.take(i as int),
        decreases body@.len() - i,
    {
        out.push(body[i]);
        i = i + 1;
        assert(out@ =~= "/"@ + body@.take(i as int));
    }
    assert(body@.take(body@.len() as int) =~= body@);
    string_from_chars(&out)
}

/// The parent of a path, `None` for the root.
pub fn parent_path(p: &str) -> (r: Option<String>)
    ensures
        match r {
            Some(q) => parent_of(p@) == Some(q@),
            None => parent_of(p@) is None,
        },
{
    let mut segs = path_segments(p);
    if segs.len() == 0 {
        return None;
    }
    let ghost all = segs@;
    segs.pop();
    assert(views(segs@) =~= views(all).drop_last());
    Some(path_from_segments(&segs))
}

/// The last segment of a path, `None` for the root.
pub fn file_name(p: &str) -> (r: Option<String>)
    ensures
        match r {
            Some(q) => file_name_of(p@) == Some(q@),
            None => file_name_of(p@) is None,
        },
{
    let segs = path_segments(p);
    if segs.len() == 0 {
        return None;
    }
    let last = segs[segs.len() - 1].clone();
    assert(views(segs@).last() == segs@[segs@.len() - 1]@);
    Some(last)
}

/// Whether `path` lies at or below `root`.
pub fn path_starts_with(path: &str, root: &str) -> (r: bool)
    ensures
        r == under(path@, root@),
{
    let ps = path_segments(path);
    let rs = path_segments(root);
    if rs.len() > ps.len() {
        assert(views(rs@).len() > views(ps@).len());
        return false;
    }
    let mut i: usize = 0;
    while i < rs.len()
        invariant
            rs@.len() <= ps@.len(),
            views(rs@) == segments(root@),
            views(ps@) == segments(path@),
            i <= rs@.len(),
            forall|k: int| 0 <= k < i ==> views(rs@)[k] == views(ps@)[k],
        decreases rs@.len() - i,
    {
        if !crate::text::str_eq(rs[i].as_str(), ps[i].as_str()) {
            assert(views(rs@)[i as int] != views(ps@)[i as int]);
            assert(views(ps@).subrange(0, views(rs@).len() as int)[i as int] == views(ps@)[i as int]);
            assert(!(views(rs@) =~= views(ps@).subrange(0, views(rs@).len() as int)));
            assert(!segments(root@).is_prefix_of(segments(path@)));
            return false;
        }
        i = i + 1;
    }
    assert(views(rs@) =~= views(ps@).take(views(rs@).len() as int));
    true
}

/// Why a path cannot be resolved.
#[derive(Debug, Clone, Copy, PartialEq, Eq, Structural)]
pub enum VirtualPathError {
    /// A `..` would climb above the root.
    EscapesRoot,
    /// The text does not start with `/`.
    NotAbsolute,
}

/// The text of a path error.
pub open spec fn path_error_text(e: VirtualPathError) -> Seq<char> {
    match e {
        VirtualPathError::EscapesRoot => "path escapes the virtual root"@,
        VirtualPathError::NotAbsolute => "path must be absolute"@,
    }
}

impl VirtualPathError {
    /// The text of this error.
    pub fn message(&self) -> (r: &'static str)
        ensures
            r@ == path_error_text(*self),
    {
        match self {
            VirtualPathError::EscapesRoot => "path escapes the virtual root",
            VirtualPathError::NotAbsolute => "path must be absolute",
        }
    }
}

/// One segment of a path applied to the segments reached so far: empty
/// segments and `.` stay, `..` climbs one level (not above the root), any
/// other segment descends.
pub open spec fn walk_step(acc: Seq<Seq<char>>, part: Seq<char>) -> Option<Seq<Seq<char>>> {
    if part.len() == 0 || part == "."@ {
        Some(acc)
    } else if part == ".."@ {
        if acc.len() == 0 {
            None
        } else {
            Some(acc.drop_last())
        }
    } else {
        Some(acc.push(part))
    }
}

/// The segments reached from `base` by walking `parts` in order.
pub open spec fn walk(base: Seq<Seq<char>>, parts: Seq<Seq<char>>) -> Option<Seq<Seq<char>>>
    decreases parts.len(),
{
    if parts.len() == 0 {
        Some(base)
    } else {
        match walk(base, parts.drop_last()) {
            None => None,
            Some(acc) => walk_step(acc, parts.last()),
        }
    }
}

/// Where `token` leads from the working directory `cwd`: from the root
/// when it starts with `/`, from `cwd` otherwise.
pub open spec fn resolved(cwd: Seq<char>, token: Seq<char>) -> Option<Seq<char>> {
    let base = if token.len() > 0 && token[0] == '/' {
        Seq::empty()
    } else {
        segments(cwd)
    };
    match walk(base, split_on(token, '/')) {
        Some(segs) => Some(path_of(segs)),
        None => None,
    }
}

/// Resolves `token` against the working directory `cwd`.
pub fn resolve_path(cwd: &str, token: &str) -> (r: Result<String, VirtualPathError>)
    ensures
        match resolved(cwd@, token@) {
            Some(p) => r matches Ok(s) && s@ == p,
            None => r == Err::<String, VirtualPathError>(VirtualPathError::EscapesRoot),
        },
{
    let cs = chars_of(token);
    let mut acc: Vec<String> = if cs.len() > 0 && cs[0] == '/' {
        Vec::new()
    } else {
        path_segments(cwd)
    };
    let ghost base = views(acc@);
    assert(base =~= (if token@.len() > 0 && token@[0] == '/' {
        Seq::<Seq<char>>::empty()
    } else {
        segments(cwd@)
    }));
    let pieces = split_chars(&cs, '/');
    let ghost parts = split_on(token@, '/');
    let mut i: usize = 0;
    assert(parts.take(0) =~= Seq::<Seq<char>>::empty());
    while i < pieces.len()
        invariant
            cs@ == token@,
            parts == split_on(token@, '/'),
            base == (if token@.len() > 0 && token@[0] == '/' {
                Seq::<Seq<char>>::empty()
            } else {
                segments(cwd@)
            }),
            pieces@.len() == parts.len(),
            forall|k: int| 0 <= k < pieces@.len() ==> #[trigger] pieces@[k]@ == parts[k],
            i <= pieces@.len(),
            walk(base, parts.take(i as int)) == Some(views(acc@)),
        decreases pieces@.len() - i,
    {
        assert(parts.take(i + 1).drop_last() =~= parts.take(i as int));
        assert(parts.take(i + 1).last() == parts[i as int]);
        let p = &pieces[i];
        let dot = p.len() == 1 && p[0] == '.';
        let dotdot = p.len() == 2 && p[0] == '.' && p[1] == '.';
        proof {
            reveal_strlit(".");
            reveal_strlit("..");
            assert("."@ =~= seq!['.']);
            assert(".."@ =~= seq!['.', '.']);
            if dot {
                assert(p@ =~= "."@);
            }
            if dotdot {
                assert(p@ =~= ".."@);
            }
        }
        if p.len() == 0 || dot {
        } else if dotdot {
            if acc.len() == 0 {
                proof {
                    lemma_walk_stuck(base, parts, i as int + 1);
                }
                return Err(VirtualPathError::EscapesRoot);
            }
            let ghost before = views(acc@);
            acc.pop();
            assert(views(acc@) =~= before.drop_last());
        } else {
            let ghost before = views(acc@);
            acc.push(string_from_chars(p));
            assert(views(acc@) =~= before.push(p@));
        }
        i = i + 1;
    }
    assert(parts.take(parts.len() as int) =~= parts);
    Ok(path_from_segments(&acc))
}

/// A walk that fails stays failed.
proof fn lemma_walk_stuck(base: Seq<Seq<char>>, parts: Seq<Seq<char>>, k: int)
    requires
        0 <= k <= parts.len(),
        walk(base, parts.take(k)) is None,
    ensures
        walk(base, parts) is None,
    decreases parts.len() - k,
{
    if k < parts.len() {
        assert(parts.take(k + 1).drop_last() =~= parts.take(k));
        lemma_walk_stuck(base, parts, k + 1);
    } else {
        assert(parts.take(k) =~= parts);
    }
}

/// The canonical path that the absolute text `token` names.
pub open spec fn absolute(token: Seq<char>) -> Result<Seq<char>, VirtualPathError> {
    if token.len() > 0 && token[0] == '/' {
        match resolved(Seq::empty(), token) {
            Some(p) => Ok(p),
            None => Err(VirtualPathError::EscapesRoot),
        }
    } else {
        Err(VirtualPathError::NotAbsolute)
    }
}

/// Reads an absolute path.
pub fn from_absolute(token: &str) -> (r: Result<String, VirtualPathError>)
    ensures
        match absolute(token@) {
            Ok(p) => r matches Ok(s) && s@ == p,
            Err(e) => r == Err::<String, VirtualPathError>(e),
        },
{
    let cs = chars_of(token);
    if cs.len() > 0 && cs[0] == '/' {
        resolve_path("", token)
    } else {
        Err(VirtualPathError::NotAbsolute)
    }
}

} // verus!
