//! The sandbox's filesystem policy: which virtual roots each kind of
//! access may reach, which path classes and artifact classes are always
//! denied, and which host directories may never serve as the sandbox root.

use vstd::prelude::*;
use crate::agent::error::AgentError;
use crate::text::{
    chars_eq, chars_of, decimal, decimal_chars, lower, lower_chars, push_str, starts_with, str_eq, string_from_chars,
};
use crate::vpath::{file_name, file_name_of, path_starts_with, segments, under};
use crate::workspace::render::{last_index_of, rfind_char};

verus! {

/// What the sandbox allows: the virtual roots for each kind of access, and
/// the path classes and artifact classes it denies everywhere.
#[derive(Debug, Clone)]
pub struct FilesystemPolicy {
    pub readable_roots: Vec<String>,
    pub writable_roots: Vec<String>,
    pub creatable_roots: Vec<String>,
    pub deletable_roots: Vec<String>,
    pub forbidden_path_classes: Vec<String>,
    pub forbidden_artifact_classes: Vec<String>,
    /// The most bytes one read may ask for.
    pub max_read_bytes: u64,
    /// The most bytes one write may carry.
    pub max_write_bytes: u64,
}

/// The most bytes one read may ask for, or one write may carry, in the
/// sandbox profiles.
pub const PROFILE_MAX_TRANSFER_BYTES: u64 = 1_048_576;

/// Whether `path` lies under one of `roots`.
pub open spec fn in_roots(path: Seq<char>, roots: Seq<String>) -> bool {
    exists|i: int| 0 <= i < roots.len() && under(path, #[trigger] roots[i]@)
}

/// Checks that `path` lies under one of `roots`; the denial names the
/// path and the access.
pub fn ensure_in_roots(path: &str, roots: &Vec<String>, action: &str) -> (r: Result<(), AgentError>)
    ensures
        in_roots(path@, roots@) ==> r is Ok,
        !in_roots(path@, roots@) ==> (r matches Err(AgentError::Denied(m)) && m@ == "filesystem path '"@ + path@
            + "' is not permitted for "@ + action@),
{
    let mut i: usize = 0;
    while i < roots.len()
        invariant
            i <= roots@.len(),
            forall|k: int| 0 <= k < i ==> !under(path@, #[trigger] roots@[k]@),
        decreases roots@.len() - i,
    {
        if path_starts_with(path, roots[i].as_str()) {
            return Ok(());
        }
        i = i + 1;
    }
    let mut m: Vec<char> = Vec::new();
    push_str(&mut m, "filesystem path '");
    push_str(&mut m, path);
    push_str(&mut m, "' is not permitted for ");
    push_str(&mut m, action);
    Err(AgentError::Denied(string_from_chars(&m)))
}

/// Whether a file name belongs to an artifact class: `*.ext` matches the
/// names whose text after their last `.` is `ext`, ignoring ASCII case;
/// any other class matches its own name only.
pub open spec fn artifact_matches(name: Seq<char>, class: Seq<char>) -> bool {
    if starts_with(class, "*."@) {
        match last_index_of(name, '.') {
            Some(i) => lower(name.skip(i + 1)) == lower(class.skip(2)),
            None => false,
        }
    } else {
        name == class
    }
}

/// Whether a file name belongs to an artifact class.
pub fn artifact_class_matches(name: &str, forbidden: &str) -> (r: bool)
    ensures
        r == artifact_matches(name@, forbidden@),
{
    let f = chars_of(forbidden);
    let mut star: Vec<char> = Vec::new();
    push_str(&mut star, "*.");
    proof {
        reveal_strlit("*.");
        assert(star@.len() == 2);
    }
    if crate::text::chars_start_with(&f, &star) {
        let n = chars_of(name);
        match rfind_char(&n, '.') {
            Some(i) => {
                let ext = crate::text::chars_slice(&n, i + 1, n.len());
                let suffix = crate::text::chars_slice(&f, 2, f.len());
                assert(ext@ =~= name@.skip(i + 1));
                assert(suffix@ =~= forbidden@.skip(2));
                let a = lower_chars(&ext);
                let b = lower_chars(&suffix);
                chars_eq(&a, &b)
            },
            None => false,
        }
    } else {
        str_eq(name, forbidden)
    }
}

/// Whether `path` is the path class `class` or lies below it.
pub open spec fn in_path_class(path: Seq<char>, class: Seq<char>) -> bool {
    path == class || starts_with(path, class + "/"@)
}

/// Why `path` is denied everywhere, if it is: the first forbidden path
/// class it falls in, else the first forbidden artifact class its file
/// name belongs to.
pub open spec fn forbidden_reason(path: Seq<char>, policy: FilesystemPolicy) -> Option<Seq<char>> {
    let pcs = policy.forbidden_path_classes@;
    let acs = policy.forbidden_artifact_classes@;
    if exists|i: int| 0 <= i < pcs.len() && in_path_class(path, #[trigger] pcs[i]@) {
        let i = choose|i: int| 0 <= i < pcs.len() && in_path_class(path, #[trigger] pcs[i]@)
            && forall|k: int| 0 <= k < i ==> !in_path_class(path, #[trigger] pcs[k]@);
        Some("filesystem path '"@ + path + "' matches forbidden path class '"@ + pcs[i]@ + "'"@)
    } else {
        match file_name_of(path) {
            Some(name) => if exists|i: int| 0 <= i < acs.len() && artifact_matches(name, #[trigger] acs[i]@) {
                let i = choose|i: int| 0 <= i < acs.len() && artifact_matches(name, #[trigger] acs[i]@)
                    && forall|k: int| 0 <= k < i ==> !artifact_matches(name, #[trigger] acs[k]@);
                Some("filesystem path '"@ + path + "' matches forbidden artifact class '"@ + acs[i]@ + "'"@)
            } else {
                None
            },
            None => None,
        }
    }
}

/// Whether `path` is the path class `class` or lies below it.
fn path_class_matches(path: &str, class: &str) -> (r: bool)
    ensures
        r == in_path_class(path@, class@),
{
    if str_eq(path, class) {
        return true;
    }
    let p = chars_of(path);
    let mut c = chars_of(class);
    c.push('/');
    proof {
        reveal_strlit("/");
        assert(c@ =~= class@ + "/"@);
    }
    crate::text::chars_start_with(&p, &c)
}

/// Checks that `path` falls in no forbidden path class and its file name
/// in no forbidden artifact class.
pub fn ensure_not_forbidden(path: &str, policy: &FilesystemPolicy) -> (r: Result<(), AgentError>)
    ensures
        match forbidden_reason(path@, *policy) {
            None => r is Ok,
            Some(m) => r matches Err(AgentError::Denied(s)) && s@ == m,
        },
{
    let pcs = &policy.forbidden_path_classes;
    let mut i: usize = 0;
    while i < pcs.len()
        invariant
            i <= pcs@.len(),
            pcs@ == policy.forbidden_path_classes@,
            forall|k: int| 0 <= k < i ==> !in_path_class(path@, #[trigger] pcs@[k]@),
        decreases pcs@.len() - i,
    {
        if path_class_matches(path, pcs[i].as_str()) {
            let mut m: Vec<char> = Vec::new();
            push_str(&mut m, "filesystem path '");
            push_str(&mut m, path);
            push_str(&mut m, "' matches forbidden path class '");
            push_str(&mut m, pcs[i].as_str());
            push_str(&mut m, "'");
            proof {
                let j = choose|j: int| 0 <= j < pcs@.len() && in_path_class(path@, #[trigger] pcs@[j]@)
                    && forall|k: int| 0 <= k < j ==> !in_path_class(path@, #[trigger] pcs@[k]@);
                assert(in_path_class(path@, pcs@[i as int]@));
                if j < i {
                } else if j > i {
                    assert(!in_path_class(path@, pcs@[i as int]@));
                }
                assert(j == i);
            }
            return Err(AgentError::Denied(string_from_chars(&m)));
        }
        i = i + 1;
    }
    let name = match file_name(path) {
        Some(n) => n,
        None => {
            return Ok(());
        },
    };
    let acs = &policy.forbidden_artifact_classes;
    let mut k: usize = 0;
    while k < acs.len()
        invariant
            k <= acs@.len(),
            acs@ == policy.forbidden_artifact_classes@,
            file_name_of(path@) == Some(name@),
            forall|q: int| 0 <= q < pcs@.len() ==> !in_path_class(path@, #[trigger] pcs@[q]@),
            pcs@ == policy.forbidden_path_classes@,
            forall|q: int| 0 <= q < k ==> !artifact_matches(name@, #[trigger] acs@[q]@),
        decreases acs@.len() - k,
    {
        if artifact_class_matches(name.as_str(), acs[k].as_str()) {
            let mut m: Vec<char> = Vec::new();
            push_str(&mut m, "filesystem path '");
            push_str(&mut m, path);
            push_str(&mut m, "' matches forbidden artifact class '");
            push_str(&mut m, acs[k].as_str());
            push_str(&mut m, "'");
            proof {
                let j = choose|j: int| 0 <= j < acs@.len() && artifact_matches(name@, #[trigger] acs@[j]@)
                    && forall|q: int| 0 <= q < j ==> !artifact_matches(name@, #[trigger] acs@[q]@);
                assert(artifact_matches(name@, acs@[k as int]@));
                if j > k {
                    assert(!artifact_matches(name@, acs@[k as int]@));
                }
                assert(j == k);
            }
            return Err(AgentError::Denied(string_from_chars(&m)));
        }
        k = k + 1;
    }
    Ok(())
}

/// The kinds of access the sandbox checks.
#[derive(Debug, Clone, Copy, PartialEq, Eq, Structural)]
pub enum Access {
    Read,
    Write,
    Create,
    Delete,
}

/// The roots an access may reach and the word its denial uses.
pub open spec fn access_roots(policy: FilesystemPolicy, access: Access) -> (Seq<String>, Seq<char>) {
    match access {
        Access::Read => (policy.readable_roots@, "read"@),
        Access::Write => (policy.writable_roots@, "write"@),
        Access::Create => (policy.creatable_roots@, "create"@),
        Access::Delete => (policy.deletable_roots@, "delete"@),
    }
}

/// What the policy says of `access` to `path`: allowed, or the denial.
pub open spec fn access_verdict(policy: FilesystemPolicy, access: Access, path: Seq<char>) -> Option<Seq<char>> {
    let (roots, word) = access_roots(policy, access);
    if !in_roots(path, roots) {
        Some("filesystem path '"@ + path + "' is not permitted for "@ + word)
    } else {
        forbidden_reason(path, policy)
    }
}

/// The host activation directories that no sandbox may touch.
pub open spec fn activation_path_classes() -> Seq<Seq<char>> {
    seq!["/.config/autostart"@, "/.config/systemd/user"@, "/.local/share/systemd/user"@, "/Library/LaunchAgents"@, "/Library/LoginItems"@]
}

/// The launcher artifacts that no sandbox may hold.
pub open spec fn launcher_artifact_classes() -> Seq<Seq<char>> {
    seq!["*.desktop"@, "*.plist"@, "*.service"@, "*.timer"@]
}

/// The executable scripts that the safe-data sandbox may not hold either.
pub open spec fn script_artifact_classes() -> Seq<Seq<char>> {
    seq!["*.sh"@, "*.command"@, "*.exe"@, "*.bat"@]
}

/// `p` allows every access under `root` alone and forbids the activation
/// directories and the artifact classes `artifacts`.
pub open spec fn profile_is(p: FilesystemPolicy, root: Seq<char>, artifacts: Seq<Seq<char>>) -> bool {
    &&& crate::text::views(p.readable_roots@) == seq![root]
    &&& crate::text::views(p.writable_roots@) == seq![root]
    &&& crate::text::views(p.creatable_roots@) == seq![root]
    &&& crate::text::views(p.deletable_roots@) == seq![root]
    &&& crate::text::views(p.forbidden_path_classes@) == activation_path_classes()
    &&& crate::text::views(p.forbidden_artifact_classes@) == artifacts
    &&& p.max_read_bytes == PROFILE_MAX_TRANSFER_BYTES
    &&& p.max_write_bytes == PROFILE_MAX_TRANSFER_BYTES
}

/// The texts of `items`, as strings.
fn owned(items: Vec<&'static str>) -> (r: Vec<String>)
    ensures
        crate::text::views(r@) == items@.map_values(|s: &'static str| s@),
{
    let mut out: Vec<String> = Vec::new();
    let mut i: usize = 0;
    while i < items.len()
        invariant
            i <= items@.len(),
            crate::text::views(out@) =~= items@.take(i as int).map_values(|s: &'static str| s@),
        decreases items@.len() - i,
    {
        let ghost before = crate::text::views(out@);
        out.push(String::from_str(items[i]));
        assert(crate::text::views(out@) =~= before.push(items@[i as int]@));
        i = i + 1;
        assert(items@.take(i as int).map_values(|s: &'static str| s@) =~= items@.take(i - 1).map_values(
            |s: &'static str| s@,
        ).push(items@[i - 1]@));
    }
    assert(items@.take(items@.len() as int) =~= items@);
    out
}

/// The one-root list `[root]`.
fn single_root(root: &str) -> (r: Vec<String>)
    ensures
        crate::text::views(r@) == seq![root@],
{
    let mut v: Vec<String> = Vec::new();
    v.push(String::from_str(root));
    assert(crate::text::views(v@) =~= seq![root@]);
    v
}

impl FilesystemPolicy {
    /// The project sandbox under `root`: every access under `root`, the
    /// activation directories and launcher artifacts forbidden.
    pub fn project_sandbox(root: &str) -> (r: FilesystemPolicy)
        ensures
            profile_is(r, root@, launcher_artifact_classes()),
    {
        let paths = owned(vec!["/.config/autostart", "/.config/systemd/user", "/.local/share/systemd/user", "/Library/LaunchAgents", "/Library/LoginItems"]);
        let artifacts = owned(vec!["*.desktop", "*.plist", "*.service", "*.timer"]);
        assert(crate::text::views(paths@) =~= activation_path_classes());
        assert(crate::text::views(artifacts@) =~= launcher_artifact_classes());
        FilesystemPolicy {
            readable_roots: single_root(root),
            writable_roots: single_root(root),
            creatable_roots: single_root(root),
            deletable_roots: single_root(root),
            forbidden_path_classes: paths,
            forbidden_artifact_classes: artifacts,
            max_read_bytes: PROFILE_MAX_TRANSFER_BYTES,
            max_write_bytes: PROFILE_MAX_TRANSFER_BYTES,
        }
    }

    /// The safe-data sandbox under `root`: the project sandbox that also
    /// forbids executable scripts.
    pub fn safe_data_sandbox(root: &str) -> (r: FilesystemPolicy)
        ensures
            profile_is(r, root@, launcher_artifact_classes() + script_artifact_classes()),
    {
        let paths = owned(vec!["/.config/autostart", "/.config/systemd/user", "/.local/share/systemd/user", "/Library/LaunchAgents", "/Library/LoginItems"]);
        let artifacts = owned(vec!["*.desktop", "*.plist", "*.service", "*.timer", "*.sh", "*.command", "*.exe", "*.bat"]);
        assert(crate::text::views(paths@) =~= activation_path_classes());
        assert(crate::text::views(artifacts@) =~= launcher_artifact_classes() + script_artifact_classes());
        FilesystemPolicy {
            readable_roots: single_root(root),
            writable_roots: single_root(root),
            creatable_roots: single_root(root),
            deletable_roots: single_root(root),
            forbidden_path_classes: paths,
            forbidden_artifact_classes: artifacts,
            max_read_bytes: PROFILE_MAX_TRANSFER_BYTES,
            max_write_bytes: PROFILE_MAX_TRANSFER_BYTES,
        }
    }

    /// Checks `access` to `path`: the path must lie under a root of that
    /// access and be forbidden by no class.
    pub fn ensure_access(&self, access: Access, path: &str) -> (r: Result<(), AgentError>)
        ensures
            match access_verdict(*self, access, path@) {
                None => r is Ok,
                Some(m) => r matches Err(AgentError::Denied(s)) && s@ == m,
            },
    {
        let checked = match access {
            Access::Read => ensure_in_roots(path, &self.readable_roots, "read"),
            Access::Write => ensure_in_roots(path, &self.writable_roots, "write"),
            Access::Create => ensure_in_roots(path, &self.creatable_roots, "create"),
            Access::Delete => ensure_in_roots(path, &self.deletable_roots, "delete"),
        };
        match checked {
            Ok(()) => ensure_not_forbidden(path, self),
            Err(e) => Err(e),
        }
    }

    /// Checks that a read of `limit` bytes stays within the policy.
    pub fn ensure_read_limit(&self, limit: u64) -> (r: Result<(), AgentError>)
        ensures
            limit <= self.max_read_bytes ==> r is Ok,
            limit > self.max_read_bytes ==> (r matches Err(AgentError::Sandbox(m)) && m@ == "read limit "@ + decimal(
                limit as nat,
            ) + " exceeds policy max "@ + decimal(self.max_read_bytes as nat)),
    {
        if limit <= self.max_read_bytes {
            return Ok(());
        }
        Err(AgentError::Sandbox(over_limit("read limit ", limit, self.max_read_bytes)))
    }

    /// Checks that a write of `size` bytes stays within the policy.
    pub fn ensure_write_size(&self, size: u64) -> (r: Result<(), AgentError>)
        ensures
            size <= self.max_write_bytes ==> r is Ok,
            size > self.max_write_bytes ==> (r matches Err(AgentError::Sandbox(m)) && m@ == "write size "@ + decimal(
                size as nat,
            ) + " exceeds policy max "@ + decimal(self.max_write_bytes as nat)),
    {
        if size <= self.max_write_bytes {
            return Ok(());
        }
        Err(AgentError::Sandbox(over_limit("write size ", size, self.max_write_bytes)))
    }
}

/// `what`, the amount, and the policy's maximum.
fn over_limit(what: &str, amount: u64, max: u64) -> (r: String)
    ensures
        r@ == what@ + decimal(amount as nat) + " exceeds policy max "@ + decimal(max as nat),
{
    let mut v: Vec<char> = Vec::new();
    push_str(&mut v, what);
    let a = decimal_chars(amount);
    crate::text::push_chars(&mut v, &a);
    push_str(&mut v, " exceeds policy max ");
    let m = decimal_chars(max);
    crate::text::push_chars(&mut v, &m);
    string_from_chars(&v)
}

/// The host directories under the user's home that may never serve as
/// the sandbox root.
pub open spec fn home_activation_dirs() -> Seq<Seq<char>> {
    seq![".config/autostart"@, ".config/systemd/user"@, ".local/share/systemd/user"@, "Library/LaunchAgents"@, "Library/LoginItems"@]
}

/// The absolute host directories that may never serve as the sandbox
/// root.
pub open spec fn absolute_activation_dirs() -> Seq<Seq<char>> {
    seq![
        "/Library/LaunchAgents"@,
        "/Library/LaunchDaemons"@,
        "/System/Library/LaunchAgents"@,
        "/System/Library/LaunchDaemons"@,
        "/etc/systemd/system"@,
        "/etc/xdg/autostart"@,
    ]
}

/// A host path compared by its components: whether it is absolute, and
/// its non-empty segments.
pub open spec fn same_host_path(a: Seq<char>, b: Seq<char>) -> bool {
    (a.len() > 0 && a[0] == '/') == (b.len() > 0 && b[0] == '/') && segments(a) == segments(b)
}

/// Whether host path `a` lies at or below `b`, by components.
pub open spec fn host_under(a: Seq<char>, b: Seq<char>) -> bool {
    (a.len() > 0 && a[0] == '/') == (b.len() > 0 && b[0] == '/') && under(a, b)
}

/// Why a host directory may not serve as the sandbox root: it is the
/// user's home, or lies under an activation directory.
pub open spec fn root_refusal(root: Seq<char>, home: Option<Seq<char>>) -> Option<Seq<char>> {
    let ambient = "sandbox root '"@ + root + "' must not map to ambient host activation paths"@;
    match home {
        Some(h) if same_host_path(root, h) => Some("sandbox root '"@ + root + "' must not be the real user home directory"@),
        Some(h) if exists|i: int| 0 <= i < 5 && host_under(root, h + "/"@ + #[trigger] home_activation_dirs()[i]) => Some(ambient),
        _ => if exists|i: int| 0 <= i < 6 && host_under(root, #[trigger] absolute_activation_dirs()[i]) {
            Some(ambient)
        } else {
            None
        },
    }
}

/// Whether `p` is absolute.
fn is_absolute(p: &str) -> (r: bool)
    ensures
        r == (p@.len() > 0 && p@[0] == '/'),
{
    let cs = chars_of(p);
    cs.len() > 0 && cs[0] == '/'
}

/// Whether host path `a` lies at or below `b`.
fn host_path_under(a: &str, b: &str) -> (r: bool)
    ensures
        r == host_under(a@, b@),
{
    is_absolute(a) == is_absolute(b) && path_starts_with(a, b)
}

/// Whether `root` lies at or below `home` joined with `suffix`.
fn under_home(root: &str, home: &str, suffix: &str) -> (r: bool)
    ensures
        r == host_under(root@, home@ + "/"@ + suffix@),
{
    let mut j: Vec<char> = Vec::new();
    push_str(&mut j, home);
    push_str(&mut j, "/");
    push_str(&mut j, suffix);
    let joined = string_from_chars(&j);
    host_path_under(root, joined.as_str())
}

/// The refusal of a sandbox root, as a sandbox error.
fn root_error(root: &str, rest: &str) -> (r: Result<(), AgentError>)
    ensures
        r matches Err(AgentError::Sandbox(m)) && m@ == "sandbox root '"@ + root@ + rest@,
{
    let mut m: Vec<char> = Vec::new();
    push_str(&mut m, "sandbox root '");
    push_str(&mut m, root);
    push_str(&mut m, rest);
    Err(AgentError::Sandbox(string_from_chars(&m)))
}

/// Checks that host directory `root` may serve as the sandbox root, given
/// the user's home directory when it is known.
pub fn validate_local_root(root: &str, home: Option<&str>) -> (r: Result<(), AgentError>)
    ensures
        match root_refusal(root@, match home {
            Some(h) => Some(h@),
            None => None,
        }) {
            None => r is Ok,
            Some(m) => r matches Err(AgentError::Sandbox(s)) && s@ == m,
        },
{
    proof {
        reveal_strlit(".config/autostart");
        reveal_strlit(".config/systemd/user");
        reveal_strlit(".local/share/systemd/user");
        reveal_strlit("Library/LaunchAgents");
        reveal_strlit("Library/LoginItems");
    }
    let ghost dirs = home_activation_dirs();
    let ghost abs = absolute_activation_dirs();
    match home {
        Some(h) => {
            let same = is_absolute(root) == is_absolute(h) && path_starts_with(root, h) && path_starts_with(h, root);
            proof {
                if same {
                    assert(segments(root@).is_prefix_of(segments(h@)));
                    assert(segments(h@).is_prefix_of(segments(root@)));
                    assert(segments(root@) =~= segments(h@));
                }
            }
            if same {
                return root_error(root, "' must not be the real user home directory");
            }
            let b0 = under_home(root, h, ".config/autostart");
            let b1 = under_home(root, h, ".config/systemd/user");
            let b2 = under_home(root, h, ".local/share/systemd/user");
            let b3 = under_home(root, h, "Library/LaunchAgents");
            let b4 = under_home(root, h, "Library/LoginItems");
            proof {
                assert(dirs[0] == ".config/autostart"@);
                assert(dirs[1] == ".config/systemd/user"@);
                assert(dirs[2] == ".local/share/systemd/user"@);
                assert(dirs[3] == "Library/LaunchAgents"@);
                assert(dirs[4] == "Library/LoginItems"@);
                if b0 || b1 || b2 || b3 || b4 {
                    let i: int = if b0 { 0 } else if b1 { 1 } else if b2 { 2 } else if b3 { 3 } else { 4 };
                    assert(host_under(root@, h@ + "/"@ + dirs[i]));
                } else {
                    assert forall|i: int| 0 <= i < 5 implies !host_under(root@, h@ + "/"@ + #[trigger] dirs[i]) by {
                        if i == 0 {} else if i == 1 {} else if i == 2 {} else if i == 3 {} else {}
                    }
                }
            }
            if b0 || b1 || b2 || b3 || b4 {
                return root_error(root, "' must not map to ambient host activation paths");
            }
        },
        None => {},
    }
    let a0 = host_path_under(root, "/Library/LaunchAgents");
    let a1 = host_path_under(root, "/Library/LaunchDaemons");
    let a2 = host_path_under(root, "/System/Library/LaunchAgents");
    let a3 = host_path_under(root, "/System/Library/LaunchDaemons");
    let a4 = host_path_under(root, "/etc/systemd/system");
    let a5 = host_path_under(root, "/etc/xdg/autostart");
    proof {
        assert(abs[0] == "/Library/LaunchAgents"@);
        assert(abs[1] == "/Library/LaunchDaemons"@);
        assert(abs[2] == "/System/Library/LaunchAgents"@);
        assert(abs[3] == "/System/Library/LaunchDaemons"@);
        assert(abs[4] == "/etc/systemd/system"@);
        assert(abs[5] == "/etc/xdg/autostart"@);
        if a0 || a1 || a2 || a3 || a4 || a5 {
            let i: int = if a0 { 0 } else if a1 { 1 } else if a2 { 2 } else if a3 { 3 } else if a4 { 4 } else { 5 };
            assert(host_under(root@, abs[i]));
        } else {
            assert forall|i: int| 0 <= i < 6 implies !host_under(root@, #[trigger] abs[i]) by {
                if i == 0 {} else if i == 1 {} else if i == 2 {} else if i == 3 {} else if i == 4 {} else {}
            }
        }
    }
    if a0 || a1 || a2 || a3 || a4 || a5 {
        return root_error(root, "' must not map to ambient host activation paths");
    }
    Ok(())
}

} // verus!
