//! Workspace value types and the small laws of lifecycles and viewports.

use vstd::prelude::*;

verus! {

/// Token budgets of the provider-visible context regions.
#[derive(Debug, Clone, Copy, PartialEq, Eq, Structural)]
pub struct ContextBudget {
    pub usable_tokens: usize,
    pub prompt_budget: usize,
    pub short_term_budget: usize,
    pub near_event_budget: usize,
    pub dock_budget: usize,
    pub app_budget: usize,
}

impl Default for ContextBudget {
    fn default() -> (r: Self)
        ensures
            r.usable_tokens == 24_000,
            r.prompt_budget == 4_000,
            r.short_term_budget == 4_000,
            r.near_event_budget == 3_000,
            r.dock_budget == 1_000,
            r.app_budget == 12_000,
    {
        ContextBudget {
            usable_tokens: 24_000,
            prompt_budget: 4_000,
            short_term_budget: 4_000,
            near_event_budget: 3_000,
            dock_budget: 1_000,
            app_budget: 12_000,
        }
    }
}

/// The apps of the workspace dock, in dock order.
#[derive(Debug, Clone, Copy, PartialEq, Eq, Structural, Hash, PartialOrd, Ord)]
pub enum AppId {
    Scratchpad,
    WebSearch,
    StackSearch,
    Compute,
    Cli,
    FileTree,
    Editor,
    FileSearch,
    Jobs,
}

/// Position of an app in dock order.
pub open spec fn app_index(app: AppId) -> nat {
    match app {
        AppId::Scratchpad => 0,
        AppId::WebSearch => 1,
        AppId::StackSearch => 2,
        AppId::Compute => 3,
        AppId::Cli => 4,
        AppId::FileTree => 5,
        AppId::Editor => 6,
        AppId::FileSearch => 7,
        AppId::Jobs => 8,
    }
}

/// All apps, in dock order.
pub open spec fn dock_order() -> Seq<AppId> {
    seq![
        AppId::Scratchpad,
        AppId::WebSearch,
        AppId::StackSearch,
        AppId::Compute,
        AppId::Cli,
        AppId::FileTree,
        AppId::Editor,
        AppId::FileSearch,
        AppId::Jobs,
    ]
}

/// Each app stands at its own index of the dock order.
pub proof fn dock_order_indexes(app: AppId)
    ensures
        dock_order().len() == 9,
        app_index(app) < 9,
        dock_order()[app_index(app) as int] == app,
{
}

/// The stable label of an app.
pub open spec fn label_of(app: AppId) -> Seq<char> {
    match app {
        AppId::Scratchpad => "scratchpad"@,
        AppId::WebSearch => "websearch"@,
        AppId::StackSearch => "stack-search"@,
        AppId::Compute => "compute"@,
        AppId::Cli => "cli"@,
        AppId::FileTree => "file-tree"@,
        AppId::Editor => "editor"@,
        AppId::FileSearch => "file-search"@,
        AppId::Jobs => "jobs"@,
    }
}

impl AppId {
    /// The stable label of the app.
    pub fn label(self) -> (r: &'static str)
        ensures
            r@ == label_of(self),
    {
        match self {
            AppId::Scratchpad => "scratchpad",
            AppId::WebSearch => "websearch",
            AppId::StackSearch => "stack-search",
            AppId::Compute => "compute",
            AppId::Cli => "cli",
            AppId::FileTree => "file-tree",
            AppId::Editor => "editor",
            AppId::FileSearch => "file-search",
            AppId::Jobs => "jobs",
        }
    }
}

/// Whether an app can be used: every app but web search always is; web
/// search only when a web search provider is configured.
pub open spec fn available(app: AppId, web_search_available: bool) -> bool {
    app != AppId::WebSearch || web_search_available
}

/// Whether `app_id` is available, given whether a web search provider is
/// configured (a fact of the process environment, read by the host).
pub fn app_is_available(app_id: AppId, web_search_available: bool) -> (r: bool)
    ensures
        r == available(app_id, web_search_available),
{
    match app_id {
        AppId::Scratchpad
        | AppId::StackSearch
        | AppId::Compute
        | AppId::Cli
        | AppId::FileTree
        | AppId::Editor
        | AppId::FileSearch
        | AppId::Jobs => true,
        AppId::WebSearch => web_search_available,
    }
}

/// All apps, in dock order.
pub fn all_app_ids() -> (r: [AppId; 9])
    ensures
        r@ == dock_order(),
{
    let r = [
        AppId::Scratchpad,
        AppId::WebSearch,
        AppId::StackSearch,
        AppId::Compute,
        AppId::Cli,
        AppId::FileTree,
        AppId::Editor,
        AppId::FileSearch,
        AppId::Jobs,
    ];
    assert(r@ =~= dock_order());
    r
}

/// The lifecycle of an app in the dock.
#[derive(Debug, Clone, Copy, PartialEq, Eq, Structural)]
pub enum AppLifecycle {
    InstalledClosed,
    OpenUnmounted,
    OpenMounted,
    OpenMountedFocused,
}

impl AppLifecycle {
    /// Every lifecycle but `InstalledClosed` is open.
    pub fn is_open(self) -> (r: bool)
        ensures
            r == (self != AppLifecycle::InstalledClosed),
    {
        !matches!(self, AppLifecycle::InstalledClosed)
    }

    /// Only `OpenMountedFocused` is focused.
    pub fn is_focused(self) -> (r: bool)
        ensures
            r == (self == AppLifecycle::OpenMountedFocused),
    {
        matches!(self, AppLifecycle::OpenMountedFocused)
    }
}

/// How prominent an app is when viewports are allocated.
#[derive(Debug, Clone, Copy, PartialEq, Eq, Structural)]
pub enum AppPriorityClass {
    Foreground,
    Supporting,
    Background,
}

/// The size tier of a viewport candidate.
#[derive(Debug, Clone, Copy, PartialEq, Eq, Structural)]
pub enum ViewportTier {
    Minimal,
    Preferred,
}

/// A window of lines: the first visible line and how many are shown.
#[derive(Debug, Clone, Copy, PartialEq, Eq, Structural)]
pub struct TextViewport {
    pub start_line: usize,
    pub line_count: usize,
}

/// A viewport clamped to a text of `total` lines: at least one line is
/// shown, and the start lies on a line of the text (or at 0 when it is empty).
pub open spec fn clamped(v: TextViewport, total: nat) -> TextViewport {
    TextViewport {
        start_line: if total == 0 {
            0
        } else if v.start_line < total {
            v.start_line
        } else {
            (total - 1) as usize
        },
        line_count: if v.line_count < 1 {
            1
        } else {
            v.line_count
        },
    }
}

impl TextViewport {
    /// A viewport starting at `start_line` showing `line_count` lines.
    pub fn new(start_line: usize, line_count: usize) -> (r: Self)
        ensures
            r.start_line == start_line,
            r.line_count == line_count,
    {
        TextViewport { start_line, line_count }
    }

    /// The viewport clamped to a text of `total_lines` lines.
    pub fn clamp(self, total_lines: usize) -> (r: Self)
        ensures
            r == clamped(self, total_lines as nat),
    {
        let line_count = if self.line_count < 1 {
            1
        } else {
            self.line_count
        };
        let start_line = if total_lines == 0 {
            0
        } else if self.start_line < total_lines - 1 {
            self.start_line
        } else {
            total_lines - 1
        };
        TextViewport { start_line, line_count }
    }
}

/// Clamping is idempotent, keeps at least one line, and puts the start on a
/// line of a non-empty text.
pub proof fn clamp_laws(v: TextViewport, total: nat)
    requires
        total <= usize::MAX,
    ensures
        clamped(clamped(v, total), total) == clamped(v, total),
        clamped(v, total).line_count >= 1,
        total > 0 ==> clamped(v, total).start_line < total,
        total == 0 ==> clamped(v, total).start_line == 0,
{
}

/// The start line after scrolling by `delta`: saturating at 0 and at
/// `usize::MAX`.
pub open spec fn scrolled_start(start: usize, delta: isize) -> usize {
    if start + delta < 0 {
        0
    } else if start + delta > usize::MAX {
        usize::MAX
    } else {
        (start + delta) as usize
    }
}

/// A viewport scrolled by `delta` lines and clamped to `total_lines`.
pub fn scroll_viewport(viewport: TextViewport, delta: isize, total_lines: usize) -> (r:
    TextViewport)
    ensures
        r == clamped(
            TextViewport {
                start_line: scrolled_start(viewport.start_line, delta),
                line_count: viewport.line_count,
            },
            total_lines as nat,
        ),
{
    let moved = if delta < 0 {
        let magnitude: usize = ((0 - (delta + 1)) as usize) + 1;
        if viewport.start_line < magnitude {
            0
        } else {
            viewport.start_line - magnitude
        }
    } else {
        let step: usize = delta as usize;
        if viewport.start_line > usize::MAX - step {
            usize::MAX
        } else {
            viewport.start_line + step
        }
    };
    TextViewport::new(moved, viewport.line_count).clamp(total_lines)
}

/// A lifecycle with focus removed: a focused app stays mounted.
pub open spec fn demoted(l: AppLifecycle) -> AppLifecycle {
    if l == AppLifecycle::OpenMountedFocused {
        AppLifecycle::OpenMounted
    } else {
        l
    }
}

/// Removes focus from a lifecycle.
pub fn demote_focus(lifecycle: AppLifecycle) -> (r: AppLifecycle)
    ensures
        r == demoted(lifecycle),
{
    match lifecycle {
        AppLifecycle::OpenMountedFocused => AppLifecycle::OpenMounted,
        _ => lifecycle,
    }
}

/// The focused app is in the foreground; every other app supports it.
pub open spec fn priority_of(focused_app: AppId, app_id: AppId) -> AppPriorityClass {
    if focused_app == app_id {
        AppPriorityClass::Foreground
    } else {
        AppPriorityClass::Supporting
    }
}

/// The priority class of `app_id` when `focused_app` has focus.
pub fn priority_class(focused_app: AppId, app_id: AppId) -> (r: AppPriorityClass)
    ensures
        r == priority_of(focused_app, app_id),
{
    if focused_app == app_id {
        AppPriorityClass::Foreground
    } else {
        AppPriorityClass::Supporting
    }
}

/// Base utility of a priority class: 300, 150 and 50.
pub open spec fn utility_of(priority: AppPriorityClass) -> i64 {
    match priority {
        AppPriorityClass::Foreground => 300,
        AppPriorityClass::Supporting => 150,
        AppPriorityClass::Background => 50,
    }
}

/// Base utility of a priority class.
pub fn base_utility(priority: AppPriorityClass) -> (r: i64)
    ensures
        r == utility_of(priority),
{
    match priority {
        AppPriorityClass::Foreground => 300,
        AppPriorityClass::Supporting => 150,
        AppPriorityClass::Background => 50,
    }
}

/// The lifecycle an open app takes after a mount decision: focused when it
/// has focus and is mounted, mounted, or unmounted; closed apps stay closed.
pub open spec fn mount_synced(l: AppLifecycle, app_id: AppId, focused_app: AppId, mounted: bool) -> AppLifecycle {
    if l == AppLifecycle::InstalledClosed {
        l
    } else if focused_app == app_id && mounted {
        AppLifecycle::OpenMountedFocused
    } else if mounted {
        AppLifecycle::OpenMounted
    } else {
        AppLifecycle::OpenUnmounted
    }
}

/// Whether `apps` holds `app`.
pub fn holds_app(apps: &Vec<AppId>, app: AppId) -> (r: bool)
    ensures
        r == apps@.contains(app),
{
    let mut i: usize = 0;
    while i < apps.len()
        invariant
            i <= apps.len(),
            forall|j: int| 0 <= j < i ==> apps@[j] != app,
        decreases apps.len() - i,
    {
        if apps[i] == app {
            return true;
        }
        i = i + 1;
    }
    false
}

/// Brings an app's lifecycle in line with the mounted set and the focus.
pub fn sync_app_mount_state(
    lifecycle: &mut AppLifecycle,
    app_id: AppId,
    focused_app: AppId,
    mounted_apps: &Vec<AppId>,
)
    ensures
        *final(lifecycle) == mount_synced(
            *old(lifecycle),
            app_id,
            focused_app,
            mounted_apps@.contains(app_id),
        ),
{
    if !lifecycle.is_open() {
        return;
    }
    let mounted = holds_app(mounted_apps, app_id);
    *lifecycle = if focused_app == app_id && mounted {
        AppLifecycle::OpenMountedFocused
    } else if mounted {
        AppLifecycle::OpenMounted
    } else {
        AppLifecycle::OpenUnmounted
    };
}

/// What the dock shows: the focused app and the mounted apps, in dock order.
#[derive(Debug, Clone, PartialEq, Eq)]
pub struct DockState {
    pub focused_app: AppId,
    pub mounted_apps: Vec<AppId>,
}

/// A list of apps in strictly increasing dock order (so without repeats).
pub open spec fn in_dock_order(apps: Seq<AppId>) -> bool {
    forall|i: int, j: int| 0 <= i < j < apps.len() ==> app_index(apps[i]) < app_index(apps[j])
}

impl Default for DockState {
    fn default() -> (r: Self)
        ensures
            r.focused_app == AppId::Scratchpad,
            r.mounted_apps@ == seq![AppId::Scratchpad],
    {
        let mut mounted_apps: Vec<AppId> = Vec::new();
        mounted_apps.push(AppId::Scratchpad);
        DockState { focused_app: AppId::Scratchpad, mounted_apps }
    }
}

/// The kind of a search app.
#[derive(Debug, Clone, Copy, PartialEq, Eq, Structural)]
pub enum SearchAppKind {
    Web,
    Stack,
}

/// Severity of an editor diagnostic.
#[derive(Debug, Clone, Copy, PartialEq, Eq, Structural)]
pub enum EditorDiagnosticSeverity {
    Hint,
    Information,
    Warning,
    Error,
}

/// A stack item surfaced because it is scheduled soon or urgent.
#[derive(Debug, Clone, PartialEq, Eq)]
pub struct NearEventItem {
    pub ticket_id: String,
    pub title: String,
    pub reason: String,
    pub timestamp_iso: Option<String>,
}

/// One way of mounting an app into the context: a tier, whether it must be
/// mounted, its utility, its cost in tokens and its rendered content.
#[derive(Debug, Clone, PartialEq, Eq)]
pub struct ViewportCandidate {
    pub app_id: AppId,
    pub tier: ViewportTier,
    pub mandatory: bool,
    pub utility: i64,
    pub cost_tokens: usize,
    pub content: String,
}

impl ViewportCandidate {
    /// A field-by-field copy.
    pub fn duplicate(&self) -> (r: Self)
        ensures
            r == *self,
    {
        ViewportCandidate {
            app_id: self.app_id,
            tier: self.tier,
            mandatory: self.mandatory,
            utility: self.utility,
            cost_tokens: self.cost_tokens,
            content: self.content.clone(),
        }
    }
}

/// The outcome of viewport allocation: the rendered dock and near-event
/// regions, the mounted app contents in order, and the mounted apps.
#[derive(Debug, Clone, PartialEq, Eq)]
pub struct AllocationPlan {
    pub dock_content: String,
    pub near_event_content: String,
    pub selected_app_contents: Vec<(AppId, String)>,
    pub mounted_apps: Vec<AppId>,
}

/// The scratchpad app: a document the agent writes into.
#[derive(Debug, Clone, PartialEq, Eq)]
pub struct ScratchpadApp {
    pub lifecycle: AppLifecycle,
    pub pinned: bool,
    pub viewport: TextViewport,
    pub document_lines: Vec<String>,
}

impl Default for ScratchpadApp {
    fn default() -> (r: Self)
        ensures
            r.lifecycle == AppLifecycle::OpenMountedFocused,
            r.pinned,
            r.viewport == (TextViewport { start_line: 0, line_count: 16 }),
            r.document_lines@.len() == 1,
            r.document_lines@[0]@ == "# Scratchpad"@,
    {
        let mut document_lines: Vec<String> = Vec::new();
        document_lines.push(String::from_str("# Scratchpad"));
        ScratchpadApp {
            lifecycle: AppLifecycle::OpenMountedFocused,
            pinned: true,
            viewport: TextViewport::new(0, 16),
            document_lines,
        }
    }
}

} // verus!
