//! The provider-visible context of a turn: a leading system message with
//! the role prompt, then the mounted workspace projection as a separate
//! user message.

use vstd::prelude::*;
use crate::compute::source::{replace_all, replaced_all};
use crate::memory::{retained, same_message, same_messages, Message, Role, WorkingMemory};
use crate::text::{chars_of, push_str, string_from_chars, trim};
use crate::workspace::model::AllocationPlan;
use crate::workspace::render::{clamp_text_to_budget, clamped_text};
use crate::workspace::stack::{projected_stack, render_projected_stack, StackTicket};

verus! {

/// The values the base prompt's placeholders take.
#[derive(Debug)]
pub struct PromptFields {
    pub recent_actions: String,
    pub local_time: String,
    pub local_date: String,
    pub weekday: String,
    pub offset: String,
    pub saved_locations: String,
}

/// The base prompt with each placeholder replaced, in order.
pub open spec fn filled_prompt(base: Seq<char>, f: PromptFields) -> Seq<char> {
    let a = replaced_all(base, "{recent_actions_str}"@, f.recent_actions@, 0);
    let b = replaced_all(a, "{local_time}"@, f.local_time@, 0);
    let c = replaced_all(b, "{local_date}"@, f.local_date@, 0);
    let d = replaced_all(c, "{weekday}"@, f.weekday@, 0);
    let e = replaced_all(d, "{offset}"@, f.offset@, 0);
    replaced_all(e, "{saved_locations_str}"@, f.saved_locations@, 0)
}

/// The system message: the base prompt with its placeholders filled,
/// within the prompt budget.
pub fn compose_workspace_system_message(base_prompt: &str, memory: &WorkingMemory, fields: &PromptFields) -> (r: String)
    ensures
        r@ == clamped_text(filled_prompt(base_prompt@, *fields), memory.workspace.budget.prompt_budget as nat),
{
    proof {
        reveal_strlit("{recent_actions_str}");
        reveal_strlit("{local_time}");
        reveal_strlit("{local_date}");
        reveal_strlit("{weekday}");
        reveal_strlit("{offset}");
        reveal_strlit("{saved_locations_str}");
    }
    let s0 = chars_of(base_prompt);
    let s1 = replace_all(&s0, "{recent_actions_str}", fields.recent_actions.as_str());
    let s2 = replace_all(&s1, "{local_time}", fields.local_time.as_str());
    let s3 = replace_all(&s2, "{local_date}", fields.local_date.as_str());
    let s4 = replace_all(&s3, "{weekday}", fields.weekday.as_str());
    let s5 = replace_all(&s4, "{offset}", fields.offset.as_str());
    let s6 = replace_all(&s5, "{saved_locations_str}", fields.saved_locations.as_str());
    let text = string_from_chars(&s6);
    clamp_text_to_budget(text.as_str(), memory.workspace.budget.prompt_budget)
}

/// The label of a role in the short-term kernel.
pub open spec fn role_label(r: Role) -> Seq<char> {
    match r {
        Role::System => "system"@,
        Role::User => "user"@,
        Role::Assistant => "assistant"@,
        Role::Tool => "tool"@,
    }
}

/// The kernel line of a message: its role and content, nothing for a
/// blank content.
pub open spec fn kernel_line(m: Message) -> Seq<char> {
    let t = match m.content {
        Some(s) => s@,
        None => Seq::empty(),
    };
    if trim(t).len() > 0 {
        "- "@ + role_label(m.role) + ": "@ + t + "\n"@
    } else {
        Seq::empty()
    }
}

/// The kernel lines of `ms`, in order.
pub open spec fn kernel_lines(ms: Seq<Message>) -> Seq<char>
    decreases ms.len(),
{
    if ms.len() == 0 {
        Seq::empty()
    } else {
        kernel_lines(ms.drop_last()) + kernel_line(ms.last())
    }
}

/// The short-term kernel: its policy and guarantee, then the retained
/// messages.
pub open spec fn kernel_text(ms: Seq<Message>) -> Seq<char> {
    "SHORT-TERM KERNEL\npolicy: v1_last_user_goal_pinned\nguarantee: latest user message remains mounted even under pressure\n"@
        + kernel_lines(ms)
}

/// The mounted app blocks, each followed by a newline.
pub open spec fn blocks_text(blocks: Seq<(crate::workspace::model::AppId, String)>) -> Seq<char>
    decreases blocks.len(),
{
    if blocks.len() == 0 {
        Seq::empty()
    } else {
        blocks_text(blocks.drop_last()) + blocks.last().1@ + "\n"@
    }
}

/// The workspace regions: the projected stack, the dock, the near
/// events, and the mounted app blocks of `plan`.
pub open spec fn regions_text(stack: Seq<char>, plan: AllocationPlan) -> Seq<char> {
    stack + "\n"@ + plan.dock_content@ + "\n"@ + plan.near_event_content@ + "\n"@ + blocks_text(plan.selected_app_contents@)
}

/// The projection: the kernel of the retained messages, then the regions.
pub open spec fn projection_text(memory: WorkingMemory, stack: Seq<char>, plan: AllocationPlan) -> Seq<char> {
    kernel_text(retained(memory.messages@, memory.workspace.budget.short_term_budget as int)) + "\n"@
        + regions_text(stack, plan)
}

/// The budget of the projection: the short-term, dock, near-event and app
/// budgets together.
pub open spec fn projection_budget(memory: WorkingMemory) -> int {
    memory.workspace.budget.short_term_budget + memory.workspace.budget.dock_budget
        + memory.workspace.budget.near_event_budget + memory.workspace.budget.app_budget
}

/// Messages that are the same have the same kernel lines.
proof fn lemma_kernel_same(a: Seq<Message>, b: Seq<Message>)
    requires
        same_messages(a, b),
    ensures
        kernel_lines(a) == kernel_lines(b),
    decreases a.len(),
{
    if a.len() > 0 {
        assert(same_message(a.last(), b.last()) ) by {
            assert(same_messages(a, b));
        }
        lemma_kernel_same(a.drop_last(), b.drop_last());
    }
}

/// The kernel lines of `ms`.
fn kernel_chars(ms: &Vec<Message>) -> (r: Vec<char>)
    ensures
        r@ == kernel_lines(ms@),
{
    let mut out: Vec<char> = Vec::new();
    let mut i: usize = 0;
    while i < ms.len()
        invariant
            i <= ms@.len(),
            out@ == kernel_lines(ms@.take(i as int)),
        decreases ms@.len() - i,
    {
        assert(ms@.take(i + 1).drop_last() =~= ms@.take(i as int));
        let m = &ms[i];
        match &m.content {
            Some(t) => {
                let cs = chars_of(t.as_str());
                let tr = crate::text::trim_chars(&cs);
                if tr.len() > 0 {
                    push_str(&mut out, "- ");
                    let label = match m.role {
                        Role::System => "system",
                        Role::User => "user",
                        Role::Assistant => "assistant",
                        Role::Tool => "tool",
                    };
                    push_str(&mut out, label);
                    push_str(&mut out, ": ");
                    push_str(&mut out, t.as_str());
                    push_str(&mut out, "\n");
                }
            },
            None => {
                assert(trim(Seq::<char>::empty()) =~= Seq::<char>::empty()) by {
                    reveal_with_fuel(crate::text::leading_ws, 1);
                    reveal_with_fuel(crate::text::trailing_ws, 1);
                }
            },
        }
        i = i + 1;
        assert(out@ =~= kernel_lines(ms@.take(i as int)));
    }
    assert(ms@.take(ms@.len() as int) =~= ms@);
    out
}

/// The projected stack region of `memory`'s context: `tickets` within a
/// third of the app budget.
pub open spec fn stack_region(memory: WorkingMemory, tickets: Seq<StackTicket>) -> Seq<char> {
    projected_stack(tickets, (memory.workspace.budget.app_budget / 3) as nat)
}

/// The mounted workspace projection, within the projection budget: the
/// short-term kernel, the projected stack of `tickets`, and the regions of
/// `plan`.
pub fn compose_workspace_projection_message(memory: &WorkingMemory, tickets: &Vec<StackTicket>, plan: &AllocationPlan) -> (r: String)
    requires
        projection_budget(*memory) <= usize::MAX,
    ensures
        r@ == clamped_text(projection_text(*memory, stack_region(*memory, tickets@), *plan), projection_budget(*memory) as nat),
{
    let rendered = render_projected_stack(tickets, memory.workspace.budget.app_budget / 3);
    let stack = rendered.as_str();
    let kept = memory.workspace.render_short_term_messages(&memory.messages);
    proof {
        lemma_kernel_same(kept@, retained(memory.messages@, memory.workspace.budget.short_term_budget as int));
    }
    let mut out: Vec<char> = Vec::new();
    push_str(&mut out, "SHORT-TERM KERNEL\npolicy: v1_last_user_goal_pinned\nguarantee: latest user message remains mounted even under pressure\n");
    let lines = kernel_chars(&kept);
    crate::text::push_chars(&mut out, &lines);
    push_str(&mut out, "\n");
    push_str(&mut out, stack);
    push_str(&mut out, "\n");
    push_str(&mut out, plan.dock_content.as_str());
    push_str(&mut out, "\n");
    push_str(&mut out, plan.near_event_content.as_str());
    push_str(&mut out, "\n");
    let ghost head = out@;
    let mut i: usize = 0;
    while i < plan.selected_app_contents.len()
        invariant
            i <= plan.selected_app_contents@.len(),
            out@ == head + blocks_text(plan.selected_app_contents@.take(i as int)),
        decreases plan.selected_app_contents@.len() - i,
    {
        assert(plan.selected_app_contents@.take(i + 1).drop_last() =~= plan.selected_app_contents@.take(i as int));
        push_str(&mut out, plan.selected_app_contents[i].1.as_str());
        push_str(&mut out, "\n");
        i = i + 1;
        assert(out@ =~= head + blocks_text(plan.selected_app_contents@.take(i as int)));
    }
    assert(plan.selected_app_contents@.take(plan.selected_app_contents@.len() as int) =~= plan.selected_app_contents@);
    let b = &memory.workspace.budget;
    let budget = b.short_term_budget + b.dock_budget + b.near_event_budget + b.app_budget;
    let text = string_from_chars(&out);
    proof {
        assert(text@ =~= projection_text(*memory, stack@, *plan));
    }
    clamp_text_to_budget(text.as_str(), budget)
}

/// Builds the context of a turn from a fixed layout: the system message,
/// then the projection.
pub struct SimpleContextManager;

impl SimpleContextManager {
    /// The system message with the filled base prompt, then the user
    /// message with the workspace projection.
    pub fn construct_context(&self, base_prompt: &str, memory: &WorkingMemory, fields: &PromptFields, tickets: &Vec<StackTicket>, plan: &AllocationPlan) -> (r: Vec<Message>)
        requires
            projection_budget(*memory) <= usize::MAX,
        ensures
            r@.len() == 2,
            r@[0].role == Role::System && (r@[0].content matches Some(c) && c@ == clamped_text(
                filled_prompt(base_prompt@, *fields),
                memory.workspace.budget.prompt_budget as nat,
            )),
            r@[1].role == Role::User && (r@[1].content matches Some(c) && c@ == clamped_text(
                projection_text(*memory, stack_region(*memory, tickets@), *plan),
                projection_budget(*memory) as nat,
            )),
            forall|i: int| 0 <= i < 2 ==> (#[trigger] r@[i]).tool_calls is None && r@[i].tool_call_id is None
                && r@[i].name is None,
    {
        let system = compose_workspace_system_message(base_prompt, memory, fields);
        let projection = compose_workspace_projection_message(memory, tickets, plan);
        let mut v: Vec<Message> = Vec::new();
        v.push(Message { role: Role::System, content: Some(system), tool_calls: None, tool_call_id: None, name: None });
        v.push(Message { role: Role::User, content: Some(projection), tool_calls: None, tool_call_id: None, name: None });
        v
    }
}

} // verus!
