//! The projected stack and the recent sync actions as the context shows
//! them.

use vstd::prelude::*;
use crate::json::{int_text, integer_text};
use crate::text::{chars_of, join, join_strings, push_chars, push_str, string_from_chars, views};
use crate::workspace::render::{clamp_text_to_budget, clamped_text};

verus! {

/// The kind of a ticket.
#[derive(Debug, Clone, Copy, PartialEq, Eq)]
pub enum TicketType {
    Task,
    Habit,
    Event,
    Commute,
    Countdown,
}

/// Where a ticket stands.
#[derive(Debug, Clone, Copy, PartialEq, Eq)]
pub enum TicketStatus {
    Idle,
    InFocus,
    Completed,
    Expired,
}

/// A ticket of the projected stack, as the context shows it.
#[derive(Debug, Clone)]
pub struct StackTicket {
    pub id: String,
    pub ticket_type: TicketType,
    pub status: TicketStatus,
    pub title: String,
    /// The scheduled time of the ticket's shared schedule, where it has one.
    pub scheduled_time_iso: Option<String>,
}

/// A pending sync action, as the recent-actions list shows it.
#[derive(Debug, Clone)]
pub struct RecentAction {
    /// The name of the action's type (`Create`, `Update`, ...).
    pub action_type: String,
    /// The title of the action's payload, where it has one.
    pub title: Option<String>,
    pub entity_type: String,
    pub timestamp: i64,
}

/// The label of a ticket type.
pub open spec fn type_label(t: TicketType) -> Seq<char> {
    match t {
        TicketType::Task => "TASK"@,
        TicketType::Habit => "HABIT"@,
        TicketType::Event => "EVENT"@,
        TicketType::Commute => "COMMUTE"@,
        TicketType::Countdown => "COUNTDOWN"@,
    }
}

/// The label of a ticket status.
pub open spec fn status_label(s: TicketStatus) -> Seq<char> {
    match s {
        TicketStatus::Idle => "idle"@,
        TicketStatus::InFocus => "in_focus"@,
        TicketStatus::Completed => "completed"@,
        TicketStatus::Expired => "expired"@,
    }
}

/// The first eight characters of an id.
pub open spec fn short_id(id: Seq<char>) -> Seq<char> {
    if id.len() <= 8 {
        id
    } else {
        id.take(8)
    }
}

/// The line of one ticket: type, status, title, scheduled time where
/// there is one, and the shortened id.
pub open spec fn stack_line(t: StackTicket) -> Seq<char> {
    "- "@ + type_label(t.ticket_type) + " :: "@ + status_label(t.status) + " :: "@ + t.title@
        + match t.scheduled_time_iso {
            Some(s) => " @ "@ + s@,
            None => Seq::<char>::empty(),
        }
        + " ["@ + short_id(t.id@) + "]\n"@
}

/// The lines of `ts`, in order.
pub open spec fn stack_lines(ts: Seq<StackTicket>) -> Seq<char>
    decreases ts.len(),
{
    if ts.len() == 0 {
        Seq::empty()
    } else {
        stack_lines(ts.drop_last()) + stack_line(ts.last())
    }
}

/// The projected stack region: `- none` for an empty stack, else one line
/// per ticket within the budget (never less than 256 tokens).
pub open spec fn projected_stack(ts: Seq<StackTicket>, budget_tokens: nat) -> Seq<char> {
    if ts.len() == 0 {
        "PROJECTED STACK\n- none\n"@
    } else {
        clamped_text("PROJECTED STACK\n"@ + stack_lines(ts), if budget_tokens < 256 { 256 } else { budget_tokens })
    }
}

fn type_text(t: TicketType) -> (r: &'static str)
    ensures
        r@ == type_label(t),
{
    match t {
        TicketType::Task => "TASK",
        TicketType::Habit => "HABIT",
        TicketType::Event => "EVENT",
        TicketType::Commute => "COMMUTE",
        TicketType::Countdown => "COUNTDOWN",
    }
}

fn status_text(s: TicketStatus) -> (r: &'static str)
    ensures
        r@ == status_label(s),
{
    match s {
        TicketStatus::Idle => "idle",
        TicketStatus::InFocus => "in_focus",
        TicketStatus::Completed => "completed",
        TicketStatus::Expired => "expired",
    }
}

fn push_stack_line(out: &mut Vec<char>, t: &StackTicket)
    ensures
        final(out)@ == old(out)@ + stack_line(*t),
{
    proof {
        reveal_strlit("- ");
        reveal_strlit(" :: ");
        reveal_strlit(" @ ");
        reveal_strlit(" [");
        reveal_strlit("]\n");
    }
    let ghost start = out@;
    push_str(out, "- ");
    push_str(out, type_text(t.ticket_type));
    push_str(out, " :: ");
    push_str(out, status_text(t.status));
    push_str(out, " :: ");
    push_str(out, t.title.as_str());
    match &t.scheduled_time_iso {
        Some(s) => {
            push_str(out, " @ ");
            push_str(out, s.as_str());
        },
        None => {},
    }
    push_str(out, " [");
    let id = chars_of(t.id.as_str());
    let n: usize = if id.len() <= 8 { id.len() } else { 8 };
    let mut i: usize = 0;
    let ghost mid = out@;
    while i < n
        invariant
            n <= id.len(),
            i <= n,
            out@ == mid + id@.take(i as int),
        decreases n - i,
    {
        out.push(id[i]);
        i = i + 1;
        assert(out@ =~= mid + id@.take(i as int));
    }
    assert(id@.take(n as int) =~= short_id(t.id@));
    push_str(out, "]\n");
    assert(out@ =~= start + stack_line(*t));
}

/// The projected stack region of the context: a header, then one line per
/// ticket, cut to the budget (at least 256 tokens); `- none` when the
/// stack is empty.
pub fn render_projected_stack(tickets: &Vec<StackTicket>, budget_tokens: usize) -> (r: String)
    ensures
        r@ == projected_stack(tickets@, budget_tokens as nat),
{
    proof {
        reveal_strlit("PROJECTED STACK\n- none\n");
        reveal_strlit("PROJECTED STACK\n");
    }
    if tickets.len() == 0 {
        return String::from_str("PROJECTED STACK\n- none\n");
    }
    let mut out: Vec<char> = Vec::new();
    push_str(&mut out, "PROJECTED STACK\n");
    let mut i: usize = 0;
    while i < tickets.len()
        invariant
            i <= tickets@.len(),
            out@ == "PROJECTED STACK\n"@ + stack_lines(tickets@.take(i as int)),
        decreases tickets@.len() - i,
    {
        assert(tickets@.take(i + 1).drop_last() =~= tickets@.take(i as int));
        push_stack_line(&mut out, &tickets[i]);
        i = i + 1;
    }
    assert(tickets@.take(tickets@.len() as int) =~= tickets@);
    let text = string_from_chars(&out);
    let budget: usize = if budget_tokens < 256 { 256 } else { budget_tokens };
    clamp_text_to_budget(text.as_str(), budget)
}

/// The line of one recent action.
pub open spec fn recent_line(a: RecentAction) -> Seq<char> {
    "- "@ + a.action_type@ + ": "@
        + match a.title {
            Some(t) => t@,
            None => "Unknown"@,
        }
        + " ("@ + a.entity_type@ + ") at "@ + int_text(a.timestamp as int)
}

/// The lines of the latest five actions of `s`, newest first.
pub open spec fn recent_lines(s: Seq<RecentAction>) -> Seq<Seq<char>> {
    let k: int = if s.len() < 5 { s.len() as int } else { 5 };
    Seq::new(k as nat, |i: int| recent_line(s[s.len() - 1 - i]))
}

/// The recent-actions field of the prompt: `- none`, or the lines of the
/// latest five actions, newest first, one per line.
pub open spec fn recent_actions_text(s: Seq<RecentAction>) -> Seq<char> {
    if s.len() == 0 {
        "- none"@
    } else {
        join(recent_lines(s), "\n"@)
    }
}

fn recent_line_text(a: &RecentAction) -> (r: String)
    ensures
        r@ == recent_line(*a),
{
    proof {
        reveal_strlit("- ");
        reveal_strlit(": ");
        reveal_strlit("Unknown");
        reveal_strlit(" (");
        reveal_strlit(") at ");
    }
    let mut out: Vec<char> = Vec::new();
    push_str(&mut out, "- ");
    push_str(&mut out, a.action_type.as_str());
    push_str(&mut out, ": ");
    match &a.title {
        Some(t) => push_str(&mut out, t.as_str()),
        None => push_str(&mut out, "Unknown"),
    }
    push_str(&mut out, " (");
    push_str(&mut out, a.entity_type.as_str());
    push_str(&mut out, ") at ");
    let digits = integer_text(a.timestamp as i128);
    push_chars(&mut out, &digits);
    string_from_chars(&out)
}

/// The recent sync actions as the prompt lists them: the latest five,
/// newest first, or `- none`.
pub fn render_recent_actions(pending_actions: &Vec<RecentAction>) -> (r: String)
    ensures
        r@ == recent_actions_text(pending_actions@),
{
    proof {
        reveal_strlit("- none");
        reveal_strlit("\n");
    }
    if pending_actions.len() == 0 {
        return String::from_str("- none");
    }
    let n = pending_actions.len();
    let k: usize = if n < 5 { n } else { 5 };
    let mut lines: Vec<String> = Vec::new();
    let mut i: usize = 0;
    while i < k
        invariant
            n == pending_actions@.len(),
            k <= n,
            k == (if n < 5 { n } else { 5 }),
            i <= k,
            views(lines@) =~= recent_lines(pending_actions@).take(i as int),
        decreases k - i,
    {
        let line = recent_line_text(&pending_actions[n - 1 - i]);
        let ghost before = lines@;
        assert(recent_lines(pending_actions@)[i as int] == recent_line(pending_actions@[n - 1 - i]));
        lines.push(line);
        assert(views(lines@) =~= views(before).push(line@));
        i = i + 1;
        assert(views(lines@) =~= recent_lines(pending_actions@).take(i as int));
    }
    assert(recent_lines(pending_actions@).take(k as int) =~= recent_lines(pending_actions@));
    let joined = join_strings(&lines, "\n");
    string_from_chars(&joined)
}

} // verus!
