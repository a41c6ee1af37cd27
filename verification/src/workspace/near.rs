//! The near-event kernel: the tickets scheduled within the next 72 hours
//! or marked urgent, ordered by time and title, at most eight of them.

use vstd::prelude::*;
use crate::workspace::model::NearEventItem;
use crate::workspace::state::WorkspaceState;

verus! {

/// How far ahead the kernel looks, in seconds.
pub const NEAR_EVENT_HORIZON_SECONDS: i64 = 259200;

/// The most events the kernel shows.
pub const MAX_NEAR_EVENT_ITEMS: usize = 8;

/// An instant in UTC: whole seconds since the epoch and the nanoseconds
/// past them (above a billion only within a leap second).
#[derive(Debug, Clone, Copy, PartialEq, Eq, Structural)]
pub struct UtcInstant {
    pub seconds: i64,
    pub nanos: u32,
}

/// What the kernel reads of a ticket: its id and title, when it is
/// scheduled (as an instant, and as RFC 3339 text in UTC), and whether it
/// is urgent.
#[derive(Debug)]
pub struct NearEventTicket {
    pub ticket_id: String,
    pub title: String,
    pub scheduled: Option<(UtcInstant, String)>,
    pub urgent: bool,
}

/// The instant an RFC 3339 text names, as `chrono` reads it: its seconds
/// since the epoch, the nanoseconds past them, and its RFC 3339 text in
/// UTC; nothing when the text does not parse.
pub uninterp spec fn rfc3339_instant(text: Seq<char>) -> Option<(int, int, Seq<char>)>;

/// `chrono::DateTime::parse_from_rfc3339`, its result taken to UTC and
/// given as its Unix timestamp, its `timestamp_subsec_nanos` and its
/// `to_rfc3339` text. The contract claims only that the outcome is a
/// function of the text; which texts parse and what they name is left to
/// `chrono`.
#[verifier::external_body]
fn parse_rfc3339_utc(text: &str) -> (r: Option<(UtcInstant, String)>)
    ensures
        match rfc3339_instant(text@) {
            Some(p) => r matches Some(q) && q.0.seconds as int == p.0 && q.0.nanos as int == p.1 && q.1@ == p.2,
            None => r is None,
        },
{
    match chrono::DateTime::parse_from_rfc3339(text) {
        Ok(dt) => {
            let utc = dt.with_timezone(&chrono::Utc);
            Some((UtcInstant { seconds: utc.timestamp(), nanos: utc.timestamp_subsec_nanos() }, utc.to_rfc3339()))
        },
        Err(_) => None,
    }
}

/// The instant of an optional RFC 3339 text.
pub open spec fn instant_of(text: Option<String>) -> Option<(int, int, Seq<char>)> {
    match text {
        Some(t) => rfc3339_instant(t@),
        None => None,
    }
}

/// When a ticket is scheduled: the time of its shared schedule when that
/// parses, else the expiry of a countdown when that parses.
pub open spec fn scheduled_instant(schedule_iso: Option<String>, countdown_expires_at: Option<String>) -> Option<(int, int, Seq<char>)> {
    match instant_of(schedule_iso) {
        Some(p) => Some(p),
        None => instant_of(countdown_expires_at),
    }
}

/// `r` is the optional instant `p`.
pub open spec fn instant_is(r: Option<(UtcInstant, String)>, p: Option<(int, int, Seq<char>)>) -> bool {
    match p {
        Some(x) => r matches Some(q) && q.0.seconds as int == x.0 && q.0.nanos as int == x.1 && q.1@ == x.2,
        None => r is None,
    }
}

/// The instant of an optional RFC 3339 text.
fn parse_instant(text: &Option<String>) -> (r: Option<(UtcInstant, String)>)
    ensures
        instant_is(r, instant_of(*text)),
{
    match text {
        Some(t) => parse_rfc3339_utc(t.as_str()),
        None => None,
    }
}

/// When a ticket is scheduled, as an instant and as RFC 3339 text in UTC: its shared schedule's time when that parses, else the
/// expiry of a countdown (`countdown_expires_at` is only given for
/// countdowns).
pub fn scheduled_timestamp(schedule_iso: &Option<String>, countdown_expires_at: &Option<String>) -> (r: Option<(UtcInstant, String)>)
    ensures
        instant_is(r, scheduled_instant(*schedule_iso, *countdown_expires_at)),
{
    match parse_instant(schedule_iso) {
        Some(p) => Some(p),
        None => parse_instant(countdown_expires_at),
    }
}

impl NearEventTicket {
    /// What the kernel reads of a ticket with the given schedule, countdown
    /// expiry, and urgency.
    pub fn of_ticket(
        ticket_id: String,
        title: String,
        schedule_iso: &Option<String>,
        countdown_expires_at: &Option<String>,
        urgent: bool,
    ) -> (r: NearEventTicket)
        ensures
            r.ticket_id == ticket_id && r.title == title && r.urgent == urgent,
            instant_is(r.scheduled, scheduled_instant(*schedule_iso, *countdown_expires_at)),
    {
        NearEventTicket { ticket_id, title, scheduled: scheduled_timestamp(schedule_iso, countdown_expires_at), urgent }
    }
}

/// Whether a ticket is scheduled within the horizon from `now`, to the
/// nanosecond.
pub open spec fn scheduled_soon(t: NearEventTicket, now: UtcInstant) -> bool {
    t.scheduled matches Some(s) && (s.0.seconds < now.seconds + NEAR_EVENT_HORIZON_SECONDS || (s.0.seconds
        == now.seconds + NEAR_EVENT_HORIZON_SECONDS && s.0.nanos <= now.nanos))
}

/// Whether a ticket is a near event: scheduled soon, or urgent.
pub open spec fn is_near(t: NearEventTicket, now: UtcInstant) -> bool {
    scheduled_soon(t, now) || t.urgent
}

/// `item` is the near event of ticket `t`: scheduled within the horizon
/// with its time, else urgent without one.
pub open spec fn item_is(item: NearEventItem, t: NearEventTicket, now: UtcInstant) -> bool {
    &&& item.ticket_id == t.ticket_id
    &&& item.title == t.title
    &&& if scheduled_soon(t, now) {
        item.reason@ == "scheduled_within_72h"@ && item.timestamp_iso == Some((t.scheduled->0).1)
    } else {
        item.reason@ == "urgent_priority"@ && item.timestamp_iso is None
    }
}

/// Whether text `a` comes before or equals `b`, character by character.
pub open spec fn text_le(a: Seq<char>, b: Seq<char>) -> bool
    decreases a.len(),
{
    if a.len() == 0 {
        true
    } else if b.len() == 0 {
        false
    } else if a[0] != b[0] {
        a[0] < b[0]
    } else {
        text_le(a.skip(1), b.skip(1))
    }
}

/// The order of near events: by time (an event without one first), then
/// by title.
pub open spec fn event_le(x: NearEventItem, y: NearEventItem) -> bool {
    match (x.timestamp_iso, y.timestamp_iso) {
        (None, Some(_)) => true,
        (Some(_), None) => false,
        (None, None) => text_le(x.title@, y.title@),
        (Some(a), Some(b)) => if a@ == b@ {
            text_le(x.title@, y.title@)
        } else {
            text_le(a@, b@)
        },
    }
}

/// Whether `s` is in event order.
pub open spec fn events_sorted(s: Seq<NearEventItem>) -> bool {
    forall|i: int, j: int| 0 <= i < j < s.len() ==> event_le(#[trigger] s[i], #[trigger] s[j])
}

/// Whether two near events have the same time and title: neither comes
/// before the other.
pub open spec fn same_key(x: NearEventItem, y: NearEventItem) -> bool {
    event_le(x, y) && event_le(y, x)
}

/// The near events with the same time and title as `x`.
pub open spec fn key_class(x: NearEventItem) -> spec_fn(NearEventItem) -> bool {
    |y: NearEventItem| same_key(x, y)
}

/// `r` keeps the events of `items` that share a time and title in the
/// order they have in `items`.
pub open spec fn keeps_ties(r: Seq<NearEventItem>, items: Seq<NearEventItem>) -> bool {
    forall|x: NearEventItem| #[trigger] r.filter(key_class(x)) == items.filter(key_class(x))
}

/// Inserting `item` before the events that come strictly after it adds it
/// to the end of its own class and changes no other class.
proof fn lemma_insert_keeps_classes(before: Seq<NearEventItem>, pos: int, item: NearEventItem, x: NearEventItem)
    requires
        0 <= pos <= before.len(),
        forall|j: int| pos <= j < before.len() ==> !event_le(#[trigger] before[j], item),
    ensures
        before.insert(pos, item).filter(key_class(x)) == (if same_key(x, item) {
            before.filter(key_class(x)).push(item)
        } else {
            before.filter(key_class(x))
        }),
{
    let p = key_class(x);
    let a = before.take(pos);
    let b = before.skip(pos);
    let one = seq![item];
    assert(before.insert(pos, item) =~= (a + one) + b);
    assert(before =~= a + b);
    Seq::filter_distributes_over_add(a + one, b, p);
    Seq::filter_distributes_over_add(a, one, p);
    Seq::filter_distributes_over_add(a, b, p);
    assert(one =~= Seq::<NearEventItem>::empty().push(item));
    Seq::<NearEventItem>::empty().lemma_filter_push(item, p);
    assert(Seq::<NearEventItem>::empty().filter(p) =~= Seq::<NearEventItem>::empty()) by {
        reveal(Seq::filter);
    }
    if same_key(x, item) {
        assert(b.all(|y: NearEventItem| !p(y))) by {
            assert forall|j: int| 0 <= j < b.len() implies !p(#[trigger] b[j]) by {
                assert(b[j] == before[pos + j]);
                if same_key(x, b[j]) {
                    lemma_event_trans(b[j], x, item);
                }
            }
        }
        b.lemma_all_neg_filter_empty(p);
        assert(b.filter(p) =~= Seq::<NearEventItem>::empty());
        assert(a.filter(p) + one.filter(p) + b.filter(p) =~= (a.filter(p) + b.filter(p)).push(item));
    } else {
        assert(a.filter(p) + one.filter(p) =~= a.filter(p));
    }
}

/// Text order is total.
proof fn lemma_text_total(a: Seq<char>, b: Seq<char>)
    ensures
        text_le(a, b) || text_le(b, a),
        text_le(a, b) && text_le(b, a) ==> a == b,
    decreases a.len(),
{
    if a.len() > 0 && b.len() > 0 && a[0] == b[0] {
        lemma_text_total(a.skip(1), b.skip(1));
        if text_le(a, b) && text_le(b, a) {
            assert(a =~= seq![a[0]] + a.skip(1));
            assert(b =~= seq![b[0]] + b.skip(1));
        }
    } else if a.len() == 0 && b.len() == 0 {
        assert(a =~= b);
    } else if a.len() > 0 && b.len() > 0 {
    }
}

/// Text order is transitive.
proof fn lemma_text_trans(a: Seq<char>, b: Seq<char>, c: Seq<char>)
    requires
        text_le(a, b),
        text_le(b, c),
    ensures
        text_le(a, c),
    decreases a.len(),
{
    if a.len() > 0 && b.len() > 0 && c.len() > 0 && a[0] == b[0] && b[0] == c[0] {
        lemma_text_trans(a.skip(1), b.skip(1), c.skip(1));
    }
}

/// Event order is total.
proof fn lemma_event_total(x: NearEventItem, y: NearEventItem)
    ensures
        event_le(x, y) || event_le(y, x),
{
    lemma_text_total(x.title@, y.title@);
    match (x.timestamp_iso, y.timestamp_iso) {
        (Some(a), Some(b)) => {
            lemma_text_total(a@, b@);
        },
        _ => {},
    }
}

/// Event order is transitive.
proof fn lemma_event_trans(x: NearEventItem, y: NearEventItem, z: NearEventItem)
    requires
        event_le(x, y),
        event_le(y, z),
    ensures
        event_le(x, z),
{
    match (x.timestamp_iso, y.timestamp_iso, z.timestamp_iso) {
        (Some(a), Some(b), Some(c)) => {
            lemma_text_total(a@, b@);
            lemma_text_total(b@, c@);
            lemma_text_total(a@, c@);
            if a@ == b@ && b@ == c@ {
                lemma_text_trans(x.title@, y.title@, z.title@);
            } else if a@ == b@ {
            } else if b@ == c@ {
            } else {
                lemma_text_trans(a@, b@, c@);
                if a@ == c@ {
                    lemma_text_total(a@, b@);
                }
            }
        },
        (None, None, None) => {
            lemma_text_trans(x.title@, y.title@, z.title@);
        },
        _ => {},
    }
}

/// Whether text `a` comes before or equals `b`.
fn text_le_exec(a: &str, b: &str) -> (r: bool)
    ensures
        r == text_le(a@, b@),
{
    let x = crate::text::chars_of(a);
    let y = crate::text::chars_of(b);
    let mut i: usize = 0;
    assert(x@.skip(0) =~= x@);
    assert(y@.skip(0) =~= y@);
    while i < x.len() && i < y.len()
        invariant
            i <= x@.len(),
            i <= y@.len(),
            x@ == a@,
            y@ == b@,
            text_le(x@, y@) == text_le(x@.skip(i as int), y@.skip(i as int)),
        decreases x@.len() - i,
    {
        assert(x@.skip(i as int)[0] == x@[i as int]);
        assert(y@.skip(i as int)[0] == y@[i as int]);
        if x[i] != y[i] {
            return x[i] < y[i];
        }
        assert(x@.skip(i as int).skip(1) =~= x@.skip(i + 1));
        assert(y@.skip(i as int).skip(1) =~= y@.skip(i + 1));
        i = i + 1;
    }
    i == x.len()
}

/// Whether near event `x` comes before or equals `y`.
fn event_le_exec(x: &NearEventItem, y: &NearEventItem) -> (r: bool)
    ensures
        r == event_le(*x, *y),
{
    match (&x.timestamp_iso, &y.timestamp_iso) {
        (None, Some(_)) => true,
        (Some(_), None) => false,
        (None, None) => text_le_exec(x.title.as_str(), y.title.as_str()),
        (Some(a), Some(b)) => {
            if crate::text::str_eq(a.as_str(), b.as_str()) {
                text_le_exec(x.title.as_str(), y.title.as_str())
            } else {
                text_le_exec(a.as_str(), b.as_str())
            }
        },
    }
}

/// `items` holds the near events of `tickets`, in ticket order.
pub open spec fn near_items(tickets: Seq<NearEventTicket>, now: UtcInstant, items: Seq<NearEventItem>) -> bool {
    let near = tickets.filter(|t: NearEventTicket| is_near(t, now));
    &&& items.len() == near.len()
    &&& forall|k: int| 0 <= k < items.len() ==> #[trigger] item_is(items[k], near[k], now)
}

/// The near events of `tickets`, in ticket order.
pub fn near_event_items(tickets: &Vec<NearEventTicket>, now: UtcInstant) -> (r: Vec<NearEventItem>)
    ensures
        near_items(tickets@, now, r@),
{
    let mut out: Vec<NearEventItem> = Vec::new();
    let ghost f = |t: NearEventTicket| is_near(t, now);
    let mut i: usize = 0;
    while i < tickets.len()
        invariant
            i <= tickets@.len(),
            f == (|t: NearEventTicket| is_near(t, now)),
            near_items(tickets@.take(i as int), now, out@),
        decreases tickets@.len() - i,
    {
        let t = &tickets[i];
        assert(tickets@.take(i + 1).drop_last() =~= tickets@.take(i as int));
        assert(tickets@.take(i + 1).last() == tickets@[i as int]);
        reveal_with_fuel(Seq::filter, 1);
        let soon = match &t.scheduled {
            Some(s) => {
                let horizon = (now.seconds as i128) + (NEAR_EVENT_HORIZON_SECONDS as i128);
                let at = s.0.seconds as i128;
                at < horizon || (at == horizon && s.0.nanos <= now.nanos)
            },
            None => false,
        };
        if soon {
            let ghost before = out@;
            out.push(NearEventItem {
                ticket_id: t.ticket_id.clone(),
                title: t.title.clone(),
                reason: String::from_str("scheduled_within_72h"),
                timestamp_iso: Some(t.scheduled.as_ref().unwrap().1.clone()),
            });
            assert(out@ =~= before.push(out@.last()));
        } else if t.urgent {
            let ghost before = out@;
            out.push(NearEventItem {
                ticket_id: t.ticket_id.clone(),
                title: t.title.clone(),
                reason: String::from_str("urgent_priority"),
                timestamp_iso: None,
            });
            assert(out@ =~= before.push(out@.last()));
        }
        i = i + 1;
    }
    assert(tickets@.take(tickets@.len() as int) =~= tickets@);
    out
}

/// Orders near events by time and title, keeping each event.
pub fn sort_near_events(items: Vec<NearEventItem>) -> (r: Vec<NearEventItem>)
    ensures
        events_sorted(r@),
        r@.to_multiset() == items@.to_multiset(),
        keeps_ties(r@, items@),
{
    let ghost all = items@;
    let mut rest = items;
    let mut out: Vec<NearEventItem> = Vec::new();
    proof {
        assert(rest@ =~= all.skip(0));
        assert(all.take(0) =~= Seq::<NearEventItem>::empty());
        all.take(0).to_multiset_ensures();
        assert(out@ =~= all.take(0));
    }
    let n = rest.len();
    let mut k: usize = 0;
    while rest.len() > 0
        invariant
            k <= all.len(),
            all.len() == n,
            rest@ == all.skip(k as int),
            events_sorted(out@),
            out@.to_multiset() == all.take(k as int).to_multiset(),
            keeps_ties(out@, all.take(k as int)),
        decreases rest@.len(),
    {
        let item = rest.remove(0);
        assert(item == all[k as int]);
        let mut pos: usize = out.len();
        while pos > 0 && !event_le_exec(&out[pos - 1], &item)
            invariant
                pos <= out@.len(),
                forall|j: int| pos <= j < out@.len() ==> !event_le(#[trigger] out@[j], item),
            decreases pos,
        {
            pos = pos - 1;
        }
        proof {
            assert forall|j: int| pos <= j < out@.len() implies event_le(item, #[trigger] out@[j]) by {
                lemma_event_total(out@[j], item);
            }
            assert forall|j: int| 0 <= j < pos implies event_le(#[trigger] out@[j], item) by {
                if pos > 0 {
                    assert(event_le(out@[pos - 1], item));
                    if j < pos - 1 {
                        lemma_event_trans(out@[j], out@[pos - 1], item);
                    }
                }
            }
        }
        let ghost before = out@;
        out.insert(pos, item);
        proof {
            assert(out@ =~= before.insert(pos as int, item));
            assert forall|i: int, j: int| 0 <= i < j < out@.len() implies event_le(#[trigger] out@[i], #[trigger] out@[j]) by {
                if i < pos as int && j < pos as int {
                } else if i < pos as int && j == pos as int {
                } else if i < pos as int {
                    assert(out@[j] == before[j - 1]);
                } else if i == pos as int {
                    assert(out@[j] == before[j - 1]);
                } else {
                    assert(out@[i] == before[i - 1]);
                    assert(out@[j] == before[j - 1]);
                }
            }
            assert forall|x: NearEventItem| #[trigger] out@.filter(key_class(x)) == all.take(k + 1).filter(
                key_class(x),
            ) by {
                lemma_insert_keeps_classes(before, pos as int, item, x);
                assert(all.take(k + 1) =~= all.take(k as int).push(item));
                all.take(k as int).lemma_filter_push(item, key_class(x));
                assert(before.filter(key_class(x)) == all.take(k as int).filter(key_class(x)));
            }
            before.insert_ensures(pos as int, item);
            let t = all.take(k + 1);
            assert(t =~= all.take(k as int).push(item));
            all.take(k as int).to_multiset_ensures();
            assert(out@.to_multiset() =~= before.to_multiset().insert(item)) by {
                vstd::seq_lib::lemma_seq_union_to_multiset_commutative(before.take(pos as int), seq![item]);
                assert(before.insert(pos as int, item) =~= before.take(pos as int) + seq![item] + before.skip(pos as int));
                assert(before =~= before.take(pos as int) + before.skip(pos as int));
                vstd::seq_lib::lemma_multiset_commutative(before.take(pos as int) + seq![item], before.skip(pos as int));
                vstd::seq_lib::lemma_multiset_commutative(before.take(pos as int), seq![item]);
                vstd::seq_lib::lemma_multiset_commutative(before.take(pos as int), before.skip(pos as int));
                assert(seq![item].to_multiset() =~= vstd::multiset::Multiset::empty().insert(item)) by {
                    Seq::<NearEventItem>::empty().to_multiset_ensures();
                    assert(seq![item] =~= Seq::<NearEventItem>::empty().push(item));
                }
            }
        }
        k = k + 1;
    }
    proof {
        assert(all.take(k as int) =~= all);
    }
    out
}

impl WorkspaceState {
    /// Replaces the near events by those of `tickets` at the instant
    /// `now`: in event order, at most
    /// `MAX_NEAR_EVENT_ITEMS` of them.
    pub fn refresh_near_events(&mut self, tickets: &Vec<NearEventTicket>, now: UtcInstant)
        ensures
            exists|items: Seq<NearEventItem>, sorted: Seq<NearEventItem>| #[trigger] near_items(tickets@, now, items)
                && events_sorted(sorted) && #[trigger] sorted.to_multiset() == items.to_multiset()
                && keeps_ties(sorted, items)
                && final(self).near_events@ == (if sorted.len() > MAX_NEAR_EVENT_ITEMS {
                sorted.take(MAX_NEAR_EVENT_ITEMS as int)
            } else {
                sorted
            }),
            final(self).near_events@.len() <= MAX_NEAR_EVENT_ITEMS,
            *final(self) == (WorkspaceState { near_events: final(self).near_events, ..*old(self) }),
    {
        let items = near_event_items(tickets, now);
        let ghost items0 = items@;
        let mut sorted = sort_near_events(items);
        let ghost sorted0 = sorted@;
        sorted.truncate(MAX_NEAR_EVENT_ITEMS);
        self.near_events = sorted;
        assert(near_items(tickets@, now, items0));
    }
}

} // verus!
