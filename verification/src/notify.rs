//! Which notification endpoints an event goes to, and how a Discord
//! message shows it.

use vstd::prelude::*;
use vstd::utf8::*;

use crate::events::EventSeverity;
use crate::text::{owned, push_str};

verus! {

/// The kind of endpoint a notification goes to.
#[derive(Debug, Clone, Copy, PartialEq, Eq, Structural)]
pub enum NotificationType {
    Webhook,
    Discord,
}

/// What dispatching reads of a configured notification endpoint.
#[derive(Debug, Clone)]
pub struct NotificationTarget {
    pub notification_type: NotificationType,
    pub url: String,
    pub is_active: bool,
}

/// The positions of the active endpoints, in order.
pub open spec fn active_positions(ts: Seq<NotificationTarget>) -> Seq<int>
    decreases ts.len(),
{
    if ts.len() == 0 {
        Seq::empty()
    } else if ts.last().is_active {
        active_positions(ts.drop_last()).push(ts.len() - 1)
    } else {
        active_positions(ts.drop_last())
    }
}

/// The endpoints an event is sent to: the active ones, in order, by
/// position.
pub fn active_targets(targets: &Vec<NotificationTarget>) -> (r: Vec<usize>)
    ensures
        r@.map_values(|i: usize| i as int) == active_positions(targets@),
{
    let mut r: Vec<usize> = Vec::new();
    let mut i: usize = 0;
    while i < targets.len()
        invariant
            i <= targets@.len(),
            r@.map_values(|k: usize| k as int) == active_positions(targets@.subrange(0, i as int)),
        decreases targets@.len() - i,
    {
        let ghost prev = r@.map_values(|k: usize| k as int);
        assert(targets@.subrange(0, i + 1).drop_last() =~= targets@.subrange(0, i as int));
        if targets[i].is_active {
            r.push(i);
            assert(r@.map_values(|k: usize| k as int) =~= prev.push(i as int));
        }
        i = i + 1;
    }
    assert(targets@.subrange(0, targets@.len() as int) =~= targets@);
    r
}

/// Every endpoint an event is sent to is active, and every active one is
/// sent to.
pub proof fn lemma_active_positions(ts: Seq<NotificationTarget>)
    ensures
        forall|k: int|
            0 <= k < active_positions(ts).len() ==> 0 <= #[trigger] active_positions(ts)[k] < ts.len()
                && ts[active_positions(ts)[k]].is_active,
        forall|i: int| 0 <= i < ts.len() && ts[i].is_active ==> active_positions(ts).contains(i),
    decreases ts.len(),
{
    if ts.len() > 0 {
        lemma_active_positions(ts.drop_last());
        let prev = active_positions(ts.drop_last());
        assert forall|i: int| 0 <= i < ts.len() && ts[i].is_active implies active_positions(
            ts,
        ).contains(i) by {
            if i < ts.len() - 1 {
                assert(ts.drop_last()[i] == ts[i]);
                assert(prev.contains(i));
                let k = choose|k: int| 0 <= k < prev.len() && prev[k] == i;
                if ts.last().is_active {
                    assert(active_positions(ts)[k] == i);
                }
            } else {
                assert(active_positions(ts)[active_positions(ts).len() - 1] == i);
            }
        }
    }
}

/// The color of a Discord message for an event of the given severity:
/// green, yellow or red.
pub open spec fn discord_color_of(s: EventSeverity) -> u32 {
    match s {
        EventSeverity::Info => 0x00ff00,
        EventSeverity::Warning => 0xffff00,
        EventSeverity::Critical => 0xff0000,
    }
}

/// The color of a Discord message for an event of the given severity.
pub fn discord_color(severity: EventSeverity) -> (r: u32)
    ensures
        r == discord_color_of(severity),
{
    match severity {
        EventSeverity::Info => 0x00ff00,
        EventSeverity::Warning => 0xffff00,
        EventSeverity::Critical => 0xff0000,
    }
}

/// How a Discord message names the node of an event: its id alone when it
/// has no alias, else the alias with the first eight bytes of the id.
pub open spec fn discord_node_text(alias: Seq<char>, node_id: Seq<char>) -> Seq<char> {
    if alias.len() == 0 {
        node_id
    } else {
        alias + " ("@ + decode_utf8(encode_utf8(node_id).subrange(0, 8)) + ")"@
    }
}

/// How a Discord message names the node of an event. With an alias, the
/// id must be at least eight bytes long and not split a character there.
pub fn discord_node_label(alias: &str, node_id: &str) -> (r: String)
    requires
        alias@.len() > 0 ==> is_char_boundary(encode_utf8(node_id@), 8),
    ensures
        r@ == discord_node_text(alias@, node_id@),
{
    if alias.is_empty() {
        return owned(node_id);
    }
    let (head, _) = node_id.split_at(8);
    proof {
        encode_utf8_decode_utf8(head@);
    }
    let mut r = owned(alias);
    push_str(&mut r, " (");
    push_str(&mut r, head);
    push_str(&mut r, ")");
    r
}

/// An event goes to exactly the active endpoints, each once, in the order
/// they are listed.
pub proof fn law_active_positions(ts: Seq<NotificationTarget>)
    ensures
        forall|k: int|
            0 <= k < active_positions(ts).len() ==> 0 <= #[trigger] active_positions(ts)[k] < ts.len()
                && ts[active_positions(ts)[k]].is_active,
        forall|k: int, l: int|
            0 <= k < l < active_positions(ts).len() ==> #[trigger] active_positions(ts)[k]
                < #[trigger] active_positions(ts)[l],
        forall|i: int| 0 <= i < ts.len() && #[trigger] ts[i].is_active ==> active_positions(ts).contains(i),
    decreases ts.len(),
{
    if ts.len() > 0 {
        let rest = ts.drop_last();
        law_active_positions(rest);
        let prev = active_positions(rest);
        assert forall|k: int| 0 <= k < prev.len() implies ts[prev[k]] == rest[prev[k]] by {}
        assert forall|i: int| 0 <= i < ts.len() && #[trigger] ts[i].is_active implies active_positions(
            ts,
        ).contains(i) by {
            if i < ts.len() - 1 {
                assert(rest[i] == ts[i]);
                assert(prev.contains(i));
                let k = choose|k: int| 0 <= k < prev.len() && prev[k] == i;
                assert(active_positions(ts)[k] == i);
            } else {
                assert(active_positions(ts)[active_positions(ts).len() - 1] == i);
            }
        }
    }
}

/// Discord messages are green for information, yellow for warnings and
/// red for critical events.
pub proof fn law_discord_colors(s: EventSeverity)
    ensures
        s is Info ==> discord_color_of(s) == 0x00ff00,
        s is Warning ==> discord_color_of(s) == 0xffff00,
        s is Critical ==> discord_color_of(s) == 0xff0000,
{
}

} // verus!
