//! Events raised by Lightning nodes, and how they become the library's
//! standardized events with a type, severity, title, description and data.

use vstd::prelude::*;

use crate::text::{
    concat2, concat3, dec_string, hex_encode, hex_lower, owned, str_eq, u64_to_decimal,
};

verus! {

/// An event of an LND node.
#[derive(Debug, Clone)]
pub enum LNDEvent {
    ChannelOpened {
        active: bool,
        remote_pubkey: String,
        channel_point: String,
        chan_id: u64,
        capacity: i64,
        local_balance: i64,
        remote_balance: i64,
        total_satoshis_sent: i64,
        total_satoshis_received: i64,
    },
    ChannelClosed {
        channel_point: String,
        chan_id: u64,
        chain_hash: String,
        closing_tx_hash: String,
        remote_pubkey: String,
        capacity: i64,
        close_height: u32,
        settled_balance: i64,
        time_locked_balance: i64,
        close_type: i32,
        open_initiator: i32,
        close_initiator: i32,
    },
    InvoiceCreated {
        preimage: Vec<u8>,
        hash: Vec<u8>,
        value_msat: i64,
        state: i32,
        memo: String,
        creation_date: i64,
        payment_request: String,
    },
    InvoiceSettled {
        preimage: Vec<u8>,
        hash: Vec<u8>,
        value_msat: i64,
        state: i32,
        memo: String,
        creation_date: i64,
        payment_request: String,
    },
    InvoiceCancelled {
        preimage: Vec<u8>,
        hash: Vec<u8>,
        value_msat: i64,
        state: i32,
        memo: String,
        creation_date: i64,
        payment_request: String,
    },
    InvoiceAccepted {
        preimage: Vec<u8>,
        hash: Vec<u8>,
        value_msat: i64,
        state: i32,
        memo: String,
        creation_date: i64,
        payment_request: String,
    },
}

/// An event of a CLN node.
#[derive(Debug, Clone)]
pub enum CLNEvent {
    ChannelOpened {},
}

/// An event of either node implementation.
#[derive(Debug, Clone)]
pub enum NodeSpecificEvent {
    LND(LNDEvent),
    CLN(CLNEvent),
}

/// The kind of a standardized event.
#[derive(Debug, Clone, Copy, PartialEq, Eq, Structural)]
pub enum EventType {
    ChannelOpened,
    ChannelClosed,
    InvoiceCreated,
    InvoiceSettled,
    InvoiceCancelled,
    InvoiceAccepted,
}

/// How serious an event is.
#[derive(Debug, Clone, Copy, PartialEq, Eq, Structural)]
pub enum EventSeverity {
    Info,
    Warning,
    Critical,
}

/// The name of an event type.
pub open spec fn event_type_name(t: EventType) -> Seq<char> {
    match t {
        EventType::ChannelOpened => "ChannelOpened"@,
        EventType::ChannelClosed => "ChannelClosed"@,
        EventType::InvoiceCreated => "InvoiceCreated"@,
        EventType::InvoiceSettled => "InvoiceSettled"@,
        EventType::InvoiceCancelled => "InvoiceCancelled"@,
        EventType::InvoiceAccepted => "InvoiceAccepted"@,
    }
}

/// The name of a severity.
pub open spec fn severity_name(s: EventSeverity) -> Seq<char> {
    match s {
        EventSeverity::Info => "Info"@,
        EventSeverity::Warning => "Warning"@,
        EventSeverity::Critical => "Critical"@,
    }
}

impl EventType {
    /// The name of this event type.
    pub fn name(&self) -> (r: String)
        ensures
            r@ == event_type_name(*self),
    {
        match self {
            EventType::ChannelOpened => owned("ChannelOpened"),
            EventType::ChannelClosed => owned("ChannelClosed"),
            EventType::InvoiceCreated => owned("InvoiceCreated"),
            EventType::InvoiceSettled => owned("InvoiceSettled"),
            EventType::InvoiceCancelled => owned("InvoiceCancelled"),
            EventType::InvoiceAccepted => owned("InvoiceAccepted"),
        }
    }
}

impl EventSeverity {
    /// The name of this severity.
    pub fn name(&self) -> (r: String)
        ensures
            r@ == severity_name(*self),
    {
        match self {
            EventSeverity::Info => owned("Info"),
            EventSeverity::Warning => owned("Warning"),
            EventSeverity::Critical => owned("Critical"),
        }
    }
}

/// A value in an event's data.
#[derive(Debug, Clone)]
pub enum EventValue {
    Unsigned(u64),
    Signed(i64),
    Text(String),
}

/// The standardized form of a node event.
#[derive(Debug)]
pub struct EventContent {
    pub event_type: EventType,
    pub severity: EventSeverity,
    pub title: String,
    pub description: String,
    /// Named values, in order.
    pub data: Vec<(String, EventValue)>,
}

/// The decimal rendering of a signed number.
pub open spec fn signed_dec_string(v: int) -> Seq<char> {
    if v >= 0 {
        dec_string(v as nat)
    } else {
        "-"@ + dec_string((-v) as nat)
    }
}

/// Renders a signed number in decimal, as `{}` formatting does.
pub fn i64_to_decimal(v: i64) -> (r: String)
    ensures
        r@ == signed_dec_string(v as int),
{
    if v >= 0 {
        u64_to_decimal(v as u64)
    } else {
        let m: u64 = if v == i64::MIN {
            0x8000_0000_0000_0000u64
        } else {
            (-v) as u64
        };
        let d = u64_to_decimal(m);
        concat2("-", d.as_str())
    }
}

/// `c` is the standardized form of channel event about `chan_id` with
/// `counterparty`.
pub open spec fn channel_event_content(
    c: EventContent,
    t: EventType,
    sev: EventSeverity,
    title: Seq<char>,
    description: Seq<char>,
    chan_id: u64,
    counterparty: Seq<char>,
) -> bool {
    &&& c.event_type == t
    &&& c.severity == sev
    &&& c.title@ == title
    &&& c.description@ == description
    &&& c.data@.len() == 2
    &&& c.data@[0].0@ == "channel_id"@
    &&& c.data@[0].1 == EventValue::Unsigned(chan_id)
    &&& c.data@[1].0@ == "counterparty_node_id"@
    &&& c.data@[1].1 matches EventValue::Text(s) && s@ == counterparty
}

/// `c` is the standardized form of LND event `e`: channel openings are
/// informational and closings warnings, both with the channel id and
/// counterparty; settled invoices are informational with their hash (in
/// hex), amount and memo; other events are a generic informational event.
pub open spec fn lnd_event_content(c: EventContent, e: LNDEvent) -> bool {
    match e {
        LNDEvent::ChannelOpened { chan_id, remote_pubkey, .. } => channel_event_content(
            c,
            EventType::ChannelOpened,
            EventSeverity::Info,
            "Channel Opened"@,
            "New channel opened with "@ + remote_pubkey@,
            chan_id,
            remote_pubkey@,
        ),
        LNDEvent::ChannelClosed { chan_id, remote_pubkey, .. } => channel_event_content(
            c,
            EventType::ChannelClosed,
            EventSeverity::Warning,
            "Channel Closed"@,
            "Channel closed with "@ + remote_pubkey@,
            chan_id,
            remote_pubkey@,
        ),
        LNDEvent::InvoiceSettled { hash, value_msat, memo, .. } => {
            &&& c.event_type == EventType::InvoiceSettled
            &&& c.severity == EventSeverity::Info
            &&& c.title@ == "Invoice Settled"@
            &&& c.description@ == "Invoice settled for "@ + signed_dec_string(value_msat as int)
                + " msat"@
            &&& c.data@.len() == 3
            &&& c.data@[0].0@ == "hash"@
            &&& c.data@[0].1 matches EventValue::Text(s) && s@ == hex_lower(hash@)
            &&& c.data@[1].0@ == "value_msat"@
            &&& c.data@[1].1 == EventValue::Signed(value_msat)
            &&& c.data@[2].0@ == "memo"@
            &&& c.data@[2].1 matches EventValue::Text(m) && m@ == memo@
        },
        _ => {
            &&& c.event_type == EventType::InvoiceCreated
            &&& c.severity == EventSeverity::Info
            &&& c.title@ == "Lightning Event"@
            &&& c.description@ == "Lightning node event occurred"@
            &&& c.data@.len() == 0
        },
    }
}

fn channel_content(
    t: EventType,
    sev: EventSeverity,
    title: &str,
    prefix: &str,
    chan_id: u64,
    counterparty: &String,
) -> (c: EventContent)
    ensures
        channel_event_content(c, t, sev, title@, prefix@ + counterparty@, chan_id, counterparty@),
{
    let mut data: Vec<(String, EventValue)> = Vec::new();
    data.push((owned("channel_id"), EventValue::Unsigned(chan_id)));
    data.push((owned("counterparty_node_id"), EventValue::Text(counterparty.clone())));
    EventContent {
        event_type: t,
        severity: sev,
        title: owned(title),
        description: concat2(prefix, counterparty.as_str()),
        data,
    }
}

/// The standardized form of an LND event.
pub fn process_lnd_event(lnd_event: &LNDEvent) -> (c: EventContent)
    ensures
        lnd_event_content(c, *lnd_event),
{
    match lnd_event {
        LNDEvent::ChannelOpened { chan_id, remote_pubkey, .. } => channel_content(
            EventType::ChannelOpened,
            EventSeverity::Info,
            "Channel Opened",
            "New channel opened with ",
            *chan_id,
            remote_pubkey,
        ),
        LNDEvent::ChannelClosed { chan_id, remote_pubkey, .. } => channel_content(
            EventType::ChannelClosed,
            EventSeverity::Warning,
            "Channel Closed",
            "Channel closed with ",
            *chan_id,
            remote_pubkey,
        ),
        LNDEvent::InvoiceSettled { hash, value_msat, memo, .. } => {
            let amount = i64_to_decimal(*value_msat);
            let mut data: Vec<(String, EventValue)> = Vec::new();
            data.push((owned("hash"), EventValue::Text(hex_encode(hash.as_slice()))));
            data.push((owned("value_msat"), EventValue::Signed(*value_msat)));
            data.push((owned("memo"), EventValue::Text(memo.clone())));
            EventContent {
                event_type: EventType::InvoiceSettled,
                severity: EventSeverity::Info,
                title: owned("Invoice Settled"),
                description: concat3("Invoice settled for ", amount.as_str(), " msat"),
                data,
            }
        },
        _ => EventContent {
            event_type: EventType::InvoiceCreated,
            severity: EventSeverity::Info,
            title: owned("Lightning Event"),
            description: owned("Lightning node event occurred"),
            data: Vec::new(),
        },
    }
}

/// The standardized form of a CLN event: a channel opening is informational.
pub fn process_cln_event(cln_event: &CLNEvent) -> (c: EventContent)
    ensures
        c.event_type == EventType::ChannelOpened,
        c.severity == EventSeverity::Info,
        c.title@ == "Channel Opened"@,
        c.description@ == "New channel opened"@,
        c.data@.len() == 0,
{
    match cln_event {
        CLNEvent::ChannelOpened {  } => EventContent {
            event_type: EventType::ChannelOpened,
            severity: EventSeverity::Info,
            title: owned("Channel Opened"),
            description: owned("New channel opened"),
            data: Vec::new(),
        },
    }
}

/// The standardized form of any node event.
pub fn process_lightning_event(event: &NodeSpecificEvent) -> (c: EventContent)
    ensures
        match *event {
            NodeSpecificEvent::LND(e) => lnd_event_content(c, e),
            NodeSpecificEvent::CLN(_) => c.event_type == EventType::ChannelOpened && c.severity
                == EventSeverity::Info && c.title@ == "Channel Opened"@ && c.description@
                == "New channel opened"@ && c.data@.len() == 0,
        },
{
    match event {
        NodeSpecificEvent::LND(e) => process_lnd_event(e),
        NodeSpecificEvent::CLN(e) => process_cln_event(e),
    }
}

/// Where node events are recorded: the account, user and node they belong
/// to. Events are only recorded when all of it is known.
#[derive(Debug, Clone)]
pub struct EventHandler {
    pub account_id: Option<String>,
    pub user_id: Option<String>,
    pub node_id: Option<String>,
    pub node_alias: Option<String>,
}

impl EventHandler {
    /// A handler without context, which records nothing.
    pub fn new() -> (h: Self)
        ensures
            h.account_id is None && h.user_id is None && h.node_id is None && h.node_alias is None,
    {
        EventHandler { account_id: None, user_id: None, node_id: None, node_alias: None }
    }

    /// A handler that records events for the given account, user and node.
    pub fn with_context(account_id: String, user_id: String, node_id: String, node_alias: String) -> (h: Self)
        ensures
            h.account_id == Some(account_id),
            h.user_id == Some(user_id),
            h.node_id == Some(node_id),
            h.node_alias == Some(node_alias),
    {
        EventHandler {
            account_id: Some(account_id),
            user_id: Some(user_id),
            node_id: Some(node_id),
            node_alias: Some(node_alias),
        }
    }

    /// The account, user, node id and node alias to record an event under,
    /// when all are known (`None` means the event is skipped).
    pub fn dispatch_context(&self) -> (r: Option<(String, String, String, String)>)
        ensures
            match (self.account_id, self.user_id, self.node_id, self.node_alias) {
                (Some(a), Some(u), Some(n), Some(l)) => r == Some((a, u, n, l)),
                _ => r is None,
            },
    {
        match (&self.account_id, &self.user_id, &self.node_id, &self.node_alias) {
            (Some(a), Some(u), Some(n), Some(l)) => Some((a.clone(), u.clone(), n.clone(), l.clone())),
            _ => None,
        }
    }
}

/// Filters for listing events.
#[derive(Debug, Clone)]
pub struct EventFilters {
    pub limit: Option<i64>,
    pub offset: Option<i64>,
    pub node_ids: Option<Vec<String>>,
    pub event_types: Option<Vec<EventType>>,
    pub severities: Option<Vec<EventSeverity>>,
    /// Seconds since the epoch.
    pub start_date: Option<i64>,
    /// Seconds since the epoch.
    pub end_date: Option<i64>,
}

/// The page of events to list: at most `limit` (50 by default, never more
/// than 1000) after skipping `offset` (0 by default).
pub fn event_page(filters: &Option<EventFilters>) -> (r: (i64, i64))
    ensures
        r.0 == match *filters {
            Some(f) => match f.limit {
                Some(l) => if l <= 1000 { l as int } else { 1000 },
                None => 50,
            },
            None => 50,
        },
        r.1 == match *filters {
            Some(f) => match f.offset {
                Some(o) => o as int,
                None => 0,
            },
            None => 0,
        },
{
    match filters {
        Some(f) => {
            let limit = match f.limit {
                Some(l) => if l <= 1000 {
                    l
                } else {
                    1000
                },
                None => 50,
            };
            let offset = match f.offset {
                Some(o) => o,
                None => 0,
            };
            (limit, offset)
        },
        None => (50, 0),
    }
}

/// Whether `serde_json` parses a text as a JSON value.
pub uninterp spec fn serde_json_parses(text: Seq<char>) -> bool;

/// `serde_json::from_str::<serde_json::Value>(text)`, reduced to whether it
/// succeeded. Claims: the result is the named outcome for the text.
#[verifier::external_body]
fn json_value_parses(text: &str) -> (r: bool)
    ensures
        r == serde_json_parses(text@),
{
    serde_json::from_str::<serde_json::Value>(text).is_ok()
}

/// A recorded event, as stored.
#[derive(Debug, Clone)]
pub struct Event {
    pub id: String,
    pub account_id: String,
    pub user_id: String,
    pub node_id: String,
    pub node_alias: String,
    pub event_type: EventType,
    pub severity: EventSeverity,
    pub title: String,
    pub description: String,
    /// The event's data as JSON text.
    pub data: String,
    /// When the event happened (RFC 3339).
    pub timestamp: String,
    /// When the event was recorded (RFC 3339).
    pub created_at: String,
}

/// A recorded event as the API returns it.
#[derive(Debug, Clone)]
pub struct EventResponse {
    pub id: String,
    pub account_id: String,
    pub user_id: String,
    pub node_id: String,
    pub node_alias: String,
    pub event_type: EventType,
    pub severity: EventSeverity,
    pub title: String,
    pub description: String,
    /// The event's data as JSON text: the stored data where it is JSON,
    /// else an empty object.
    pub data: String,
    /// When the event happened (RFC 3339).
    pub timestamp: String,
    /// When the event was recorded (RFC 3339).
    pub created_at: String,
}

/// The events of an account, as the API lists them.
#[derive(Debug, Clone)]
pub struct EventListResponse {
    pub events: Vec<EventResponse>,
}

/// The data returned for stored data: itself where it parses as JSON, else
/// the empty object.
pub open spec fn response_data(data: Seq<char>) -> Seq<char> {
    if serde_json_parses(data) {
        data
    } else {
        "{}"@
    }
}

/// `r` is the response for the stored event `e`: the same fields, with the
/// data as `response_data` gives it.
pub open spec fn is_response_of(r: EventResponse, e: Event) -> bool {
    &&& r.id == e.id
    &&& r.account_id == e.account_id
    &&& r.user_id == e.user_id
    &&& r.node_id == e.node_id
    &&& r.node_alias == e.node_alias
    &&& r.event_type == e.event_type
    &&& r.severity == e.severity
    &&& r.title == e.title
    &&& r.description == e.description
    &&& r.data@ == response_data(e.data@)
    &&& r.timestamp == e.timestamp
    &&& r.created_at == e.created_at
}

impl EventResponse {
    /// The response for a stored event. Data that is not JSON is returned
    /// as an empty object.
    pub fn from_event(e: &Event) -> (r: Self)
        ensures
            is_response_of(r, *e),
    {
        let data = if json_value_parses(e.data.as_str()) {
            e.data.clone()
        } else {
            owned("{}")
        };
        EventResponse {
            id: e.id.clone(),
            account_id: e.account_id.clone(),
            user_id: e.user_id.clone(),
            node_id: e.node_id.clone(),
            node_alias: e.node_alias.clone(),
            event_type: e.event_type,
            severity: e.severity,
            title: e.title.clone(),
            description: e.description.clone(),
            data,
            timestamp: e.timestamp.clone(),
            created_at: e.created_at.clone(),
        }
    }
}

/// The responses for stored events, one for each, in order.
pub fn event_responses(events: &Vec<Event>) -> (r: Vec<EventResponse>)
    ensures
        r@.len() == events@.len(),
        forall|i: int| 0 <= i < r@.len() ==> is_response_of(#[trigger] r@[i], events@[i]),
{
    let mut r: Vec<EventResponse> = Vec::new();
    let mut i: usize = 0;
    while i < events.len()
        invariant
            i <= events@.len(),
            r@.len() == i,
            forall|j: int| 0 <= j < i ==> is_response_of(#[trigger] r@[j], events@[j]),
        decreases events@.len() - i,
    {
        let item = EventResponse::from_event(&events[i]);
        r.push(item);
        i = i + 1;
    }
    r
}

/// Position `k` holds the first listed event with the given id.
pub open spec fn first_with_id(events: Seq<EventResponse>, id: Seq<char>, k: int) -> bool {
    &&& 0 <= k < events.len()
    &&& events[k].id@ == id
    &&& forall|j: int| 0 <= j < k ==> (#[trigger] events[j]).id@ != id
}

/// Whether some listed event has the given id.
pub open spec fn has_event_id(events: Seq<EventResponse>, id: Seq<char>) -> bool {
    exists|j: int| 0 <= j < events.len() && (#[trigger] events[j]).id@ == id
}

/// The first listed event with the given id, if any.
pub fn find_event(events: Vec<EventResponse>, id: &str) -> (r: Option<EventResponse>)
    ensures
        match r {
            Some(e) => exists|k: int| #[trigger] first_with_id(events@, id@, k) && e == events@[k],
            None => !has_event_id(events@, id@),
        },
{
    let mut i: usize = 0;
    while i < events.len()
        invariant
            i <= events@.len(),
            forall|j: int| 0 <= j < i ==> (#[trigger] events@[j]).id@ != id@,
        decreases events@.len() - i,
    {
        if str_eq(events[i].id.as_str(), id) {
            let mut rest = events;
            let found = rest.remove(i);
            assert(first_with_id(events@, id@, i as int));
            return Some(found);
        }
        i = i + 1;
    }
    None
}

/// The value an event's data holds under `key` (its first entry with that
/// key), if any.
pub open spec fn data_value(data: Seq<(String, EventValue)>, key: Seq<char>) -> Option<EventValue>
    decreases data.len(),
{
    if data.len() == 0 {
        None
    } else if data[0].0@ == key {
        Some(data[0].1)
    } else {
        data_value(data.drop_first(), key)
    }
}

/// Whether the data holds the text `t` under `key`.
pub open spec fn data_text(data: Seq<(String, EventValue)>, key: Seq<char>, t: Seq<char>) -> bool {
    data_value(data, key) matches Some(EventValue::Text(s)) && s@ == t
}

/// The standardized form of an LND event has the kind of the node event
/// it came from. A channel opening is an informational "Channel Opened"
/// and a closing a "Channel Closed" warning, each naming the counterparty
/// and carrying the channel id and counterparty as data; a settled invoice
/// is an informational "Invoice Settled" with its amount, carrying its hash
/// in hex, amount and memo; any other invoice event is a generic
/// informational "Lightning Event" without data.
pub proof fn law_lnd_event_kind(c: EventContent, e: LNDEvent)
    requires
        lnd_event_content(c, e),
    ensures
        e is ChannelOpened ==> {
            &&& c.event_type == EventType::ChannelOpened
            &&& c.severity == EventSeverity::Info
            &&& c.title@ == "Channel Opened"@
            &&& c.description@ == "New channel opened with "@ + e->ChannelOpened_remote_pubkey@
            &&& c.data@.len() == 2
            &&& data_value(c.data@, "channel_id"@) == Some(
                EventValue::Unsigned(e->ChannelOpened_chan_id),
            )
            &&& data_text(c.data@, "counterparty_node_id"@, e->ChannelOpened_remote_pubkey@)
        },
        e is ChannelClosed ==> {
            &&& c.event_type == EventType::ChannelClosed
            &&& c.severity == EventSeverity::Warning
            &&& c.title@ == "Channel Closed"@
            &&& c.description@ == "Channel closed with "@ + e->ChannelClosed_remote_pubkey@
            &&& c.data@.len() == 2
            &&& data_value(c.data@, "channel_id"@) == Some(
                EventValue::Unsigned(e->ChannelClosed_chan_id),
            )
            &&& data_text(c.data@, "counterparty_node_id"@, e->ChannelClosed_remote_pubkey@)
        },
        e is InvoiceSettled ==> {
            &&& c.event_type == EventType::InvoiceSettled
            &&& c.severity == EventSeverity::Info
            &&& c.title@ == "Invoice Settled"@
            &&& c.description@ == "Invoice settled for "@ + signed_dec_string(
                e->InvoiceSettled_value_msat as int,
            ) + " msat"@
            &&& c.data@.len() == 3
            &&& data_text(c.data@, "hash"@, hex_lower(e->InvoiceSettled_hash@))
            &&& data_value(c.data@, "value_msat"@) == Some(
                EventValue::Signed(e->InvoiceSettled_value_msat),
            )
            &&& data_text(c.data@, "memo"@, e->InvoiceSettled_memo@)
        },
        (e is InvoiceCreated || e is InvoiceCancelled || e is InvoiceAccepted) ==> {
            &&& c.event_type == EventType::InvoiceCreated
            &&& c.severity == EventSeverity::Info
            &&& c.title@ == "Lightning Event"@
            &&& c.description@ == "Lightning node event occurred"@
            &&& c.data@.len() == 0
        },
{
    reveal_strlit("channel_id");
    reveal_strlit("counterparty_node_id");
    reveal_strlit("hash");
    reveal_strlit("value_msat");
    reveal_strlit("memo");
    let d = c.data@;
    match e {
        LNDEvent::ChannelOpened { .. } | LNDEvent::ChannelClosed { .. } => {
            assert(d[0].0@ == "channel_id"@);
            assert("channel_id"@.len() == 10 && "counterparty_node_id"@.len() == 20);
            assert(d[0].0@ != "counterparty_node_id"@);
            assert(d.drop_first()[0] == d[1]);
            assert(data_value(d, "channel_id"@) == Some(d[0].1));
            assert(data_value(d.drop_first(), "counterparty_node_id"@) == Some(d[1].1));
            assert(data_value(d, "counterparty_node_id"@) == Some(d[1].1));
        },
        LNDEvent::InvoiceSettled { .. } => {
            let d1 = d.drop_first();
            let d2 = d1.drop_first();
            assert(d1[0] == d[1]);
            assert(d2[0] == d[2]);
            assert(d[0].0@ == "hash"@ && d[1].0@ == "value_msat"@);
            assert("hash"@.len() == 4 && "value_msat"@.len() == 10 && "memo"@.len() == 4);
            assert("hash"@[0] != "memo"@[0]);
            assert(d[0].0@ != "value_msat"@);
            assert(d[0].0@ != "memo"@);
            assert(d[1].0@ != "memo"@);
            assert(data_value(d, "hash"@) == Some(d[0].1));
            assert(data_value(d1, "value_msat"@) == Some(d[1].1));
            assert(data_value(d, "value_msat"@) == Some(d[1].1));
            assert(data_value(d2, "memo"@) == Some(d[2].1));
            assert(data_value(d1, "memo"@) == Some(d[2].1));
            assert(data_value(d, "memo"@) == Some(d[2].1));
        },
        _ => {},
    }
}

/// Each event type and severity is recorded under its own name, and no
/// two share one.
pub proof fn law_event_names(t: EventType, u: EventType, s: EventSeverity, v: EventSeverity)
    ensures
        t is ChannelOpened ==> event_type_name(t) == "ChannelOpened"@,
        t is ChannelClosed ==> event_type_name(t) == "ChannelClosed"@,
        t is InvoiceCreated ==> event_type_name(t) == "InvoiceCreated"@,
        t is InvoiceSettled ==> event_type_name(t) == "InvoiceSettled"@,
        t is InvoiceCancelled ==> event_type_name(t) == "InvoiceCancelled"@,
        t is InvoiceAccepted ==> event_type_name(t) == "InvoiceAccepted"@,
        s is Info ==> severity_name(s) == "Info"@,
        s is Warning ==> severity_name(s) == "Warning"@,
        s is Critical ==> severity_name(s) == "Critical"@,
        (event_type_name(t) == event_type_name(u)) == (t == u),
        (severity_name(s) == severity_name(v)) == (s == v),
{
    reveal_strlit("ChannelOpened");
    reveal_strlit("ChannelClosed");
    reveal_strlit("InvoiceCreated");
    reveal_strlit("InvoiceSettled");
    reveal_strlit("InvoiceCancelled");
    reveal_strlit("InvoiceAccepted");
    reveal_strlit("Info");
    reveal_strlit("Warning");
    reveal_strlit("Critical");
    if t != u {
        let a = event_type_name(t);
        let b = event_type_name(u);
        if a.len() == b.len() {
            assert(a[7] != b[7]);
        }
    }
    if s != v {
        assert(severity_name(s)[0] != severity_name(v)[0]);
    }
}

/// The response for a stored event keeps every stored field, and its data
/// is the stored JSON text where it parses, else the empty object.
pub proof fn law_event_response(r: EventResponse, e: Event)
    requires
        is_response_of(r, e),
    ensures
        r.id == e.id && r.account_id == e.account_id && r.user_id == e.user_id,
        r.node_id == e.node_id && r.node_alias == e.node_alias,
        r.event_type == e.event_type && r.severity == e.severity,
        r.title == e.title && r.description == e.description,
        r.timestamp == e.timestamp && r.created_at == e.created_at,
        serde_json_parses(e.data@) ==> r.data@ == e.data@,
        !serde_json_parses(e.data@) ==> r.data@ == "{}"@,
{
}

} // verus!
