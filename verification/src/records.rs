//! Implementation-independent descriptions of a node's channels, payments,
//! invoices, logs and metrics. Times are counted from the Unix epoch.

use vstd::prelude::*;

use crate::node::{PubKey, ShortChannelID};
use crate::text::{dec_string, hex_lower, owned, push_str, u64_to_decimal};

verus! {

/// The routing policy one side of a channel announces.
#[derive(Debug, Clone)]
pub struct NodePolicy {
    pub pubkey: PubKey,
    pub fee_base_msat: u64,
    pub fee_rate_milli_msat: u64,
    pub min_htlc_msat: u64,
    pub max_htlc_msat: Option<u64>,
    pub time_lock_delta: u16,
    pub disabled: bool,
    /// Seconds since the epoch of the last update of this policy.
    pub last_update: Option<u64>,
}

/// How a policy is shown: its key, fees and HTLC limits.
pub open spec fn policy_text(p: NodePolicy) -> Seq<char> {
    "Policy(pubkey: "@ + hex_lower(p.pubkey@) + ", fee: "@ + dec_string(p.fee_base_msat as nat)
        + "+"@ + dec_string(p.fee_rate_milli_msat as nat) + "ppm, min_htlc: "@ + dec_string(
        p.min_htlc_msat as nat,
    ) + "msat"@ + match p.max_htlc_msat {
        Some(m) => ", max_htlc: "@ + dec_string(m as nat) + "msat"@,
        None => Seq::empty(),
    } + ")"@
}

impl NodePolicy {
    /// The policy as text (its `Display` rendering).
    pub fn to_text(&self) -> (r: String)
        ensures
            r@ == policy_text(*self),
    {
        let mut r = owned("Policy(pubkey: ");
        push_str(&mut r, self.pubkey.to_hex().as_str());
        push_str(&mut r, ", fee: ");
        push_str(&mut r, u64_to_decimal(self.fee_base_msat).as_str());
        push_str(&mut r, "+");
        push_str(&mut r, u64_to_decimal(self.fee_rate_milli_msat).as_str());
        push_str(&mut r, "ppm, min_htlc: ");
        push_str(&mut r, u64_to_decimal(self.min_htlc_msat).as_str());
        push_str(&mut r, "msat");
        match self.max_htlc_msat {
            Some(m) => {
                push_str(&mut r, ", max_htlc: ");
                push_str(&mut r, u64_to_decimal(m).as_str());
                push_str(&mut r, "msat");
            },
            None => {},
        }
        push_str(&mut r, ")");
        assert(r@ =~= policy_text(*self));
        r
    }
}

/// Everything known about one channel.
#[derive(Debug)]
pub struct ChannelDetails {
    pub channel_id: ShortChannelID,
    pub local_balance_sat: u64,
    pub remote_balance_sat: u64,
    pub capacity_sat: u64,
    pub active: Option<bool>,
    pub private: bool,
    pub remote_pubkey: PubKey,
    pub commit_fee_sat: Option<u64>,
    pub local_chan_reserve_sat: Option<u64>,
    pub remote_chan_reserve_sat: Option<u64>,
    pub num_updates: Option<u64>,
    pub total_satoshis_sent: Option<u64>,
    pub total_satoshis_received: Option<u64>,
    pub channel_age_blocks: Option<u32>,
    pub opening_cost_sat: Option<u64>,
    pub initiator: Option<bool>,
    /// The funding transaction id (32 internal-order bytes).
    pub txid: Option<Vec<u8>>,
    pub vout: Option<u32>,
    pub node1_policy: Option<NodePolicy>,
    pub node2_policy: Option<NodePolicy>,
}

/// The life-cycle state of a channel.
#[derive(Debug, Clone, Copy, PartialEq, Eq, Structural)]
pub enum ChannelState {
    /// Funding transaction not confirmed.
    Opening,
    /// Normal and available.
    Active,
    /// Temporarily disabled.
    Disabled,
    /// Cooperative or force close initiated.
    Closing,
    /// The channel is closed.
    Closed,
    /// Failed or resolved on chain.
    Failed,
}

/// A one-line view of a channel.
#[derive(Debug)]
pub struct ChannelSummary {
    pub chan_id: ShortChannelID,
    pub alias: Option<String>,
    pub channel_state: ChannelState,
    pub private: bool,
    /// In millisatoshis.
    pub remote_balance: u64,
    /// In millisatoshis.
    pub local_balance: u64,
    /// In millisatoshis.
    pub capacity: u64,
    /// Seconds since the epoch of the channel's last gossip update.
    pub last_update: Option<u64>,
    pub uptime: Option<u64>,
}

/// The state of an invoice.
#[derive(Debug, Clone, Copy, PartialEq, Eq, Structural)]
pub enum InvoiceStatus {
    Settled,
    Open,
    Expired,
    Failed,
}

/// An HTLC paying (part of) an invoice.
#[derive(Debug, Clone, Copy, PartialEq, Eq, Structural)]
pub struct InvoiceHtlc {
    pub chan_id: Option<u64>,
    pub htlc_index: Option<u64>,
    pub amt_msat: Option<u64>,
    pub accept_time: Option<i64>,
    pub resolve_time: Option<i64>,
    pub expiry_height: Option<u32>,
    pub mpp_total_amt_msat: Option<u64>,
}

/// A feature an invoice advertises.
#[derive(Debug)]
pub struct Feature {
    pub name: Option<String>,
    pub is_known: Option<bool>,
    pub is_required: Option<bool>,
}

/// An invoice, as either node implementation describes it.
#[derive(Debug)]
pub struct CustomInvoice {
    pub memo: String,
    pub payment_hash: String,
    pub payment_preimage: String,
    pub value: u64,
    pub value_msat: u64,
    pub settled: Option<bool>,
    pub creation_date: Option<i64>,
    pub settle_date: Option<i64>,
    pub payment_request: String,
    pub expiry: Option<u64>,
    pub state: InvoiceStatus,
    pub is_keysend: Option<bool>,
    pub is_amp: Option<bool>,
    pub payment_addr: Option<String>,
    pub htlcs: Option<Vec<InvoiceHtlc>>,
    /// Feature bits with what the invoice says of each.
    pub features: Option<Vec<(u32, Feature)>>,
}

/// The state of a payment.
#[derive(Debug, Clone, Copy, PartialEq, Eq, Structural)]
pub enum PaymentState {
    Inflight,
    Failed,
    Settled,
}

/// The direction of a payment.
#[derive(Debug, Clone, Copy, PartialEq, Eq, Structural)]
pub enum PaymentType {
    Outgoing,
    Incoming,
    Forwarded,
}

/// One hop of a payment route.
#[derive(Debug, Clone)]
pub struct Hop {
    pub pubkey: PubKey,
    pub chan_id: ShortChannelID,
    pub amount_to_forward: u64,
    pub fee: Option<u64>,
    pub expiry: Option<u64>,
}

/// A payment route.
#[derive(Debug)]
pub struct Route {
    pub total_time_lock: u32,
    pub total_fees: u64,
    pub total_amt: u64,
    pub hops: Vec<Hop>,
}

/// One attempt to pay.
#[derive(Debug)]
pub struct PaymentHtlc {
    pub routes: Vec<Route>,
    pub attempt_id: u64,
    /// Nanoseconds since the epoch.
    pub attempt_time: Option<u64>,
    /// Nanoseconds since the epoch.
    pub resolve_time: Option<u64>,
    pub failure_reason: Option<String>,
    pub failure_code: Option<u16>,
}

/// Everything known about one payment.
#[derive(Debug)]
pub struct PaymentDetails {
    pub state: PaymentState,
    pub amount_sat: u64,
    pub amount_usd: u64,
    pub routing_fee: Option<u64>,
    pub network: Option<String>,
    pub description: Option<String>,
    /// Nanoseconds since the epoch.
    pub creation_time: Option<u128>,
    pub invoice: Option<String>,
    pub payment_hash: String,
    pub destination_pubkey: Option<PubKey>,
    pub completed_at: Option<u64>,
    pub htlcs: Vec<PaymentHtlc>,
}

/// A one-line view of a payment.
#[derive(Debug)]
pub struct PaymentSummary {
    pub state: PaymentState,
    pub amount_sat: u64,
    pub amount_usd: u64,
    pub routing_fee: Option<u64>,
    /// Nanoseconds since the epoch.
    pub creation_time: Option<u128>,
    pub invoice: Option<String>,
    pub payment_hash: String,
    pub completed_at: Option<u64>,
}

/// The severity of a node log entry.
#[derive(Debug, Clone, Copy, PartialEq, Eq, Structural)]
pub enum LogLevel {
    Info,
    Warn,
    Error,
    Unknown,
}

/// A log entry of a Lightning node.
#[derive(Debug)]
pub struct NodeLog {
    pub timestamp: String,
    pub level: Option<LogLevel>,
    pub message: String,
    pub subsystem: Option<String>,
}

/// Aggregated metrics about a Lightning node.
#[derive(Debug, Clone, Copy, PartialEq, Eq, Structural)]
pub struct NodeMetrics {
    pub num_channels: u32,
    pub num_active_channels: u32,
    pub num_peers: u32,
    pub block_height: u32,
    pub uptime_seconds: u64,
    pub total_capacity: u64,
    pub total_local_balance: u64,
    pub total_remote_balance: u64,
    pub memory_usage: Option<u64>,
    pub cpu_usage: Option<u64>,
    pub disk_usage: Option<u64>,
}

/// Status of a Lightning payment attempt.
#[derive(Debug, Clone, Copy, PartialEq, Eq, Structural)]
pub enum PaymentStatus {
    Inflight,
    Succeeded,
    Failed,
    Unknown,
}

} // verus!
