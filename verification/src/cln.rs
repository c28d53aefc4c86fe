//! How replies of a Core Lightning (CLN) node's gRPC interface are read
//! into the library's descriptions of the node, its channels, payments and
//! invoices. The `Cln*` records hold the fields of the replies that are
//! read, as plain values; amounts are in millisatoshis.

use vstd::prelude::*;
use vstd::utf8::*;

use crate::errors::LightningError;
use crate::lnd::id_mismatch;
use crate::node::{
    bitcoin_txid_from_hex, bytes_less, features_from_be_bytes, malformed_pubkey_message,
    network_from_core_arg, network_name, network_parse_error, secp256k1_pubkey_from_hex,
    secp256k1_pubkey_from_slice, Network, NodeId, NodeInfo, PubKey, ShortChannelID,
};
use crate::num::{max_u64, u32_low16, wrap_to_i64};
use crate::records::{
    ChannelDetails, ChannelState, ChannelSummary, CustomInvoice, InvoiceStatus, NodePolicy,
    PaymentDetails, PaymentState, PaymentSummary,
};
use crate::text::{
    concat2, concat3, dec_string, hex_encode, hex_lower, owned, spec_parse_uint,
    std_utf8_error_message, str_eq, string_from_utf8,
};

verus! {

/// Feature flags sent big-endian, in the little-endian order of the
/// library; no flags where none were sent.
pub open spec fn be_features(our_features: Option<Seq<u8>>) -> Seq<u8> {
    match our_features {
        Some(be) => be.reverse(),
        None => Seq::empty(),
    }
}

/// What connecting to a CLN node reads from its `Getinfo` reply: its key
/// (checked against the expected id), alias, features (big-endian on the
/// wire) and network (a Bitcoin Core chain argument).
pub fn cln_connect_info(
    expected: &NodeId,
    id: &Vec<u8>,
    alias: String,
    our_features: &Option<Vec<u8>>,
    network: &str,
) -> (r: Result<(NodeInfo, Network), LightningError>)
    ensures
        match secp256k1_pubkey_from_slice(id@) {
            None => r matches Err(LightningError::GetInfoError(m)) && m@
                == malformed_pubkey_message(),
            Some(k) => match id_mismatch(*expected, k, alias@) {
                Some(m) => r matches Err(LightningError::ValidationError(e)) && e@ == m,
                None => match network_from_core_arg(network@) {
                    None => r matches Err(LightningError::GetInfoError(e)) && e@
                        == network_parse_error(network@),
                    Some(n) => r matches Ok((info, n2)) && n2 == n && info.pubkey@ == k
                        && info.alias@ == alias@ && info.features@ == be_features(
                        match *our_features {
                            Some(v) => Some(v@),
                            None => None,
                        },
                    ),
                },
            },
        },
{
    let pubkey = match PubKey::from_slice(id.as_slice()) {
        Some(k) => k,
        None => return Err(LightningError::GetInfoError(owned("malformed public key"))),
    };
    let mut alias = alias;
    match expected.validate(&pubkey, &mut alias) {
        Ok(()) => {},
        Err(e) => return Err(e),
    }
    let features = match our_features {
        Some(be) => features_from_be_bytes(be),
        None => Vec::new(),
    };
    proof {
        if our_features is None {
            assert(features@ =~= Seq::<u8>::empty());
        }
    }
    match Network::from_core_arg(network) {
        Ok(n) => Ok((NodeInfo { pubkey, alias, features }, n)),
        Err(m) => Err(LightningError::GetInfoError(m)),
    }
}

/// Reads the network of a connected CLN node.
pub fn cln_get_network(network: &str) -> (r: Result<Network, LightningError>)
    ensures
        match network_from_core_arg(network@) {
            Some(n) => r == Ok::<Network, LightningError>(n),
            None => r matches Err(LightningError::ValidationError(e)) && e@ == network_parse_error(
                network@,
            ),
        },
{
    match Network::from_core_arg(network) {
        Ok(n) => Ok(n),
        Err(m) => Err(LightningError::ValidationError(m)),
    }
}

/// A node as CLN's `ListNodes` reports it.
#[derive(Debug, Clone)]
pub struct ClnNodeAnnouncement {
    pub alias: Option<String>,
    pub features: Option<Vec<u8>>,
}

/// Reads public information about another node from CLN's reply to a
/// lookup by `node_id`: the last node listed, if any.
pub fn cln_node_info(node_id: &PubKey, nodes: Vec<ClnNodeAnnouncement>) -> (r: Result<
    NodeInfo,
    LightningError,
>)
    ensures
        nodes@.len() == 0 ==> (r matches Err(LightningError::GetNodeInfoError(m)) && m@
            == "Node not found"@),
        nodes@.len() > 0 ==> (r matches Ok(info) && info.pubkey@ == node_id@ && info.alias@ == (
        match nodes@.last().alias {
            Some(a) => a@,
            None => Seq::empty(),
        }) && info.features@ == be_features(
            match nodes@.last().features {
                Some(v) => Some(v@),
                None => None,
            },
        )),
{
    let mut nodes = nodes;
    match nodes.pop() {
        Some(node) => {
            let alias = match node.alias {
                Some(a) => a,
                None => String::new(),
            };
            let features = match &node.features {
                Some(be) => features_from_be_bytes(be),
                None => Vec::new(),
            };
            proof {
                if node.features is None {
                    assert(features@ =~= Seq::<u8>::empty());
                }
            }
            Ok(NodeInfo { pubkey: node_id.clone(), alias, features })
        },
        None => Err(LightningError::GetNodeInfoError(owned("Node not found"))),
    }
}

/// A channel policy announced by one side, as CLN reports it.
#[derive(Debug, Clone, Copy)]
pub struct ClnPolicy {
    pub fee_base_msat: Option<u64>,
    pub fee_proportional_millionths: u32,
    pub htlc_minimum_msat: Option<u64>,
    pub htlc_maximum_msat: Option<u64>,
    pub cltv_expiry_delta: u32,
}

/// The policies of both sides of a channel, as CLN reports them.
#[derive(Debug, Clone, Copy)]
pub struct ClnUpdates {
    pub local: Option<ClnPolicy>,
    pub remote: Option<ClnPolicy>,
}

/// A channel with a peer, as CLN's `ListPeerChannels` reports it.
#[derive(Debug, Clone)]
pub struct ClnPeerChannel {
    pub short_channel_id: Option<String>,
    pub peer_id: Vec<u8>,
    pub state: i32,
    pub alias_remote: Option<String>,
    pub total_msat: Option<u64>,
    pub to_us_msat: Option<u64>,
    pub opener: i32,
    pub updates: Option<ClnUpdates>,
    pub private: Option<bool>,
    pub funding_txid: Option<Vec<u8>>,
    pub funding_outnum: Option<u32>,
    pub last_tx_fee_msat: Option<u64>,
    pub our_reserve_msat: Option<u64>,
    pub their_reserve_msat: Option<u64>,
    pub out_fulfilled_msat: Option<u64>,
    pub in_fulfilled_msat: Option<u64>,
}

/// A channel direction in CLN's gossip, as `ListChannels` reports it.
#[derive(Debug, Clone)]
pub struct ClnGossipChannel {
    pub short_channel_id: String,
    pub source: Vec<u8>,
    pub public: bool,
    pub active: bool,
    pub last_update: u32,
    pub amount_msat: u64,
}

/// The capacities of gossip channels, in millisatoshis.
pub fn cln_channel_capacities(channels: &Vec<ClnGossipChannel>) -> (r: Vec<u64>)
    ensures
        r@.len() == channels@.len(),
        forall|i: int| 0 <= i < r@.len() ==> #[trigger] r@[i] == channels@[i].amount_msat,
{
    let mut r: Vec<u64> = Vec::new();
    let mut i: usize = 0;
    while i < channels.len()
        invariant
            i <= channels@.len(),
            r@.len() == i,
            forall|k: int| 0 <= k < i ==> #[trigger] r@[k] == channels@[k].amount_msat,
        decreases channels@.len() - i,
    {
        r.push(channels[i].amount_msat);
        i = i + 1;
    }
    r
}

/// The state of a channel from CLN's state code: 0, 1, 9 and 10 are
/// opening, 2 active, 3 to 5 closing, 8 closed, anything else disabled.
pub open spec fn cln_channel_state(state: i32) -> ChannelState {
    if state == 0 || state == 1 || state == 9 || state == 10 {
        ChannelState::Opening
    } else if state == 2 {
        ChannelState::Active
    } else if state == 3 || state == 4 || state == 5 {
        ChannelState::Closing
    } else if state == 8 {
        ChannelState::Closed
    } else {
        ChannelState::Disabled
    }
}

fn channel_state_of(state: i32) -> (r: ChannelState)
    ensures
        r == cln_channel_state(state),
{
    if state == 0 || state == 1 || state == 9 || state == 10 {
        ChannelState::Opening
    } else if state == 2 {
        ChannelState::Active
    } else if state == 3 || state == 4 || state == 5 {
        ChannelState::Closing
    } else if state == 8 {
        ChannelState::Closed
    } else {
        ChannelState::Disabled
    }
}

/// The latest update time and whether any direction is public, over the
/// gossip channels with the given short channel id text.
pub open spec fn cln_routing_info(gossip: Seq<ClnGossipChannel>, scid: Seq<char>) -> (u64, bool)
    decreases gossip.len(),
{
    if gossip.len() == 0 {
        (0, false)
    } else {
        let prev = cln_routing_info(gossip.drop_last(), scid);
        let g = gossip.last();
        if g.short_channel_id@ == scid {
            (max_u64(prev.0, g.last_update as u64), prev.1 || g.public)
        } else {
            prev
        }
    }
}

fn routing_info(gossip: &Vec<ClnGossipChannel>, scid: &str) -> (r: (u64, bool))
    ensures
        r == cln_routing_info(gossip@, scid@),
{
    let mut acc: (u64, bool) = (0, false);
    let mut i: usize = 0;
    while i < gossip.len()
        invariant
            i <= gossip@.len(),
            acc == cln_routing_info(gossip@.subrange(0, i as int), scid@),
        decreases gossip@.len() - i,
    {
        proof {
            assert(gossip@.subrange(0, i + 1).drop_last() =~= gossip@.subrange(0, i as int));
        }
        let g = &gossip[i];
        if str_eq(g.short_channel_id.as_str(), scid) {
            let u = g.last_update as u64;
            acc = (if acc.0 >= u { acc.0 } else { u }, acc.1 || g.public);
        }
        i = i + 1;
    }
    assert(gossip@.subrange(0, gossip@.len() as int) =~= gossip@);
    acc
}

/// The short channel id a peer channel is listed under, when it has one
/// that reads as a number.
pub open spec fn cln_listed_id(ch: ClnPeerChannel) -> Option<u64> {
    match ch.short_channel_id {
        None => None,
        Some(t) => match spec_parse_uint(t@, u64::MAX as nat) {
            Ok(v) => Some(v as u64),
            Err(_) => None,
        },
    }
}

/// The peer channels that are summarized: those listed under a numeric id.
pub open spec fn cln_kept(channels: Seq<ClnPeerChannel>) -> Seq<ClnPeerChannel>
    decreases channels.len(),
{
    if channels.len() == 0 {
        Seq::empty()
    } else if cln_listed_id(channels.last()) is Some {
        cln_kept(channels.drop_last()).push(channels.last())
    } else {
        cln_kept(channels.drop_last())
    }
}

/// Millisatoshis to whole satoshis, with an absent amount read as zero.
pub open spec fn sats_or_zero(msat: Option<u64>) -> u64 {
    match msat {
        Some(m) => (m / 1000) as u64,
        None => 0,
    }
}

/// An amount in millisatoshis, with an absent amount read as zero.
pub open spec fn msat_or_zero(msat: Option<u64>) -> u64 {
    match msat {
        Some(m) => m,
        None => 0,
    }
}

/// `c` summarizes CLN peer channel `ch` (listed under a numeric id), given
/// the gossip and the current time in seconds; amounts stay in
/// millisatoshis.
pub open spec fn cln_summary_of(
    c: ChannelSummary,
    ch: ClnPeerChannel,
    gossip: Seq<ClnGossipChannel>,
    now: u64,
) -> bool {
    let capacity = msat_or_zero(ch.total_msat);
    let local = msat_or_zero(ch.to_us_msat);
    let info = cln_routing_info(gossip, ch.short_channel_id->Some_0@);
    &&& cln_listed_id(ch) == Some(c.chan_id.0)
    &&& c.alias == ch.alias_remote
    &&& c.channel_state == cln_channel_state(ch.state)
    &&& c.private == !info.1
    &&& c.capacity == capacity
    &&& c.local_balance == local
    &&& c.remote_balance == (if capacity >= local { capacity - local } else { 0 })
    &&& c.last_update == Some(if !info.1 && info.0 == 0 { now } else { info.0 })
    &&& c.uptime is None
}

/// Summarizes CLN's peer channels that are listed under a numeric short
/// channel id, in order, with capacity and balances in millisatoshis,
/// taking routing facts from the gossip; a private channel without gossip
/// updates reports `now` as its last update.
pub fn cln_channel_summaries(
    channels: &Vec<ClnPeerChannel>,
    gossip: &Vec<ClnGossipChannel>,
    now: u64,
) -> (r: Vec<ChannelSummary>)
    ensures
        r@.len() == cln_kept(channels@).len(),
        forall|i: int|
            0 <= i < r@.len() ==> cln_summary_of(#[trigger] r@[i], cln_kept(channels@)[i], gossip@, now),
{
    let mut out: Vec<ChannelSummary> = Vec::new();
    let mut i: usize = 0;
    while i < channels.len()
        invariant
            i <= channels@.len(),
            out@.len() == cln_kept(channels@.subrange(0, i as int)).len(),
            forall|k: int|
                0 <= k < out@.len() ==> cln_summary_of(
                    #[trigger] out@[k],
                    cln_kept(channels@.subrange(0, i as int))[k],
                    gossip@,
                    now,
                ),
        decreases channels@.len() - i,
    {
        let ghost before = channels@.subrange(0, i as int);
        proof {
            assert(channels@.subrange(0, i + 1).drop_last() =~= before);
        }
        let ch = &channels[i];
        match &ch.short_channel_id {
            Some(scid) => match ShortChannelID::from_str(scid.as_str()) {
                Ok(id) => {
                    let capacity: u64 = match ch.total_msat {
                        Some(m) => m,
                        None => 0,
                    };
                    let local: u64 = match ch.to_us_msat {
                        Some(m) => m,
                        None => 0,
                    };
                    let remote: u64 = if capacity >= local {
                        capacity - local
                    } else {
                        0
                    };
                    let (lu, public) = routing_info(gossip, scid.as_str());
                    let last = if !public && lu == 0 {
                        now
                    } else {
                        lu
                    };
                    out.push(
                        ChannelSummary {
                            chan_id: id,
                            alias: ch.alias_remote.clone(),
                            channel_state: channel_state_of(ch.state),
                            private: !public,
                            remote_balance: remote,
                            local_balance: local,
                            capacity,
                            last_update: Some(last),
                            uptime: None,
                        },
                    );
                    proof {
                        let kept = cln_kept(channels@.subrange(0, i + 1));
                        assert(kept == cln_kept(before).push(channels@[i as int]));
                        assert forall|k: int| 0 <= k < out@.len() implies cln_summary_of(
                            #[trigger] out@[k],
                            kept[k],
                            gossip@,
                            now,
                        ) by {
                            if k < out@.len() - 1 {
                                assert(kept[k] == cln_kept(before)[k]);
                            }
                        }
                    }
                },
                Err(_) => {},
            },
            None => {},
        }
        i = i + 1;
    }
    assert(channels@.subrange(0, channels@.len() as int) =~= channels@);
    out
}

/// Finds the peer channel listed under the decimal text of `id`.
#[verifier::opaque]
pub open spec fn cln_first_channel(channels: Seq<ClnPeerChannel>, id: u64) -> Option<int> {
    if exists|i: int| 0 <= i < channels.len() && #[trigger] listed_under(channels[i], dec_string(id as nat)) {
        Some(
            choose|i: int|
                0 <= i < channels.len() && #[trigger] listed_under(channels[i], dec_string(id as nat))
                    && forall|j: int| 0 <= j < i ==> !listed_under(channels[j], dec_string(id as nat)),
        )
    } else {
        None
    }
}

/// Whether a peer channel is listed under the short channel id text `t`.
pub open spec fn listed_under(ch: ClnPeerChannel, t: Seq<char>) -> bool {
    ch.short_channel_id matches Some(s) && s@ == t
}

fn listed_as(ch: &ClnPeerChannel, text: &String) -> (r: bool)
    ensures
        r == listed_under(*ch, text@),
{
    match &ch.short_channel_id {
        Some(t) => str_eq(t.as_str(), text.as_str()),
        None => false,
    }
}

/// Finds the peer channel listed under `channel_id` (written in decimal).
pub fn cln_find_peer_channel(channels: &Vec<ClnPeerChannel>, channel_id: ShortChannelID) -> (r:
    Result<usize, LightningError>)
    ensures
        match cln_first_channel(channels@, channel_id.0) {
            Some(i) => r == Ok::<usize, LightningError>(i as usize) && 0 <= i < channels@.len(),
            None => r matches Err(LightningError::ChannelError(m)) && m@ == "Channel "@
                + dec_string(channel_id.0 as nat) + " not found"@,
        },
{
    let text = channel_id.to_text();
    let mut i: usize = 0;
    while i < channels.len()
        invariant
            i <= channels@.len(),
            text@ == dec_string(channel_id.0 as nat),
            forall|j: int| 0 <= j < i ==> !listed_under(#[trigger] channels@[j], text@),
        decreases channels@.len() - i,
    {
        if listed_as(&channels[i], &text) {
            proof {
                reveal(cln_first_channel);
                let k = choose|k: int|
                    0 <= k < channels@.len() && #[trigger] listed_under(channels@[k], text@)
                        && forall|j: int| 0 <= j < k ==> !listed_under(channels@[j], text@);
                assert(listed_under(channels@[i as int], text@));
                if k < i {
                    assert(!listed_under(channels@[k], text@));
                }
                if k > i {
                    assert(!listed_under(channels@[i as int], text@));
                }
            }
            return Ok(i);
        }
        i = i + 1;
    }
    proof {
        reveal(cln_first_channel);
    }
    Err(LightningError::ChannelError(concat3("Channel ", text.as_str(), " not found")))
}

/// The key that a gossip channel's source names: its bytes read as UTF-8
/// hex text of a key, when they are.
pub open spec fn gossip_source_key(source: Seq<u8>) -> Option<Seq<u8>> {
    if valid_utf8(source) {
        secp256k1_pubkey_from_hex(decode_utf8(source))
    } else {
        None
    }
}

/// Scans the gossip in order for the local and remote directions: the
/// local last update, the remote last update and the local active flag,
/// each from the last direction that names the key.
pub open spec fn cln_gossip_scan(gossip: Seq<ClnGossipChannel>, local: Seq<u8>, remote: Seq<u8>) -> (
    Option<u64>,
    Option<u64>,
    Option<bool>,
)
    decreases gossip.len(),
{
    if gossip.len() == 0 {
        (None, None, None)
    } else {
        let prev = cln_gossip_scan(gossip.drop_last(), local, remote);
        let g = gossip.last();
        match gossip_source_key(g.source@) {
            Some(k) => if k == local {
                (Some(g.last_update as u64), prev.1, Some(g.active))
            } else if k == remote {
                (prev.0, Some(g.last_update as u64), prev.2)
            } else {
                prev
            },
            None => prev,
        }
    }
}

fn gossip_key(source: &Vec<u8>) -> (r: Option<PubKey>)
    ensures
        match gossip_source_key(source@) {
            Some(k) => r matches Some(pk) && pk@ == k,
            None => r is None,
        },
{
    match string_from_utf8(source.clone()) {
        Ok(text) => PubKey::from_hex(text.as_str()),
        Err(_) => None,
    }
}

fn gossip_scan(gossip: &Vec<ClnGossipChannel>, local: &PubKey, remote: &PubKey) -> (r: (
    Option<u64>,
    Option<u64>,
    Option<bool>,
))
    ensures
        r == cln_gossip_scan(gossip@, local@, remote@),
{
    let mut acc: (Option<u64>, Option<u64>, Option<bool>) = (None, None, None);
    let mut i: usize = 0;
    while i < gossip.len()
        invariant
            i <= gossip@.len(),
            acc == cln_gossip_scan(gossip@.subrange(0, i as int), local@, remote@),
        decreases gossip@.len() - i,
    {
        proof {
            assert(gossip@.subrange(0, i + 1).drop_last() =~= gossip@.subrange(0, i as int));
        }
        let g = &gossip[i];
        match gossip_key(&g.source) {
            Some(k) => {
                if k.same_as(local) {
                    acc = (Some(g.last_update as u64), acc.1, Some(g.active));
                } else if k.same_as(remote) {
                    acc = (acc.0, Some(g.last_update as u64), acc.2);
                }
            },
            None => {},
        }
        i = i + 1;
    }
    assert(gossip@.subrange(0, gossip@.len() as int) =~= gossip@);
    acc
}

/// The message of the first problem that stops describing CLN channel
/// `ch` (listed as `id`), if any.
pub open spec fn cln_details_problem(ch: ClnPeerChannel, id: u64) -> Option<Seq<char>> {
    let n = dec_string(id as nat);
    if secp256k1_pubkey_from_slice(ch.peer_id@) is None {
        Some("Invalid peer pubkey for channel "@ + n + ": "@ + malformed_pubkey_message())
    } else if ch.total_msat is None {
        Some("Missing total_msat for channel "@ + n)
    } else if ch.to_us_msat is None {
        Some("Missing to_us_msat for channel "@ + n)
    } else if ch.to_us_msat->Some_0 / 1000 > ch.total_msat->Some_0 / 1000 {
        Some("Invalid balance calculation for channel "@ + n)
    } else if ch.updates is None {
        Some("Missing channel updates for channel "@ + n)
    } else if ch.updates->Some_0.local is None {
        Some("Missing local policy for channel "@ + n)
    } else if ch.updates->Some_0.remote is None {
        Some("Missing remote policy for channel "@ + n)
    } else if ch.updates->Some_0.local->Some_0.fee_base_msat is None {
        Some("Missing fee_base_msat in local policy for channel "@ + n)
    } else if ch.updates->Some_0.local->Some_0.htlc_minimum_msat is None {
        Some("Missing htlc_minimum_msat in local policy for channel "@ + n)
    } else if ch.updates->Some_0.remote->Some_0.fee_base_msat is None {
        Some("Missing fee_base_msat in remote policy for channel "@ + n)
    } else if ch.updates->Some_0.remote->Some_0.htlc_minimum_msat is None {
        Some("Missing htlc_minimum_msat in remote policy for channel "@ + n)
    } else {
        None
    }
}

/// `p` is CLN policy `cp` of the side with key `key`.
pub open spec fn cln_policy_of(
    p: NodePolicy,
    cp: ClnPolicy,
    key: Seq<u8>,
    active: bool,
    last_update: Option<u64>,
) -> bool {
    &&& p.pubkey@ == key
    &&& cp.fee_base_msat == Some(p.fee_base_msat)
    &&& p.fee_rate_milli_msat == cp.fee_proportional_millionths as u64
    &&& cp.htlc_minimum_msat == Some(p.min_htlc_msat)
    &&& p.max_htlc_msat == cp.htlc_maximum_msat
    &&& p.time_lock_delta == cp.cltv_expiry_delta % 0x1_0000
    &&& p.disabled == !active
    &&& p.last_update == last_update
}

/// The funding transaction id of a channel: its bytes read as UTF-8 hex
/// text of a transaction id, when they are.
pub open spec fn cln_funding_txid(funding: Option<Seq<u8>>) -> Option<Seq<u8>> {
    match funding {
        None => None,
        Some(b) => if valid_utf8(b) {
            match bitcoin_txid_from_hex(decode_utf8(b)) {
                Ok(t) => Some(t),
                Err(_) => None,
            }
        } else {
            None
        },
    }
}

/// Millisatoshis to whole satoshis.
pub open spec fn sats_of(msat: Option<u64>) -> Option<u64> {
    match msat {
        Some(m) => Some((m / 1000) as u64),
        None => None,
    }
}

/// `d` describes CLN channel `ch` (listed as `id`, with remote key
/// `remote`), given the gossip and the node's own key.
pub open spec fn cln_details_of(
    d: ChannelDetails,
    ch: ClnPeerChannel,
    id: u64,
    remote: Seq<u8>,
    gossip: Seq<ClnGossipChannel>,
    local: Seq<u8>,
) -> bool {
    let scan = cln_gossip_scan(gossip, local, remote);
    let active = match scan.2 {
        Some(a) => a,
        None => false,
    };
    let capacity = (ch.total_msat->Some_0 / 1000) as u64;
    let local_bal = (ch.to_us_msat->Some_0 / 1000) as u64;
    let u = ch.updates->Some_0;
    &&& d.channel_id == ShortChannelID(id)
    &&& d.capacity_sat == capacity
    &&& d.local_balance_sat == local_bal
    &&& d.remote_balance_sat == capacity - local_bal
    &&& d.active == Some(active)
    &&& d.private == (match ch.private {
        Some(p) => p,
        None => false,
    })
    &&& d.remote_pubkey@ == remote
    &&& d.commit_fee_sat == sats_of(ch.last_tx_fee_msat)
    &&& d.local_chan_reserve_sat == sats_of(ch.our_reserve_msat)
    &&& d.remote_chan_reserve_sat == sats_of(ch.their_reserve_msat)
    &&& d.num_updates is None
    &&& d.total_satoshis_sent == sats_of(ch.out_fulfilled_msat)
    &&& d.total_satoshis_received == sats_of(ch.in_fulfilled_msat)
    &&& d.channel_age_blocks is None
    &&& d.opening_cost_sat is None
    &&& d.initiator == Some(ch.opener != 1)
    &&& match cln_funding_txid(
        match ch.funding_txid {
            Some(b) => Some(b@),
            None => None,
        },
    ) {
        None => d.txid is None,
        Some(t) => d.txid matches Some(v) && v@ == t,
    }
    &&& d.vout == ch.funding_outnum
    &&& d.node1_policy matches Some(p1) && d.node2_policy matches Some(p2) && (if bytes_less(
        local,
        remote,
    ) {
        cln_policy_of(p1, u.local->Some_0, local, active, scan.0) && cln_policy_of(
            p2,
            u.remote->Some_0,
            remote,
            active,
            scan.1,
        )
    } else {
        cln_policy_of(p1, u.remote->Some_0, remote, active, scan.1) && cln_policy_of(
            p2,
            u.local->Some_0,
            local,
            active,
            scan.0,
        )
    })
}

fn funding_txid_of(funding: &Option<Vec<u8>>) -> (r: Option<Vec<u8>>)
    ensures
        match cln_funding_txid(
            match *funding {
                Some(b) => Some(b@),
                None => None,
            },
        ) {
            None => r is None,
            Some(t) => r matches Some(v) && v@ == t,
        },
{
    match funding {
        None => None,
        Some(b) => match string_from_utf8(b.clone()) {
            Ok(text) => match crate::node::parse_txid(text.as_str()) {
                Ok(t) => Some(t),
                Err(_) => None,
            },
            Err(_) => None,
        },
    }
}

fn cln_policy(cp: &ClnPolicy, key: &PubKey, active: bool, last_update: Option<u64>) -> (r: Option<
    NodePolicy,
>)
    ensures
        (cp.fee_base_msat is Some && cp.htlc_minimum_msat is Some) ==> (r matches Some(p)
            && cln_policy_of(p, *cp, key@, active, last_update)),
{
    match (cp.fee_base_msat, cp.htlc_minimum_msat) {
        (Some(fee), Some(min)) => Some(
            NodePolicy {
                pubkey: key.clone(),
                fee_base_msat: fee,
                fee_rate_milli_msat: cp.fee_proportional_millionths as u64,
                min_htlc_msat: min,
                max_htlc_msat: cp.htlc_maximum_msat,
                time_lock_delta: u32_low16(cp.cltv_expiry_delta),
                disabled: !active,
                last_update,
            },
        ),
        _ => None,
    }
}

fn msat_to_sat(msat: Option<u64>) -> (r: Option<u64>)
    ensures
        r == sats_of(msat),
{
    match msat {
        Some(m) => Some(m / 1000),
        None => None,
    }
}

fn problem(prefix: &str, id_text: &String) -> (r: LightningError)
    ensures
        r matches LightningError::ChannelError(m) && m@ == prefix@ + id_text@,
{
    LightningError::ChannelError(concat2(prefix, id_text.as_str()))
}

/// Describes CLN peer channel `channel` (found under `channel_id`), given
/// the gossip of that channel and the node's own key. The problems that
/// stop it are checked in a fixed order.
pub fn cln_channel_details(
    channel: &ClnPeerChannel,
    channel_id: ShortChannelID,
    gossip: &Vec<ClnGossipChannel>,
    local: &PubKey,
) -> (r: Result<ChannelDetails, LightningError>)
    ensures
        match cln_details_problem(*channel, channel_id.0) {
            Some(m) => r matches Err(LightningError::ChannelError(e)) && e@ == m,
            None => r matches Ok(d) && cln_details_of(
                d,
                *channel,
                channel_id.0,
                secp256k1_pubkey_from_slice(channel.peer_id@)->Some_0,
                gossip@,
                local@,
            ),
        },
{
    let id_text = channel_id.to_text();
    let remote = match PubKey::from_slice(channel.peer_id.as_slice()) {
        Some(k) => k,
        None => {
            let mut m = concat2("Invalid peer pubkey for channel ", id_text.as_str());
            crate::text::push_str(&mut m, ": ");
            crate::text::push_str(&mut m, "malformed public key");
            return Err(LightningError::ChannelError(m));
        },
    };
    let (local_last, remote_last, active_opt) = gossip_scan(gossip, local, &remote);
    let active = match active_opt {
        Some(a) => a,
        None => false,
    };
    let capacity = match channel.total_msat {
        Some(m) => m / 1000,
        None => return Err(problem("Missing total_msat for channel ", &id_text)),
    };
    let local_bal = match channel.to_us_msat {
        Some(m) => m / 1000,
        None => return Err(problem("Missing to_us_msat for channel ", &id_text)),
    };
    if local_bal > capacity {
        return Err(problem("Invalid balance calculation for channel ", &id_text));
    }
    let remote_bal = capacity - local_bal;
    let initiator = Some(channel.opener != 1);
    let updates = match channel.updates {
        Some(u) => u,
        None => return Err(problem("Missing channel updates for channel ", &id_text)),
    };
    let lp = match updates.local {
        Some(p) => p,
        None => return Err(problem("Missing local policy for channel ", &id_text)),
    };
    let rp = match updates.remote {
        Some(p) => p,
        None => return Err(problem("Missing remote policy for channel ", &id_text)),
    };
    if lp.fee_base_msat.is_none() {
        return Err(problem("Missing fee_base_msat in local policy for channel ", &id_text));
    }
    if lp.htlc_minimum_msat.is_none() {
        return Err(problem("Missing htlc_minimum_msat in local policy for channel ", &id_text));
    }
    if rp.fee_base_msat.is_none() {
        return Err(problem("Missing fee_base_msat in remote policy for channel ", &id_text));
    }
    if rp.htlc_minimum_msat.is_none() {
        return Err(problem("Missing htlc_minimum_msat in remote policy for channel ", &id_text));
    }
    let local_policy = cln_policy(&lp, local, active, local_last);
    let remote_policy = cln_policy(&rp, &remote, active, remote_last);
    let (node1_policy, node2_policy) = if local.less_than(&remote) {
        (local_policy, remote_policy)
    } else {
        (remote_policy, local_policy)
    };
    Ok(
        ChannelDetails {
            channel_id,
            local_balance_sat: local_bal,
            remote_balance_sat: remote_bal,
            capacity_sat: capacity,
            active: Some(active),
            private: match channel.private {
                Some(p) => p,
                None => false,
            },
            remote_pubkey: remote,
            commit_fee_sat: msat_to_sat(channel.last_tx_fee_msat),
            local_chan_reserve_sat: msat_to_sat(channel.our_reserve_msat),
            remote_chan_reserve_sat: msat_to_sat(channel.their_reserve_msat),
            num_updates: None,
            total_satoshis_sent: msat_to_sat(channel.out_fulfilled_msat),
            total_satoshis_received: msat_to_sat(channel.in_fulfilled_msat),
            channel_age_blocks: None,
            opening_cost_sat: None,
            initiator,
            txid: funding_txid_of(&channel.funding_txid),
            vout: channel.funding_outnum,
            node1_policy,
            node2_policy,
        },
    )
}

/// A payment as CLN's `ListPays` reports it.
#[derive(Debug, Clone)]
pub struct ClnPay {
    pub payment_hash: Vec<u8>,
    pub status: i32,
    pub destination: Option<Vec<u8>>,
    /// Seconds since the epoch.
    pub created_at: u64,
    pub completed_at: Option<u64>,
    pub amount_msat: Option<u64>,
    pub amount_sent_msat: Option<u64>,
    pub description: Option<String>,
    pub bolt11: Option<String>,
}

/// The state of a CLN payment from its status code: 0 is in flight, 1
/// settled, anything else failed.
pub open spec fn cln_payment_state(status: i32) -> PaymentState {
    if status == 0 {
        PaymentState::Inflight
    } else if status == 1 {
        PaymentState::Settled
    } else {
        PaymentState::Failed
    }
}

fn pay_state_of(status: i32) -> (r: PaymentState)
    ensures
        r == cln_payment_state(status),
{
    if status == 0 {
        PaymentState::Inflight
    } else if status == 1 {
        PaymentState::Settled
    } else {
        PaymentState::Failed
    }
}

/// Picks the payment a lookup by hash reports: the last one CLN lists.
pub fn cln_find_pay(pays: Vec<ClnPay>) -> (r: Result<ClnPay, LightningError>)
    ensures
        pays@.len() == 0 ==> (r matches Err(LightningError::NotFound(m)) && m@
            == "Payment not found"@),
        pays@.len() > 0 ==> r == Ok::<ClnPay, LightningError>(pays@.last()),
{
    let mut pays = pays;
    match pays.pop() {
        Some(p) => Ok(p),
        None => Err(LightningError::NotFound(owned("Payment not found"))),
    }
}

/// The amount of a CLN payment in whole satoshis; zero when absent.
pub fn cln_amount_sat(pay: &ClnPay) -> (r: u64)
    ensures
        r == sats_or_zero(pay.amount_msat),
{
    match pay.amount_msat {
        Some(m) => m / 1000,
        None => 0,
    }
}

/// What reading the destination of a CLN payment gives: none when absent;
/// else its bytes as UTF-8 text, then that text as a key in hex, each
/// failure with its own message.
pub open spec fn cln_destination(dest: Option<Seq<u8>>) -> Result<Option<Seq<u8>>, Seq<char>> {
    match dest {
        None => Ok(None),
        Some(b) => if !valid_utf8(b) {
            Err("Invalid destination string: "@ + std_utf8_error_message(b))
        } else {
            match secp256k1_pubkey_from_hex(decode_utf8(b)) {
                Some(k) => Ok(Some(k)),
                None => Err("Invalid destination pubkey: "@ + malformed_pubkey_message()),
            }
        },
    }
}

/// The optional bytes of a field, as a value.
pub open spec fn opt_bytes(v: Option<Vec<u8>>) -> Option<Seq<u8>> {
    match v {
        Some(b) => Some(b@),
        None => None,
    }
}

/// Reads the destination of a CLN payment (see `cln_destination`).
pub fn cln_payment_destination(dest: &Option<Vec<u8>>) -> (r: Result<Option<PubKey>, LightningError>)
    ensures
        match cln_destination(opt_bytes(*dest)) {
            Ok(None) => r matches Ok(None),
            Ok(Some(k)) => r matches Ok(Some(pk)) && pk@ == k,
            Err(m) => r matches Err(LightningError::Parse(e)) && e@ == m,
        },
{
    match dest {
        None => Ok(None),
        Some(b) => match string_from_utf8(b.clone()) {
            Err(e) => Err(LightningError::Parse(concat2("Invalid destination string: ", e.as_str()))),
            Ok(text) => match PubKey::from_hex(text.as_str()) {
                Some(k) => Ok(Some(k)),
                None => {
                    let mut m = owned("Invalid destination pubkey: ");
                    crate::text::push_str(&mut m, "malformed public key");
                    Err(LightningError::Parse(m))
                },
            },
        },
    }
}

/// Seconds since the epoch, in nanoseconds.
pub open spec fn secs_to_nanos(secs: u64) -> u128 {
    (secs * 1_000_000_000) as u128
}

fn nanos_of(secs: u64) -> (r: u128)
    ensures
        r == secs_to_nanos(secs),
{
    (secs as u128) * 1_000_000_000
}

/// `d` describes CLN payment `p` with destination key `dest`, given the
/// node's network (when known) and the amount in US dollars.
pub open spec fn cln_details_of_payment(
    d: PaymentDetails,
    p: ClnPay,
    dest: Option<Seq<u8>>,
    network: Option<Network>,
    amount_usd: u64,
) -> bool {
    let amount = sats_or_zero(p.amount_msat);
    let sent = sats_or_zero(p.amount_sent_msat);
    &&& d.state == cln_payment_state(p.status)
    &&& d.amount_sat == amount
    &&& d.amount_usd == amount_usd
    &&& d.routing_fee == (if sent >= amount { Some((sent - amount) as u64) } else { None::<u64> })
    &&& match network {
        None => d.network is None,
        Some(n) => d.network matches Some(t) && t@ == network_name(n),
    }
    &&& d.description == p.description
    &&& d.creation_time == Some(secs_to_nanos(p.created_at))
    &&& d.invoice == p.bolt11
    &&& d.payment_hash@ == hex_lower(p.payment_hash@)
    &&& match dest {
        None => d.destination_pubkey is None,
        Some(k) => d.destination_pubkey matches Some(pk) && pk@ == k,
    }
    &&& d.completed_at == p.completed_at
    &&& d.htlcs@.len() == 0
}

/// Describes a CLN payment, given the node's network (when it could be
/// read) and the amount in US dollars; fails as reading its destination
/// fails.
pub fn cln_payment_details(pay: ClnPay, network: Option<Network>, amount_usd: u64) -> (r: Result<
    PaymentDetails,
    LightningError,
>)
    ensures
        match cln_destination(opt_bytes(pay.destination)) {
            Err(m) => r matches Err(LightningError::Parse(e)) && e@ == m,
            Ok(dest) => r matches Ok(d) && cln_details_of_payment(d, pay, dest, network, amount_usd),
        },
{
    let destination_pubkey = match cln_payment_destination(&pay.destination) {
        Ok(k) => k,
        Err(e) => return Err(e),
    };
    let amount = cln_amount_sat(&pay);
    let sent: u64 = match pay.amount_sent_msat {
        Some(m) => m / 1000,
        None => 0,
    };
    let routing_fee = sent.checked_sub(amount);
    let network_text = match network {
        Some(n) => Some(n.name()),
        None => None,
    };
    let creation_time = Some(nanos_of(pay.created_at));
    Ok(
        PaymentDetails {
            state: pay_state_of(pay.status),
            amount_sat: amount,
            amount_usd,
            routing_fee,
            network: network_text,
            description: pay.description,
            creation_time,
            invoice: pay.bolt11,
            payment_hash: hex_encode(pay.payment_hash.as_slice()),
            destination_pubkey,
            completed_at: pay.completed_at,
            htlcs: Vec::new(),
        },
    )
}

/// `s` summarizes CLN payment `p`, given its amount in US dollars.
pub open spec fn cln_summary_of_payment(s: PaymentSummary, p: ClnPay, amount_usd: u64) -> bool {
    &&& s.state == cln_payment_state(p.status)
    &&& s.amount_sat == sats_or_zero(p.amount_msat)
    &&& s.amount_usd == amount_usd
    &&& s.routing_fee == (match (p.amount_sent_msat, p.amount_msat) {
        (Some(sent), Some(received)) => Some(((sent - received) / 1000) as u64),
        _ => None::<u64>,
    })
    &&& s.creation_time == Some(secs_to_nanos(p.created_at))
    &&& s.invoice == p.bolt11
    &&& s.payment_hash@ == hex_lower(p.payment_hash@)
    &&& s.completed_at == p.completed_at
}

/// Summarizes a CLN payment, given its amount in US dollars. Where both
/// amounts are reported, no less can have been sent than received.
pub fn cln_payment_summary(pay: ClnPay, amount_usd: u64) -> (s: PaymentSummary)
    requires
        pay.amount_sent_msat matches Some(sent) && pay.amount_msat matches Some(received) ==> sent
            >= received,
    ensures
        cln_summary_of_payment(s, pay, amount_usd),
{
    let routing_fee = match (pay.amount_sent_msat, pay.amount_msat) {
        (Some(sent), Some(received)) => Some((sent - received) / 1000),
        _ => None,
    };
    let amount_sat = cln_amount_sat(&pay);
    let creation_time = Some(nanos_of(pay.created_at));
    PaymentSummary {
        state: pay_state_of(pay.status),
        amount_sat,
        amount_usd,
        routing_fee,
        creation_time,
        invoice: pay.bolt11,
        payment_hash: hex_encode(pay.payment_hash.as_slice()),
        completed_at: pay.completed_at,
    }
}

/// An invoice as CLN's `ListInvoices` reports it.
#[derive(Debug, Clone)]
pub struct ClnInvoice {
    pub description: Option<String>,
    pub payment_hash: Vec<u8>,
    pub payment_preimage: Option<Vec<u8>>,
    pub amount_msat: Option<u64>,
    /// Seconds since the epoch.
    pub paid_at: Option<u64>,
    pub bolt11: Option<String>,
    /// Seconds since the epoch.
    pub expires_at: u64,
    pub status: i32,
}

/// The state of a CLN invoice from its status code: 1 settled, 2 expired,
/// 3 failed; otherwise expired once its expiry time is reached at `now`
/// (seconds since the epoch), else open.
pub open spec fn cln_invoice_status(status: i32, expires_at: u64, now: u64) -> InvoiceStatus {
    if status == 1 {
        InvoiceStatus::Settled
    } else if status == 2 {
        InvoiceStatus::Expired
    } else if status == 3 {
        InvoiceStatus::Failed
    } else if expires_at <= now {
        InvoiceStatus::Expired
    } else {
        InvoiceStatus::Open
    }
}

fn invoice_state_of(status: i32, expires_at: u64, now: u64) -> (r: InvoiceStatus)
    ensures
        r == cln_invoice_status(status, expires_at, now),
{
    if status == 1 {
        InvoiceStatus::Settled
    } else if status == 2 {
        InvoiceStatus::Expired
    } else if status == 3 {
        InvoiceStatus::Failed
    } else if expires_at <= now {
        InvoiceStatus::Expired
    } else {
        InvoiceStatus::Open
    }
}

/// `i` is CLN invoice `raw` read at time `now`.
pub open spec fn cln_invoice_of(i: CustomInvoice, raw: ClnInvoice, now: u64) -> bool {
    let msat = match raw.amount_msat {
        Some(m) => m,
        None => 0,
    };
    &&& i.memo@ == (match raw.description {
        Some(d) => d@,
        None => Seq::empty(),
    })
    &&& i.payment_hash@ == hex_lower(raw.payment_hash@)
    &&& i.payment_preimage@ == (match raw.payment_preimage {
        Some(p) => hex_lower(p@),
        None => Seq::empty(),
    })
    &&& i.value == msat / 1000
    &&& i.value_msat == msat
    &&& i.settled is None
    &&& i.creation_date is None
    &&& i.settle_date == (match raw.paid_at {
        Some(t) => Some(t as i64),
        None => None::<i64>,
    })
    &&& i.payment_request@ == (match raw.bolt11 {
        Some(b) => b@,
        None => Seq::empty(),
    })
    &&& i.expiry == Some(raw.expires_at)
    &&& i.state == cln_invoice_status(raw.status, raw.expires_at, now)
    &&& i.is_keysend is None
    &&& i.is_amp is None
    &&& i.payment_addr is None
    &&& i.htlcs is None
    &&& i.features is None
}

/// Reads a CLN invoice at time `now` (seconds since the epoch).
pub fn cln_invoice(raw: &ClnInvoice, now: u64) -> (i: CustomInvoice)
    ensures
        cln_invoice_of(i, *raw, now),
{
    let msat: u64 = match raw.amount_msat {
        Some(m) => m,
        None => 0,
    };
    let state = invoice_state_of(raw.status, raw.expires_at, now);
    let payment_hash = hex_encode(raw.payment_hash.as_slice());
    let payment_preimage = match &raw.payment_preimage {
        Some(p) => hex_encode(p.as_slice()),
        None => String::new(),
    };
    CustomInvoice {
        memo: match &raw.description {
            Some(d) => d.clone(),
            None => String::new(),
        },
        payment_hash,
        payment_preimage,
        value: msat / 1000,
        value_msat: msat,
        settled: None,
        creation_date: None,
        settle_date: match raw.paid_at {
            Some(t) => Some(wrap_to_i64(t)),
            None => None,
        },
        payment_request: match &raw.bolt11 {
            Some(b) => b.clone(),
            None => String::new(),
        },
        expiry: Some(raw.expires_at),
        state,
        is_keysend: None,
        is_amp: None,
        payment_addr: None,
        htlcs: None,
        features: None,
    }
}

/// Reads all of CLN's listed invoices, in order, at time `now`.
pub fn cln_invoices(raws: Vec<ClnInvoice>, now: u64) -> (r: Vec<CustomInvoice>)
    ensures
        r@.len() == raws@.len(),
        forall|k: int| 0 <= k < r@.len() ==> cln_invoice_of(#[trigger] r@[k], raws@[k], now),
{
    let mut out: Vec<CustomInvoice> = Vec::new();
    let mut k: usize = 0;
    while k < raws.len()
        invariant
            k <= raws@.len(),
            out@.len() == k,
            forall|j: int| 0 <= j < k ==> cln_invoice_of(#[trigger] out@[j], raws@[j], now),
        decreases raws@.len() - k,
    {
        out.push(cln_invoice(&raws[k], now));
        k = k + 1;
    }
    out
}

/// Reads the invoice a lookup by hash reports: the first one CLN lists.
pub fn cln_looked_up_invoice(raws: Vec<ClnInvoice>, now: u64) -> (r: Result<
    CustomInvoice,
    LightningError,
>)
    ensures
        raws@.len() == 0 ==> (r matches Err(LightningError::NotFound(m)) && m@
            == "Invoice not found"@),
        raws@.len() > 0 ==> (r matches Ok(i) && cln_invoice_of(i, raws@[0], now)),
{
    if raws.len() == 0 {
        return Err(LightningError::NotFound(owned("Invoice not found")));
    }
    Ok(cln_invoice(&raws[0], now))
}

/// A CLN channel is opening for the codes 0, 1, 9 and 10, active only for
/// 2, closing for 3 to 5, closed for 8, and disabled for any other code.
pub proof fn law_cln_channel_state(state: i32)
    ensures
        (cln_channel_state(state) == ChannelState::Opening) == (state == 0 || state == 1 || state == 9
            || state == 10),
        (cln_channel_state(state) == ChannelState::Active) == (state == 2),
        (cln_channel_state(state) == ChannelState::Closing) == (3 <= state <= 5),
        (cln_channel_state(state) == ChannelState::Closed) == (state == 8),
        (cln_channel_state(state) == ChannelState::Disabled) == (state == 6 || state == 7 || state
            < 0 || state > 10),
{
}

/// A CLN payment is in flight for status 0, settled only for status 1, and
/// failed for any other status.
pub proof fn law_cln_payment_state(status: i32)
    ensures
        (cln_payment_state(status) == PaymentState::Inflight) == (status == 0),
        (cln_payment_state(status) == PaymentState::Settled) == (status == 1),
        (cln_payment_state(status) == PaymentState::Failed) == (status != 0 && status != 1),
{
}

/// A CLN invoice is settled for status 1, failed for status 3, expired for
/// status 2 or once its expiry time has come, and open otherwise.
pub proof fn law_cln_invoice_status(status: i32, expires_at: u64, now: u64)
    ensures
        (cln_invoice_status(status, expires_at, now) == InvoiceStatus::Settled) == (status == 1),
        (cln_invoice_status(status, expires_at, now) == InvoiceStatus::Failed) == (status == 3),
        (cln_invoice_status(status, expires_at, now) == InvoiceStatus::Expired) == (status == 2 || (
        status != 1 && status != 3 && expires_at <= now)),
        (cln_invoice_status(status, expires_at, now) == InvoiceStatus::Open) == (status != 1 && status
            != 2 && status != 3 && now < expires_at),
{
}

/// The routing facts of a channel from the gossip: it is public exactly
/// when some gossip entry for it is, and its last update is the latest
/// update among those entries (zero without any).
pub proof fn law_cln_routing_info(gossip: Seq<ClnGossipChannel>, scid: Seq<char>)
    ensures
        cln_routing_info(gossip, scid).1 == exists|i: int|
            0 <= i < gossip.len() && #[trigger] gossip[i].short_channel_id@ == scid && gossip[i].public,
        forall|i: int|
            0 <= i < gossip.len() && #[trigger] gossip[i].short_channel_id@ == scid ==> gossip[i].last_update
                as u64 <= cln_routing_info(gossip, scid).0,
        cln_routing_info(gossip, scid).0 == 0 || exists|i: int|
            0 <= i < gossip.len() && #[trigger] gossip[i].short_channel_id@ == scid && gossip[i].last_update
                as u64 == cln_routing_info(gossip, scid).0,
    decreases gossip.len(),
{
    if gossip.len() > 0 {
        let rest = gossip.drop_last();
        law_cln_routing_info(rest, scid);
        let n = gossip.len() - 1;
        assert forall|i: int| 0 <= i < rest.len() implies #[trigger] rest[i] == gossip[i] by {}
        assert(gossip[n] == gossip.last());
        let prev = cln_routing_info(rest, scid);
        let cur = cln_routing_info(gossip, scid);
        if gossip[n].short_channel_id@ == scid {
            if prev.1 {
                let i = choose|i: int|
                    0 <= i < rest.len() && #[trigger] rest[i].short_channel_id@ == scid && rest[i].public;
                assert(gossip[i] == rest[i]);
            }
            if cur.1 && !prev.1 {
                assert(gossip[n].public);
            }
            if cur.1 == false {
                assert forall|i: int|
                    0 <= i < gossip.len() && #[trigger] gossip[i].short_channel_id@ == scid implies !gossip[i].public by {
                    if i < n {
                        assert(rest[i] == gossip[i]);
                    }
                }
            }
            assert forall|i: int|
                0 <= i < gossip.len() && #[trigger] gossip[i].short_channel_id@ == scid implies gossip[i].last_update
                    as u64 <= cur.0 by {
                if i < n {
                    assert(rest[i] == gossip[i]);
                    assert(rest[i].short_channel_id@ == scid);
                }
            }
            if cur.0 != gossip[n].last_update as u64 && cur.0 != 0 {
                let i = choose|i: int|
                    0 <= i < rest.len() && #[trigger] rest[i].short_channel_id@ == scid && rest[i].last_update
                        as u64 == prev.0;
                assert(gossip[i] == rest[i]);
            }
        } else {
            if prev.1 {
                let i = choose|i: int|
                    0 <= i < rest.len() && #[trigger] rest[i].short_channel_id@ == scid && rest[i].public;
                assert(gossip[i] == rest[i]);
            } else {
                assert forall|i: int|
                    0 <= i < gossip.len() && #[trigger] gossip[i].short_channel_id@ == scid implies !gossip[i].public by {
                    if i < n {
                        assert(rest[i] == gossip[i]);
                    }
                }
            }
            assert forall|i: int|
                0 <= i < gossip.len() && #[trigger] gossip[i].short_channel_id@ == scid implies gossip[i].last_update
                    as u64 <= cur.0 by {
                if i < n {
                    assert(rest[i] == gossip[i]);
                    assert(rest[i].short_channel_id@ == scid);
                }
            }
            if cur.0 != 0 {
                let i = choose|i: int|
                    0 <= i < rest.len() && #[trigger] rest[i].short_channel_id@ == scid && rest[i].last_update
                        as u64 == prev.0;
                assert(gossip[i] == rest[i]);
            }
        }
    }
}

/// A CLN channel summary keeps the channel's capacity and the node's own
/// balance in millisatoshis (absent as zero), gives the peer the rest
/// (never below zero), reads its state from CLN's code, is private exactly
/// when no gossip for it is public, and takes the latest gossip update,
/// or `now` for a private channel without one.
pub proof fn law_cln_channel_summary(
    c: ChannelSummary,
    ch: ClnPeerChannel,
    gossip: Seq<ClnGossipChannel>,
    now: u64,
)
    requires
        cln_summary_of(c, ch, gossip, now),
    ensures
        ch.total_msat matches Some(t) ==> c.capacity == t,
        ch.total_msat is None ==> c.capacity == 0,
        ch.to_us_msat matches Some(t) ==> c.local_balance == t,
        ch.to_us_msat is None ==> c.local_balance == 0,
        c.local_balance <= c.capacity ==> c.remote_balance == c.capacity - c.local_balance,
        c.local_balance > c.capacity ==> c.remote_balance == 0,
        (c.channel_state == ChannelState::Active) == (ch.state == 2),
        c.alias == ch.alias_remote,
        ch.short_channel_id matches Some(t) && c.private == !exists|i: int|
            0 <= i < gossip.len() && #[trigger] gossip[i].short_channel_id@ == t@ && gossip[i].public,
        ch.short_channel_id matches Some(t) && c.last_update matches Some(u) && forall|i: int|
            0 <= i < gossip.len() && #[trigger] gossip[i].short_channel_id@ == t@ ==> gossip[i].last_update
                as u64 <= u || (c.private && u == now),
        c.uptime is None,
{
    let t = ch.short_channel_id->Some_0;
    law_cln_routing_info(gossip, t@);
    law_cln_channel_state(ch.state);
}

/// The details of a CLN channel give its capacity and the node's own
/// balance in whole satoshis, the peer's balance as the rest, the node
/// itself as initiator unless CLN names the peer as opener (1), and the
/// policies in key order: the side with the lower key first.
pub proof fn law_cln_channel_details(
    d: ChannelDetails,
    ch: ClnPeerChannel,
    id: u64,
    remote: Seq<u8>,
    gossip: Seq<ClnGossipChannel>,
    local: Seq<u8>,
)
    requires
        cln_details_of(d, ch, id, remote, gossip, local),
        ch.total_msat is Some,
        ch.to_us_msat is Some,
    ensures
        d.channel_id == ShortChannelID(id),
        d.capacity_sat == ch.total_msat->Some_0 / 1000,
        d.local_balance_sat == ch.to_us_msat->Some_0 / 1000,
        d.remote_balance_sat == ch.total_msat->Some_0 / 1000 - ch.to_us_msat->Some_0 / 1000,
        d.remote_pubkey@ == remote,
        d.initiator == Some(ch.opener != 1),
        d.vout == ch.funding_outnum,
        d.node1_policy matches Some(p1) && d.node2_policy matches Some(p2) && (if bytes_less(
            local,
            remote,
        ) {
            p1.pubkey@ == local && p2.pubkey@ == remote
        } else {
            p1.pubkey@ == remote && p2.pubkey@ == local
        }),
{
}

/// A CLN payment summary reports settled only for status 1 and in flight
/// only for status 0; its amount in whole satoshis of what was received
/// (absent as zero); as fee what was sent beyond what was received, in whole
/// satoshis, where both are known; its creation time in nanoseconds; its
/// hash in hex; and CLN's completion time.
pub proof fn law_cln_payment_summary(s: PaymentSummary, p: ClnPay, amount_usd: u64)
    requires
        cln_summary_of_payment(s, p, amount_usd),
        p.amount_sent_msat matches Some(sent) && p.amount_msat matches Some(received) ==> sent
            >= received,
    ensures
        (s.state == PaymentState::Settled) == (p.status == 1),
        (s.state == PaymentState::Inflight) == (p.status == 0),
        p.amount_msat matches Some(m) ==> s.amount_sat == m / 1000,
        p.amount_msat is None ==> s.amount_sat == 0,
        s.amount_usd == amount_usd,
        (p.amount_sent_msat is Some && p.amount_msat is Some) ==> s.routing_fee == Some(
            ((p.amount_sent_msat->Some_0 - p.amount_msat->Some_0) / 1000) as u64,
        ),
        (p.amount_sent_msat is None || p.amount_msat is None) ==> s.routing_fee is None,
        s.creation_time == Some((p.created_at * 1_000_000_000) as u128),
        s.payment_hash@ == hex_lower(p.payment_hash@),
        s.completed_at == p.completed_at,
        s.invoice == p.bolt11,
{
}

/// CLN payment details report the state as the summary does, the amount in
/// whole satoshis, and as fee the whole satoshis sent beyond those received
/// (none where fewer were sent); and no HTLCs.
pub proof fn law_cln_payment_details(
    d: PaymentDetails,
    p: ClnPay,
    dest: Option<Seq<u8>>,
    network: Option<Network>,
    amount_usd: u64,
)
    requires
        cln_details_of_payment(d, p, dest, network, amount_usd),
    ensures
        (d.state == PaymentState::Settled) == (p.status == 1),
        (d.state == PaymentState::Inflight) == (p.status == 0),
        d.amount_sat == sats_or_zero(p.amount_msat),
        p.amount_msat matches Some(m) ==> d.amount_sat == m / 1000,
        sats_or_zero(p.amount_sent_msat) >= d.amount_sat ==> d.routing_fee == Some(
            (sats_or_zero(p.amount_sent_msat) - d.amount_sat) as u64,
        ),
        sats_or_zero(p.amount_sent_msat) < d.amount_sat ==> d.routing_fee is None,
        d.amount_usd == amount_usd,
        d.payment_hash@ == hex_lower(p.payment_hash@),
        d.completed_at == p.completed_at,
        d.description == p.description,
        d.htlcs@.len() == 0,
{
}

/// A CLN invoice keeps its amount in millisatoshis and gives it in whole
/// satoshis too (absent as zero), its hash in hex, its request and its
/// expiry, and reads its state as `law_cln_invoice_status` says.
pub proof fn law_cln_invoice(i: CustomInvoice, raw: ClnInvoice, now: u64)
    requires
        cln_invoice_of(i, raw, now),
    ensures
        raw.amount_msat matches Some(m) ==> i.value_msat == m && i.value == m / 1000,
        raw.amount_msat is None ==> i.value_msat == 0 && i.value == 0,
        i.payment_hash@ == hex_lower(raw.payment_hash@),
        i.expiry == Some(raw.expires_at),
        (i.state == InvoiceStatus::Settled) == (raw.status == 1),
        (i.state == InvoiceStatus::Open) == (raw.status != 1 && raw.status != 2 && raw.status != 3
            && now < raw.expires_at),
{
}

} // verus!
