//! How replies of an LND node's RPC interface are read into the library's
//! descriptions of the node, its channels, payments, invoices and events.
//! The `Lnd*` records hold the fields of the replies that are read, as
//! plain values.

use vstd::prelude::*;

use crate::errors::LightningError;
use std::collections::HashSet;
use crate::events::{LNDEvent, NodeSpecificEvent};
use crate::node::{
    mismatch_message, network_from_name, network_name, network_parse_error, node_info_text,
    parse_channel_point, parse_node_features, has_feature, flags_sized, spec_channel_point,
    malformed_pubkey_message, secp256k1_pubkey_from_hex, Network, NodeId, NodeInfo, PubKey,
    ShortChannelID,
};
use crate::num::{div_toward_zero, nonneg, nonneg_or_zero, trunc_div, u32_low16, wrap_to_u64};
use crate::records::{
    ChannelDetails, ChannelState, ChannelSummary, CustomInvoice, Feature, Hop, InvoiceHtlc,
    InvoiceStatus, NodePolicy, PaymentDetails, PaymentHtlc, PaymentState, PaymentSummary, Route,
};
use crate::text::{concat2, hex_encode, hex_lower, owned, push_str, str_eq};

verus! {

/// A chain an LND node reports being connected to.
#[derive(Debug, Clone)]
pub struct LndChain {
    pub chain: String,
    pub network: String,
}

/// The network name LND reports, with `mainnet` read as `bitcoin`.
pub open spec fn lnd_network_name(s: Seq<char>) -> Seq<char> {
    if s == "mainnet"@ {
        "bitcoin"@
    } else {
        s
    }
}

/// The text that lists the chains of a node connected to several
/// (the `Debug` rendering of the mapped iterator over them).
pub open spec fn chains_debug_text(chains: Seq<LndChain>) -> Seq<char> {
    "Map { iter: Iter(["@ + chains_items_text(chains) + "]) }"@
}

/// The chains, each as `Chain { chain: "..", network: ".." }`, separated by `, `.
pub open spec fn chains_items_text(chains: Seq<LndChain>) -> Seq<char>
    decreases chains.len(),
{
    if chains.len() == 0 {
        Seq::empty()
    } else if chains.len() == 1 {
        chain_debug_text(chains[0])
    } else {
        chains_items_text(chains.drop_last()) + ", "@ + chain_debug_text(chains.last())
    }
}

/// One chain as `Chain { chain: "..", network: ".." }`.
pub open spec fn chain_debug_text(c: LndChain) -> Seq<char> {
    "Chain { chain: \""@ + c.chain@ + "\", network: \""@ + c.network@ + "\" }"@
}

fn chain_text(c: &LndChain) -> (r: String)
    ensures
        r@ == chain_debug_text(*c),
{
    let mut s = concat2("Chain { chain: \"", c.chain.as_str());
    push_str(&mut s, "\", network: \"");
    push_str(&mut s, c.network.as_str());
    push_str(&mut s, "\" }");
    s
}

fn chains_text(chains: &Vec<LndChain>) -> (r: String)
    ensures
        r@ == chains_debug_text(chains@),
{
    let mut items = String::new();
    let mut i: usize = 0;
    while i < chains.len()
        invariant
            i <= chains@.len(),
            items@ == chains_items_text(chains@.subrange(0, i as int)),
        decreases chains@.len() - i,
    {
        let t = chain_text(&chains[i]);
        proof {
            let p = chains@.subrange(0, i + 1);
            assert(p.drop_last() =~= chains@.subrange(0, i as int));
            if i == 0 {
                assert(chains@.subrange(0, 0).len() == 0);
            }
        }
        if i > 0 {
            push_str(&mut items, ", ");
        }
        push_str(&mut items, t.as_str());
        i = i + 1;
        proof {
            let p = chains@.subrange(0, i as int);
            if i == 1 {
                assert(items@ =~= chains_items_text(p));
            } else {
                assert(items@ =~= chains_items_text(p));
            }
        }
    }
    assert(chains@.subrange(0, chains@.len() as int) =~= chains@);
    let mut s = concat2("Map { iter: Iter([", items.as_str());
    push_str(&mut s, "]) }");
    s
}

/// The network of a node connected to exactly one chain, as read when
/// connecting, or the message of the `GetInfoError` raised.
pub open spec fn spec_lnd_connect_network(chains: Seq<LndChain>) -> Result<Network, Seq<char>> {
    if chains.len() == 0 {
        Err("node is not connected to any chain"@)
    } else if chains.len() > 1 {
        Err("node is connected to more than one chain: "@ + chains_debug_text(chains))
    } else {
        match network_from_name(lnd_network_name(chains[0].network@)) {
            Some(n) => Ok(n),
            None => Err(network_parse_error(lnd_network_name(chains[0].network@))),
        }
    }
}

fn network_of_single_chain(chain: &LndChain) -> (r: Result<Network, String>)
    ensures
        match network_from_name(lnd_network_name(chain.network@)) {
            Some(n) => r == Ok::<Network, String>(n),
            None => r matches Err(m) && m@ == network_parse_error(lnd_network_name(chain.network@)),
        },
{
    if str_eq(chain.network.as_str(), "mainnet") {
        Network::from_name("bitcoin")
    } else {
        Network::from_name(chain.network.as_str())
    }
}

/// Reads the network of a node when connecting to it.
pub fn lnd_connect_network(chains: &Vec<LndChain>) -> (r: Result<Network, LightningError>)
    ensures
        match spec_lnd_connect_network(chains@) {
            Ok(n) => r == Ok::<Network, LightningError>(n),
            Err(m) => r matches Err(LightningError::GetInfoError(e)) && e@ == m,
        },
{
    if chains.len() == 0 {
        return Err(LightningError::GetInfoError(owned("node is not connected to any chain")));
    }
    if chains.len() > 1 {
        let t = chains_text(chains);
        return Err(
            LightningError::GetInfoError(
                concat2("node is connected to more than one chain: ", t.as_str()),
            ),
        );
    }
    match network_of_single_chain(&chains[0]) {
        Ok(n) => Ok(n),
        Err(m) => Err(LightningError::GetInfoError(m)),
    }
}

/// The network of a connected node, as `get_network` reads it, or the
/// message of the `ValidationError` raised; `info` is the node's own.
pub open spec fn spec_lnd_get_network(info: NodeInfo, chains: Seq<LndChain>) -> Result<
    Network,
    Seq<char>,
> {
    let me = node_info_text(info.alias@, info.pubkey@);
    if chains.len() == 0 {
        Err(me + " is not connected any chain"@)
    } else if chains.len() > 1 {
        Err(me + " is connected to more than one chain: "@ + chains_debug_text(chains))
    } else {
        match network_from_name(lnd_network_name(chains[0].network@)) {
            Some(n) => Ok(n),
            None => Err(network_parse_error(lnd_network_name(chains[0].network@))),
        }
    }
}

/// Reads the network of a connected node.
pub fn lnd_get_network(info: &NodeInfo, chains: &Vec<LndChain>) -> (r: Result<
    Network,
    LightningError,
>)
    ensures
        match spec_lnd_get_network(*info, chains@) {
            Ok(n) => r == Ok::<Network, LightningError>(n),
            Err(m) => r matches Err(LightningError::ValidationError(e)) && e@ == m,
        },
{
    if chains.len() == 0 {
        let me = info.to_text();
        return Err(LightningError::ValidationError(concat2(me.as_str(), " is not connected any chain")));
    }
    if chains.len() > 1 {
        let me = info.to_text();
        let t = chains_text(chains);
        let mut m = concat2(me.as_str(), " is connected to more than one chain: ");
        push_str(&mut m, t.as_str());
        return Err(LightningError::ValidationError(m));
    }
    match network_of_single_chain(&chains[0]) {
        Ok(n) => Ok(n),
        Err(m) => Err(LightningError::ValidationError(m)),
    }
}

/// The message of the validation error when a node's reported key and
/// alias do not match the expected id, if they do not.
pub open spec fn id_mismatch(expected: NodeId, key: Seq<u8>, alias: Seq<char>) -> Option<Seq<char>> {
    match expected {
        NodeId::PublicKey(pk) => if pk@ == key {
            None
        } else {
            Some(mismatch_message("node id"@, hex_lower(pk@), hex_lower(key)))
        },
        NodeId::Alias(a) => if a@ == alias {
            None
        } else {
            Some(mismatch_message("alias"@, a@, alias))
        },
    }
}

/// The flags set exactly the features of the set.
pub open spec fn features_listed(flags: Seq<u8>, features: Set<u32>) -> bool {
    forall|i: int, j: int|
        0 <= i < flags.len() && 0 <= j < 8 ==> (#[trigger] crate::node::bit_set(flags[i], j)
            <==> has_feature(features, i * 8 + j))
}

/// What connecting to an LND node reads from its `GetInfo` reply: its key
/// (checked against the expected id), alias, features and network.
pub fn lnd_connect_info(
    expected: &NodeId,
    identity_pubkey: &str,
    alias: String,
    chains: &Vec<LndChain>,
    features: HashSet<u32>,
) -> (r: Result<(NodeInfo, Network), LightningError>)
    ensures
        match secp256k1_pubkey_from_hex(identity_pubkey@) {
            None => r matches Err(LightningError::GetInfoError(m)) && m@
                == malformed_pubkey_message(),
            Some(k) => match id_mismatch(*expected, k, alias@) {
                Some(m) => r matches Err(LightningError::ValidationError(e)) && e@ == m,
                None => match spec_lnd_connect_network(chains@) {
                    Err(m) => r matches Err(LightningError::GetInfoError(e)) && e@ == m,
                    Ok(n) => r matches Ok((info, n2)) && n2 == n && info.pubkey@ == k
                        && info.alias@ == alias@ && features_listed(info.features@, features@)
                        && flags_sized(info.features@, features@),
                },
            },
        },
{
    let mut alias = alias;
    let pubkey = match PubKey::from_hex(identity_pubkey) {
        Some(k) => k,
        None => return Err(LightningError::GetInfoError(owned("malformed public key"))),
    };
    let ghost alias0 = alias@;
    match expected.validate(&pubkey, &mut alias) {
        Ok(()) => {},
        Err(e) => return Err(e),
    }
    let network = match lnd_connect_network(chains) {
        Ok(n) => n,
        Err(e) => return Err(e),
    };
    let flags = parse_node_features(features);
    Ok((NodeInfo { pubkey, features: flags, alias }, network))
}

/// The part of an LND `NodeInfo` reply that is read.
#[derive(Debug)]
pub struct LndNodeAnnouncement {
    pub alias: String,
    /// The feature bits the node announces.
    pub features: HashSet<u32>,
}

/// Reads public information about another node from the reply of a lookup
/// by `node_id`; the node may be unknown.
pub fn lnd_node_info(node_id: &PubKey, node: Option<LndNodeAnnouncement>) -> (r: Result<
    NodeInfo,
    LightningError,
>)
    ensures
        match node {
            None => r matches Err(LightningError::GetNodeInfoError(m)) && m@ == "Node not found"@,
            Some(n) => r matches Ok(info) && info.pubkey@ == node_id@ && info.alias == n.alias
                && features_listed(info.features@, n.features@) && flags_sized(
                info.features@,
                n.features@,
            ),
        },
{
    match node {
        Some(n) => {
            let features = parse_node_features(n.features);
            Ok(NodeInfo { pubkey: node_id.clone(), alias: n.alias, features })
        },
        None => Err(LightningError::GetNodeInfoError(owned("Node not found"))),
    }
}

/// An open channel, as LND's `ListChannels` reports it.
#[derive(Debug, Clone)]
pub struct LndChannel {
    pub chan_id: u64,
    pub active: bool,
    pub private: bool,
    pub remote_pubkey: String,
    pub channel_point: String,
    pub capacity: i64,
    pub local_balance: i64,
    pub remote_balance: i64,
    pub commit_fee: i64,
    /// The reserve of the local constraints, when they are reported.
    pub local_chan_reserve_sat: Option<u64>,
    /// The reserve of the remote constraints, when they are reported.
    pub remote_chan_reserve_sat: Option<u64>,
    pub num_updates: u64,
    pub total_satoshis_sent: i64,
    pub total_satoshis_received: i64,
    pub lifetime: i64,
    pub uptime: i64,
    pub initiator: bool,
}

/// One direction's routing policy in LND's channel graph.
#[derive(Debug, Clone, Copy)]
pub struct LndRoutingPolicy {
    pub time_lock_delta: u32,
    pub min_htlc: i64,
    pub fee_base_msat: i64,
    pub fee_rate_milli_msat: i64,
    pub disabled: bool,
    pub max_htlc_msat: u64,
    pub last_update: u32,
}

/// A channel of LND's channel graph.
#[derive(Debug, Clone)]
pub struct LndChannelEdge {
    pub channel_id: u64,
    pub last_update: u32,
    pub node1_pub: String,
    pub node2_pub: String,
    pub node1_policy: Option<LndRoutingPolicy>,
    pub node2_policy: Option<LndRoutingPolicy>,
}

/// The latest positive update time among the graph edges of a channel.
pub open spec fn edges_last_update(edges: Seq<LndChannelEdge>, chan_id: u64) -> Option<u64>
    decreases edges.len(),
{
    if edges.len() == 0 {
        None
    } else {
        let rest = edges_last_update(edges.drop_last(), chan_id);
        let e = edges.last();
        if e.channel_id == chan_id && e.last_update > 0 {
            match rest {
                Some(u) => Some(if u >= e.last_update as u64 { u } else { e.last_update as u64 }),
                None => Some(e.last_update as u64),
            }
        } else {
            rest
        }
    }
}

fn last_update_of(edges: &Vec<LndChannelEdge>, chan_id: u64) -> (r: Option<u64>)
    ensures
        r == edges_last_update(edges@, chan_id),
{
    let mut best: Option<u64> = None;
    let mut i: usize = 0;
    while i < edges.len()
        invariant
            i <= edges@.len(),
            best == edges_last_update(edges@.subrange(0, i as int), chan_id),
        decreases edges@.len() - i,
    {
        let e = &edges[i];
        proof {
            assert(edges@.subrange(0, i + 1).drop_last() =~= edges@.subrange(0, i as int));
        }
        if e.channel_id == chan_id && e.last_update > 0 {
            let u = e.last_update as u64;
            best = match best {
                Some(b) => Some(if b >= u { b } else { u }),
                None => Some(u),
            };
        }
        i = i + 1;
    }
    assert(edges@.subrange(0, edges@.len() as int) =~= edges@);
    best
}

/// An amount of satoshis (negative read as zero) in millisatoshis, held at
/// the largest `u64` when it does not fit.
pub open spec fn msat_of_sat(sat: i64) -> u64 {
    if sat <= 0 {
        0
    } else if sat <= u64::MAX / 1000 {
        (sat * 1000) as u64
    } else {
        u64::MAX
    }
}

/// Converts an amount of satoshis to millisatoshis (see `msat_of_sat`).
fn sat_to_msat(sat: i64) -> (r: u64)
    ensures
        r == msat_of_sat(sat),
{
    if sat <= 0 {
        0
    } else if sat as u64 <= u64::MAX / 1000 {
        (sat as u64) * 1000
    } else {
        u64::MAX
    }
}

/// `c` summarizes LND channel `ch`, given the graph edges; amounts are
/// given in millisatoshis.
pub open spec fn lnd_summary_of(c: ChannelSummary, ch: LndChannel, edges: Seq<LndChannelEdge>) -> bool {
    &&& c.chan_id == ShortChannelID(ch.chan_id)
    &&& c.alias is None
    &&& c.channel_state == (if ch.active { ChannelState::Active } else { ChannelState::Disabled })
    &&& c.private == ch.private
    &&& c.remote_balance == msat_of_sat(ch.remote_balance)
    &&& c.local_balance == msat_of_sat(ch.local_balance)
    &&& c.capacity == msat_of_sat(ch.capacity)
    &&& c.last_update == edges_last_update(edges, ch.chan_id)
    &&& c.uptime == Some(ch.uptime as u64)
}

/// Summarizes LND's channels, with capacity and balances in millisatoshis,
/// taking each channel's last update from the latest positive update among
/// the graph edges of that channel.
pub fn lnd_channel_summaries(channels: &Vec<LndChannel>, edges: &Vec<LndChannelEdge>) -> (r: Vec<
    ChannelSummary,
>)
    ensures
        r@.len() == channels@.len(),
        forall|i: int| 0 <= i < r@.len() ==> lnd_summary_of(#[trigger] r@[i], channels@[i], edges@),
{
    let mut out: Vec<ChannelSummary> = Vec::new();
    let mut i: usize = 0;
    while i < channels.len()
        invariant
            i <= channels@.len(),
            out@.len() == i,
            forall|k: int| 0 <= k < i ==> lnd_summary_of(#[trigger] out@[k], channels@[k], edges@),
        decreases channels@.len() - i,
    {
        let ch = &channels[i];
        let s = ChannelSummary {
            chan_id: ShortChannelID(ch.chan_id),
            alias: None,
            channel_state: if ch.active {
                ChannelState::Active
            } else {
                ChannelState::Disabled
            },
            private: ch.private,
            remote_balance: sat_to_msat(ch.remote_balance),
            local_balance: sat_to_msat(ch.local_balance),
            capacity: sat_to_msat(ch.capacity),
            last_update: last_update_of(edges, ch.chan_id),
            uptime: Some(wrap_to_u64(ch.uptime)),
        };
        out.push(s);
        i = i + 1;
    }
    out
}

/// `p` is LND's routing policy `rp` for the side whose key is `key`.
pub open spec fn lnd_policy_of(p: NodePolicy, rp: LndRoutingPolicy, key: Seq<u8>) -> bool {
    &&& p.pubkey@ == key
    &&& p.fee_base_msat == rp.fee_base_msat as u64
    &&& p.fee_rate_milli_msat == rp.fee_rate_milli_msat as u64
    &&& p.min_htlc_msat == rp.min_htlc as u64
    &&& p.max_htlc_msat == (if rp.max_htlc_msat > 0 { Some(rp.max_htlc_msat) } else { None::<u64> })
    &&& p.time_lock_delta == rp.time_lock_delta % 0x1_0000
    &&& p.disabled == rp.disabled
    &&& p.last_update == Some(rp.last_update as u64)
}

fn lnd_policy(rp: &LndRoutingPolicy, key: &PubKey) -> (p: NodePolicy)
    ensures
        lnd_policy_of(p, *rp, key@),
{
    NodePolicy {
        pubkey: key.clone(),
        fee_base_msat: wrap_to_u64(rp.fee_base_msat),
        fee_rate_milli_msat: wrap_to_u64(rp.fee_rate_milli_msat),
        min_htlc_msat: wrap_to_u64(rp.min_htlc),
        max_htlc_msat: if rp.max_htlc_msat > 0 {
            Some(rp.max_htlc_msat)
        } else {
            None
        },
        time_lock_delta: u32_low16(rp.time_lock_delta),
        disabled: rp.disabled,
        last_update: Some(rp.last_update as u64),
    }
}

/// The index of the first element whose channel id is `id`, if any.
#[verifier::opaque]
pub open spec fn first_channel_index(channels: Seq<LndChannel>, id: u64) -> Option<int> {
    if exists|i: int| 0 <= i < channels.len() && channels[i].chan_id == id {
        Some(
            choose|i: int|
                0 <= i < channels.len() && channels[i].chan_id == id && forall|j: int|
                    0 <= j < i ==> channels[j].chan_id != id,
        )
    } else {
        None
    }
}

/// The first graph edge of channel `id`, if any.
#[verifier::opaque]
pub open spec fn first_edge_index(edges: Seq<LndChannelEdge>, id: u64) -> Option<int> {
    if exists|i: int| 0 <= i < edges.len() && edges[i].channel_id == id {
        Some(
            choose|i: int|
                0 <= i < edges.len() && edges[i].channel_id == id && forall|j: int|
                    0 <= j < i ==> edges[j].channel_id != id,
        )
    } else {
        None
    }
}

fn find_channel(channels: &Vec<LndChannel>, id: u64) -> (r: Option<usize>)
    ensures
        r matches Some(k) ==> first_channel_index(channels@, id) == Some(k as int),
        r is None <==> first_channel_index(channels@, id) is None,
        r matches Some(i) ==> i < channels@.len() && channels@[i as int].chan_id == id,
        first_channel_index(channels@, id) matches Some(i) ==> 0 <= i < channels@.len(),
{
    let mut i: usize = 0;
    while i < channels.len()
        invariant
            i <= channels@.len(),
            forall|j: int| 0 <= j < i ==> channels@[j].chan_id != id,
        decreases channels@.len() - i,
    {
        if channels[i].chan_id == id {
            proof {
                reveal(first_channel_index);
                let k = choose|k: int|
                    0 <= k < channels@.len() && channels@[k].chan_id == id && forall|j: int|
                        0 <= j < k ==> channels@[j].chan_id != id;
                if k < i {
                    assert(channels@[k].chan_id != id);
                }
                if k > i {
                    assert(channels@[i as int].chan_id != id);
                }
            }
            return Some(i);
        }
        i = i + 1;
    }
    proof {
        reveal(first_channel_index);
    }
    None
}

fn find_edge(edges: &Vec<LndChannelEdge>, id: u64) -> (r: Option<usize>)
    ensures
        r matches Some(k) ==> first_edge_index(edges@, id) == Some(k as int),
        r is None <==> first_edge_index(edges@, id) is None,
        r matches Some(i) ==> i < edges@.len() && edges@[i as int].channel_id == id,
        first_edge_index(edges@, id) matches Some(i) ==> 0 <= i < edges@.len(),
{
    let mut i: usize = 0;
    while i < edges.len()
        invariant
            i <= edges@.len(),
            forall|j: int| 0 <= j < i ==> edges@[j].channel_id != id,
        decreases edges@.len() - i,
    {
        if edges[i].channel_id == id {
            proof {
                reveal(first_edge_index);
                let k = choose|k: int|
                    0 <= k < edges@.len() && edges@[k].channel_id == id && forall|j: int|
                        0 <= j < k ==> edges@[j].channel_id != id;
                if k < i {
                    assert(edges@[k].channel_id != id);
                }
                if k > i {
                    assert(edges@[i as int].channel_id != id);
                }
            }
            return Some(i);
        }
        i = i + 1;
    }
    proof {
        reveal(first_edge_index);
    }
    None
}

/// The key a graph edge names for one side, or `fallback` when it is not one.
pub open spec fn key_or(text: Seq<char>, fallback: Seq<u8>) -> Seq<u8> {
    match secp256k1_pubkey_from_hex(text) {
        Some(k) => k,
        None => fallback,
    }
}

fn parse_key_or(text: &str, fallback: &PubKey) -> (r: PubKey)
    ensures
        r@ == key_or(text@, fallback@),
{
    match PubKey::from_hex(text) {
        Some(k) => k,
        None => fallback.clone(),
    }
}

/// `d` describes LND channel `ch` (whose point reads as `(txid, vout)`)
/// with remote key `remote`, given the graph (`None` when it could not be
/// read) and the local key.
pub open spec fn lnd_details_of(
    d: ChannelDetails,
    ch: LndChannel,
    txid: Seq<u8>,
    vout: u32,
    remote: Seq<u8>,
    graph: Option<Seq<LndChannelEdge>>,
    local: Seq<u8>,
) -> bool {
    &&& d.channel_id == ShortChannelID(ch.chan_id)
    &&& d.local_balance_sat == (if ch.local_balance >= 0 { ch.local_balance as int } else { 0 })
    &&& d.remote_balance_sat == (if ch.remote_balance >= 0 { ch.remote_balance as int } else { 0 })
    &&& d.capacity_sat == (if ch.capacity >= 0 { ch.capacity as int } else { 0 })
    &&& d.active == Some(ch.active)
    &&& d.private == ch.private
    &&& d.remote_pubkey@ == remote
    &&& d.commit_fee_sat == Some(ch.commit_fee as u64)
    &&& d.local_chan_reserve_sat == Some(
        match ch.local_chan_reserve_sat {
            Some(v) => v,
            None => 0,
        },
    )
    &&& d.remote_chan_reserve_sat == Some(
        match ch.remote_chan_reserve_sat {
            Some(v) => v,
            None => 0,
        },
    )
    &&& d.num_updates == Some(ch.num_updates)
    &&& d.total_satoshis_sent == Some(ch.total_satoshis_sent as u64)
    &&& d.total_satoshis_received == Some(ch.total_satoshis_received as u64)
    &&& d.channel_age_blocks == (if 0 <= ch.lifetime <= u32::MAX { Some(ch.lifetime as u32) } else {
        None::<u32>
    })
    &&& d.opening_cost_sat is None
    &&& d.initiator == Some(ch.initiator)
    &&& d.txid matches Some(t) && t@ == txid
    &&& d.vout == Some(vout)
    &&& lnd_graph_policies_of(d.node1_policy, d.node2_policy, graph, ch.chan_id, remote, local)
}

/// The two sides' policies as read from the first graph edge of channel
/// `id`: none without a graph or edge, and a side's key falls back to the
/// remote key (side 1) or the local key (side 2) when not readable.
pub open spec fn lnd_graph_policies_of(
    p1: Option<NodePolicy>,
    p2: Option<NodePolicy>,
    graph: Option<Seq<LndChannelEdge>>,
    id: u64,
    remote: Seq<u8>,
    local: Seq<u8>,
) -> bool {
    match graph {
        None => p1 is None && p2 is None,
        Some(edges) => match first_edge_index(edges, id) {
            None => p1 is None && p2 is None,
            Some(k) => {
                let e = edges[k];
                &&& match e.node1_policy {
                    None => p1 is None,
                    Some(rp) => p1 matches Some(p) && lnd_policy_of(
                        p,
                        rp,
                        key_or(e.node1_pub@, remote),
                    ),
                }
                &&& match e.node2_policy {
                    None => p2 is None,
                    Some(rp) => p2 matches Some(p) && lnd_policy_of(
                        p,
                        rp,
                        key_or(e.node2_pub@, local),
                    ),
                }
            },
        },
    }
}

fn lnd_graph_policies(
    graph: &Option<Vec<LndChannelEdge>>,
    id: u64,
    remote: &PubKey,
    local: &PubKey,
) -> (r: (Option<NodePolicy>, Option<NodePolicy>))
    ensures
        lnd_graph_policies_of(
            r.0,
            r.1,
            match *graph {
                Some(g) => Some(g@),
                None => None,
            },
            id,
            remote@,
            local@,
        ),
{
    match graph {
        None => (None, None),
        Some(edges) => match find_edge(edges, id) {
            None => (None, None),
            Some(k) => {
                let e = &edges[k];
                let k1 = parse_key_or(e.node1_pub.as_str(), remote);
                let k2 = parse_key_or(e.node2_pub.as_str(), local);
                let p1 = match &e.node1_policy {
                    Some(rp) => Some(lnd_policy(rp, &k1)),
                    None => None,
                };
                let p2 = match &e.node2_policy {
                    Some(rp) => Some(lnd_policy(rp, &k2)),
                    None => None,
                };
                (p1, p2)
            },
        },
    }
}

/// Describes channel `channel_id` from LND's open channels and (when it
/// could be read) channel graph; `local` is the node's own key.
pub fn lnd_channel_details(
    channels: &Vec<LndChannel>,
    channel_id: ShortChannelID,
    graph: &Option<Vec<LndChannelEdge>>,
    local: &PubKey,
) -> (r: Result<ChannelDetails, LightningError>)
    ensures
        match first_channel_index(channels@, channel_id.0) {
            None => r matches Err(LightningError::ChannelError(m)) && m@ == "Channel not found"@,
            Some(i) => {
                let ch = channels@[i];
                match spec_channel_point(ch.channel_point@) {
                    Err(m) => r matches Err(LightningError::ValidationError(e)) && e@ == m,
                    Ok((txid, vout)) => match secp256k1_pubkey_from_hex(ch.remote_pubkey@) {
                        None => r matches Err(LightningError::ChannelError(m)) && m@
                            == "Invalid remote pubkey: "@ + malformed_pubkey_message(),
                        Some(remote) => r matches Ok(d) && lnd_details_of(
                            d,
                            ch,
                            txid,
                            vout,
                            remote,
                            match *graph {
                                Some(g) => Some(g@),
                                None => None,
                            },
                            local@,
                        ),
                    },
                }
            },
        },
{
    let idx = match find_channel(channels, channel_id.0) {
        Some(i) => i,
        None => return Err(LightningError::ChannelError(owned("Channel not found"))),
    };
    let ch = &channels[idx];
    let point = match parse_channel_point(ch.channel_point.as_str()) {
        Ok(p) => p,
        Err(e) => return Err(e),
    };
    let remote = match PubKey::from_hex(ch.remote_pubkey.as_str()) {
        Some(k) => k,
        None => {
            return Err(
                LightningError::ChannelError(
                    concat2("Invalid remote pubkey: ", "malformed public key"),
                ),
            )
        },
    };
    let (node1_policy, node2_policy) = lnd_graph_policies(graph, channel_id.0, &remote, local);
    let age: Option<u32> = if 0 <= ch.lifetime && ch.lifetime <= u32::MAX as i64 {
        Some(ch.lifetime as u32)
    } else {
        None
    };
    Ok(
        ChannelDetails {
            channel_id: ShortChannelID(ch.chan_id),
            local_balance_sat: nonneg_or_zero(ch.local_balance),
            remote_balance_sat: nonneg_or_zero(ch.remote_balance),
            capacity_sat: nonneg_or_zero(ch.capacity),
            active: Some(ch.active),
            private: ch.private,
            remote_pubkey: remote,
            commit_fee_sat: Some(wrap_to_u64(ch.commit_fee)),
            local_chan_reserve_sat: Some(
                match ch.local_chan_reserve_sat {
                    Some(v) => v,
                    None => 0,
                },
            ),
            remote_chan_reserve_sat: Some(
                match ch.remote_chan_reserve_sat {
                    Some(v) => v,
                    None => 0,
                },
            ),
            num_updates: Some(ch.num_updates),
            total_satoshis_sent: Some(wrap_to_u64(ch.total_satoshis_sent)),
            total_satoshis_received: Some(wrap_to_u64(ch.total_satoshis_received)),
            channel_age_blocks: age,
            opening_cost_sat: None,
            initiator: Some(ch.initiator),
            txid: Some(point.txid),
            vout: Some(point.vout),
            node1_policy,
            node2_policy,
        },
    )
}

/// One hop of a payment route, as LND reports it.
#[derive(Debug, Clone)]
pub struct LndHop {
    pub chan_id: u64,
    pub expiry: u32,
    pub amt_to_forward_msat: i64,
    pub fee_msat: i64,
    pub pub_key: String,
}

/// A payment route, as LND reports it.
#[derive(Debug, Clone)]
pub struct LndRoute {
    pub total_time_lock: u32,
    pub total_fees_msat: i64,
    pub total_amt_msat: i64,
    pub hops: Vec<LndHop>,
}

/// The failure of an HTLC attempt: its failure code and the code's name.
#[derive(Debug, Clone)]
pub struct LndHtlcFailure {
    pub code: i32,
    pub code_name: String,
}

/// One attempt to pay, as LND reports it.
#[derive(Debug, Clone)]
pub struct LndHtlcAttempt {
    pub attempt_id: u64,
    pub route: Option<LndRoute>,
    pub attempt_time_ns: i64,
    pub resolve_time_ns: i64,
    pub failure: Option<LndHtlcFailure>,
}

/// A payment, as LND's `ListPayments` reports it.
#[derive(Debug, Clone)]
pub struct LndPayment {
    pub payment_hash: String,
    pub value_sat: i64,
    pub payment_request: String,
    pub status: i32,
    pub fee_sat: i64,
    pub creation_time_ns: i64,
    pub htlcs: Vec<LndHtlcAttempt>,
}

/// The state of a payment from LND's status code: succeeded (2) is
/// settled, failed (3) is failed, and anything else is in flight.
pub open spec fn lnd_payment_state(status: i32) -> PaymentState {
    if status == 2 {
        PaymentState::Settled
    } else if status == 3 {
        PaymentState::Failed
    } else {
        PaymentState::Inflight
    }
}

fn payment_state_of(status: i32) -> (r: PaymentState)
    ensures
        r == lnd_payment_state(status),
{
    if status == 2 {
        PaymentState::Settled
    } else if status == 3 {
        PaymentState::Failed
    } else {
        PaymentState::Inflight
    }
}

/// Whole satoshis of a millisatoshi amount, rounded toward zero.
pub open spec fn sat_of_msat(msat: i64) -> int {
    trunc_div(msat as int, 1000)
}

/// `h` is LND hop `raw`; a key that does not read falls back to `local`.
pub open spec fn lnd_hop_of(h: Hop, raw: LndHop, local: Seq<u8>) -> bool {
    &&& h.pubkey@ == key_or(raw.pub_key@, local)
    &&& h.chan_id == ShortChannelID(raw.chan_id)
    &&& h.amount_to_forward == sat_of_msat(raw.amt_to_forward_msat) as u64
    &&& h.fee == Some(sat_of_msat(raw.fee_msat) as u64)
    &&& h.expiry == Some(raw.expiry as u64)
}

/// `r` is LND route `raw`; totals below zero read as zero.
pub open spec fn lnd_route_of(r: Route, raw: LndRoute, local: Seq<u8>) -> bool {
    &&& r.total_time_lock == raw.total_time_lock
    &&& r.total_fees == (if sat_of_msat(raw.total_fees_msat) >= 0 { sat_of_msat(raw.total_fees_msat) } else { 0 })
    &&& r.total_amt == (if sat_of_msat(raw.total_amt_msat) >= 0 { sat_of_msat(raw.total_amt_msat) } else { 0 })
    &&& r.hops@.len() == raw.hops@.len()
    &&& forall|i: int| 0 <= i < r.hops@.len() ==> lnd_hop_of(#[trigger] r.hops@[i], raw.hops@[i], local)
}

/// `h` is LND attempt `raw`.
pub open spec fn lnd_htlc_of(h: PaymentHtlc, raw: LndHtlcAttempt, local: Seq<u8>) -> bool {
    &&& match raw.route {
        None => h.routes@.len() == 0,
        Some(rr) => h.routes@.len() == 1 && lnd_route_of(h.routes@[0], rr, local),
    }
    &&& h.attempt_id == raw.attempt_id
    &&& h.attempt_time == Some(raw.attempt_time_ns as u64)
    &&& h.resolve_time == Some(raw.resolve_time_ns as u64)
    &&& match raw.failure {
        None => h.failure_reason is None && h.failure_code is None,
        Some(f) => h.failure_reason matches Some(t) && t@ == f.code_name@ && h.failure_code == Some(
            f.code as u16,
        ),
    }
}

fn lnd_hop(raw: &LndHop, local: &PubKey) -> (h: Hop)
    ensures
        lnd_hop_of(h, *raw, local@),
{
    let a = div_toward_zero(raw.amt_to_forward_msat, 1000);
    let f = div_toward_zero(raw.fee_msat, 1000);
    Hop {
        pubkey: parse_key_or(raw.pub_key.as_str(), local),
        chan_id: ShortChannelID(raw.chan_id),
        amount_to_forward: wrap_to_u64(a),
        fee: Some(wrap_to_u64(f)),
        expiry: Some(raw.expiry as u64),
    }
}

fn lnd_route(raw: &LndRoute, local: &PubKey) -> (r: Route)
    ensures
        lnd_route_of(r, *raw, local@),
{
    let mut hops: Vec<Hop> = Vec::new();
    let mut i: usize = 0;
    while i < raw.hops.len()
        invariant
            i <= raw.hops@.len(),
            hops@.len() == i,
            forall|k: int| 0 <= k < i ==> lnd_hop_of(#[trigger] hops@[k], raw.hops@[k], local@),
        decreases raw.hops@.len() - i,
    {
        hops.push(lnd_hop(&raw.hops[i], local));
        i = i + 1;
    }
    Route {
        total_time_lock: raw.total_time_lock,
        total_fees: nonneg_or_zero(div_toward_zero(raw.total_fees_msat, 1000)),
        total_amt: nonneg_or_zero(div_toward_zero(raw.total_amt_msat, 1000)),
        hops,
    }
}

fn lnd_htlc(raw: &LndHtlcAttempt, local: &PubKey) -> (h: PaymentHtlc)
    ensures
        lnd_htlc_of(h, *raw, local@),
{
    let mut routes: Vec<Route> = Vec::new();
    match &raw.route {
        Some(rr) => routes.push(lnd_route(rr, local)),
        None => {},
    }
    let (failure_reason, failure_code) = match &raw.failure {
        Some(f) => (Some(f.code_name.clone()), Some(f.code as u16)),
        None => (None, None),
    };
    PaymentHtlc {
        routes,
        attempt_id: raw.attempt_id,
        attempt_time: Some(wrap_to_u64(raw.attempt_time_ns)),
        resolve_time: Some(wrap_to_u64(raw.resolve_time_ns)),
        failure_reason,
        failure_code,
    }
}

/// The key of the last hop of an attempt's route, when it reads as one.
pub open spec fn attempt_destination(a: LndHtlcAttempt) -> Option<Seq<u8>> {
    match a.route {
        None => None,
        Some(r) => if r.hops@.len() == 0 {
            None
        } else {
            secp256k1_pubkey_from_hex(r.hops@.last().pub_key@)
        },
    }
}

/// The destination of a payment: that of the last attempt that names one.
pub open spec fn lnd_destination(htlcs: Seq<LndHtlcAttempt>) -> Option<Seq<u8>>
    decreases htlcs.len(),
{
    if htlcs.len() == 0 {
        None
    } else {
        match attempt_destination(htlcs.last()) {
            Some(k) => Some(k),
            None => lnd_destination(htlcs.drop_last()),
        }
    }
}

/// The index of the first payment whose hash text is `hash_text`, if any.
#[verifier::opaque]
pub open spec fn first_payment_index(payments: Seq<LndPayment>, hash_text: Seq<char>) -> Option<int> {
    if exists|i: int| 0 <= i < payments.len() && payments[i].payment_hash@ == hash_text {
        Some(
            choose|i: int|
                0 <= i < payments.len() && payments[i].payment_hash@ == hash_text && forall|j: int|
                    0 <= j < i ==> payments[j].payment_hash@ != hash_text,
        )
    } else {
        None
    }
}

/// Finds the payment with the given 32-byte hash among LND's payments, by
/// its hash in lowercase hex.
pub fn lnd_find_payment(payments: &Vec<LndPayment>, payment_hash: &[u8]) -> (r: Result<
    usize,
    LightningError,
>)
    ensures
        match first_payment_index(payments@, hex_lower(payment_hash@)) {
            Some(i) => r == Ok::<usize, LightningError>(i as usize) && 0 <= i < payments@.len(),
            None => r matches Err(LightningError::NotFound(m)) && m@ == "Payment "@ + hex_lower(
                payment_hash@,
            ) + " not found"@,
        },
{
    let hex_hash = hex_encode(payment_hash);
    let mut i: usize = 0;
    while i < payments.len()
        invariant
            i <= payments@.len(),
            hex_hash@ == hex_lower(payment_hash@),
            forall|j: int| 0 <= j < i ==> payments@[j].payment_hash@ != hex_hash@,
        decreases payments@.len() - i,
    {
        if str_eq(payments[i].payment_hash.as_str(), hex_hash.as_str()) {
            proof {
                reveal(first_payment_index);
                let k = choose|k: int|
                    0 <= k < payments@.len() && payments@[k].payment_hash@ == hex_hash@ && forall|
                        j: int,
                    | 0 <= j < k ==> payments@[j].payment_hash@ != hex_hash@;
                if k < i {
                    assert(payments@[k].payment_hash@ != hex_hash@);
                }
                if k > i {
                    assert(payments@[i as int].payment_hash@ != hex_hash@);
                }
            }
            return Ok(i);
        }
        i = i + 1;
    }
    proof {
        reveal(first_payment_index);
    }
    let mut m = concat2("Payment ", hex_hash.as_str());
    push_str(&mut m, " not found");
    Err(LightningError::NotFound(m))
}

/// The amount of an LND payment in whole satoshis (zero when negative).
pub fn lnd_amount_sat(payment: &LndPayment) -> (r: u64)
    ensures
        r == (if payment.value_sat >= 0 { payment.value_sat as int } else { 0 }),
{
    nonneg_or_zero(payment.value_sat)
}

/// `d` describes LND payment `p`, given the node's network (when known),
/// the amount in US dollars and the node's own key.
pub open spec fn lnd_details_of_payment(
    d: PaymentDetails,
    p: LndPayment,
    network: Option<Network>,
    amount_usd: u64,
    local: Seq<u8>,
) -> bool {
    &&& d.state == lnd_payment_state(p.status)
    &&& d.amount_sat == (if p.value_sat >= 0 { p.value_sat as int } else { 0 })
    &&& d.amount_usd == amount_usd
    &&& d.routing_fee == Some((if p.fee_sat >= 0 { p.fee_sat as int } else { 0 }) as u64)
    &&& match network {
        None => d.network is None,
        Some(n) => d.network matches Some(t) && t@ == network_name(n),
    }
    &&& d.description is None
    &&& d.creation_time == (if p.creation_time_ns >= 0 { Some(p.creation_time_ns as u128) } else { None::<u128> })
    &&& d.invoice matches Some(t) && t@ == p.payment_request@
    &&& d.payment_hash@ == p.payment_hash@
    &&& match lnd_destination(p.htlcs@) {
        None => d.destination_pubkey is None,
        Some(k) => d.destination_pubkey matches Some(pk) && pk@ == k,
    }
    &&& d.completed_at is None
    &&& d.htlcs@.len() == p.htlcs@.len()
    &&& forall|i: int| 0 <= i < d.htlcs@.len() ==> lnd_htlc_of(#[trigger] d.htlcs@[i], p.htlcs@[i], local)
}

fn destination_of(htlcs: &Vec<LndHtlcAttempt>) -> (r: Option<PubKey>)
    ensures
        match lnd_destination(htlcs@) {
            None => r is None,
            Some(k) => r matches Some(pk) && pk@ == k,
        },
{
    let mut dest: Option<PubKey> = None;
    let mut i: usize = 0;
    while i < htlcs.len()
        invariant
            i <= htlcs@.len(),
            match lnd_destination(htlcs@.subrange(0, i as int)) {
                None => dest is None,
                Some(k) => dest matches Some(pk) && pk@ == k,
            },
        decreases htlcs@.len() - i,
    {
        proof {
            assert(htlcs@.subrange(0, i + 1).drop_last() =~= htlcs@.subrange(0, i as int));
        }
        match &htlcs[i].route {
            Some(r) => {
                if r.hops.len() > 0 {
                    let last = &r.hops[r.hops.len() - 1];
                    match PubKey::from_hex(last.pub_key.as_str()) {
                        Some(k) => {
                            dest = Some(k);
                        },
                        None => {},
                    }
                }
            },
            None => {},
        }
        i = i + 1;
    }
    assert(htlcs@.subrange(0, htlcs@.len() as int) =~= htlcs@);
    dest
}

/// Describes an LND payment, given the node's network (when it could be
/// read), the amount in US dollars and the node's own key.
pub fn lnd_payment_details(
    payment: &LndPayment,
    network: Option<Network>,
    amount_usd: u64,
    local: &PubKey,
) -> (d: PaymentDetails)
    ensures
        lnd_details_of_payment(d, *payment, network, amount_usd, local@),
{
    let mut htlcs: Vec<PaymentHtlc> = Vec::new();
    let mut i: usize = 0;
    while i < payment.htlcs.len()
        invariant
            i <= payment.htlcs@.len(),
            htlcs@.len() == i,
            forall|k: int| 0 <= k < i ==> lnd_htlc_of(#[trigger] htlcs@[k], payment.htlcs@[k], local@),
        decreases payment.htlcs@.len() - i,
    {
        htlcs.push(lnd_htlc(&payment.htlcs[i], local));
        i = i + 1;
    }
    let network_text = match network {
        Some(n) => Some(n.name()),
        None => None,
    };
    PaymentDetails {
        state: payment_state_of(payment.status),
        amount_sat: nonneg_or_zero(payment.value_sat),
        amount_usd,
        routing_fee: Some(nonneg_or_zero(payment.fee_sat)),
        network: network_text,
        description: None,
        creation_time: match nonneg(payment.creation_time_ns) {
            Some(t) => Some(t as u128),
            None => None,
        },
        invoice: Some(payment.payment_request.clone()),
        payment_hash: payment.payment_hash.clone(),
        destination_pubkey: destination_of(&payment.htlcs),
        completed_at: None,
        htlcs,
    }
}

/// `s` summarizes LND payment `p`, given its amount in US dollars.
pub open spec fn lnd_summary_of_payment(s: PaymentSummary, p: LndPayment, amount_usd: u64) -> bool {
    &&& s.state == lnd_payment_state(p.status)
    &&& s.amount_sat == (if p.value_sat >= 0 { p.value_sat as int } else { 0 })
    &&& s.amount_usd == amount_usd
    &&& s.routing_fee == (if p.fee_sat >= 0 { Some(p.fee_sat as u64) } else { None::<u64> })
    &&& s.creation_time == (if p.creation_time_ns >= 0 { Some(p.creation_time_ns as u128) } else { None::<u128> })
    &&& s.invoice matches Some(t) && t@ == p.payment_request@
    &&& s.payment_hash@ == p.payment_hash@
    &&& s.completed_at == (if p.htlcs@.len() == 0 {
        None::<u64>
    } else {
        let t = trunc_div(p.htlcs@.last().resolve_time_ns as int, 1_000_000_000);
        Some((if t >= 0 { t } else { 0 }) as u64)
    })
}

/// Summarizes an LND payment, given its amount in US dollars.
pub fn lnd_payment_summary(payment: &LndPayment, amount_usd: u64) -> (s: PaymentSummary)
    ensures
        lnd_summary_of_payment(s, *payment, amount_usd),
{
    let n = payment.htlcs.len();
    let completed_at = if n == 0 {
        None
    } else {
        Some(nonneg_or_zero(div_toward_zero(payment.htlcs[n - 1].resolve_time_ns, 1_000_000_000)))
    };
    PaymentSummary {
        state: payment_state_of(payment.status),
        amount_sat: nonneg_or_zero(payment.value_sat),
        amount_usd,
        routing_fee: nonneg(payment.fee_sat),
        creation_time: match nonneg(payment.creation_time_ns) {
            Some(t) => Some(t as u128),
            None => None,
        },
        invoice: Some(payment.payment_request.clone()),
        payment_hash: payment.payment_hash.clone(),
        completed_at,
    }
}

/// An HTLC paying an invoice, as LND reports it.
#[derive(Debug, Clone, Copy)]
pub struct LndInvoiceHtlc {
    pub chan_id: u64,
    pub htlc_index: u64,
    pub amt_msat: u64,
    pub accept_time: i64,
    pub resolve_time: i64,
    pub expiry_height: i32,
    pub mpp_total_amt_msat: u64,
}

/// A feature of an invoice, as LND reports it.
#[derive(Debug, Clone)]
pub struct LndFeature {
    pub name: String,
    pub is_required: bool,
    pub is_known: bool,
}

/// An invoice, as LND reports it.
#[derive(Debug, Clone)]
pub struct LndInvoice {
    pub memo: String,
    pub r_preimage: Vec<u8>,
    pub r_hash: Vec<u8>,
    pub value: i64,
    pub value_msat: i64,
    pub settled: bool,
    pub creation_date: i64,
    pub settle_date: i64,
    pub payment_request: String,
    pub expiry: i64,
    pub state: i32,
    pub htlcs: Vec<LndInvoiceHtlc>,
    pub features: Vec<(u32, LndFeature)>,
    pub is_keysend: bool,
    pub payment_addr: Vec<u8>,
    pub is_amp: bool,
}

/// The status of an invoice from LND's state code: settled (1) is
/// settled, canceled (2) is failed, and open (0), accepted (3) or any other
/// code is open.
pub open spec fn lnd_invoice_status(state: i32) -> InvoiceStatus {
    if state == 1 {
        InvoiceStatus::Settled
    } else if state == 2 {
        InvoiceStatus::Failed
    } else {
        InvoiceStatus::Open
    }
}

/// `h` is LND invoice HTLC `raw`.
pub open spec fn lnd_invoice_htlc_of(h: InvoiceHtlc, raw: LndInvoiceHtlc) -> bool {
    &&& h.chan_id == Some(raw.chan_id)
    &&& h.htlc_index == Some(raw.htlc_index)
    &&& h.amt_msat == Some(raw.amt_msat)
    &&& h.accept_time == Some(raw.accept_time)
    &&& h.resolve_time == Some(raw.resolve_time)
    &&& h.expiry_height == (if raw.expiry_height >= 0 { Some(raw.expiry_height as u32) } else { None::<u32> })
    &&& h.mpp_total_amt_msat == Some(raw.mpp_total_amt_msat)
}

/// The invoice fields both LND readings share (`i` from LND invoice `raw`).
pub open spec fn lnd_invoice_common(i: CustomInvoice, raw: LndInvoice) -> bool {
    &&& i.memo@ == raw.memo@
    &&& i.payment_hash@ == hex_lower(raw.r_hash@)
    &&& i.payment_preimage@ == hex_lower(raw.r_preimage@)
    &&& i.value == raw.value as u64
    &&& i.value_msat == raw.value_msat as u64
    &&& i.settled == Some(raw.settled)
    &&& i.creation_date == Some(raw.creation_date)
    &&& i.settle_date == Some(raw.settle_date)
    &&& i.payment_request@ == raw.payment_request@
    &&& i.expiry == Some(raw.expiry as u64)
    &&& i.state == lnd_invoice_status(raw.state)
    &&& i.is_keysend == Some(raw.is_keysend)
    &&& i.is_amp == Some(raw.is_amp)
    &&& (if raw.payment_addr@.len() == 0 {
        i.payment_addr is None
    } else {
        i.payment_addr matches Some(a) && a@ == hex_lower(raw.payment_addr@)
    })
}

/// `i` is LND invoice `raw` as listed: with its HTLCs and features.
pub open spec fn lnd_listed_invoice_of(i: CustomInvoice, raw: LndInvoice) -> bool {
    &&& lnd_invoice_common(i, raw)
    &&& i.htlcs matches Some(hs) && hs@.len() == raw.htlcs@.len() && forall|k: int|
        0 <= k < hs@.len() ==> lnd_invoice_htlc_of(#[trigger] hs@[k], raw.htlcs@[k])
    &&& i.features matches Some(fs) && fs@.len() == raw.features@.len() && forall|k: int|
        0 <= k < fs@.len() ==> {
            let (bit, f) = #[trigger] fs@[k];
            let (rbit, rf) = raw.features@[k];
            &&& bit == rbit
            &&& f.name matches Some(n) && n@ == rf.name@
            &&& f.is_known == Some(rf.is_known)
            &&& f.is_required == Some(rf.is_required)
        }
}

fn invoice_status_of(state: i32) -> (r: InvoiceStatus)
    ensures
        r == lnd_invoice_status(state),
{
    if state == 1 {
        InvoiceStatus::Settled
    } else if state == 2 {
        InvoiceStatus::Failed
    } else {
        InvoiceStatus::Open
    }
}

fn lnd_invoice_base(raw: &LndInvoice) -> (i: CustomInvoice)
    ensures
        lnd_invoice_common(i, *raw),
        i.htlcs is None,
        i.features is None,
{
    let addr = if raw.payment_addr.len() == 0 {
        None
    } else {
        Some(hex_encode(raw.payment_addr.as_slice()))
    };
    CustomInvoice {
        memo: raw.memo.clone(),
        payment_hash: hex_encode(raw.r_hash.as_slice()),
        payment_preimage: hex_encode(raw.r_preimage.as_slice()),
        value: wrap_to_u64(raw.value),
        value_msat: wrap_to_u64(raw.value_msat),
        settled: Some(raw.settled),
        creation_date: Some(raw.creation_date),
        settle_date: Some(raw.settle_date),
        payment_request: raw.payment_request.clone(),
        expiry: Some(wrap_to_u64(raw.expiry)),
        state: invoice_status_of(raw.state),
        is_keysend: Some(raw.is_keysend),
        is_amp: Some(raw.is_amp),
        payment_addr: addr,
        htlcs: None,
        features: None,
    }
}

/// Reads one of LND's listed invoices, with its HTLCs and features.
pub fn lnd_listed_invoice(raw: &LndInvoice) -> (i: CustomInvoice)
    ensures
        lnd_listed_invoice_of(i, *raw),
{
    let mut htlcs: Vec<InvoiceHtlc> = Vec::new();
    let mut k: usize = 0;
    while k < raw.htlcs.len()
        invariant
            k <= raw.htlcs@.len(),
            htlcs@.len() == k,
            forall|q: int| 0 <= q < k ==> lnd_invoice_htlc_of(#[trigger] htlcs@[q], raw.htlcs@[q]),
        decreases raw.htlcs@.len() - k,
    {
        let h = raw.htlcs[k];
        htlcs.push(
            InvoiceHtlc {
                chan_id: Some(h.chan_id),
                htlc_index: Some(h.htlc_index),
                amt_msat: Some(h.amt_msat),
                accept_time: Some(h.accept_time),
                resolve_time: Some(h.resolve_time),
                expiry_height: if h.expiry_height >= 0 {
                    Some(h.expiry_height as u32)
                } else {
                    None
                },
                mpp_total_amt_msat: Some(h.mpp_total_amt_msat),
            },
        );
        k = k + 1;
    }
    let mut features: Vec<(u32, Feature)> = Vec::new();
    let mut q: usize = 0;
    while q < raw.features.len()
        invariant
            q <= raw.features@.len(),
            features@.len() == q,
            forall|j: int|
                0 <= j < q ==> {
                    let (bit, f) = #[trigger] features@[j];
                    let (rbit, rf) = raw.features@[j];
                    &&& bit == rbit
                    &&& f.name matches Some(n) && n@ == rf.name@
                    &&& f.is_known == Some(rf.is_known)
                    &&& f.is_required == Some(rf.is_required)
                },
        decreases raw.features@.len() - q,
    {
        let (bit, f) = &raw.features[q];
        features.push(
            (
                *bit,
                Feature {
                    name: Some(f.name.clone()),
                    is_known: Some(f.is_known),
                    is_required: Some(f.is_required),
                },
            ),
        );
        q = q + 1;
    }
    let mut i = lnd_invoice_base(raw);
    i.htlcs = Some(htlcs);
    i.features = Some(features);
    i
}

/// Reads the invoice LND returns for a lookup by payment hash (without
/// HTLCs or features).
pub fn lnd_looked_up_invoice(raw: &LndInvoice) -> (i: CustomInvoice)
    ensures
        lnd_invoice_common(i, *raw),
        i.htlcs is None,
        i.features is None,
{
    lnd_invoice_base(raw)
}

/// The channel of an LND channel-event update, as far as it is read.
#[derive(Debug, Clone)]
pub enum LndEventChannel {
    /// An opened channel.
    Open(LndChannel),
    /// The summary of a closed channel.
    Closed(LndClosedChannel),
    /// Any other kind of channel value.
    Other,
}

/// The summary of a closed channel, as LND reports it.
#[derive(Debug, Clone)]
pub struct LndClosedChannel {
    pub channel_point: String,
    pub chan_id: u64,
    pub chain_hash: String,
    pub closing_tx_hash: String,
    pub remote_pubkey: String,
    pub capacity: i64,
    pub close_height: u32,
    pub settled_balance: i64,
    pub time_locked_balance: i64,
    pub close_type: i32,
    pub open_initiator: i32,
    pub close_initiator: i32,
}

/// A channel-event update of LND: its update type code and its channel.
#[derive(Debug, Clone)]
pub struct LndChannelEventUpdate {
    pub update_type: i32,
    pub channel: Option<LndEventChannel>,
}

/// Whether an update type code reads as an opening: the opening code 0,
/// or a code outside the known ones (0 to 5), which reads as the default,
/// the opening.
pub open spec fn reads_as_open_update(update_type: i32) -> bool {
    update_type == 0 || update_type < 0 || update_type > 5
}

/// The event an LND channel update raises: an opening (type 0, or an
/// unknown type) carrying an opened channel, a closing (type 1) carrying a
/// closed-channel summary, and no event for anything else.
pub open spec fn lnd_channel_update_event(u: LndChannelEventUpdate) -> Option<LNDEvent> {
    if reads_as_open_update(u.update_type) {
        match u.channel {
            Some(LndEventChannel::Open(c)) => Some(
                LNDEvent::ChannelOpened {
                    active: c.active,
                    remote_pubkey: c.remote_pubkey,
                    channel_point: c.channel_point,
                    chan_id: c.chan_id,
                    capacity: c.capacity,
                    local_balance: c.local_balance,
                    remote_balance: c.remote_balance,
                    total_satoshis_sent: c.total_satoshis_sent,
                    total_satoshis_received: c.total_satoshis_received,
                },
            ),
            _ => None,
        }
    } else if u.update_type == 1 {
        match u.channel {
            Some(LndEventChannel::Closed(c)) => Some(
                LNDEvent::ChannelClosed {
                    channel_point: c.channel_point,
                    chan_id: c.chan_id,
                    chain_hash: c.chain_hash,
                    closing_tx_hash: c.closing_tx_hash,
                    remote_pubkey: c.remote_pubkey,
                    capacity: c.capacity,
                    close_height: c.close_height,
                    settled_balance: c.settled_balance,
                    time_locked_balance: c.time_locked_balance,
                    close_type: c.close_type,
                    open_initiator: c.open_initiator,
                    close_initiator: c.close_initiator,
                },
            ),
            _ => None,
        }
    } else {
        None
    }
}

/// The node event an LND channel update raises, if any.
pub fn lnd_channel_event(update: LndChannelEventUpdate) -> (r: Option<NodeSpecificEvent>)
    ensures
        match lnd_channel_update_event(update) {
            Some(e) => r == Some(NodeSpecificEvent::LND(e)),
            None => r is None,
        },
{
    if update.update_type == 0 || update.update_type < 0 || update.update_type > 5 {
        match update.channel {
            Some(LndEventChannel::Open(c)) => Some(
                NodeSpecificEvent::LND(
                    LNDEvent::ChannelOpened {
                        active: c.active,
                        remote_pubkey: c.remote_pubkey,
                        channel_point: c.channel_point,
                        chan_id: c.chan_id,
                        capacity: c.capacity,
                        local_balance: c.local_balance,
                        remote_balance: c.remote_balance,
                        total_satoshis_sent: c.total_satoshis_sent,
                        total_satoshis_received: c.total_satoshis_received,
                    },
                ),
            ),
            _ => None,
        }
    } else if update.update_type == 1 {
        match update.channel {
            Some(LndEventChannel::Closed(c)) => Some(
                NodeSpecificEvent::LND(
                    LNDEvent::ChannelClosed {
                        channel_point: c.channel_point,
                        chan_id: c.chan_id,
                        chain_hash: c.chain_hash,
                        closing_tx_hash: c.closing_tx_hash,
                        remote_pubkey: c.remote_pubkey,
                        capacity: c.capacity,
                        close_height: c.close_height,
                        settled_balance: c.settled_balance,
                        time_locked_balance: c.time_locked_balance,
                        close_type: c.close_type,
                        open_initiator: c.open_initiator,
                        close_initiator: c.close_initiator,
                    },
                ),
            ),
            _ => None,
        }
    } else {
        None
    }
}

/// The event an LND invoice update raises, by its state: settled (1),
/// canceled (2), accepted (3), and created for open (0) or any other code.
pub open spec fn lnd_invoice_update_event(i: LndInvoice) -> LNDEvent {
    if i.state == 1 {
        LNDEvent::InvoiceSettled {
            preimage: i.r_preimage,
            hash: i.r_hash,
            value_msat: i.value_msat,
            state: i.state,
            memo: i.memo,
            creation_date: i.creation_date,
            payment_request: i.payment_request,
        }
    } else if i.state == 2 {
        LNDEvent::InvoiceCancelled {
            preimage: i.r_preimage,
            hash: i.r_hash,
            value_msat: i.value_msat,
            state: i.state,
            memo: i.memo,
            creation_date: i.creation_date,
            payment_request: i.payment_request,
        }
    } else if i.state == 3 {
        LNDEvent::InvoiceAccepted {
            preimage: i.r_preimage,
            hash: i.r_hash,
            value_msat: i.value_msat,
            state: i.state,
            memo: i.memo,
            creation_date: i.creation_date,
            payment_request: i.payment_request,
        }
    } else {
        LNDEvent::InvoiceCreated {
            preimage: i.r_preimage,
            hash: i.r_hash,
            value_msat: i.value_msat,
            state: i.state,
            memo: i.memo,
            creation_date: i.creation_date,
            payment_request: i.payment_request,
        }
    }
}

/// The node event an LND invoice update raises.
pub fn lnd_invoice_event(invoice: LndInvoice) -> (r: NodeSpecificEvent)
    ensures
        r == NodeSpecificEvent::LND(lnd_invoice_update_event(invoice)),
{
    let i = invoice;
    let e = if i.state == 1 {
        LNDEvent::InvoiceSettled {
            preimage: i.r_preimage,
            hash: i.r_hash,
            value_msat: i.value_msat,
            state: i.state,
            memo: i.memo,
            creation_date: i.creation_date,
            payment_request: i.payment_request,
        }
    } else if i.state == 2 {
        LNDEvent::InvoiceCancelled {
            preimage: i.r_preimage,
            hash: i.r_hash,
            value_msat: i.value_msat,
            state: i.state,
            memo: i.memo,
            creation_date: i.creation_date,
            payment_request: i.payment_request,
        }
    } else if i.state == 3 {
        LNDEvent::InvoiceAccepted {
            preimage: i.r_preimage,
            hash: i.r_hash,
            value_msat: i.value_msat,
            state: i.state,
            memo: i.memo,
            creation_date: i.creation_date,
            payment_request: i.payment_request,
        }
    } else {
        LNDEvent::InvoiceCreated {
            preimage: i.r_preimage,
            hash: i.r_hash,
            value_msat: i.value_msat,
            state: i.state,
            memo: i.memo,
            creation_date: i.creation_date,
            payment_request: i.payment_request,
        }
    };
    NodeSpecificEvent::LND(e)
}

/// A payment is settled exactly when LND reports it succeeded (2), failed
/// exactly when LND reports it failed (3), and in flight for the in-flight
/// code (1), the unknown code (0) and any code LND does not define.
pub proof fn law_lnd_payment_state(status: i32)
    ensures
        (lnd_payment_state(status) == PaymentState::Settled) == (status == 2),
        (lnd_payment_state(status) == PaymentState::Failed) == (status == 3),
        (lnd_payment_state(status) == PaymentState::Inflight) == (status != 2 && status != 3),
{
}

/// What a payment summary reports of an LND payment: settled only for
/// the succeeded code and failed for the failed code; the amount and fee
/// in satoshis as LND gives them (an amount below zero as zero, a fee below
/// zero as none); the given dollar amount; the hash and request; the
/// creation time where it is not negative; and, where there were attempts,
/// the whole second at which the last one resolved.
pub proof fn law_lnd_payment_summary(s: PaymentSummary, p: LndPayment, amount_usd: u64)
    requires
        lnd_summary_of_payment(s, p, amount_usd),
    ensures
        (s.state == PaymentState::Settled) == (p.status == 2),
        (s.state == PaymentState::Failed) == (p.status == 3),
        p.value_sat >= 0 ==> s.amount_sat == p.value_sat,
        p.value_sat < 0 ==> s.amount_sat == 0,
        s.amount_usd == amount_usd,
        p.fee_sat >= 0 ==> s.routing_fee == Some(p.fee_sat as u64),
        p.fee_sat < 0 ==> s.routing_fee is None,
        p.creation_time_ns >= 0 ==> s.creation_time == Some(p.creation_time_ns as u128),
        p.creation_time_ns < 0 ==> s.creation_time is None,
        s.payment_hash@ == p.payment_hash@,
        s.invoice matches Some(t) && t@ == p.payment_request@,
        p.htlcs@.len() == 0 ==> s.completed_at is None,
        p.htlcs@.len() > 0 && p.htlcs@.last().resolve_time_ns >= 0 ==> s.completed_at == Some(
            (p.htlcs@.last().resolve_time_ns / 1_000_000_000) as u64,
        ),
{
}

/// What payment details report of an LND payment: its state as in the
/// summary, the amount and fee in satoshis (below zero as zero), the given
/// dollar amount, the hash and request, no completion time, and one HTLC
/// for each of LND's attempts, in order.
pub proof fn law_lnd_payment_details(
    d: PaymentDetails,
    p: LndPayment,
    network: Option<Network>,
    amount_usd: u64,
    local: Seq<u8>,
)
    requires
        lnd_details_of_payment(d, p, network, amount_usd, local),
    ensures
        (d.state == PaymentState::Settled) == (p.status == 2),
        (d.state == PaymentState::Failed) == (p.status == 3),
        p.value_sat >= 0 ==> d.amount_sat == p.value_sat,
        p.value_sat < 0 ==> d.amount_sat == 0,
        d.amount_usd == amount_usd,
        p.fee_sat >= 0 ==> d.routing_fee == Some(p.fee_sat as u64),
        p.fee_sat < 0 ==> d.routing_fee == Some(0u64),
        d.payment_hash@ == p.payment_hash@,
        d.invoice matches Some(t) && t@ == p.payment_request@,
        d.completed_at is None,
        d.htlcs@.len() == p.htlcs@.len(),
        forall|i: int| #![auto] 0 <= i < d.htlcs@.len() ==> d.htlcs@[i].attempt_id == p.htlcs@[i].attempt_id,
        forall|i: int| #![auto] 0 <= i < d.htlcs@.len() ==> lnd_htlc_of(d.htlcs@[i], p.htlcs@[i], local),
        lnd_destination(p.htlcs@) is None ==> d.destination_pubkey is None,
        lnd_destination(p.htlcs@) matches Some(k) ==> d.destination_pubkey matches Some(pk) && pk@
            == k,
        network is None ==> d.network is None,
        network matches Some(n) ==> d.network matches Some(t) && t@ == network_name(n),
        d.description is None,
{
    assert forall|i: int| #![auto] 0 <= i < d.htlcs@.len() implies d.htlcs@[i].attempt_id
        == p.htlcs@[i].attempt_id by {
        assert(lnd_htlc_of(d.htlcs@[i], p.htlcs@[i], local));
    }
}

/// A hop of a route forwards and pays as fee the whole satoshis of LND's
/// millisatoshi amounts (for amounts not below zero), on LND's channel.
pub proof fn law_lnd_hop(h: Hop, raw: LndHop, local: Seq<u8>)
    requires
        lnd_hop_of(h, raw, local),
        raw.amt_to_forward_msat >= 0,
        raw.fee_msat >= 0,
    ensures
        h.amount_to_forward == raw.amt_to_forward_msat / 1000,
        h.fee == Some((raw.fee_msat / 1000) as u64),
        h.chan_id == ShortChannelID(raw.chan_id),
        h.expiry == Some(raw.expiry as u64),
{
}

/// An invoice read from LND is settled exactly for the settled code (1),
/// failed exactly for the canceled code (2), and open otherwise (open,
/// accepted or an unknown code); its hash, preimage and amounts are LND's.
pub proof fn law_lnd_invoice(i: CustomInvoice, raw: LndInvoice)
    requires
        lnd_invoice_common(i, raw),
    ensures
        (i.state == InvoiceStatus::Settled) == (raw.state == 1),
        (i.state == InvoiceStatus::Failed) == (raw.state == 2),
        (i.state == InvoiceStatus::Open) == (raw.state != 1 && raw.state != 2),
        i.payment_hash@ == hex_lower(raw.r_hash@),
        i.payment_preimage@ == hex_lower(raw.r_preimage@),
        i.value_msat == raw.value_msat as u64,
        i.value == raw.value as u64,
        i.memo@ == raw.memo@,
        i.settled == Some(raw.settled),
{
}

/// The details of an LND channel report the node's own balance as local
/// and the peer's as remote, and the capacity, each in satoshis (below zero
/// as zero); the channel's id, activity, privacy, remote key, fees and
/// totals as LND gives them; and the funding outpoint that its channel
/// point names.
pub proof fn law_lnd_channel_details(
    d: ChannelDetails,
    ch: LndChannel,
    txid: Seq<u8>,
    vout: u32,
    remote: Seq<u8>,
    graph: Option<Seq<LndChannelEdge>>,
    local: Seq<u8>,
)
    requires
        lnd_details_of(d, ch, txid, vout, remote, graph, local),
    ensures
        d.channel_id == ShortChannelID(ch.chan_id),
        ch.local_balance >= 0 ==> d.local_balance_sat == ch.local_balance,
        ch.local_balance < 0 ==> d.local_balance_sat == 0,
        ch.remote_balance >= 0 ==> d.remote_balance_sat == ch.remote_balance,
        ch.remote_balance < 0 ==> d.remote_balance_sat == 0,
        ch.capacity >= 0 ==> d.capacity_sat == ch.capacity,
        ch.capacity < 0 ==> d.capacity_sat == 0,
        d.active == Some(ch.active),
        d.private == ch.private,
        d.remote_pubkey@ == remote,
        d.commit_fee_sat == Some(ch.commit_fee as u64),
        d.total_satoshis_sent == Some(ch.total_satoshis_sent as u64),
        d.total_satoshis_received == Some(ch.total_satoshis_received as u64),
        d.num_updates == Some(ch.num_updates),
        d.initiator == Some(ch.initiator),
        d.txid matches Some(t) && t@ == txid,
        d.vout == Some(vout),
        graph is None ==> d.node1_policy is None && d.node2_policy is None,
        lnd_graph_policies_of(d.node1_policy, d.node2_policy, graph, ch.chan_id, remote, local),
        d.local_chan_reserve_sat == Some(
            match ch.local_chan_reserve_sat {
                Some(v) => v,
                None => 0,
            },
        ),
        d.remote_chan_reserve_sat == Some(
            match ch.remote_chan_reserve_sat {
                Some(v) => v,
                None => 0,
            },
        ),
        0 <= ch.lifetime <= u32::MAX ==> d.channel_age_blocks == Some(ch.lifetime as u32),
        (ch.lifetime < 0 || ch.lifetime > u32::MAX) ==> d.channel_age_blocks is None,
        d.opening_cost_sat is None,
{
}

/// A routing policy read from LND keeps LND's base fee, fee rate, minimum
/// HTLC, disabled flag and update time, names the given key, and has a
/// maximum HTLC only where LND gives a positive one.
pub proof fn law_lnd_policy(p: NodePolicy, rp: LndRoutingPolicy, key: Seq<u8>)
    requires
        lnd_policy_of(p, rp, key),
    ensures
        p.pubkey@ == key,
        p.fee_base_msat == rp.fee_base_msat as u64,
        p.fee_rate_milli_msat == rp.fee_rate_milli_msat as u64,
        p.min_htlc_msat == rp.min_htlc as u64,
        rp.max_htlc_msat > 0 ==> p.max_htlc_msat == Some(rp.max_htlc_msat),
        rp.max_htlc_msat == 0 ==> p.max_htlc_msat is None,
        p.disabled == rp.disabled,
        p.last_update == Some(rp.last_update as u64),
{
}

/// A channel summary is active exactly when LND reports the channel
/// active (disabled otherwise), keeps its id and privacy, and gives the
/// node's own balance as local, the peer's as remote and the capacity, in
/// millisatoshis: a thousand per satoshi, zero below zero.
pub proof fn law_lnd_channel_summary(c: ChannelSummary, ch: LndChannel, edges: Seq<LndChannelEdge>)
    requires
        lnd_summary_of(c, ch, edges),
    ensures
        (c.channel_state == ChannelState::Active) == ch.active,
        !ch.active ==> c.channel_state == ChannelState::Disabled,
        c.chan_id == ShortChannelID(ch.chan_id),
        c.private == ch.private,
        0 <= ch.local_balance <= u64::MAX / 1000 ==> c.local_balance == ch.local_balance * 1000,
        0 <= ch.remote_balance <= u64::MAX / 1000 ==> c.remote_balance == ch.remote_balance * 1000,
        0 <= ch.capacity <= u64::MAX / 1000 ==> c.capacity == ch.capacity * 1000,
        ch.local_balance <= 0 ==> c.local_balance == 0,
        ch.remote_balance <= 0 ==> c.remote_balance == 0,
        ch.capacity <= 0 ==> c.capacity == 0,
        c.uptime == Some(ch.uptime as u64),
        c.alias is None,
        c.last_update == edges_last_update(edges, ch.chan_id),
{
}

proof fn lemma_first_channel(xs: Seq<LndChannel>, key: u64, i: int)
    requires
        0 <= i < xs.len(),
        xs[i].chan_id == key,
    ensures
        exists|k: int|
            0 <= k <= i && xs[k].chan_id == key && forall|j: int| 0 <= j < k ==> xs[j].chan_id != key,
    decreases i,
{
    if exists|j: int| 0 <= j < i && xs[j].chan_id == key {
        let j = choose|j: int| 0 <= j < i && xs[j].chan_id == key;
        lemma_first_channel(xs, key, j);
    } else {
        assert(forall|j: int| 0 <= j < i ==> xs[j].chan_id != key);
    }
}

/// The channel looked up by id is the first one listed with that id, and
/// there is none only where no channel has it.
pub proof fn law_first_channel_index(xs: Seq<LndChannel>, key: u64)
    ensures
        match first_channel_index(xs, key) {
            Some(k) => 0 <= k < xs.len() && xs[k].chan_id == key && forall|j: int|
                0 <= j < k ==> xs[j].chan_id != key,
            None => forall|j: int| 0 <= j < xs.len() ==> xs[j].chan_id != key,
        },
{
    reveal(first_channel_index);
    if exists|i: int| 0 <= i < xs.len() && xs[i].chan_id == key {
        let i = choose|i: int| 0 <= i < xs.len() && xs[i].chan_id == key;
        lemma_first_channel(xs, key, i);
    }
}

proof fn lemma_first_edge(xs: Seq<LndChannelEdge>, key: u64, i: int)
    requires
        0 <= i < xs.len(),
        xs[i].channel_id == key,
    ensures
        exists|k: int|
            0 <= k <= i && xs[k].channel_id == key && forall|j: int| 0 <= j < k ==> xs[j].channel_id != key,
    decreases i,
{
    if exists|j: int| 0 <= j < i && xs[j].channel_id == key {
        let j = choose|j: int| 0 <= j < i && xs[j].channel_id == key;
        lemma_first_edge(xs, key, j);
    } else {
        assert(forall|j: int| 0 <= j < i ==> xs[j].channel_id != key);
    }
}

/// The graph edge looked up for a channel is the first one listed for it,
/// and there is none only where no edge is.
pub proof fn law_first_edge_index(xs: Seq<LndChannelEdge>, key: u64)
    ensures
        match first_edge_index(xs, key) {
            Some(k) => 0 <= k < xs.len() && xs[k].channel_id == key && forall|j: int|
                0 <= j < k ==> xs[j].channel_id != key,
            None => forall|j: int| 0 <= j < xs.len() ==> xs[j].channel_id != key,
        },
{
    reveal(first_edge_index);
    if exists|i: int| 0 <= i < xs.len() && xs[i].channel_id == key {
        let i = choose|i: int| 0 <= i < xs.len() && xs[i].channel_id == key;
        lemma_first_edge(xs, key, i);
    }
}

proof fn lemma_first_payment(xs: Seq<LndPayment>, key: Seq<char>, i: int)
    requires
        0 <= i < xs.len(),
        xs[i].payment_hash@ == key,
    ensures
        exists|k: int|
            0 <= k <= i && xs[k].payment_hash@ == key && forall|j: int| 0 <= j < k ==> xs[j].payment_hash@ != key,
    decreases i,
{
    if exists|j: int| 0 <= j < i && xs[j].payment_hash@ == key {
        let j = choose|j: int| 0 <= j < i && xs[j].payment_hash@ == key;
        lemma_first_payment(xs, key, j);
    } else {
        assert(forall|j: int| 0 <= j < i ==> xs[j].payment_hash@ != key);
    }
}

/// The payment looked up by hash text is the first one listed with it, and
/// there is none only where no payment has it.
pub proof fn law_first_payment_index(xs: Seq<LndPayment>, key: Seq<char>)
    ensures
        match first_payment_index(xs, key) {
            Some(k) => 0 <= k < xs.len() && xs[k].payment_hash@ == key && forall|j: int|
                0 <= j < k ==> xs[j].payment_hash@ != key,
            None => forall|j: int| 0 <= j < xs.len() ==> xs[j].payment_hash@ != key,
        },
{
    reveal(first_payment_index);
    if exists|i: int| 0 <= i < xs.len() && xs[i].payment_hash@ == key {
        let i = choose|i: int| 0 <= i < xs.len() && xs[i].payment_hash@ == key;
        lemma_first_payment(xs, key, i);
    }
}

/// A channel's last update is the latest positive update time among the
/// graph edges of that channel, and there is none only where no edge of
/// the channel has a positive one.
pub proof fn law_edges_last_update(edges: Seq<LndChannelEdge>, chan_id: u64)
    ensures
        match edges_last_update(edges, chan_id) {
            None => forall|i: int|
                0 <= i < edges.len() && #[trigger] edges[i].channel_id == chan_id ==> edges[i].last_update
                    <= 0,
            Some(u) => (exists|i: int|
                0 <= i < edges.len() && #[trigger] edges[i].channel_id == chan_id && edges[i].last_update
                    > 0 && edges[i].last_update as u64 == u) && forall|i: int|
                0 <= i < edges.len() && #[trigger] edges[i].channel_id == chan_id && edges[i].last_update
                    > 0 ==> edges[i].last_update as u64 <= u,
        },
    decreases edges.len(),
{
    if edges.len() > 0 {
        let rest = edges.drop_last();
        law_edges_last_update(rest, chan_id);
        assert forall|i: int| 0 <= i < rest.len() implies #[trigger] rest[i] == edges[i] by {}
        let n = edges.len() - 1;
        let e = edges[n];
        assert(e == edges.last());
        let res = edges_last_update(edges, chan_id);
        if e.channel_id == chan_id && e.last_update > 0 {
            match edges_last_update(rest, chan_id) {
                Some(u) => {
                    let i0 = choose|i: int|
                        0 <= i < rest.len() && #[trigger] rest[i].channel_id == chan_id
                            && rest[i].last_update > 0 && rest[i].last_update as u64 == u;
                    assert(edges[i0] == rest[i0]);
                    let m = res->Some_0;
                    assert forall|i: int|
                        0 <= i < edges.len() && #[trigger] edges[i].channel_id == chan_id
                            && edges[i].last_update > 0 implies edges[i].last_update as u64 <= m by {
                        if i < n {
                            assert(rest[i] == edges[i]);
                        }
                    }
                    if u >= e.last_update as u64 {
                        assert(edges[i0].channel_id == chan_id);
                    } else {
                        assert(edges[n].channel_id == chan_id);
                    }
                },
                None => {
                    let m = res->Some_0;
                    assert(m == e.last_update as u64);
                    assert forall|i: int|
                        0 <= i < edges.len() && #[trigger] edges[i].channel_id == chan_id
                            && edges[i].last_update > 0 implies edges[i].last_update as u64 <= m by {
                        if i < n {
                            assert(rest[i] == edges[i]);
                            assert(rest[i].channel_id == chan_id);
                        }
                    }
                    assert(edges[n].channel_id == chan_id);
                },
            }
        } else {
            match edges_last_update(rest, chan_id) {
                Some(u) => {
                    let i0 = choose|i: int|
                        0 <= i < rest.len() && #[trigger] rest[i].channel_id == chan_id
                            && rest[i].last_update > 0 && rest[i].last_update as u64 == u;
                    assert(edges[i0] == rest[i0]);
                    assert(edges[i0].channel_id == chan_id);
                    assert forall|i: int|
                        0 <= i < edges.len() && #[trigger] edges[i].channel_id == chan_id
                            && edges[i].last_update > 0 implies edges[i].last_update as u64 <= u by {
                        if i < n {
                            assert(rest[i] == edges[i]);
                            assert(rest[i].channel_id == chan_id);
                        }
                    }
                },
                None => {
                    assert forall|i: int|
                        0 <= i < edges.len() && #[trigger] edges[i].channel_id == chan_id
                            implies edges[i].last_update <= 0 by {
                        if i < n {
                            assert(rest[i] == edges[i]);
                            assert(rest[i].channel_id == chan_id);
                        }
                    }
                },
            }
        }
    }
}

/// The destination of a payment is the key named by the last hop of the
/// last attempt whose route names one; there is none only where no
/// attempt's route does.
pub proof fn law_lnd_destination(htlcs: Seq<LndHtlcAttempt>)
    ensures
        match lnd_destination(htlcs) {
            None => forall|i: int| 0 <= i < htlcs.len() ==> #[trigger] attempt_destination(htlcs[i]) is None,
            Some(k) => exists|i: int|
                0 <= i < htlcs.len() && #[trigger] attempt_destination(htlcs[i]) == Some(k) && forall|j: int|
                    i < j < htlcs.len() ==> attempt_destination(htlcs[j]) is None,
        },
        forall|i: int| 0 <= i < htlcs.len() ==> match #[trigger] attempt_destination(htlcs[i]) {
            Some(k) => htlcs[i].route matches Some(r) && r.hops@.len() > 0
                && secp256k1_pubkey_from_hex(r.hops@.last().pub_key@) == Some(k),
            None => true,
        },
    decreases htlcs.len(),
{
    if htlcs.len() > 0 {
        let rest = htlcs.drop_last();
        law_lnd_destination(rest);
        assert forall|i: int| 0 <= i < rest.len() implies #[trigger] rest[i] == htlcs[i] by {}
        let n = htlcs.len() - 1;
        assert(htlcs[n] == htlcs.last());
        match attempt_destination(htlcs[n]) {
            Some(k) => {
                assert(lnd_destination(htlcs) == Some(k));
                assert(attempt_destination(htlcs[n]) == Some(k));
            },
            None => {
                match lnd_destination(rest) {
                    Some(k) => {
                        let i = choose|i: int|
                            0 <= i < rest.len() && #[trigger] attempt_destination(rest[i]) == Some(k)
                                && forall|j: int|
                                i < j < rest.len() ==> attempt_destination(rest[j]) is None;
                        assert(rest[i] == htlcs[i]);
                        assert(attempt_destination(htlcs[i]) == Some(k));
                        assert forall|j: int| i < j < htlcs.len() implies attempt_destination(
                            htlcs[j],
                        ) is None by {
                            if j < n {
                                assert(rest[j] == htlcs[j]);
                            }
                        }
                    },
                    None => {
                        assert forall|i: int| 0 <= i < htlcs.len() implies #[trigger] attempt_destination(
                            htlcs[i],
                        ) is None by {
                            if i < n {
                                assert(rest[i] == htlcs[i]);
                            }
                        }
                    },
                }
            },
        }
    }
}

/// A route keeps LND's time lock and hops, and gives its fees and amount in
/// whole satoshis of LND's millisatoshis (below zero as zero).
pub proof fn law_lnd_route(r: Route, raw: LndRoute, local: Seq<u8>)
    requires
        lnd_route_of(r, raw, local),
    ensures
        r.total_time_lock == raw.total_time_lock,
        raw.total_fees_msat >= 0 ==> r.total_fees == raw.total_fees_msat / 1000,
        raw.total_fees_msat < 0 ==> r.total_fees == 0,
        raw.total_amt_msat >= 0 ==> r.total_amt == raw.total_amt_msat / 1000,
        raw.total_amt_msat < 0 ==> r.total_amt == 0,
        r.hops@.len() == raw.hops@.len(),
        forall|i: int| #![auto] 0 <= i < r.hops@.len() ==> r.hops@[i].chan_id == ShortChannelID(
            raw.hops@[i].chan_id,
        ),
{
    assert forall|i: int| #![auto] 0 <= i < r.hops@.len() implies r.hops@[i].chan_id
        == ShortChannelID(raw.hops@[i].chan_id) by {
        assert(lnd_hop_of(r.hops@[i], raw.hops@[i], local));
    }
}

/// An HTLC of a payment keeps LND's attempt id and times, has the
/// attempt's route where it has one, and the failure's code name and code
/// where it failed.
pub proof fn law_lnd_htlc(h: PaymentHtlc, raw: LndHtlcAttempt, local: Seq<u8>)
    requires
        lnd_htlc_of(h, raw, local),
    ensures
        h.attempt_id == raw.attempt_id,
        h.attempt_time == Some(raw.attempt_time_ns as u64),
        h.resolve_time == Some(raw.resolve_time_ns as u64),
        raw.route is None ==> h.routes@.len() == 0,
        raw.route is Some ==> h.routes@.len() == 1,
        raw.failure is None ==> h.failure_reason is None && h.failure_code is None,
        raw.failure matches Some(f) ==> h.failure_code == Some(f.code as u16) && (
        h.failure_reason matches Some(t) && t@ == f.code_name@),
{
}

/// An invoice update raises the event of its state: settled (1) a settled
/// invoice, canceled (2) a canceled one, accepted (3) an accepted one, and
/// any other state a created one; each keeps the invoice's hash, amount,
/// state and memo.
pub proof fn law_lnd_invoice_update(i: LndInvoice)
    ensures
        i.state == 1 ==> lnd_invoice_update_event(i) is InvoiceSettled,
        i.state == 2 ==> lnd_invoice_update_event(i) is InvoiceCancelled,
        i.state == 3 ==> lnd_invoice_update_event(i) is InvoiceAccepted,
        (i.state != 1 && i.state != 2 && i.state != 3) ==> lnd_invoice_update_event(i) is InvoiceCreated,
        match lnd_invoice_update_event(i) {
            LNDEvent::InvoiceSettled { hash, value_msat, state, memo, .. }
            | LNDEvent::InvoiceCancelled { hash, value_msat, state, memo, .. }
            | LNDEvent::InvoiceAccepted { hash, value_msat, state, memo, .. }
            | LNDEvent::InvoiceCreated { hash, value_msat, state, memo, .. } => hash == i.r_hash
                && value_msat == i.value_msat && state == i.state && memo == i.memo,
            _ => false,
        },
{
}

/// A channel update raises an opening for the opening code and any code
/// LND does not define, when it carries an open channel; a closing for the
/// closing code (1), when it carries a closed channel; and nothing for the
/// other known codes (2 to 5) or a channel of the other kind. The event
/// keeps the channel's id and counterparty.
pub proof fn law_lnd_channel_update(u: LndChannelEventUpdate)
    ensures
        (2 <= u.update_type <= 5) ==> lnd_channel_update_event(u) is None,
        (u.update_type == 0 || u.update_type < 0 || u.update_type > 5) ==> match u.channel {
            Some(LndEventChannel::Open(c)) => lnd_channel_update_event(u) matches Some(
                LNDEvent::ChannelOpened { chan_id, remote_pubkey, capacity, .. },
            ) && chan_id == c.chan_id && remote_pubkey == c.remote_pubkey && capacity == c.capacity,
            _ => lnd_channel_update_event(u) is None,
        },
        u.update_type == 1 ==> match u.channel {
            Some(LndEventChannel::Closed(c)) => lnd_channel_update_event(u) matches Some(
                LNDEvent::ChannelClosed { chan_id, remote_pubkey, capacity, .. },
            ) && chan_id == c.chan_id && remote_pubkey == c.remote_pubkey && capacity == c.capacity,
            _ => lnd_channel_update_event(u) is None,
        },
{
}

/// The policies of a channel's details come from the first graph edge of
/// that channel: side 1's from its first policy and side 2's from its
/// second, each under the key the edge names for that side, or where that
/// does not read, the remote key for side 1 and the local key for side 2.
/// Without a graph or such an edge there are none.
pub proof fn law_lnd_graph_policies(
    p1: Option<NodePolicy>,
    p2: Option<NodePolicy>,
    graph: Option<Seq<LndChannelEdge>>,
    id: u64,
    remote: Seq<u8>,
    local: Seq<u8>,
)
    requires
        lnd_graph_policies_of(p1, p2, graph, id, remote, local),
    ensures
        graph is None ==> p1 is None && p2 is None,
        graph matches Some(edges) ==> (forall|j: int| 0 <= j < edges.len() ==> edges[j].channel_id != id)
            ==> p1 is None && p2 is None,
        graph matches Some(edges) ==> forall|k: int|
            0 <= k < edges.len() && edges[k].channel_id == id && (forall|j: int|
                0 <= j < k ==> edges[j].channel_id != id) ==> {
                &&& (edges[k].node1_policy is None <==> p1 is None)
                &&& (edges[k].node2_policy is None <==> p2 is None)
                &&& (p1 matches Some(p) ==> p.fee_base_msat == edges[k].node1_policy->Some_0.fee_base_msat as u64
                    && p.pubkey@ == match secp256k1_pubkey_from_hex(edges[k].node1_pub@) {
                    Some(key) => key,
                    None => remote,
                })
                &&& (p2 matches Some(p) ==> p.fee_base_msat == edges[k].node2_policy->Some_0.fee_base_msat as u64
                    && p.pubkey@ == match secp256k1_pubkey_from_hex(edges[k].node2_pub@) {
                    Some(key) => key,
                    None => local,
                })
            },
{
    if let Some(edges) = graph {
        law_first_edge_index(edges, id);
        assert forall|k: int|
            0 <= k < edges.len() && edges[k].channel_id == id && (forall|j: int|
                0 <= j < k ==> edges[j].channel_id != id) implies first_edge_index(edges, id) == Some(k) by {
            match first_edge_index(edges, id) {
                Some(k2) => {
                    if k2 < k {
                        assert(edges[k2].channel_id != id);
                    } else if k < k2 {
                        assert(edges[k].channel_id != id);
                    }
                },
                None => {
                    assert(edges[k].channel_id != id);
                },
            }
        }
    }
}

/// A listed invoice carries one HTLC for each of LND's, in order, with its
/// channel, index, amount and times, and one feature for each of LND's,
/// with its bit, name and flags; the rest is read as for any invoice.
pub proof fn law_lnd_listed_invoice(i: CustomInvoice, raw: LndInvoice)
    requires
        lnd_listed_invoice_of(i, raw),
    ensures
        (i.state == InvoiceStatus::Settled) == (raw.state == 1),
        (i.state == InvoiceStatus::Failed) == (raw.state == 2),
        i.htlcs matches Some(hs) && hs@.len() == raw.htlcs@.len() && forall|k: int|
            #![auto] 0 <= k < hs@.len() ==> {
                &&& hs@[k].chan_id == Some(raw.htlcs@[k].chan_id)
                &&& hs@[k].htlc_index == Some(raw.htlcs@[k].htlc_index)
                &&& hs@[k].amt_msat == Some(raw.htlcs@[k].amt_msat)
                &&& hs@[k].accept_time == Some(raw.htlcs@[k].accept_time)
                &&& hs@[k].resolve_time == Some(raw.htlcs@[k].resolve_time)
            },
        i.features matches Some(fs) && fs@.len() == raw.features@.len() && forall|k: int|
            #![auto] 0 <= k < fs@.len() ==> fs@[k].0 == raw.features@[k].0 && fs@[k].1.is_required
                == Some(raw.features@[k].1.is_required) && fs@[k].1.is_known == Some(
                raw.features@[k].1.is_known,
            ),
{
    let hs = i.htlcs->Some_0;
    assert forall|k: int| #![auto] 0 <= k < hs@.len() implies hs@[k].chan_id == Some(
        raw.htlcs@[k].chan_id,
    ) && hs@[k].htlc_index == Some(raw.htlcs@[k].htlc_index) && hs@[k].amt_msat == Some(
        raw.htlcs@[k].amt_msat,
    ) && hs@[k].accept_time == Some(raw.htlcs@[k].accept_time) && hs@[k].resolve_time == Some(
        raw.htlcs@[k].resolve_time,
    ) by {
        assert(lnd_invoice_htlc_of(hs@[k], raw.htlcs@[k]));
    }
    let fs = i.features->Some_0;
    assert forall|k: int| #![auto] 0 <= k < fs@.len() implies fs@[k].0 == raw.features@[k].0
        && fs@[k].1.is_required == Some(raw.features@[k].1.is_required) && fs@[k].1.is_known
        == Some(raw.features@[k].1.is_known) by {
        let (bit, f) = fs@[k];
        assert(fs@[k] == (bit, f));
    }
}

} // verus!
