use nodegaze::cln::{
    cln_amount_sat, cln_channel_capacities, cln_channel_details, cln_channel_summaries,
    cln_connect_info, cln_find_pay, cln_find_peer_channel, cln_get_network, cln_invoice,
    cln_invoices, cln_looked_up_invoice, cln_node_info, cln_payment_destination,
    cln_payment_details, cln_payment_summary, ClnGossipChannel, ClnInvoice, ClnNodeAnnouncement,
    ClnPay, ClnPeerChannel, ClnPolicy, ClnUpdates,
};
use nodegaze::errors::LightningError;
use nodegaze::events::{
    process_cln_event, process_lightning_event, process_lnd_event, CLNEvent, EventHandler,
    EventSeverity, EventType, EventValue, LNDEvent, NodeSpecificEvent,
};
use nodegaze::lnd::{
    lnd_channel_event, lnd_channel_summaries, lnd_connect_network, lnd_find_payment,
    lnd_invoice_event, lnd_listed_invoice, lnd_looked_up_invoice, lnd_node_info,
    lnd_payment_summary, LndChain, LndChannel, LndChannelEdge, LndChannelEventUpdate,
    LndEventChannel, LndInvoice, LndNodeAnnouncement, LndPayment,
};
use std::collections::HashSet;
use nodegaze::node::{Network, NodeId, PubKey, ShortChannelID};
use nodegaze::records::{ChannelState, InvoiceStatus, PaymentState};

const KEY_G: &str = "0279be667ef9dcbbac55a06295ce870b07029bfcdb2dce28d959f2815b16f81798";
const KEY_2G: &str = "02c6047f9441ed7d6d3045406e95c07cd85c778e4b8cef3ca7abac09b95c709ee5";

fn chain(network: &str) -> LndChain {
    LndChain { chain: "bitcoin".to_string(), network: network.to_string() }
}

#[test]
fn lnd_network_from_chains() {
    assert_eq!(lnd_connect_network(&vec![chain("mainnet")]), Ok(Network::Bitcoin));
    assert_eq!(lnd_connect_network(&vec![chain("regtest")]), Ok(Network::Regtest));
    assert_eq!(
        lnd_connect_network(&vec![]),
        Err(LightningError::GetInfoError("node is not connected to any chain".to_string()))
    );
    assert_eq!(
        lnd_connect_network(&vec![chain("mainnet"), chain("testnet")]),
        Err(LightningError::GetInfoError(
            "node is connected to more than one chain: Map { iter: Iter([Chain { chain: \"bitcoin\", network: \"mainnet\" }, Chain { chain: \"bitcoin\", network: \"testnet\" }]) }"
                .to_string()
        ))
    );
}

#[test]
fn lnd_unknown_node_is_not_found() {
    let g = PubKey::from_hex(KEY_G).unwrap();
    assert_eq!(
        lnd_node_info(&g, None).err(),
        Some(LightningError::GetNodeInfoError("Node not found".to_string()))
    );
}

#[test]
fn lnd_known_node_has_sized_feature_flags() {
    let g = PubKey::from_hex(KEY_G).unwrap();
    let node = LndNodeAnnouncement { alias: "carol".to_string(), features: HashSet::from([1, 3000]) };
    let info = lnd_node_info(&g, Some(node)).unwrap();
    assert_eq!(info.alias, "carol");
    assert_eq!(info.features.len(), 3000 / 8 + 1);
    assert_eq!(info.features[0], 0b10);
    assert_eq!(info.features[3000 / 8], 1 << (3000 % 8));
    let small = LndNodeAnnouncement { alias: String::new(), features: HashSet::new() };
    assert_eq!(lnd_node_info(&g, Some(small)).unwrap().features, vec![0u8; 256]);
}

fn lnd_channel(chan_id: u64, active: bool) -> LndChannel {
    LndChannel {
        chan_id,
        active,
        private: false,
        remote_pubkey: KEY_2G.to_string(),
        channel_point: "4a5e1e4baab89f3a32518a88c31bc87f618f76673e2cc77ab2127b7afdeda33b:0"
            .to_string(),
        capacity: 1_000_000,
        local_balance: 600_000,
        remote_balance: -5,
        commit_fee: 200,
        local_chan_reserve_sat: Some(10_000),
        remote_chan_reserve_sat: None,
        num_updates: 3,
        total_satoshis_sent: 10,
        total_satoshis_received: 20,
        lifetime: 100,
        uptime: 90,
        initiator: true,
    }
}

fn edge(channel_id: u64, last_update: u32) -> LndChannelEdge {
    LndChannelEdge {
        channel_id,
        last_update,
        node1_pub: KEY_G.to_string(),
        node2_pub: KEY_2G.to_string(),
        node1_policy: None,
        node2_policy: None,
    }
}

#[test]
fn lnd_channel_summaries_take_latest_update() {
    let channels = vec![lnd_channel(7, true), lnd_channel(8, false)];
    let edges = vec![edge(7, 50), edge(7, 120), edge(8, 0), edge(9, 500)];
    let s = lnd_channel_summaries(&channels, &edges);
    assert_eq!(s.len(), 2);
    assert_eq!(s[0].chan_id, ShortChannelID(7));
    assert_eq!(s[0].channel_state, ChannelState::Active);
    assert_eq!(s[0].last_update, Some(120));
    // Amounts are given in millisatoshis.
    assert_eq!(s[0].capacity, 1_000_000_000);
    assert_eq!(s[0].local_balance, 600_000_000);
    assert_eq!(s[0].remote_balance, 0);
    assert_eq!(s[0].uptime, Some(90));
    assert_eq!(s[1].channel_state, ChannelState::Disabled);
    assert_eq!(s[1].last_update, None);
}

fn lnd_payment(hash: &str, status: i32) -> LndPayment {
    LndPayment {
        payment_hash: hash.to_string(),
        value_sat: 1500,
        payment_request: "lnbc1".to_string(),
        status,
        fee_sat: 3,
        creation_time_ns: 1_700_000_000_000_000_000,
        htlcs: vec![],
    }
}

#[test]
fn lnd_payment_lookup_and_summary() {
    let payments = vec![lnd_payment("00ff", 2), lnd_payment("abcd", 3)];
    assert_eq!(lnd_find_payment(&payments, &[0xab, 0xcd]), Ok(1));
    assert_eq!(
        lnd_find_payment(&payments, &[0x12]),
        Err(LightningError::NotFound("Payment 12 not found".to_string()))
    );
    let s = lnd_payment_summary(&payments[0], 99);
    assert_eq!(s.amount_sat, 1500);
    assert_eq!(s.amount_usd, 99);
    assert_eq!(s.routing_fee, Some(3));
    assert_eq!(s.creation_time, Some(1_700_000_000_000_000_000));
    assert_eq!(s.invoice, Some("lnbc1".to_string()));
    assert_eq!(s.completed_at, None);
}

fn lnd_invoice(state: i32) -> LndInvoice {
    LndInvoice {
        memo: "coffee".to_string(),
        r_preimage: vec![1, 2],
        r_hash: vec![0xde, 0xad],
        value: 100,
        value_msat: 100_000,
        settled: state == 1,
        creation_date: 10,
        settle_date: 20,
        payment_request: "lnbc100".to_string(),
        expiry: 3600,
        state,
        htlcs: vec![],
        features: vec![],
        is_keysend: false,
        payment_addr: vec![],
        is_amp: false,
    }
}

#[test]
fn lnd_invoices_are_read() {
    let listed = lnd_listed_invoice(&lnd_invoice(1));
    assert_eq!(listed.payment_hash, "dead");
    assert_eq!(listed.payment_preimage, "0102");
    assert_eq!(listed.state, InvoiceStatus::Settled);
    assert!(listed.htlcs.is_some());
    assert_eq!(listed.payment_addr, None);
    let looked = lnd_looked_up_invoice(&lnd_invoice(2));
    assert_eq!(looked.state, InvoiceStatus::Failed);
    assert_eq!(lnd_looked_up_invoice(&lnd_invoice(0)).state, InvoiceStatus::Open);
}

#[test]
fn lnd_stream_updates_become_events() {
    let open = LndChannelEventUpdate {
        update_type: 0,
        channel: Some(LndEventChannel::Open(lnd_channel(5, true))),
    };
    match lnd_channel_event(open) {
        Some(NodeSpecificEvent::LND(LNDEvent::ChannelOpened { chan_id, .. })) => {
            assert_eq!(chan_id, 5)
        }
        other => panic!("unexpected {:?}", other),
    }
    let other = LndChannelEventUpdate { update_type: 4, channel: None };
    assert!(lnd_channel_event(other).is_none());
    let active = LndChannelEventUpdate {
        update_type: 2,
        channel: Some(LndEventChannel::Open(lnd_channel(6, true))),
    };
    assert!(lnd_channel_event(active).is_none());
    let unknown = LndChannelEventUpdate {
        update_type: 9,
        channel: Some(LndEventChannel::Open(lnd_channel(7, true))),
    };
    match lnd_channel_event(unknown) {
        Some(NodeSpecificEvent::LND(LNDEvent::ChannelOpened { chan_id, .. })) => {
            assert_eq!(chan_id, 7)
        }
        other => panic!("unexpected {:?}", other),
    }
    match lnd_invoice_event(lnd_invoice(1)) {
        NodeSpecificEvent::LND(LNDEvent::InvoiceSettled { memo, .. }) => assert_eq!(memo, "coffee"),
        other => panic!("unexpected {:?}", other),
    }
}

#[test]
fn lnd_events_are_standardized() {
    let opened = LNDEvent::ChannelOpened {
        active: true,
        remote_pubkey: "peer".to_string(),
        channel_point: "cp".to_string(),
        chan_id: 42,
        capacity: 1,
        local_balance: 1,
        remote_balance: 0,
        total_satoshis_sent: 0,
        total_satoshis_received: 0,
    };
    let c = process_lnd_event(&opened);
    assert_eq!(c.event_type, EventType::ChannelOpened);
    assert_eq!(c.severity, EventSeverity::Info);
    assert_eq!(c.title, "Channel Opened");
    assert_eq!(c.description, "New channel opened with peer");
    assert_eq!(c.data.len(), 2);
    assert_eq!(c.data[0].0, "channel_id");
    assert!(matches!(c.data[0].1, EventValue::Unsigned(42)));

    let settled = LNDEvent::InvoiceSettled {
        preimage: vec![],
        hash: vec![0xab],
        value_msat: -7,
        state: 1,
        memo: "m".to_string(),
        creation_date: 0,
        payment_request: String::new(),
    };
    let c = process_lnd_event(&settled);
    assert_eq!(c.description, "Invoice settled for -7 msat");
    assert!(matches!(&c.data[0].1, EventValue::Text(t) if t == "ab"));

    let c = process_cln_event(&CLNEvent::ChannelOpened {});
    assert_eq!(c.title, "Channel Opened");
    assert_eq!(c.description, "New channel opened");
    assert!(c.data.is_empty());

    let c = process_lightning_event(&NodeSpecificEvent::CLN(CLNEvent::ChannelOpened {}));
    assert_eq!(c.event_type, EventType::ChannelOpened);
    assert_eq!(EventSeverity::Warning.name(), "Warning");
}

#[test]
fn event_handler_needs_full_context() {
    assert!(EventHandler::new().dispatch_context().is_none());
    let h = EventHandler::with_context(
        "acc".to_string(),
        "user".to_string(),
        "node".to_string(),
        "alias".to_string(),
    );
    assert_eq!(
        h.dispatch_context(),
        Some(("acc".to_string(), "user".to_string(), "node".to_string(), "alias".to_string()))
    );
}

#[test]
fn cln_connect_checks_key_and_network() {
    let g = PubKey::from_hex(KEY_G).unwrap();
    let id = g.serialize();
    let (info, network) = cln_connect_info(
        &NodeId::PublicKey(g.clone()),
        &id,
        "carol".to_string(),
        &Some(vec![0x01, 0x80]),
        "regtest",
    )
    .unwrap();
    assert_eq!(network, Network::Regtest);
    assert_eq!(info.alias, "carol");
    assert_eq!(info.features, vec![0x80, 0x01]);
    assert_eq!(
        cln_connect_info(&NodeId::PublicKey(g.clone()), &vec![1, 2], String::new(), &None, "regtest")
            .err(),
        Some(LightningError::GetInfoError("malformed public key".to_string()))
    );
    let g2 = PubKey::from_hex(KEY_2G).unwrap();
    assert!(matches!(
        cln_connect_info(&NodeId::PublicKey(g2), &id, String::new(), &None, "regtest"),
        Err(LightningError::ValidationError(_))
    ));
    assert_eq!(
        cln_get_network("nowhere"),
        Err(LightningError::ValidationError(
            "failed to parse nowhere as network".to_string()
        ))
    );
}

#[test]
fn cln_node_info_uses_last_listed_node() {
    let g = PubKey::from_hex(KEY_G).unwrap();
    let nodes = vec![
        ClnNodeAnnouncement { alias: Some("old".to_string()), features: None },
        ClnNodeAnnouncement { alias: Some("new".to_string()), features: Some(vec![2, 1]) },
    ];
    let info = cln_node_info(&g, nodes).unwrap();
    assert_eq!(info.alias, "new");
    assert_eq!(info.features, vec![1, 2]);
    assert_eq!(
        cln_node_info(&g, vec![]).err(),
        Some(LightningError::GetNodeInfoError("Node not found".to_string()))
    );
}

fn policy(fee: Option<u64>) -> ClnPolicy {
    ClnPolicy {
        fee_base_msat: fee,
        fee_proportional_millionths: 10,
        htlc_minimum_msat: Some(1000),
        htlc_maximum_msat: Some(5_000_000),
        cltv_expiry_delta: 0x1_0028,
    }
}

fn peer_channel(scid: Option<&str>, peer: Vec<u8>) -> ClnPeerChannel {
    ClnPeerChannel {
        short_channel_id: scid.map(|s| s.to_string()),
        peer_id: peer,
        state: 2,
        alias_remote: Some("dave".to_string()),
        total_msat: Some(2_000_000_000),
        to_us_msat: Some(500_000_500),
        opener: 0,
        updates: Some(ClnUpdates { local: Some(policy(Some(1))), remote: Some(policy(Some(2))) }),
        private: Some(false),
        funding_txid: Some(
            b"4a5e1e4baab89f3a32518a88c31bc87f618f76673e2cc77ab2127b7afdeda33b".to_vec(),
        ),
        funding_outnum: Some(1),
        last_tx_fee_msat: Some(2500),
        our_reserve_msat: None,
        their_reserve_msat: Some(1_000_000),
        out_fulfilled_msat: None,
        in_fulfilled_msat: Some(999),
    }
}

fn gossip(scid: &str, source: &str, last_update: u32, public: bool) -> ClnGossipChannel {
    ClnGossipChannel {
        short_channel_id: scid.to_string(),
        source: source.as_bytes().to_vec(),
        public,
        active: true,
        last_update,
        amount_msat: 2_000_000_000,
    }
}

#[test]
fn cln_channel_summaries_keep_numeric_ids() {
    let g2 = PubKey::from_hex(KEY_2G).unwrap();
    let channels = vec![
        peer_channel(Some("123"), g2.serialize()),
        peer_channel(Some("103x1x0"), g2.serialize()),
        peer_channel(None, g2.serialize()),
        peer_channel(Some("456"), g2.serialize()),
    ];
    let g = vec![gossip("123", KEY_G, 10, true), gossip("123", KEY_2G, 30, false)];
    let s = cln_channel_summaries(&channels, &g, 999);
    assert_eq!(s.len(), 2);
    assert_eq!(s[0].chan_id, ShortChannelID(123));
    // Amounts stay in millisatoshis.
    assert_eq!(s[0].capacity, 2_000_000_000);
    assert_eq!(s[0].local_balance, 500_000_500);
    assert_eq!(s[0].remote_balance, 1_499_999_500);
    assert_eq!(s[0].last_update, Some(30));
    assert!(!s[0].private);
    assert_eq!(s[0].channel_state, ChannelState::Active);
    // No gossip: private, last seen now.
    assert_eq!(s[1].chan_id, ShortChannelID(456));
    assert!(s[1].private);
    assert_eq!(s[1].last_update, Some(999));
    assert_eq!(cln_channel_capacities(&g), vec![2_000_000_000, 2_000_000_000]);
}

#[test]
fn cln_summary_capacity_in_millisatoshis() {
    let g2 = PubKey::from_hex(KEY_2G).unwrap();
    let mut ch = peer_channel(Some("9"), g2.serialize());
    ch.total_msat = Some(5000);
    ch.to_us_msat = Some(7000);
    let s = cln_channel_summaries(&vec![ch], &vec![], 1);
    assert_eq!(s[0].capacity, 5000);
    assert_eq!(s[0].local_balance, 7000);
    assert_eq!(s[0].remote_balance, 0);
}

#[test]
fn cln_channel_details_in_order_of_checks() {
    let g = PubKey::from_hex(KEY_G).unwrap();
    let g2 = PubKey::from_hex(KEY_2G).unwrap();
    let channels = vec![peer_channel(Some("77"), g2.serialize())];
    assert_eq!(cln_find_peer_channel(&channels, ShortChannelID(77)), Ok(0));
    assert_eq!(
        cln_find_peer_channel(&channels, ShortChannelID(78)),
        Err(LightningError::ChannelError("Channel 78 not found".to_string()))
    );
    let gs = vec![gossip("77", KEY_G, 5, true), gossip("77", KEY_2G, 6, true)];
    let d = cln_channel_details(&channels[0], ShortChannelID(77), &gs, &g).unwrap();
    assert_eq!(d.capacity_sat, 2_000_000);
    assert_eq!(d.local_balance_sat, 500_000);
    assert_eq!(d.remote_balance_sat, 1_500_000);
    assert_eq!(d.active, Some(true));
    assert_eq!(d.commit_fee_sat, Some(2));
    assert_eq!(d.remote_chan_reserve_sat, Some(1000));
    assert_eq!(d.total_satoshis_received, Some(0));
    assert_eq!(d.initiator, Some(true));
    assert_eq!(d.vout, Some(1));
    assert_eq!(d.txid.as_ref().map(|t| t.len()), Some(32));
    let p1 = d.node1_policy.as_ref().unwrap();
    let p2 = d.node2_policy.as_ref().unwrap();
    // The node with the smaller key comes first.
    assert!(p1.pubkey.less_than(&p2.pubkey));
    assert_eq!(p1.time_lock_delta, 0x28);

    let mut bad = peer_channel(Some("77"), vec![1, 2, 3]);
    assert_eq!(
        cln_channel_details(&bad, ShortChannelID(77), &gs, &g).err(),
        Some(LightningError::ChannelError(
            "Invalid peer pubkey for channel 77: malformed public key".to_string()
        ))
    );
    bad.peer_id = g2.serialize();
    bad.to_us_msat = Some(3_000_000_000);
    assert_eq!(
        cln_channel_details(&bad, ShortChannelID(77), &gs, &g).err(),
        Some(LightningError::ChannelError(
            "Invalid balance calculation for channel 77".to_string()
        ))
    );
    let mut no_fee = peer_channel(Some("77"), g2.serialize());
    no_fee.updates = Some(ClnUpdates { local: Some(policy(Some(1))), remote: Some(policy(None)) });
    assert_eq!(
        cln_channel_details(&no_fee, ShortChannelID(77), &gs, &g).err(),
        Some(LightningError::ChannelError(
            "Missing fee_base_msat in remote policy for channel 77".to_string()
        ))
    );
}

fn pay(status: i32) -> ClnPay {
    ClnPay {
        payment_hash: vec![0x0a, 0xff],
        status,
        destination: None,
        created_at: 1_700_000_000,
        completed_at: Some(1_700_000_100),
        amount_msat: Some(10_500),
        amount_sent_msat: Some(12_000),
        description: Some("tea".to_string()),
        bolt11: Some("lnbc".to_string()),
    }
}

#[test]
fn cln_payments_are_read() {
    assert_eq!(
        cln_find_pay(vec![]).err().map(|e| e.message()),
        Some("Not found: Payment not found".to_string())
    );
    let p = cln_find_pay(vec![pay(0), pay(1)]).unwrap();
    assert_eq!(p.status, 1);
    assert_eq!(cln_amount_sat(&p), 10);
    let d = cln_payment_details(p.clone(), Some(Network::Bitcoin), 5).unwrap();
    assert_eq!(d.state, PaymentState::Settled);
    assert_eq!(d.amount_sat, 10);
    assert_eq!(d.routing_fee, Some(2));
    assert_eq!(d.network, Some("bitcoin".to_string()));
    assert_eq!(d.payment_hash, "0aff");
    assert_eq!(d.creation_time, Some(1_700_000_000u128 * 1_000_000_000));
    assert!(d.htlcs.is_empty());

    let mut cheap = pay(2);
    cheap.amount_sent_msat = None;
    let d = cln_payment_details(cheap, None, 0).unwrap();
    assert_eq!(d.state, PaymentState::Failed);
    assert_eq!(d.routing_fee, None);

    let s = cln_payment_summary(pay(0), 7);
    assert_eq!(s.state, PaymentState::Inflight);
    assert_eq!(s.routing_fee, Some(1));
    assert_eq!(s.completed_at, Some(1_700_000_100));
}

#[test]
fn cln_payment_destination_errors() {
    assert!(matches!(cln_payment_destination(&None), Ok(None)));
    match cln_payment_destination(&Some(KEY_G.as_bytes().to_vec())) {
        Ok(Some(k)) => assert_eq!(k.to_hex(), KEY_G),
        other => panic!("unexpected {:?}", other),
    }
    assert_eq!(
        cln_payment_destination(&Some(b"zz".to_vec())).err(),
        Some(LightningError::Parse(
            "Invalid destination pubkey: malformed public key".to_string()
        ))
    );
    match cln_payment_destination(&Some(vec![0xff, 0xfe])) {
        Err(LightningError::Parse(m)) => assert!(m.starts_with("Invalid destination string: ")),
        other => panic!("unexpected {:?}", other),
    }
}

fn invoice(status: i32, expires_at: u64) -> ClnInvoice {
    ClnInvoice {
        description: None,
        payment_hash: vec![0x01],
        payment_preimage: Some(vec![0x02]),
        amount_msat: Some(123_456),
        paid_at: Some(50),
        bolt11: None,
        expires_at,
        status,
    }
}

#[test]
fn cln_invoices_are_read() {
    let i = cln_invoice(&invoice(0, 100), 50);
    assert_eq!(i.state, InvoiceStatus::Open);
    assert_eq!(i.value, 123);
    assert_eq!(i.value_msat, 123_456);
    assert_eq!(i.payment_hash, "01");
    assert_eq!(i.payment_preimage, "02");
    assert_eq!(i.memo, "");
    assert_eq!(i.payment_request, "");
    assert_eq!(i.settle_date, Some(50));
    assert_eq!(i.expiry, Some(100));
    assert_eq!(cln_invoice(&invoice(0, 100), 100).state, InvoiceStatus::Expired);
    assert_eq!(cln_invoice(&invoice(1, 0), 100).state, InvoiceStatus::Settled);
    assert_eq!(cln_invoice(&invoice(2, 500), 100).state, InvoiceStatus::Expired);
    assert_eq!(cln_invoice(&invoice(3, 500), 100).state, InvoiceStatus::Failed);
    let all = cln_invoices(vec![invoice(1, 0), invoice(0, 500)], 100);
    assert_eq!(all.len(), 2);
    assert_eq!(all[1].state, InvoiceStatus::Open);
    assert_eq!(
        cln_looked_up_invoice(vec![], 0).err(),
        Some(LightningError::NotFound("Invoice not found".to_string()))
    );
    assert_eq!(
        cln_looked_up_invoice(vec![invoice(3, 0), invoice(1, 0)], 0).unwrap().state,
        InvoiceStatus::Failed
    );
}
