//! Node identities and the values that describe a Lightning node and its
//! channels, payments and invoices, independent of the node implementation.

use vstd::prelude::*;

use crate::errors::LightningError;
use std::collections::HashSet;
use vstd::std_specs::iter::IteratorSpec;
use bitcoin::hashes::Hash as _;
use crate::text::{
    chars_of, concat2, dec_string, has_prefix, hex_encode, hex_lower, int_error_message,
    lemma_parse_dec_string, owned, parse_unsigned, push_str, spec_parse_uint, starts_with, str_eq,
    u64_to_decimal, IntErrorKind,
};

verus! {

broadcast use vstd::std_specs::hash::group_hash_axioms;

/// The 33-byte compressed serialization of the secp256k1 public key written
/// in hexadecimal by `text`, if it is one (a 33- or 65-byte key in hex).
pub uninterp spec fn secp256k1_pubkey_from_hex(text: Seq<char>) -> Option<Seq<u8>>;

/// The 33-byte compressed serialization of the secp256k1 public key whose
/// encoding is `bytes`, if it is one.
pub uninterp spec fn secp256k1_pubkey_from_slice(bytes: Seq<u8>) -> Option<Seq<u8>>;

/// `secp256k1::PublicKey::from_str(text)` followed by `serialize()`. Claims:
/// the result is the named value, and a key serializes to 33 bytes.
#[verifier::external_body]
fn pubkey_parse_hex(text: &str) -> (r: Option<Vec<u8>>)
    ensures
        match secp256k1_pubkey_from_hex(text@) {
            Some(b) => r matches Some(v) && v@ == b,
            None => r is None,
        },
        r matches Some(v) ==> v@.len() == 33,
{
    <bitcoin::secp256k1::PublicKey as std::str::FromStr>::from_str(text).ok().map(
        |pk| pk.serialize().to_vec(),
    )
}

/// `secp256k1::PublicKey::from_slice(bytes)` followed by `serialize()`.
/// Claims: the result is the named value, and a key serializes to 33 bytes.
#[verifier::external_body]
fn pubkey_parse_slice(bytes: &[u8]) -> (r: Option<Vec<u8>>)
    ensures
        match secp256k1_pubkey_from_slice(bytes@) {
            Some(b) => r matches Some(v) && v@ == b,
            None => r is None,
        },
        r matches Some(v) ==> v@.len() == 33,
{
    bitcoin::secp256k1::PublicKey::from_slice(bytes).ok().map(|pk| pk.serialize().to_vec())
}

/// The message of secp256k1's error for a malformed public key.
pub open spec fn malformed_pubkey_message() -> Seq<char> {
    "malformed public key"@
}

/// A secp256k1 public key, held as its 33-byte compressed serialization.
/// Keys compare as their serializations do, byte by byte.
#[derive(Debug)]
pub struct PubKey {
    bytes: Vec<u8>,
}

impl View for PubKey {
    type V = Seq<u8>;

    closed spec fn view(&self) -> Seq<u8> {
        self.bytes@
    }
}

/// Lexicographic order of byte strings (of equal length).
pub open spec fn bytes_less(a: Seq<u8>, b: Seq<u8>) -> bool {
    exists|i: int|
        0 <= i < a.len() && i < b.len() && a[i] < b[i] && #[trigger] a.subrange(0, i) == b.subrange(
            0,
            i,
        )
}

impl Clone for PubKey {
    fn clone(&self) -> (r: Self)
        ensures
            r@ == self@,
    {
        proof {
            use_type_invariant(self);
        }
        let mut bytes: Vec<u8> = Vec::new();
        let mut i: usize = 0;
        while i < self.bytes.len()
            invariant
                self.bytes@.len() == 33,
                i <= 33,
                bytes@ == self.bytes@.subrange(0, i as int),
            decreases 33 - i,
        {
            bytes.push(self.bytes[i]);
            i = i + 1;
            assert(bytes@ =~= self.bytes@.subrange(0, i as int));
        }
        assert(bytes@ =~= self.bytes@);
        PubKey { bytes }
    }
}

impl PubKey {
    #[verifier::type_invariant]
    spec fn is_compressed_key(&self) -> bool {
        self.bytes@.len() == 33
    }

    /// Reads a key written in hexadecimal (`PublicKey::from_str`).
    pub fn from_hex(text: &str) -> (r: Option<PubKey>)
        ensures
            match secp256k1_pubkey_from_hex(text@) {
                Some(b) => r matches Some(k) && k@ == b,
                None => r is None,
            },
    {
        match pubkey_parse_hex(text) {
            Some(b) => Some(PubKey { bytes: b }),
            None => None,
        }
    }

    /// Reads a key from its byte encoding (`PublicKey::from_slice`).
    pub fn from_slice(bytes: &[u8]) -> (r: Option<PubKey>)
        ensures
            match secp256k1_pubkey_from_slice(bytes@) {
                Some(b) => r matches Some(k) && k@ == b,
                None => r is None,
            },
    {
        match pubkey_parse_slice(bytes) {
            Some(b) => Some(PubKey { bytes: b }),
            None => None,
        }
    }

    /// The compressed serialization.
    pub fn serialize(&self) -> (r: Vec<u8>)
        ensures
            r@ == self@,
            r@.len() == 33,
    {
        proof {
            use_type_invariant(self);
        }
        self.clone().bytes
    }

    /// The lowercase hexadecimal rendering, as the key's `Display` shows it.
    pub fn to_hex(&self) -> (r: String)
        ensures
            r@ == hex_lower(self@),
    {
        hex_encode(self.bytes.as_slice())
    }

    /// Whether the two keys are the same.
    pub fn same_as(&self, other: &PubKey) -> (r: bool)
        ensures
            r == (self@ == other@),
    {
        proof {
            use_type_invariant(self);
            use_type_invariant(other);
        }
        let mut i: usize = 0;
        while i < 33
            invariant
                self.bytes@.len() == 33,
                other.bytes@.len() == 33,
                i <= 33,
                forall|j: int| 0 <= j < i ==> self.bytes@[j] == other.bytes@[j],
            decreases 33 - i,
        {
            if self.bytes[i] != other.bytes[i] {
                return false;
            }
            i = i + 1;
        }
        assert(self.bytes@ =~= other.bytes@);
        true
    }

    /// Whether this key orders before the other one.
    pub fn less_than(&self, other: &PubKey) -> (r: bool)
        ensures
            r == bytes_less(self@, other@),
    {
        proof {
            use_type_invariant(self);
            use_type_invariant(other);
        }
        let mut i: usize = 0;
        while i < 33
            invariant
                self.bytes@.len() == 33,
                other.bytes@.len() == 33,
                i <= 33,
                self.bytes@.subrange(0, i as int) == other.bytes@.subrange(0, i as int),
            decreases 33 - i,
        {
            if self.bytes[i] < other.bytes[i] {
                assert(self.bytes@.subrange(0, i as int) == other.bytes@.subrange(0, i as int));
                return true;
            }
            if self.bytes[i] > other.bytes[i] {
                proof {
                    assert forall|k: int|
                        0 <= k < 33 && self.bytes@[k] < other.bytes@[k]
                            && #[trigger] self.bytes@.subrange(0, k)
                            == other.bytes@.subrange(0, k) implies false by {
                        if k < i {
                            assert(self.bytes@.subrange(0, i as int)[k] == self.bytes@[k]);
                            assert(other.bytes@.subrange(0, i as int)[k] == other.bytes@[k]);
                        } else if k > i {
                            assert(self.bytes@.subrange(0, k)[i as int] == self.bytes@[i as int]);
                            assert(other.bytes@.subrange(0, k)[i as int]
                                == other.bytes@[i as int]);
                        }
                    }
                }
                return false;
            }
            i = i + 1;
            assert(self.bytes@.subrange(0, i as int) =~= other.bytes@.subrange(0, i as int));
        }
        proof {
            assert forall|k: int|
                0 <= k < 33 && self.bytes@[k] < other.bytes@[k] && #[trigger] self.bytes@.subrange(
                    0,
                    k,
                ) == other.bytes@.subrange(0, k) implies false by {
                assert(self.bytes@.subrange(0, 33)[k] == self.bytes@[k]);
                assert(other.bytes@.subrange(0, 33)[k] == other.bytes@[k]);
            }
        }
        false
    }
}

/// A node id, either by its public key or alias.
#[derive(Debug, Clone)]
pub enum NodeId {
    /// The node's public key.
    PublicKey(PubKey),
    /// The node's alias (human-readable name).
    Alias(String),
}

/// The message when the expected and reported values of a node differ.
pub open spec fn mismatch_message(what: Seq<char>, expected: Seq<char>, actual: Seq<char>) -> Seq<
    char,
> {
    "The provided "@ + what + " does not match the one returned by the backend ("@ + expected
        + " != "@ + actual + ")."@
}

/// The text of a node id: the key in hex or the alias.
pub open spec fn node_id_text(id: NodeId) -> Seq<char> {
    match id {
        NodeId::PublicKey(pk) => hex_lower(pk@),
        NodeId::Alias(a) => a@,
    }
}

fn mismatch(what: &str, expected: &str, actual: &str) -> (r: String)
    ensures
        r@ == mismatch_message(what@, expected@, actual@),
{
    let mut s = concat2("The provided ", what);
    push_str(&mut s, " does not match the one returned by the backend (");
    push_str(&mut s, expected);
    push_str(&mut s, " != ");
    push_str(&mut s, actual);
    push_str(&mut s, ").");
    s
}

impl NodeId {
    /// Checks that this id matches the key and alias the node reported.
    pub fn validate(&self, node_id: &PubKey, alias: &mut String) -> (r: Result<(), LightningError>)
        ensures
            *final(alias) == *old(alias),
            match *self {
                NodeId::PublicKey(pk) => if pk@ == node_id@ {
                    r is Ok
                } else {
                    r matches Err(LightningError::ValidationError(m)) && m@ == mismatch_message(
                        "node id"@,
                        hex_lower(pk@),
                        hex_lower(node_id@),
                    )
                },
                NodeId::Alias(a) => if a@ == old(alias)@ {
                    r is Ok
                } else {
                    r matches Err(LightningError::ValidationError(m)) && m@ == mismatch_message(
                        "alias"@,
                        a@,
                        old(alias)@,
                    )
                },
            },
    {
        match self {
            NodeId::PublicKey(pk) => {
                if !pk.same_as(node_id) {
                    let expected = pk.to_hex();
                    let actual = node_id.to_hex();
                    return Err(
                        LightningError::ValidationError(
                            mismatch("node id", expected.as_str(), actual.as_str()),
                        ),
                    );
                }
            },
            NodeId::Alias(a) => {
                if !str_eq(a.as_str(), alias.as_str()) {
                    return Err(
                        LightningError::ValidationError(
                            mismatch("alias", a.as_str(), alias.as_str()),
                        ),
                    );
                }
            },
        }
        Ok(())
    }

    /// The public key, when this id is one.
    pub fn get_pk(&self) -> (r: Result<&PubKey, String>)
        ensures
            match *self {
                NodeId::PublicKey(pk) => r == Ok::<&PubKey, String>(&pk),
                NodeId::Alias(_) => r matches Err(m) && m@ == "NodeId is not a PublicKey"@,
            },
    {
        match self {
            NodeId::PublicKey(pk) => Ok(pk),
            NodeId::Alias(_) => Err(owned("NodeId is not a PublicKey")),
        }
    }

    /// The text of this id: the key in hex or the alias.
    pub fn to_text(&self) -> (r: String)
        ensures
            r@ == node_id_text(*self),
    {
        match self {
            NodeId::PublicKey(pk) => pk.to_hex(),
            NodeId::Alias(a) => a.clone(),
        }
    }
}

/// Public information about a node.
#[derive(Debug, Clone)]
pub struct NodeInfo {
    /// The node's public key.
    pub pubkey: PubKey,
    /// A human-readable name for the node (may be empty).
    pub alias: String,
    /// The node's feature flags, little-endian: bit `f % 8` of byte `f / 8` is feature `f`.
    pub features: Vec<u8>,
}

/// The short text of a node: the first and last six hex digits of its key,
/// after the alias in parentheses when the alias is not empty.
pub open spec fn node_info_text(alias: Seq<char>, key: Seq<u8>) -> Seq<char> {
    let h = hex_lower(key);
    let summary = h.subrange(0, 6) + "..."@ + h.subrange(h.len() - 6, h.len() as int);
    if alias.len() == 0 {
        summary
    } else {
        alias + "("@ + summary + ")"@
    }
}

/// The hex rendering has two digits per byte.
pub proof fn lemma_hex_len(b: Seq<u8>)
    ensures
        hex_lower(b).len() == 2 * b.len(),
    decreases b.len(),
{
    if b.len() > 0 {
        lemma_hex_len(b.drop_last());
    }
}

impl NodeInfo {
    /// The short text of the node, as its `Display` shows it.
    pub fn to_text(&self) -> (r: String)
        ensures
            r@ == node_info_text(self.alias@, self.pubkey@),
    {
        let pk = self.pubkey.to_hex();
        let h = chars_of(pk.as_str());
        proof {
            use_type_invariant(&self.pubkey);
            lemma_hex_len(self.pubkey@);
        }
        let n = h.len();
        let mut summary = String::new();
        let mut i: usize = 0;
        while i < 6
            invariant
                h@ == hex_lower(self.pubkey@),
                n == h@.len(),
                n == 66,
                i <= 6,
                summary@ == h@.subrange(0, i as int),
            decreases 6 - i,
        {
            crate::text::push_char(&mut summary, h[i]);
            i = i + 1;
            assert(summary@ =~= h@.subrange(0, i as int));
        }
        push_str(&mut summary, "...");
        let mut j: usize = n - 6;
        while j < n
            invariant
                h@ == hex_lower(self.pubkey@),
                n == h@.len(),
                n == 66,
                n - 6 <= j <= n,
                summary@ == h@.subrange(0, 6) + "..."@ + h@.subrange(n - 6, j as int),
            decreases n - j,
        {
            crate::text::push_char(&mut summary, h[j]);
            j = j + 1;
            assert(summary@ =~= h@.subrange(0, 6) + "..."@ + h@.subrange(n - 6, j as int));
        }
        if self.alias.unicode_len() == 0 {
            summary
        } else {
            let mut r = self.alias.clone();
            push_str(&mut r, "(");
            push_str(&mut r, summary.as_str());
            push_str(&mut r, ")");
            r
        }
    }
}

/// A short channel id.
#[derive(Debug, Clone, Copy, PartialEq, Eq, Structural)]
pub struct ShortChannelID(pub u64);

impl ShortChannelID {
    /// The number this id carries.
    pub fn to_u64(&self) -> (r: u64)
        ensures
            r == self.0,
    {
        self.0
    }

    /// The id carrying `id`.
    pub fn from_u64(id: u64) -> (r: Self)
        ensures
            r.0 == id,
    {
        ShortChannelID(id)
    }

    /// Reads an id written as a decimal number (`u64::from_str`).
    pub fn from_str(s: &str) -> (r: Result<Self, IntErrorKind>)
        ensures
            match spec_parse_uint(s@, u64::MAX as nat) {
                Ok(v) => r == Ok::<Self, IntErrorKind>(ShortChannelID(v as u64)),
                Err(k) => r == Err::<Self, IntErrorKind>(k),
            },
    {
        match parse_unsigned(s, u64::MAX) {
            Ok(v) => Ok(ShortChannelID(v)),
            Err(k) => Err(k),
        }
    }

    /// The id in decimal, as its `Display` shows it.
    pub fn to_text(&self) -> (r: String)
        ensures
            r@ == dec_string(self.0 as nat),
    {
        u64_to_decimal(self.0)
    }
}

/// Reading back the decimal text of a short channel id gives the same id.
pub proof fn lemma_short_channel_id_text_roundtrip(id: ShortChannelID)
    ensures
        spec_parse_uint(dec_string(id.0 as nat), u64::MAX as nat) == Ok::<nat, IntErrorKind>(
            id.0 as nat,
        ),
{
    lemma_parse_dec_string(id.0 as nat, u64::MAX as nat);
}

/// A Bitcoin network.
#[derive(Debug, Clone, Copy, PartialEq, Eq, Structural)]
pub enum Network {
    Bitcoin,
    Testnet,
    Testnet4,
    Signet,
    Regtest,
}

/// The network a name denotes (`Network::from_str`).
pub open spec fn network_from_name(s: Seq<char>) -> Option<Network> {
    if s == "bitcoin"@ {
        Some(Network::Bitcoin)
    } else if s == "testnet"@ {
        Some(Network::Testnet)
    } else if s == "testnet4"@ {
        Some(Network::Testnet4)
    } else if s == "signet"@ {
        Some(Network::Signet)
    } else if s == "regtest"@ {
        Some(Network::Regtest)
    } else {
        None
    }
}

/// The network a `-chain` argument of Bitcoin Core denotes (`Network::from_core_arg`).
pub open spec fn network_from_core_arg(s: Seq<char>) -> Option<Network> {
    if s == "main"@ {
        Some(Network::Bitcoin)
    } else if s == "test"@ {
        Some(Network::Testnet)
    } else if s == "testnet4"@ {
        Some(Network::Testnet4)
    } else if s == "signet"@ {
        Some(Network::Signet)
    } else if s == "regtest"@ {
        Some(Network::Regtest)
    } else {
        None
    }
}

/// The name of a network, as its `Display` shows it.
pub open spec fn network_name(n: Network) -> Seq<char> {
    match n {
        Network::Bitcoin => "bitcoin"@,
        Network::Testnet => "testnet"@,
        Network::Testnet4 => "testnet4"@,
        Network::Signet => "signet"@,
        Network::Regtest => "regtest"@,
    }
}

/// `bitcoin::Network::from_str`. Claims: it accepts exactly the five
/// network names and gives the named network.
#[verifier::external_body]
fn bitcoin_network_from_str(s: &str) -> (r: Option<Network>)
    ensures
        r == network_from_name(s@),
{
    match <bitcoin::Network as std::str::FromStr>::from_str(s) {
        Ok(bitcoin::Network::Bitcoin) => Some(Network::Bitcoin),
        Ok(bitcoin::Network::Testnet) => Some(Network::Testnet),
        Ok(bitcoin::Network::Testnet4) => Some(Network::Testnet4),
        Ok(bitcoin::Network::Signet) => Some(Network::Signet),
        Ok(bitcoin::Network::Regtest) => Some(Network::Regtest),
        _ => None,
    }
}

/// `bitcoin::Network::from_core_arg`. Claims: it accepts exactly the five
/// Bitcoin Core chain arguments and gives the named network.
#[verifier::external_body]
fn bitcoin_network_from_core_arg(s: &str) -> (r: Option<Network>)
    ensures
        r == network_from_core_arg(s@),
{
    match bitcoin::Network::from_core_arg(s) {
        Ok(bitcoin::Network::Bitcoin) => Some(Network::Bitcoin),
        Ok(bitcoin::Network::Testnet) => Some(Network::Testnet),
        Ok(bitcoin::Network::Testnet4) => Some(Network::Testnet4),
        Ok(bitcoin::Network::Signet) => Some(Network::Signet),
        Ok(bitcoin::Network::Regtest) => Some(Network::Regtest),
        _ => None,
    }
}

/// `bitcoin::Network::to_string`. Claims: the network's display name.
#[verifier::external_body]
fn bitcoin_network_display(n: Network) -> (r: String)
    ensures
        r@ == network_name(n),
{
    let b = match n {
        Network::Bitcoin => bitcoin::Network::Bitcoin,
        Network::Testnet => bitcoin::Network::Testnet,
        Network::Testnet4 => bitcoin::Network::Testnet4,
        Network::Signet => bitcoin::Network::Signet,
        Network::Regtest => bitcoin::Network::Regtest,
    };
    b.to_string()
}

/// The message of bitcoin's error for a text that names no network.
pub open spec fn network_parse_error(s: Seq<char>) -> Seq<char> {
    "failed to parse "@ + s + " as network"@
}

impl Network {
    /// Reads a network name.
    pub fn from_name(s: &str) -> (r: Result<Network, String>)
        ensures
            match network_from_name(s@) {
                Some(n) => r == Ok::<Network, String>(n),
                None => r matches Err(m) && m@ == network_parse_error(s@),
            },
    {
        match bitcoin_network_from_str(s) {
            Some(n) => Ok(n),
            None => Err(crate::text::concat3("failed to parse ", s, " as network")),
        }
    }

    /// Reads a Bitcoin Core chain argument.
    pub fn from_core_arg(s: &str) -> (r: Result<Network, String>)
        ensures
            match network_from_core_arg(s@) {
                Some(n) => r == Ok::<Network, String>(n),
                None => r matches Err(m) && m@ == network_parse_error(s@),
            },
    {
        match bitcoin_network_from_core_arg(s) {
            Some(n) => Ok(n),
            None => Err(crate::text::concat3("failed to parse ", s, " as network")),
        }
    }

    /// The network's display name.
    pub fn name(&self) -> (r: String)
        ensures
            r@ == network_name(*self),
    {
        bitcoin_network_display(*self)
    }
}

/// Whether bit `j` of byte `b` is set.
pub open spec fn bit_set(b: u8, j: int) -> bool {
    (b >> (j as u8)) & 1u8 == 1u8
}

/// Feature `f` is listed.
pub open spec fn lists_feature(features: Seq<u32>, f: int) -> bool {
    exists|k: int| 0 <= k < features.len() && features[k] == f
}

proof fn lemma_or_bit(x: u8, m: u8, j: u8)
    requires
        m < 8,
        j < 8,
    ensures
        ((x | (1u8 << m)) >> j) & 1u8 == 1u8 <==> ((x >> j) & 1u8 == 1u8 || j == m),
{
    assert(((x | (1u8 << m)) >> j) & 1u8 == 1u8 <==> ((x >> j) & 1u8 == 1u8 || j == m))
        by (bit_vector)
        requires
            m < 8,
            j < 8,
    ;
}

proof fn lemma_zero_bits(j: u8)
    requires
        j < 8,
    ensures
        !((0u8 >> j) & 1u8 == 1u8),
{
    assert(!((0u8 >> j) & 1u8 == 1u8)) by (bit_vector);
}

/// Whether feature bit `n` is in the set.
pub open spec fn has_feature(features: Set<u32>, n: int) -> bool {
    0 <= n <= u32::MAX && features.contains(n as u32)
}

/// Feature flags of the right length for a set of features: at least 256
/// bytes, and longer only as far as needed to hold the highest feature.
pub open spec fn flags_sized(flags: Seq<u8>, features: Set<u32>) -> bool {
    &&& flags.len() >= 256
    &&& forall|f: u32| #[trigger] features.contains(f) ==> f / 8 < flags.len()
    &&& flags.len() == 256 || exists|f: u32|
        #[trigger] features.contains(f) && f / 8 + 1 == flags.len()
}

/// The features of a set, as a list.
fn feature_list(features: &HashSet<u32>) -> (list: Vec<u32>)
    ensures
        list@.to_set() == features@,
{
    let ghost keys = features.iter().remaining().unref();
    let mut list: Vec<u32> = Vec::new();
    for f in it: features.iter()
        invariant
            keys == it.seq().unref(),
            keys.to_set() == features@,
            list@ == keys.take(it.index()),
    {
        list.push(*f);
        assert(list@ =~= keys.take(it.index() + 1));
    }
    assert(list@ =~= keys);
    list
}

/// Builds little-endian feature flags from a set of feature bits: at least
/// 256 bytes, grown just enough to hold the highest feature, with bit
/// `f % 8` of byte `f / 8` set exactly for the features `f` of the set.
pub fn parse_node_features(features: HashSet<u32>) -> (flags: Vec<u8>)
    ensures
        flags_sized(flags@, features@),
        forall|i: int, j: int|
            0 <= i < flags@.len() && 0 <= j < 8 ==> (#[trigger] bit_set(flags@[i], j)
                <==> has_feature(features@, i * 8 + j)),
{
    let list = feature_list(&features);
    let flags = flags_from_feature_list(&list);
    proof {
        assert forall|n: int| lists_feature(list@, n) <==> has_feature(features@, n) by {
            if lists_feature(list@, n) {
                let k = choose|k: int| 0 <= k < list@.len() && list@[k] == n;
                assert(list@.to_set().contains(list@[k]));
            }
            if has_feature(features@, n) {
                assert(list@.to_set().contains(n as u32));
                assert(list@.contains(n as u32));
            }
        }
        assert forall|f: u32| #[trigger] features@.contains(f) implies f / 8 < flags@.len() by {
            assert(list@.to_set().contains(f));
            assert(list@.contains(f));
            let k = choose|k: int| 0 <= k < list@.len() && list@[k] == f;
            assert(list@[k] / 8 < flags@.len());
        }
        if flags@.len() != 256 {
            let k = choose|k: int| 0 <= k < list@.len() && #[trigger] list@[k] / 8 + 1 == flags@.len();
            assert(list@.to_set().contains(list@[k]));
            assert(features@.contains(list@[k]));
        }
    }
    flags
}

/// Builds little-endian feature flags from a list of feature bits: at least
/// 256 bytes, grown just enough to hold the highest feature, with bit
/// `f % 8` of byte `f / 8` set exactly for the listed features `f`.
fn flags_from_feature_list(features: &Vec<u32>) -> (flags: Vec<u8>)
    ensures
        flags@.len() >= 256,
        forall|k: int| 0 <= k < features@.len() ==> #[trigger] features@[k] / 8 < flags@.len(),
        flags@.len() == 256 || exists|k: int|
            0 <= k < features@.len() && #[trigger] features@[k] / 8 + 1 == flags@.len(),
        forall|i: int, j: int|
            0 <= i < flags@.len() && 0 <= j < 8 ==> (#[trigger] bit_set(flags@[i], j)
                <==> lists_feature(features@, i * 8 + j)),
{
    let mut flags: Vec<u8> = Vec::new();
    while flags.len() < 256
        invariant
            flags@.len() <= 256,
            forall|i: int| 0 <= i < flags@.len() ==> #[trigger] flags@[i] == 0u8,
        decreases 256 - flags@.len(),
    {
        flags.push(0u8);
    }
    proof {
        assert forall|i: int, j: int|
            0 <= i < flags@.len() && 0 <= j < 8 implies !#[trigger] bit_set(flags@[i], j) by {
            lemma_zero_bits(j as u8);
        }
    }
    let mut k: usize = 0;
    while k < features.len()
        invariant
            k <= features@.len(),
            flags@.len() >= 256,
            forall|q: int| 0 <= q < k ==> #[trigger] features@[q] / 8 < flags@.len(),
            flags@.len() == 256 || exists|q: int|
                0 <= q < k && #[trigger] features@[q] / 8 + 1 == flags@.len(),
            forall|i: int, j: int|
                0 <= i < flags@.len() && 0 <= j < 8 ==> (#[trigger] bit_set(flags@[i], j)
                    <==> exists|q: int| 0 <= q < k && features@[q] == i * 8 + j),
        decreases features@.len() - k,
    {
        let f = features[k];
        let byte: usize = (f / 8) as usize;
        let m: u8 = (f % 8) as u8;
        let ghost before = flags@;
        if flags.len() <= byte {
            while flags.len() <= byte
                invariant
                    before.len() <= flags@.len() <= byte + 1,
                    forall|i: int| 0 <= i < before.len() ==> flags@[i] == before[i],
                    forall|i: int| before.len() <= i < flags@.len() ==> flags@[i] == 0u8,
                decreases byte + 1 - flags@.len(),
            {
                flags.push(0u8);
            }
        }
        let ghost grown = flags@;
        let old_byte = flags[byte];
        flags.set(byte, old_byte | (1u8 << m));
        proof {
            assert forall|i: int, j: int|
                0 <= i < flags@.len() && 0 <= j < 8 implies (#[trigger] bit_set(flags@[i], j)
                <==> exists|q: int| 0 <= q < k + 1 && features@[q] == i * 8 + j) by {
                let was = exists|q: int| 0 <= q < k && features@[q] == i * 8 + j;
                if i < before.len() {
                    assert(grown[i] == before[i]);
                    assert(bit_set(before[i], j) <==> was);
                } else {
                    assert(grown[i] == 0u8);
                    lemma_zero_bits(j as u8);
                    if was {
                        let q = choose|q: int| 0 <= q < k && features@[q] == i * 8 + j;
                        assert(features@[q] / 8 < before.len());
                        assert(false);
                    }
                }
                if i == byte {
                    lemma_or_bit(grown[i], m, j as u8);
                    if j == m {
                        assert(features@[k as int] == i * 8 + j);
                    } else {
                        if exists|q: int| 0 <= q < k + 1 && features@[q] == i * 8 + j {
                            let q = choose|q: int| 0 <= q < k + 1 && features@[q] == i * 8 + j;
                            if q == k {
                                assert(false);
                            }
                        }
                    }
                } else {
                    assert(flags@[i] == grown[i]);
                    if exists|q: int| 0 <= q < k + 1 && features@[q] == i * 8 + j {
                        let q = choose|q: int| 0 <= q < k + 1 && features@[q] == i * 8 + j;
                        if q == k {
                            assert(f / 8 == i);
                            assert(false);
                        }
                    }
                }
            }
            if before.len() <= byte {
                assert(features@[k as int] / 8 + 1 == flags@.len());
            }
        }
        k = k + 1;
    }
    proof {
        assert forall|i: int, j: int|
            0 <= i < flags@.len() && 0 <= j < 8 implies (#[trigger] bit_set(flags@[i], j)
            <==> lists_feature(features@, i * 8 + j)) by {}
    }
    flags
}

/// Little-endian feature flags from big-endian bytes (`Features::from_be_bytes`
/// reverses the bytes).
pub fn features_from_be_bytes(be: &Vec<u8>) -> (flags: Vec<u8>)
    ensures
        flags@ == be@.reverse(),
{
    let mut flags: Vec<u8> = Vec::new();
    let mut i: usize = be.len();
    while i > 0
        invariant
            i <= be@.len(),
            flags@ == be@.reverse().subrange(0, (be@.len() - i) as int),
        decreases i,
    {
        i = i - 1;
        flags.push(be[i]);
        assert(flags@ =~= be@.reverse().subrange(0, (be@.len() - i) as int));
    }
    assert(flags@ =~= be@.reverse());
    flags
}

/// A transaction output reference: the transaction id's 32 bytes (in
/// internal order) and the output index.
#[derive(Debug, Clone)]
pub struct OutPoint {
    pub txid: Vec<u8>,
    pub vout: u32,
}

/// The 32 internal-order bytes of the transaction id written in hex by
/// `text` (`Txid::from_str`), or the message of bitcoin's parse error.
pub uninterp spec fn bitcoin_txid_from_hex(text: Seq<char>) -> Result<Seq<u8>, Seq<char>>;

/// `bitcoin::Txid::from_str` followed by `to_byte_array`. Claims: the result
/// (bytes, or the error's message) is the named value; ids are 32 bytes.
#[verifier::external_body]
fn txid_parse_hex(text: &str) -> (r: Result<Vec<u8>, String>)
    ensures
        match bitcoin_txid_from_hex(text@) {
            Ok(b) => r matches Ok(v) && v@ == b,
            Err(m) => r matches Err(e) && e@ == m,
        },
        r matches Ok(v) ==> v@.len() == 32,
{
    match <bitcoin::Txid as std::str::FromStr>::from_str(text) {
        Ok(t) => Ok(t.to_byte_array().to_vec()),
        Err(e) => Err(e.to_string()),
    }
}

/// Reads a transaction id written in hex, giving its bytes.
pub fn parse_txid(text: &str) -> (r: Result<Vec<u8>, String>)
    ensures
        match bitcoin_txid_from_hex(text@) {
            Ok(b) => r matches Ok(v) && v@ == b && b.len() == 32,
            Err(m) => r matches Err(e) && e@ == m,
        },
{
    txid_parse_hex(text)
}

/// The parts of a `txid:vout` text: everything before the first `:`, and
/// everything between it and the next `:` (or the end).
pub open spec fn first_colon(s: Seq<char>) -> int {
    if s.contains(':') {
        choose|i: int| 0 <= i < s.len() && s[i] == ':' && forall|j: int| 0 <= j < i ==> s[j] != ':'
    } else {
        s.len() as int
    }
}

/// The text up to the first `:`, and the rest after it (`None` without a `:`).
pub open spec fn split_colon(s: Seq<char>) -> (Seq<char>, Option<Seq<char>>) {
    let i = first_colon(s);
    if i < s.len() {
        (s.subrange(0, i), Some(s.subrange(i + 1, s.len() as int)))
    } else {
        (s, None)
    }
}

/// What a channel point text `txid:vout` reads as (`str::split(':')` taking
/// the first two parts), or the message of the validation error.
pub open spec fn spec_channel_point(s: Seq<char>) -> Result<(Seq<u8>, u32), Seq<char>> {
    let (txid_text, rest) = split_colon(s);
    match rest {
        None => Err("Missing vout"@),
        Some(r) => {
            let vout_text = split_colon(r).0;
            match bitcoin_txid_from_hex(txid_text) {
                Err(m) => Err("Invalid txid: "@ + m),
                Ok(t) => match spec_parse_uint(vout_text, u32::MAX as nat) {
                    Err(k) => Err("Invalid vout: "@ + int_error_message(k)),
                    Ok(v) => Ok((t, v as u32)),
                },
            }
        },
    }
}

/// The position of the first `:` at or after `from`, or the end.
fn find_colon(v: &Vec<char>, from: usize) -> (r: usize)
    requires
        from <= v@.len(),
    ensures
        from <= r <= v@.len(),
        r < v@.len() ==> v@[r as int] == ':',
        forall|j: int| from <= j < r ==> v@[j] != ':',
{
    let mut i = from;
    while i < v.len()
        invariant
            from <= i <= v@.len(),
            forall|j: int| from <= j < i ==> v@[j] != ':',
        decreases v@.len() - i,
    {
        if v[i] == ':' {
            return i;
        }
        i = i + 1;
    }
    i
}

proof fn lemma_first_colon(s: Seq<char>, i: int)
    requires
        0 <= i <= s.len(),
        i < s.len() ==> s[i] == ':',
        forall|j: int| 0 <= j < i ==> s[j] != ':',
    ensures
        first_colon(s) == i,
{
    if s.contains(':') {
        let k = choose|k: int| 0 <= k < s.len() && s[k] == ':' && forall|j: int| 0 <= j < k ==> s[j] != ':';
        if i < s.len() {
            assert(0 <= i < s.len() && s[i] == ':' && forall|j: int| 0 <= j < i ==> s[j] != ':');
            if k < i {
                assert(s[k] != ':');
            }
            if i < k {
                assert(s[i] != ':');
            }
        } else {
            let w = choose|w: int| 0 <= w < s.len() && s[w] == ':';
            assert(s[w] != ':');
        }
    }
}

fn sub_string(v: &Vec<char>, from: usize, to: usize) -> (r: String)
    requires
        from <= to <= v@.len(),
    ensures
        r@ == v@.subrange(from as int, to as int),
{
    let mut s = String::new();
    let mut i = from;
    while i < to
        invariant
            from <= i <= to,
            to <= v@.len(),
            s@ == v@.subrange(from as int, i as int),
        decreases to - i,
    {
        crate::text::push_char(&mut s, v[i]);
        i = i + 1;
        assert(s@ =~= v@.subrange(from as int, i as int));
    }
    s
}

/// Splits a text at its first `:` and the rest at its next `:`.
fn split_channel_point(text: &str) -> (r: (String, Option<String>))
    ensures
        r.0@ == split_colon(text@).0,
        match split_colon(text@).1 {
            None => r.1 is None,
            Some(rest) => r.1 matches Some(v) && v@ == split_colon(rest).0,
        },
{
    let v = chars_of(text);
    let i = find_colon(&v, 0);
    proof {
        lemma_first_colon(v@, i as int);
    }
    let first = sub_string(&v, 0, i);
    if i == v.len() {
        return (first, None);
    }
    let k = find_colon(&v, i + 1);
    let ghost rest = v@.subrange(i + 1, v@.len() as int);
    proof {
        assert forall|j: int| 0 <= j < k - i - 1 implies rest[j] != ':' by {
            assert(rest[j] == v@[i + 1 + j]);
        }
        if k < v.len() {
            assert(rest[k - i - 1] == v@[k as int]);
        }
        lemma_first_colon(rest, k - i - 1);
        assert(rest.subrange(0, k - i - 1) =~= v@.subrange(i + 1, k as int));
        if k - i - 1 >= rest.len() {
            assert(rest =~= v@.subrange(i + 1, k as int));
        }
    }
    let second = sub_string(&v, i + 1, k);
    (first, Some(second))
}

/// Reads a channel point written `txid:vout` (anything after a second
/// colon is ignored). Every failure is a validation error that says which
/// part is wrong.
pub fn parse_channel_point(channel_point_str: &str) -> (r: Result<OutPoint, LightningError>)
    ensures
        match spec_channel_point(channel_point_str@) {
            Ok((t, v)) => r matches Ok(o) && o.txid@ == t && o.vout == v,
            Err(m) => r matches Err(LightningError::ValidationError(e)) && e@ == m,
        },
{
    let (txid_text, vout_part) = split_channel_point(channel_point_str);
    let vout_text = match vout_part {
        Some(t) => t,
        None => {
            return Err(LightningError::ValidationError(owned("Missing vout")));
        },
    };
    let txid = match parse_txid(txid_text.as_str()) {
        Ok(t) => t,
        Err(m) => {
            return Err(LightningError::ValidationError(concat2("Invalid txid: ", m.as_str())));
        },
    };
    match parse_unsigned(vout_text.as_str(), u32::MAX as u64) {
        Ok(vout) => Ok(OutPoint { txid, vout: vout as u32 }),
        Err(kind) => {
            let m = kind.message();
            Err(LightningError::ValidationError(concat2("Invalid vout: ", m.as_str())))
        },
    }
}

/// The address of a node's RPC endpoint as given: kept when it names
/// `http://` or `https://`, else read as `https://` followed by it.
pub open spec fn normalized_address(s: Seq<char>) -> Seq<char> {
    if has_prefix(s, "https://"@) || has_prefix(s, "http://"@) {
        s
    } else {
        "https://"@ + s
    }
}

/// Normalizes the address of a node's RPC endpoint (see
/// `normalized_address`).
pub fn normalize_address(s: &str) -> (r: String)
    ensures
        r@ == normalized_address(s@),
{
    if starts_with(s, "https://") || starts_with(s, "http://") {
        owned(s)
    } else {
        concat2("https://", s)
    }
}

/// The node id a text names: the key it writes in hex, if it writes one,
/// else an alias.
pub fn node_id_from_text(s: &str) -> (r: NodeId)
    ensures
        match secp256k1_pubkey_from_hex(s@) {
            Some(k) => r matches NodeId::PublicKey(pk) && pk@ == k,
            None => r matches NodeId::Alias(a) && a@ == s@,
        },
{
    match PubKey::from_hex(s) {
        Some(k) => NodeId::PublicKey(k),
        None => NodeId::Alias(owned(s)),
    }
}

/// Reading the name of a network gives that network back.
pub proof fn law_network_name_round_trip(n: Network)
    ensures
        network_from_name(network_name(n)) == Some(n),
{
    reveal_strlit("bitcoin");
    reveal_strlit("testnet");
    reveal_strlit("testnet4");
    reveal_strlit("signet");
    reveal_strlit("regtest");
    let b = "bitcoin"@;
    let t = "testnet"@;
    let t4 = "testnet4"@;
    let g = "signet"@;
    let r = "regtest"@;
    assert(b[0] != t[0] && b[0] != g[0] && b[0] != r[0]);
    assert(t.len() != t4.len() && t[0] != g[0] && t[0] != r[0]);
    assert(t4[0] != g[0] && t4[0] != r[0]);
    assert(g[0] != r[0]);
}

} // verus!
