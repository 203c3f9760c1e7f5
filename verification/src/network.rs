//! Network identifiers and the endpoints that transactions are sent to.
//!
//! A network is known by its four magic bytes and by nothing else. The table
//! of known networks is looked up by comparing those bytes one by one, so
//! that a network which general bitcoin tooling has never heard of stands in
//! it as a peer of the standard ones.

use vstd::prelude::*;

use crate::hex;

verus! {

/// Magic bytes of the bitcoin main network.
pub const MAINNET_MAGIC: [u8; 4] = [0xf9, 0xbe, 0xb4, 0xd9];

/// Magic bytes of the public test network.
pub const TESTNET_MAGIC: [u8; 4] = [0x0b, 0x11, 0x09, 0x07];

/// Magic bytes of the public signet.
pub const SIGNET_MAGIC: [u8; 4] = [0x0a, 0x03, 0xcf, 0x40];

/// Magic bytes of Mutinynet, a community test network.
pub const MUTINYNET_MAGIC: [u8; 4] = [0xa5, 0xdf, 0x2d, 0xcb];

/// The four magic bytes that tell one transaction network from another.
/// They are an opaque name, not a number.
#[derive(Clone, Copy, Debug)]
pub struct NetworkId {
    pub magic: [u8; 4],
}

impl View for NetworkId {
    type V = Seq<u8>;

    open spec fn view(&self) -> Seq<u8> {
        self.magic@
    }
}

impl PartialEq for NetworkId {
    fn eq(&self, other: &Self) -> (same: bool) {
        let same = self.magic[0] == other.magic[0] && self.magic[1] == other.magic[1]
            && self.magic[2] == other.magic[2] && self.magic[3] == other.magic[3];
        assert(same == (self.magic@ =~= other.magic@));
        same
    }
}

impl Eq for NetworkId {

}

impl vstd::std_specs::cmp::PartialEqSpecImpl for NetworkId {
    open spec fn obeys_eq_spec() -> bool {
        true
    }

    open spec fn eq_spec(&self, other: &Self) -> bool {
        self@ == other@
    }
}

/// A network identifier that the table of known networks does not hold.
#[derive(Clone, Copy, Debug, PartialEq, Eq)]
pub struct Unsupported {
    /// The magic bytes that were looked up.
    pub magic: NetworkId,
}

/// The networks that this relay can deliver to.
#[derive(Clone, Copy, Debug, PartialEq, Eq, Structural)]
pub enum Network {
    Mainnet,
    Testnet,
    Signet,
    Mutinynet,
}

/// The magic bytes of a known network.
pub open spec fn magic_of(network: Network) -> Seq<u8> {
    match network {
        Network::Mainnet => MAINNET_MAGIC@,
        Network::Testnet => TESTNET_MAGIC@,
        Network::Signet => SIGNET_MAGIC@,
        Network::Mutinynet => MUTINYNET_MAGIC@,
    }
}

/// The known network with the given magic bytes, if there is one.
pub open spec fn known_network(magic: Seq<u8>) -> Option<Network> {
    if magic == magic_of(Network::Mainnet) {
        Some(Network::Mainnet)
    } else if magic == magic_of(Network::Testnet) {
        Some(Network::Testnet)
    } else if magic == magic_of(Network::Signet) {
        Some(Network::Signet)
    } else if magic == magic_of(Network::Mutinynet) {
        Some(Network::Mutinynet)
    } else {
        None
    }
}

/// The address that transactions for a known network are posted to.
pub open spec fn endpoint_of(network: Network) -> Seq<char> {
    match network {
        Network::Mainnet => "https://mempool.space/api/tx"@,
        Network::Testnet => "https://mempool.space/testnet/api/tx"@,
        Network::Signet => "https://mempool.space/signet/api/tx"@,
        Network::Mutinynet => "https://mutinynet.com/api/tx"@,
    }
}

/// The magic bytes that a text stands for: eight hexadecimal digits, in
/// either case, give four bytes; any other text gives nothing.
pub open spec fn parse_magic(text: Seq<char>) -> Option<Seq<u8>> {
    if text.len() == 8 && hex::is_hex(text) {
        Some(hex::hex_bytes(text))
    } else {
        None
    }
}

/// Every known network is found under its own magic bytes.
pub proof fn lemma_table_is_exact(network: Network)
    ensures
        magic_of(network).len() == 4,
        known_network(magic_of(network)) == Some(network),
{
}

/// No two known networks share their magic bytes, and no two share an
/// endpoint: the community network is found under its own magic bytes and
/// sent to its own address.
pub proof fn lemma_networks_differ(a: Network, b: Network)
    requires
        a != b,
    ensures
        endpoint_of(a) != endpoint_of(b),
        magic_of(a) != magic_of(b),
{
    reveal_strlit("https://mempool.space/api/tx");
    reveal_strlit("https://mempool.space/testnet/api/tx");
    reveal_strlit("https://mempool.space/signet/api/tx");
    reveal_strlit("https://mutinynet.com/api/tx");
    assert(endpoint_of(Network::Testnet).len() == 36);
    assert(endpoint_of(Network::Signet).len() == 35);
    assert(endpoint_of(Network::Mutinynet)[9] == 'u');
    lemma_table_is_exact(a);
    lemma_table_is_exact(b);
}

/// Magic bytes that belong to no known network are not resolved, whatever
/// they are.
pub proof fn lemma_unlisted_is_unknown(magic: Seq<u8>)
    requires
        forall|network: Network| magic != #[trigger] magic_of(network),
    ensures
        known_network(magic) is None,
{
}

impl Network {
    /// The identifier of this network.
    pub fn id(self) -> (id: NetworkId)
        ensures
            id@ == magic_of(self),
    {
        match self {
            Network::Mainnet => NetworkId { magic: MAINNET_MAGIC },
            Network::Testnet => NetworkId { magic: TESTNET_MAGIC },
            Network::Signet => NetworkId { magic: SIGNET_MAGIC },
            Network::Mutinynet => NetworkId { magic: MUTINYNET_MAGIC },
        }
    }

    /// The address that transactions for this network are posted to.
    pub fn endpoint(self) -> (url: &'static str)
        ensures
            url@ == endpoint_of(self),
    {
        match self {
            Network::Mainnet => "https://mempool.space/api/tx",
            Network::Testnet => "https://mempool.space/testnet/api/tx",
            Network::Signet => "https://mempool.space/signet/api/tx",
            Network::Mutinynet => "https://mutinynet.com/api/tx",
        }
    }
}

impl NetworkId {
    /// The identifier with the given magic bytes.
    pub fn from_bytes(magic: [u8; 4]) -> (id: NetworkId)
        ensures
            id@ == magic@,
    {
        NetworkId { magic }
    }

    /// The magic bytes.
    pub fn to_bytes(&self) -> (magic: [u8; 4])
        ensures
            magic@ == self@,
    {
        self.magic
    }

    /// Reads an identifier from the value of a network tag: eight
    /// hexadecimal digits in either case.
    pub fn parse(text: &str) -> (r: Option<NetworkId>)
        ensures
            match r {
                Some(id) => parse_magic(text@) == Some(id@),
                None => parse_magic(text@) is None,
            },
    {
        match hex::decode_any_case(text) {
            Some(bytes) => {
                if bytes.len() == 4 {
                    let id = NetworkId { magic: [bytes[0], bytes[1], bytes[2], bytes[3]] };
                    Some(id)
                } else {
                    None
                }
            },
            None => None,
        }
    }

    /// The value of a network tag for this identifier: eight lower-case
    /// hexadecimal digits.
    pub fn to_hex(&self) -> (text: String)
        ensures
            text@ == hex::hex_text(self@),
    {
        hex::encode(self.magic.as_slice())
    }

    /// Looks the identifier up in the table of known networks.
    pub fn classify(&self) -> (r: Option<Network>)
        ensures
            r == known_network(self@),
    {
        if *self == Network::Mainnet.id() {
            Some(Network::Mainnet)
        } else if *self == Network::Testnet.id() {
            Some(Network::Testnet)
        } else if *self == Network::Signet.id() {
            Some(Network::Signet)
        } else if *self == Network::Mutinynet.id() {
            Some(Network::Mutinynet)
        } else {
            None
        }
    }

    /// The address that transactions for this network are posted to, or the
    /// identifier itself where the network is not a known one. A network
    /// in the table gets the endpoint that the table gives it; magic bytes
    /// that the table lacks get no endpoint at all, neither a default nor
    /// that of a network that looks alike.
    pub fn resolve(&self) -> (r: Result<&'static str, Unsupported>)
        ensures
            match known_network(self@) {
                Some(network) => r matches Ok(url) && url@ == endpoint_of(network),
                None => r matches Err(e) && e.magic@ == self@,
            },
            forall|network: Network|
                self@ == #[trigger] magic_of(network) ==> (r matches Ok(url) && url@
                    == endpoint_of(network)),
            (forall|network: Network| self@ != #[trigger] magic_of(network)) ==> (r matches Err(e)
                && e.magic@ == self@),
    {
        proof {
            assert forall|network: Network| self@ == #[trigger] magic_of(network) implies
                known_network(self@) == Some(network) by {
                lemma_table_is_exact(network);
            }
            if forall|network: Network| self@ != #[trigger] magic_of(network) {
                lemma_unlisted_is_unknown(self@);
            }
        }
        match self.classify() {
            Some(network) => Ok(network.endpoint()),
            None => Err(Unsupported { magic: *self }),
        }
    }
}

impl Unsupported {
    /// What to tell the operator: the magic bytes, in hexadecimal, and that
    /// they are unknown.
    pub fn message(&self) -> (text: String)
        ensures
            text@ == "Magic: "@ + hex::hex_text(self.magic@) + " is unknown"@,
    {
        let mut text = String::from_str("Magic: ");
        let magic = self.magic.to_hex();
        text.append(magic.as_str());
        text.append(" is unknown");
        text
    }
}

} // verus!
