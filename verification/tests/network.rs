use std::str::FromStr;

use bitcoin::network::Magic;
use tx_relay::network::{
    Network, NetworkId, Unsupported, MAINNET_MAGIC, MUTINYNET_MAGIC, SIGNET_MAGIC, TESTNET_MAGIC,
};

const REGTEST_MAGIC: [u8; 4] = [0xfa, 0xbf, 0xb5, 0xda];

#[test]
fn standard_magics_are_those_of_the_bitcoin_crate() {
    assert_eq!(MAINNET_MAGIC, Magic::BITCOIN.to_bytes());
    assert_eq!(TESTNET_MAGIC, Magic::TESTNET.to_bytes());
    assert_eq!(SIGNET_MAGIC, Magic::SIGNET.to_bytes());
    assert_eq!(REGTEST_MAGIC, Magic::REGTEST.to_bytes());
    assert_eq!(MUTINYNET_MAGIC, [0xa5, 0xdf, 0x2d, 0xcb]);
}

#[test]
fn identifiers_keep_their_bytes() {
    let id = NetworkId::from_bytes([1, 2, 3, 4]);
    assert_eq!(id.to_bytes(), [1, 2, 3, 4]);
    assert_eq!(id, NetworkId { magic: [1, 2, 3, 4] });
    assert_ne!(id, NetworkId { magic: [1, 2, 3, 5] });
    assert_ne!(id, NetworkId { magic: [0, 2, 3, 4] });
    assert_eq!(Network::Mainnet.id().to_bytes(), MAINNET_MAGIC);
    assert_eq!(Network::Testnet.id().to_bytes(), TESTNET_MAGIC);
    assert_eq!(Network::Signet.id().to_bytes(), SIGNET_MAGIC);
    assert_eq!(Network::Mutinynet.id().to_bytes(), MUTINYNET_MAGIC);
}

#[test]
fn resolve_finds_every_known_network() {
    assert_eq!(NetworkId::from_bytes(MAINNET_MAGIC).resolve(), Ok("https://mempool.space/api/tx"));
    assert_eq!(
        NetworkId::from_bytes(TESTNET_MAGIC).resolve(),
        Ok("https://mempool.space/testnet/api/tx")
    );
    assert_eq!(
        NetworkId::from_bytes(SIGNET_MAGIC).resolve(),
        Ok("https://mempool.space/signet/api/tx")
    );
    assert_eq!(NetworkId::from_bytes(MUTINYNET_MAGIC).resolve(), Ok("https://mutinynet.com/api/tx"));
}

#[test]
fn resolve_gives_the_community_network_its_own_endpoint() {
    let id = NetworkId::from_bytes([0xa5, 0xdf, 0x2d, 0xcb]);
    assert!(bitcoin::Network::from_magic(Magic::from_bytes(id.to_bytes())).is_none());
    assert_eq!(id.classify(), Some(Network::Mutinynet));
    let url = id.resolve().unwrap();
    assert_eq!(url, "https://mutinynet.com/api/tx");
    assert_eq!(url, Network::Mutinynet.endpoint());
    for standard in [Network::Mainnet, Network::Testnet, Network::Signet] {
        assert_ne!(url, standard.endpoint());
    }
}

#[test]
fn resolve_turns_down_what_the_table_lacks() {
    for magic in [REGTEST_MAGIC, [0, 0, 0, 0], [0xff; 4], [0xf9, 0xbe, 0xb4, 0xd8], [0xd9, 0xb4, 0xbe, 0xf9]] {
        let id = NetworkId::from_bytes(magic);
        assert_eq!(id.classify(), None);
        assert_eq!(id.resolve(), Err(Unsupported { magic: id }));
    }
}

#[test]
fn unsupported_names_the_magic() {
    let e = NetworkId::from_bytes(REGTEST_MAGIC).resolve().unwrap_err();
    assert_eq!(e.magic.to_bytes(), REGTEST_MAGIC);
    assert_eq!(e.message(), "Magic: fabfb5da is unknown");
    assert_eq!(e.message(), format!("Magic: {} is unknown", Magic::REGTEST));
}

#[test]
fn parse_reads_eight_digits() {
    assert_eq!(NetworkId::parse("f9beb4d9"), Some(NetworkId::from_bytes(MAINNET_MAGIC)));
    assert_eq!(NetworkId::parse("a5df2dcb"), Some(NetworkId::from_bytes(MUTINYNET_MAGIC)));
    assert_eq!(NetworkId::parse("00000000"), Some(NetworkId::from_bytes([0; 4])));
    assert_eq!(NetworkId::parse("F9BEB4D9"), Some(NetworkId::from_bytes(MAINNET_MAGIC)));
    assert_eq!(NetworkId::parse("f9BeB4d9"), Some(NetworkId::from_bytes(MAINNET_MAGIC)));
}

#[test]
fn parse_refuses_anything_else() {
    for text in ["", "f9beb4", "f9beb4d", "f9beb4d90", "f9beb4d900", "f9beb4dg", "0xf9beb4d9", "f9 beb4d9", "é9beb4d", "mainnet"] {
        assert_eq!(NetworkId::parse(text), None, "{text:?}");
    }
}

#[test]
fn parse_reads_what_the_bitcoin_crate_reads() {
    let samples = [
        "f9beb4d9", "F9BEB4D9", "0b110907", "0a03cf40", "a5df2dcb", "fabfb5da", "", "f9", "f9beb4d",
        "f9beb4d9d9", "g9beb4d9", "é9beb4d", "éééé", "0x0b1109", "+1234567", "1234567 ",
    ];
    for sample in samples {
        let theirs = Magic::from_str(sample).ok().map(|m| m.to_bytes());
        assert_eq!(NetworkId::parse(sample).map(|id| id.to_bytes()), theirs, "{sample:?}");
    }
}

#[test]
fn to_hex_writes_what_the_bitcoin_crate_writes() {
    for magic in [MAINNET_MAGIC, TESTNET_MAGIC, SIGNET_MAGIC, MUTINYNET_MAGIC, REGTEST_MAGIC, [0, 1, 0xa0, 0xff]] {
        let id = NetworkId::from_bytes(magic);
        assert_eq!(id.to_hex(), Magic::from_bytes(magic).to_string());
        assert_eq!(NetworkId::parse(&id.to_hex()), Some(id));
    }
    assert_eq!(NetworkId::from_bytes(MAINNET_MAGIC).to_hex(), "f9beb4d9");
    assert_eq!(bitcoin::Network::Bitcoin.magic().to_string(), "f9beb4d9");
}
