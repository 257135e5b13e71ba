use kderive::address::{address_from_private_key, Address, Network};
use kderive::keys::PrivateKey;

fn hex(bytes: &[u8]) -> String {
    let mut s = String::new();
    for b in bytes {
        s.push_str(&format!("{:02x}", b));
    }
    s
}

fn key_of(last: u8) -> PrivateKey {
    let mut bytes = [0u8; 32];
    bytes[31] = last;
    PrivateKey::from_bytes(bytes).unwrap()
}

#[test]
fn network_prefixes() {
    assert_eq!(Network::Mainnet.prefix(), "kaspa");
    assert_eq!(Network::Testnet.prefix(), "kaspatest");
}

#[test]
fn payload_is_the_x_only_public_key() {
    let address = address_from_private_key(&key_of(1), Network::Mainnet);
    assert_eq!(address.prefix, Network::Mainnet);
    assert_eq!(hex(&address.payload), "79be667ef9dcbbac55a06295ce870b07029bfcdb2dce28d959f2815b16f81798");
    let address = address_from_private_key(&key_of(2), Network::Testnet);
    assert_eq!(address.prefix, Network::Testnet);
    assert_eq!(hex(&address.payload), "c6047f9441ed7d6d3045406e95c07cd85c778e4b8cef3ca7abac09b95c709ee5");
    let address = address_from_private_key(&key_of(3), Network::Mainnet);
    assert_eq!(hex(&address.payload), "f9308a019258c31049344f85f89d5229b531c845836f99b08601f113bce036f9");
}

#[test]
fn address_text_of_known_keys() {
    let key = key_of(1);
    assert_eq!(
        address_from_private_key(&key, Network::Mainnet).address_to_string(),
        "kaspa:qpumuen7l8wthtz45p3ftn58pvrs9xlumvkuu2xet8egzkcklqtes4ypce9sf"
    );
    assert_eq!(
        address_from_private_key(&key, Network::Testnet).address_to_string(),
        "kaspatest:qpumuen7l8wthtz45p3ftn58pvrs9xlumvkuu2xet8egzkcklqtes5z8rkmpd"
    );
}

#[test]
fn address_text_of_known_payloads() {
    let zero = Address { prefix: Network::Mainnet, payload: [0u8; 32] };
    assert_eq!(zero.address_to_string(), "kaspa:qqqqqqqqqqqqqqqqqqqqqqqqqqqqqqqqqqqqqqqqqqqqqqqqqqqqqkx9awp4e");
    let zero = Address { prefix: Network::Testnet, payload: [0u8; 32] };
    assert_eq!(
        zero.address_to_string(),
        String::from(&kaspa_addresses::Address::new(kaspa_addresses::Prefix::Testnet, kaspa_addresses::Version::PubKey, &[0u8; 32]))
    );
}

#[test]
fn mainnet_and_testnet_addresses_differ() {
    for last in [1u8, 2, 3, 77, 255] {
        let key = key_of(last);
        let mainnet = address_from_private_key(&key, Network::Mainnet);
        let testnet = address_from_private_key(&key, Network::Testnet);
        assert_eq!(mainnet.payload, testnet.payload);
        assert_ne!(mainnet.address_to_string(), testnet.address_to_string());
    }
}

#[test]
fn addresses_pass_the_checksum_under_their_prefix() {
    for last in [1u8, 2, 3, 77, 255] {
        let key = key_of(last);
        for (network, prefix, outside) in [
            (Network::Mainnet, "kaspa:", kaspa_addresses::Prefix::Mainnet),
            (Network::Testnet, "kaspatest:", kaspa_addresses::Prefix::Testnet),
        ] {
            let address = address_from_private_key(&key, network);
            let text = address.address_to_string();
            assert!(text.starts_with(prefix));
            assert_eq!(text.len(), prefix.len() + 61);
            let decoded = kaspa_addresses::Address::try_from(text.as_str()).unwrap();
            assert_eq!(decoded.prefix, outside);
            assert_eq!(decoded.version, kaspa_addresses::Version::PubKey);
            assert_eq!(decoded.payload.as_slice(), &address.payload[..]);
        }
    }
}

#[test]
fn an_address_is_refused_under_the_other_prefix() {
    let text = address_from_private_key(&key_of(9), Network::Mainnet).address_to_string();
    let swapped = text.replacen("kaspa:", "kaspatest:", 1);
    assert!(kaspa_addresses::Address::try_from(swapped.as_str()).is_err());
}
