//! Kaspa addresses: the x-only public key of a private key, encoded for a
//! network.

use vstd::prelude::*;
use crate::keys::{valid_secret_key, PrivateKey};

verus! {

/// The networks for which addresses are encoded.
#[derive(Clone, Copy, Debug, PartialEq, Eq, Structural)]
pub enum Network {
    Mainnet,
    Testnet,
}

/// The version byte of an address whose payload is an x-only public key.
pub const PUBKEY_VERSION: u8 = 0;

/// The x-only form (even-y convention) of the public key that `secp256k1`
/// computes for a usable secret key.
pub uninterp spec fn secp256k1_x_only_public_key(secret: Seq<u8>) -> Seq<u8>;

/// The checksummed base-32 text after the colon in the address that
/// `kaspa_addresses` writes for a prefix, a version byte and a payload.
pub uninterp spec fn kaspa_address_payload(prefix: Seq<char>, version: u8, payload: Seq<u8>) -> Seq<char>;

/// The prefix of a network's addresses.
pub open spec fn network_prefix(network: Network) -> Seq<char> {
    match network {
        Network::Mainnet => seq!['k', 'a', 's', 'p', 'a'],
        Network::Testnet => seq!['k', 'a', 's', 'p', 'a', 't', 'e', 's', 't'],
    }
}

/// The text of the address of an x-only public key on a network: the
/// network's prefix, a colon, and the encoded version and payload.
pub open spec fn address_text(network: Network, payload: Seq<u8>) -> Seq<char> {
    network_prefix(network) + seq![':'] + kaspa_address_payload(
        network_prefix(network),
        PUBKEY_VERSION,
        payload,
    )
}

/// The alphabet of the text after the colon.
pub open spec fn address_charset() -> Seq<char> {
    seq![
        'q', 'p', 'z', 'r', 'y', '9', 'x', '8', 'g', 'f', '2', 't', 'v', 'd', 'w', '0',
        's', '3', 'j', 'n', '5', '4', 'k', 'h', 'c', 'e', '6', 'm', 'u', 'a', '7', 'l',
    ]
}

/// The number of characters after the colon in the address of an x-only
/// public key: 53 for the version byte and the 32 bytes of the key, five bits
/// each, and 8 for the checksum.
pub const ADDRESS_PAYLOAD_CHARS: usize = 61;

/// Whether `text` has the form of an address of `network`: the network's
/// prefix, a colon, and 61 characters of the address alphabet.
pub open spec fn address_shape(text: Seq<char>, network: Network) -> bool {
    let prefix = network_prefix(network);
    &&& text.len() == prefix.len() + 1 + ADDRESS_PAYLOAD_CHARS
    &&& text.subrange(0, prefix.len() as int) == prefix
    &&& text[prefix.len() as int] == ':'
    &&& forall|i: int| prefix.len() < i < text.len() ==> address_charset().contains(#[trigger] text[i])
}

/// Turns the secret bytes into a `SecretKey` of `secp256k1`, computes its
/// public key with `PublicKey::from_secret_key_global`, reduces it with
/// `x_only_public_key` and serializes the result. Trusted to return the
/// bytes that [`secp256k1_x_only_public_key`] names.
#[verifier::external_body]
fn x_only_public_key(secret: &[u8; 32]) -> (r: [u8; 32])
    requires
        valid_secret_key(secret@),
    ensures
        r@ == secp256k1_x_only_public_key(secret@),
{
    let secret_key = secp256k1::SecretKey::from_slice(secret).unwrap();
    let public_key = secp256k1::PublicKey::from_secret_key_global(&secret_key);
    public_key.x_only_public_key().0.serialize()
}

/// Builds the `Address` of `kaspa_addresses` for the network with the
/// public-key version and calls its `address_to_string`. Trusted to return
/// the network's prefix, a colon and the text that
/// [`kaspa_address_payload`] names, and that this text has 61 characters,
/// all of the address alphabet.
#[verifier::external_body]
fn encode_address(network: Network, payload: &[u8; 32]) -> (r: String)
    ensures
        r@ == network_prefix(network) + seq![':'] + kaspa_address_payload(
            network_prefix(network),
            PUBKEY_VERSION,
            payload@,
        ),
        r@.len() == network_prefix(network).len() + 1 + ADDRESS_PAYLOAD_CHARS,
        forall|i: int|
            network_prefix(network).len() < i < r@.len() ==> address_charset().contains(
                #[trigger] r@[i],
            ),
{
    let prefix = match network {
        Network::Mainnet => kaspa_addresses::Prefix::Mainnet,
        Network::Testnet => kaspa_addresses::Prefix::Testnet,
    };
    kaspa_addresses::Address::new(
        prefix,
        kaspa_addresses::Version::PubKey,
        payload,
    ).address_to_string()
}

impl Network {
    /// The prefix of this network's addresses.
    pub fn prefix(&self) -> (r: &'static str)
        ensures
            r@ == network_prefix(*self),
    {
        match self {
            Network::Mainnet => {
                proof {
                    reveal_strlit("kaspa");
                }
                "kaspa"
            },
            Network::Testnet => {
                proof {
                    reveal_strlit("kaspatest");
                }
                "kaspatest"
            },
        }
    }
}

/// An address: the network it belongs to and the x-only public key it pays to.
#[derive(Clone, Copy, Debug)]
pub struct Address {
    pub prefix: Network,
    pub payload: [u8; 32],
}

/// What an address holds.
pub struct AddressView {
    pub prefix: Network,
    pub payload: Seq<u8>,
}

impl View for Address {
    type V = AddressView;

    open spec fn view(&self) -> AddressView {
        AddressView { prefix: self.prefix, payload: self.payload@ }
    }
}

impl Address {
    /// The address as text: prefix, colon, checksummed base-32 payload.
    pub fn address_to_string(&self) -> (text: String)
        ensures
            text@ == address_text(self@.prefix, self@.payload),
            address_shape(text@, self@.prefix),
    {
        let text = encode_address(self.prefix, &self.payload);
        assert(text@.subrange(0, network_prefix(self.prefix).len() as int) =~= network_prefix(
            self.prefix,
        ));
        text
    }
}

/// The address of `private_key` on the network `prefix`: its payload is the
/// x-only public key of the private key.
pub fn address_from_private_key(private_key: &PrivateKey, prefix: Network) -> (address: Address)
    ensures
        address@.prefix == prefix,
        address@.payload == secp256k1_x_only_public_key(private_key@),
{
    let secret = private_key.secret_bytes();
    Address { prefix, payload: x_only_public_key(&secret) }
}

/// The two networks never share an address: the text differs whatever the
/// payloads are, because the prefixes differ before the colon.
pub proof fn lemma_networks_have_distinct_addresses(mainnet: Seq<u8>, testnet: Seq<u8>)
    ensures
        address_text(Network::Mainnet, mainnet) != address_text(Network::Testnet, testnet),
{
    assert(address_text(Network::Testnet, testnet)[5] == 't');
}

/// Every address starts with its network's prefix and a colon.
pub proof fn lemma_address_starts_with_prefix(network: Network, payload: Seq<u8>)
    ensures
        network_prefix(network).len() < address_text(network, payload).len(),
        address_text(network, payload).subrange(0, network_prefix(network).len() as int)
            == network_prefix(network),
        address_text(network, payload)[network_prefix(network).len() as int] == ':',
{
}

} // verus!
