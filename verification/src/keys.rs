//! Private keys and BIP32 extended keys: the master key of a seed and the
//! children below it.

use vstd::prelude::*;
use crate::error::KeyFailure;
use crate::mnemonic::Seed;
use crate::path::{address_path, address_path_numbers, path_numbers, PathSegment};

verus! {

/// The order of the secp256k1 group.
pub open spec fn secp256k1_order() -> nat {
    0xFFFF_FFFF_FFFF_FFFF_FFFF_FFFF_FFFF_FFFE_BAAE_DCE6_AF48_A03B_BFD2_5E8C_D036_4141nat
}

/// The number that `bytes` spell, most significant byte first.
pub open spec fn be_value(bytes: Seq<u8>) -> nat
    decreases bytes.len(),
{
    if bytes.len() == 0 {
        0
    } else {
        be_value(bytes.drop_last()) * 256 + bytes.last() as nat
    }
}

/// Whether `bytes` are a usable secp256k1 secret key: 32 bytes spelling a
/// number that is neither zero nor at or above the group order.
pub open spec fn valid_secret_key(bytes: Seq<u8>) -> bool {
    &&& bytes.len() == 32
    &&& 0 < be_value(bytes) < secp256k1_order()
}

/// Private key and chain code of the master key that
/// `ExtendedPrivateKey::new` of `kaspa_bip32` computes from a seed of
/// supported length; `None` where the computed key is not usable.
pub uninterp spec fn bip32_master(seed: Seq<u8>) -> Option<(Seq<u8>, Seq<u8>)>;

/// Private key and chain code of the child that
/// `ExtendedPrivateKey::derive_child` of `kaspa_bip32` computes from the
/// parent's private key, its chain code and the child number, together with
/// the fingerprint of the parent; `None` where the computed key is not usable.
pub uninterp spec fn bip32_child(private_key: Seq<u8>, chain_code: Seq<u8>, number: u32) -> Option<
    (Seq<u8>, Seq<u8>, Seq<u8>),
>;

/// Whether master key generation accepts a seed of `len` bytes.
pub open spec fn seed_length_ok(len: nat) -> bool {
    len == 16 || len == 32 || len == 64
}

/// The parts of an extended key as the outside crate hands them out: private
/// key, chain code, depth, child number and parent fingerprint.
type KeyParts = ([u8; 32], [u8; 32], u8, u32, [u8; 4]);

/// Calls `SecretKey::from_slice` of `secp256k1` and reports whether the bytes
/// were accepted; trusted to accept exactly the keys that
/// [`valid_secret_key`] describes.
#[verifier::external_body]
fn secret_key_accepted(bytes: &[u8; 32]) -> (r: bool)
    ensures
        r == valid_secret_key(bytes@),
{
    secp256k1::SecretKey::from_slice(bytes).is_ok()
}

/// Calls `ExtendedPrivateKey::new` of `kaspa_bip32` on the seed and hands out
/// the parts of the master key: private key, chain code, depth, child number
/// and parent fingerprint. Trusted: a seed of unsupported length is refused;
/// otherwise key and chain code are those that [`bip32_master`] names, the
/// key is usable, and the other parts are zero.
#[verifier::external_body]
fn master_parts(seed: &Vec<u8>) -> (r: Result<KeyParts, kaspa_bip32::Error>)
    ensures
        r is Ok <==> (seed_length_ok(seed@.len()) && bip32_master(seed@) is Some),
        r matches Ok(parts) ==> (parts.0@, parts.1@) == bip32_master(seed@)->0,
        r matches Ok(parts) ==> valid_secret_key(parts.0@),
        r matches Ok(parts) ==> (parts.2 == 0 && parts.3 == 0),
        r matches Ok(parts) ==> parts.4@ == seq![0u8, 0u8, 0u8, 0u8],
{
    let master = kaspa_bip32::ExtendedPrivateKey::<kaspa_bip32::SecretKey>::new(seed)?;
    let attrs = master.attrs();
    Ok(
        (
            master.to_bytes(),
            attrs.chain_code,
            attrs.depth,
            attrs.child_number.0,
            attrs.parent_fingerprint,
        ),
    )
}

/// Rebuilds the parent as an `ExtendedPrivateKey` of `kaspa_bip32`, calls its
/// `derive_child` and hands out the parts of the child. Trusted: a parent at
/// the greatest depth has no children; otherwise key, chain code and parent
/// fingerprint are those that [`bip32_child`] names, the key is usable, the
/// depth is one more than the parent's and the child number is the one asked
/// for.
#[verifier::external_body]
fn child_parts(parent: &ExtendedKey, number: u32) -> (r: Result<KeyParts, kaspa_bip32::Error>)
    requires
        parent.well_formed(),
    ensures
        r is Ok <==> (parent@.depth < 255 && bip32_child(
            parent@.private_key,
            parent@.chain_code,
            number,
        ) is Some),
        r matches Ok(parts) ==> (parts.0@, parts.1@, parts.4@) == bip32_child(
            parent@.private_key,
            parent@.chain_code,
            number,
        )->0,
        r matches Ok(parts) ==> valid_secret_key(parts.0@),
        r matches Ok(parts) ==> (parts.2 == parent@.depth + 1 && parts.3 == number),
{
    let mut key_bytes = [0u8; 33];
    key_bytes[1..].copy_from_slice(&parent.private_key);
    let attrs = kaspa_bip32::ExtendedKeyAttrs {
        depth: parent.depth,
        parent_fingerprint: parent.parent_fingerprint,
        child_number: kaspa_bip32::ChildNumber(parent.child_number),
        chain_code: parent.chain_code,
    };
    let key = kaspa_bip32::ExtendedKey { prefix: kaspa_bip32::Prefix::XPRV, attrs, key_bytes };
    let node = kaspa_bip32::ExtendedPrivateKey::<kaspa_bip32::SecretKey>::try_from(key)?;
    let child = node.derive_child(kaspa_bip32::ChildNumber(number))?;
    let a = child.attrs();
    Ok((child.to_bytes(), a.chain_code, a.depth, a.child_number.0, a.parent_fingerprint))
}

/// The sixteen lowercase hexadecimal digits, in order.
pub open spec fn hex_digits() -> Seq<char> {
    seq!['0', '1', '2', '3', '4', '5', '6', '7', '8', '9', 'a', 'b', 'c', 'd', 'e', 'f']
}

/// Lowercase hexadecimal text of `bytes`: two digits per byte, the high half
/// first.
pub open spec fn hex_lower(bytes: Seq<u8>) -> Seq<char> {
    Seq::new(
        2 * bytes.len(),
        |i: int|
            if i % 2 == 0 {
                hex_digits()[bytes[i / 2] as int / 16]
            } else {
                hex_digits()[bytes[i / 2] as int % 16]
            },
    )
}

/// Wraps the bytes as a `PrivateKey` of `kaspa_wallet_keys` and calls its
/// `to_hex`; trusted to return the lowercase hexadecimal text of the bytes.
#[verifier::external_body]
fn secret_hex(bytes: &[u8; 32]) -> (r: String)
    requires
        valid_secret_key(bytes@),
    ensures
        r@ == hex_lower(bytes@),
{
    kaspa_wallet_keys::prelude::PrivateKey::try_from_slice(bytes).unwrap().to_hex()
}

/// A usable secp256k1 signing key.
#[derive(Clone, Copy)]
pub struct PrivateKey {
    bytes: [u8; 32],
}

impl View for PrivateKey {
    type V = Seq<u8>;

    closed spec fn view(&self) -> Seq<u8> {
        self.bytes@
    }
}

impl PrivateKey {
    /// Every private key is a usable secret key.
    #[verifier::type_invariant]
    pub open spec fn well_formed(self) -> bool {
        valid_secret_key(self@)
    }

    /// Accepts `bytes` as a private key if they are a usable secret key.
    pub fn from_bytes(bytes: [u8; 32]) -> (r: Option<PrivateKey>)
        ensures
            r is Some <==> valid_secret_key(bytes@),
            r matches Some(key) ==> key@ == bytes@ && key.well_formed(),
    {
        if secret_key_accepted(&bytes) {
            Some(PrivateKey { bytes })
        } else {
            None
        }
    }

    /// The 32 bytes of the key.
    pub fn secret_bytes(&self) -> (bytes: [u8; 32])
        ensures
            bytes@ == self@,
            valid_secret_key(bytes@),
    {
        proof {
            use_type_invariant(self);
        }
        self.bytes
    }

    /// The key as 64 lowercase hexadecimal digits.
    pub fn to_hex(&self) -> (text: String)
        ensures
            text@ == hex_lower(self@),
            text@.len() == 64,
            forall|i: int| 0 <= i < 64 ==> hex_digits().contains(#[trigger] text@[i]),
    {
        proof {
            use_type_invariant(self);
            lemma_hex_shape(self.bytes@);
        }
        secret_hex(&self.bytes)
    }
}

/// The hexadecimal text of `bytes` has two characters per byte, each a
/// lowercase hexadecimal digit.
pub proof fn lemma_hex_shape(bytes: Seq<u8>)
    ensures
        hex_lower(bytes).len() == 2 * bytes.len(),
        forall|i: int|
            0 <= i < hex_lower(bytes).len() ==> hex_digits().contains(#[trigger] hex_lower(bytes)[i]),
{
}

/// What an extended key holds.
pub struct ExtendedKeyView {
    pub private_key: Seq<u8>,
    pub chain_code: Seq<u8>,
    pub depth: u8,
    pub child_number: u32,
    pub parent_fingerprint: Seq<u8>,
}

/// A node of the key hierarchy: a private key with the chain code that
/// derives its children, and its place below its parent.
#[derive(Clone, Copy)]
pub struct ExtendedKey {
    private_key: [u8; 32],
    chain_code: [u8; 32],
    depth: u8,
    child_number: u32,
    parent_fingerprint: [u8; 4],
}

impl View for ExtendedKey {
    type V = ExtendedKeyView;

    closed spec fn view(&self) -> ExtendedKeyView {
        ExtendedKeyView {
            private_key: self.private_key@,
            chain_code: self.chain_code@,
            depth: self.depth,
            child_number: self.child_number,
            parent_fingerprint: self.parent_fingerprint@,
        }
    }
}

/// The master key of `seed`, or the failure to generate it.
pub open spec fn master_key_outcome(seed: Seq<u8>) -> Result<ExtendedKeyView, KeyFailure> {
    if !seed_length_ok(seed.len()) {
        Err(KeyFailure::KeyGenerationFailure)
    } else {
        match bip32_master(seed) {
            Some((private_key, chain_code)) => Ok(
                ExtendedKeyView {
                    private_key,
                    chain_code,
                    depth: 0,
                    child_number: 0,
                    parent_fingerprint: seq![0u8, 0u8, 0u8, 0u8],
                },
            ),
            None => Err(KeyFailure::KeyGenerationFailure),
        }
    }
}

/// The child of `parent` with the given child number, if there is one.
pub open spec fn child_step(parent: ExtendedKeyView, number: u32) -> Option<ExtendedKeyView> {
    if parent.depth == 255 {
        None
    } else {
        match bip32_child(parent.private_key, parent.chain_code, number) {
            Some((private_key, chain_code, fingerprint)) => Some(
                ExtendedKeyView {
                    private_key,
                    chain_code,
                    depth: (parent.depth + 1) as u8,
                    child_number: number,
                    parent_fingerprint: fingerprint,
                },
            ),
            None => None,
        }
    }
}

/// The key reached from `start` by stepping through `numbers` in order, if
/// every step has a child.
pub open spec fn walk_path(start: ExtendedKeyView, numbers: Seq<u32>) -> Option<ExtendedKeyView>
    decreases numbers.len(),
{
    if numbers.len() == 0 {
        Some(start)
    } else {
        match walk_path(start, numbers.drop_last()) {
            Some(key) => child_step(key, numbers.last()),
            None => None,
        }
    }
}

/// The private key at address index `index` below `master`, or the failure
/// to derive it: the path cannot be built, or a step along it has no child.
pub open spec fn child_key_outcome(master: ExtendedKeyView, index: u32) -> Result<
    Seq<u8>,
    KeyFailure,
> {
    match address_path_numbers(index) {
        Some(numbers) => match walk_path(master, numbers) {
            Some(key) => Ok(key.private_key),
            None => Err(KeyFailure::DerivationFailure),
        },
        None => Err(KeyFailure::DerivationFailure),
    }
}

impl ExtendedKey {
    /// The private key of every extended key is usable.
    #[verifier::type_invariant]
    pub open spec fn well_formed(self) -> bool {
        valid_secret_key(self@.private_key)
    }

    /// Assembles an extended key from its parts, if the private key is
    /// usable.
    pub fn from_parts(
        private_key: [u8; 32],
        chain_code: [u8; 32],
        depth: u8,
        child_number: u32,
        parent_fingerprint: [u8; 4],
    ) -> (r: Option<ExtendedKey>)
        ensures
            r is Some <==> valid_secret_key(private_key@),
            r matches Some(key) ==> key.well_formed() && key@ == (ExtendedKeyView {
                private_key: private_key@,
                chain_code: chain_code@,
                depth,
                child_number,
                parent_fingerprint: parent_fingerprint@,
            }),
    {
        if secret_key_accepted(&private_key) {
            Some(ExtendedKey { private_key, chain_code, depth, child_number, parent_fingerprint })
        } else {
            None
        }
    }

    /// The private key at this node.
    pub fn private_key(&self) -> (key: PrivateKey)
        ensures
            key@ == self@.private_key,
            key.well_formed(),
    {
        proof {
            use_type_invariant(self);
        }
        PrivateKey { bytes: self.private_key }
    }

    /// The chain code at this node.
    pub fn chain_code(&self) -> (code: [u8; 32])
        ensures
            code@ == self@.chain_code,
    {
        self.chain_code
    }

    /// How many steps this node lies below the master key.
    pub fn depth(&self) -> (d: u8)
        ensures
            d == self@.depth,
    {
        self.depth
    }

    /// The child number under which this node hangs below its parent.
    pub fn child_number(&self) -> (n: u32)
        ensures
            n == self@.child_number,
    {
        self.child_number
    }

    /// The fingerprint of the parent's public key.
    pub fn parent_fingerprint(&self) -> (f: [u8; 4])
        ensures
            f@ == self@.parent_fingerprint,
    {
        self.parent_fingerprint
    }

    /// Derives the child that `segment` names.
    pub fn derive_step(&self, segment: PathSegment) -> (r: Option<ExtendedKey>)
        ensures
            match child_step(self@, segment.number()) {
                Some(child) => r matches Some(key) && key@ == child && key.well_formed(),
                None => r is None,
            },
    {
        proof {
            use_type_invariant(self);
        }
        match child_parts(self, segment.to_number()) {
            Ok(parts) => Some(
                ExtendedKey {
                    private_key: parts.0,
                    chain_code: parts.1,
                    depth: parts.2,
                    child_number: parts.3,
                    parent_fingerprint: parts.4,
                },
            ),
            Err(_) => None,
        }
    }

    /// Walks `path` from this node, one child per segment.
    pub fn derive_path(&self, path: &Vec<PathSegment>) -> (r: Option<ExtendedKey>)
        ensures
            match walk_path(self@, path_numbers(path@)) {
                Some(end) => r matches Some(key) && key@ == end && key.well_formed(),
                None => r is None,
            },
    {
        let mut current = *self;
        let mut i: usize = 0;
        while i < path.len()
            invariant
                i <= path.len(),
                walk_path(self@, path_numbers(path@).take(i as int)) == Some(current@),
            decreases path.len() - i,
        {
            let ghost numbers = path_numbers(path@);
            proof {
                assert(numbers.take(i + 1).drop_last() =~= numbers.take(i as int));
            }
            match current.derive_step(path[i]) {
                Some(child) => {
                    current = child;
                },
                None => {
                    proof {
                        lemma_walk_stuck(self@, numbers, i + 1);
                    }
                    return None;
                },
            }
            i = i + 1;
        }
        proof {
            use_type_invariant(&current);
            assert(path_numbers(path@).take(i as int) =~= path_numbers(path@));
        }
        Some(current)
    }
}

/// Once a walk has no key after `n` steps, it has none at the end either.
proof fn lemma_walk_stuck(start: ExtendedKeyView, numbers: Seq<u32>, n: int)
    requires
        0 <= n <= numbers.len(),
        walk_path(start, numbers.take(n)) is None,
    ensures
        walk_path(start, numbers) is None,
    decreases numbers.len() - n,
{
    if n < numbers.len() {
        assert(numbers.take(n + 1).drop_last() =~= numbers.take(n));
        lemma_walk_stuck(start, numbers, n + 1);
    } else {
        assert(numbers.take(n) =~= numbers);
    }
}

/// Expands `seed` into the master extended key.
pub fn master_key(seed: &Seed) -> (r: Result<ExtendedKey, KeyFailure>)
    ensures
        match master_key_outcome(seed@) {
            Ok(master) => r matches Ok(key) && key@ == master && key.well_formed(),
            Err(e) => r == Err::<ExtendedKey, KeyFailure>(e),
        },
{
    match master_parts(seed.as_bytes()) {
        Ok(parts) => Ok(
            ExtendedKey {
                private_key: parts.0,
                chain_code: parts.1,
                depth: parts.2,
                child_number: parts.3,
                parent_fingerprint: parts.4,
            },
        ),
        Err(_) => Err(KeyFailure::KeyGenerationFailure),
    }
}

/// Derives the private key at `m/44'/111111'/0'/0/index` below `master`.
pub fn derive_child(master: &ExtendedKey, index: u32) -> (r: Result<PrivateKey, KeyFailure>)
    ensures
        match child_key_outcome(master@, index) {
            Ok(bytes) => r matches Ok(key) && key@ == bytes && key.well_formed(),
            Err(e) => r == Err::<PrivateKey, KeyFailure>(e),
        },
{
    match address_path(index) {
        Some(path) => match master.derive_path(&path) {
            Some(key) => Ok(key.private_key()),
            None => Err(KeyFailure::DerivationFailure),
        },
        None => Err(KeyFailure::DerivationFailure),
    }
}

} // verus!
