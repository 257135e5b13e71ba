//! The derivation pipeline: from a phrase to the records of its child keys.

use vstd::prelude::*;
use crate::address::{
    address_from_private_key, address_shape, address_text,
    lemma_networks_have_distinct_addresses, secp256k1_x_only_public_key, Network,
};
use crate::error::{ChildFailure, DeriveError, KeyFailure};
use crate::keys::{
    child_key_outcome, derive_child, hex_digits, hex_lower, master_key, master_key_outcome,
    ExtendedKeyView, PrivateKey,
};
use crate::mnemonic::{
    bip39_seed, lemma_parse_depends_on_words, parse_outcome, MnemonicPhrase, Seed,
};
use crate::text::joined_words;
use crate::path::HARDENED_FLAG;

verus! {

/// The derived material of one address index.
#[derive(Clone, Debug)]
pub struct OutputRecord {
    pub index: u32,
    pub mainnet_address: String,
    pub testnet_address: String,
    pub private_key_hex: String,
}

/// What an output record holds.
pub struct OutputRecordView {
    pub index: u32,
    pub mainnet_address: Seq<char>,
    pub testnet_address: Seq<char>,
    pub private_key_hex: Seq<char>,
}

impl View for OutputRecord {
    type V = OutputRecordView;

    open spec fn view(&self) -> OutputRecordView {
        OutputRecordView {
            index: self.index,
            mainnet_address: self.mainnet_address@,
            testnet_address: self.testnet_address@,
            private_key_hex: self.private_key_hex@,
        }
    }
}

/// The record of the private key `key` at address index `index`: its address
/// on each network and its hexadecimal text.
pub open spec fn record_of(index: u32, key: Seq<u8>) -> OutputRecordView {
    OutputRecordView {
        index,
        mainnet_address: address_text(Network::Mainnet, secp256k1_x_only_public_key(key)),
        testnet_address: address_text(Network::Testnet, secp256k1_x_only_public_key(key)),
        private_key_hex: hex_lower(key),
    }
}

/// Whether a record has the form of a record: a mainnet address, a testnet
/// address and 64 lowercase hexadecimal digits.
pub open spec fn record_shape(record: OutputRecordView) -> bool {
    &&& address_shape(record.mainnet_address, Network::Mainnet)
    &&& address_shape(record.testnet_address, Network::Testnet)
    &&& record.private_key_hex.len() == 64
    &&& forall|i: int|
        0 <= i < 64 ==> hex_digits().contains(#[trigger] record.private_key_hex[i])
}

/// The private key at address index `index` below the master key of `seed`,
/// or the failure to derive it.
pub open spec fn derived_key_outcome(seed: Seq<u8>, index: u32) -> Result<Seq<u8>, KeyFailure> {
    match master_key_outcome(seed) {
        Ok(master) => child_key_outcome(master, index),
        Err(e) => Err(e),
    }
}

/// Whether the key of `seed` at address index `index` can be derived.
pub open spec fn derivable(seed: Seq<u8>, index: u32) -> bool {
    derived_key_outcome(seed, index) is Ok
}

/// Whether the keys of `seed` at all address indices `0..=last` can be
/// derived.
pub open spec fn all_derivable(seed: Seq<u8>, last: u32) -> bool {
    forall|j: u32| j <= last ==> #[trigger] derivable(seed, j)
}

/// Whether `index` is the first address index of `seed` whose key cannot be
/// derived.
pub open spec fn first_failure(seed: Seq<u8>, index: u32) -> bool {
    &&& !derivable(seed, index)
    &&& forall|j: u32| j < index ==> #[trigger] derivable(seed, j)
}

/// The records of `seed` for the address indices `0..=last`, in ascending
/// order without gaps.
pub open spec fn expected_records(seed: Seq<u8>, last: u32) -> Seq<OutputRecordView> {
    Seq::new(
        (last + 1) as nat,
        |i: int| record_of(i as u32, derived_key_outcome(seed, i as u32)->Ok_0),
    )
}

/// What a run over the address indices `0..=last` of `seed` yields: all
/// records, or the first index that fails together with the cause.
pub open spec fn run_outcome(seed: Seq<u8>, last: u32) -> Result<
    Seq<OutputRecordView>,
    DeriveError,
> {
    if all_derivable(seed, last) {
        Ok(expected_records(seed, last))
    } else {
        let index = choose|index: u32| first_failure(seed, index);
        Err(
            DeriveError::ChildDerivationFailed {
                index,
                cause: derived_key_outcome(seed, index)->Err_0.as_child_failure(),
            },
        )
    }
}

/// The views of a sequence of records.
pub open spec fn views_of(records: Seq<OutputRecord>) -> Seq<OutputRecordView> {
    records.map_values(|record: OutputRecord| record@)
}

/// At most one index is the first to fail.
pub proof fn lemma_first_failure_unique(seed: Seq<u8>, a: u32, b: u32)
    requires
        first_failure(seed, a),
        first_failure(seed, b),
    ensures
        a == b,
{
}

/// Builds the record of `key` at address index `index`.
pub fn record_for(index: u32, key: &PrivateKey) -> (record: OutputRecord)
    ensures
        record@ == record_of(index, key@),
        record_shape(record@),
        record@.mainnet_address != record@.testnet_address,
{
    let mainnet = address_from_private_key(key, Network::Mainnet);
    let testnet = address_from_private_key(key, Network::Testnet);
    proof {
        lemma_networks_have_distinct_addresses(mainnet@.payload, testnet@.payload);
    }
    OutputRecord {
        index,
        mainnet_address: mainnet.address_to_string(),
        testnet_address: testnet.address_to_string(),
        private_key_hex: key.to_hex(),
    }
}

/// Takes the outcome of address index `index` into the records of a run: a
/// record is appended; a failure ends the run with the index and the cause.
pub fn take_outcome(
    records: Vec<OutputRecord>,
    index: u32,
    outcome: Result<OutputRecord, ChildFailure>,
) -> (r: Result<Vec<OutputRecord>, DeriveError>)
    ensures
        match outcome {
            Ok(record) => r matches Ok(extended) && extended@ == records@.push(record),
            Err(cause) => r matches Err(e) && e == (DeriveError::ChildDerivationFailed {
                index,
                cause,
            }),
        },
{
    match outcome {
        Ok(record) => {
            let mut extended = records;
            extended.push(record);
            Ok(extended)
        },
        Err(cause) => Err(DeriveError::ChildDerivationFailed { index, cause }),
    }
}

/// Derives the records of the address indices `0..=child_count` below the
/// master key of `seed`, in ascending order. The run stops at the first index
/// whose key cannot be derived and reports that index with the cause; no
/// records are returned then.
pub fn run(seed: &Seed, child_count: u32) -> (r: Result<Vec<OutputRecord>, DeriveError>)
    ensures
        match run_outcome(seed@, child_count) {
            Ok(expected) => r matches Ok(records) && views_of(records@) == expected,
            Err(e) => r matches Err(actual) && actual == e,
        },
        r matches Ok(records) ==> records@.len() == child_count + 1 && forall|i: int|
            0 <= i <= child_count ==> (#[trigger] records@[i]).index == i && record_shape(
                records@[i]@,
            ),
        r matches Err(e) ==> exists|index: u32|
            index <= child_count && #[trigger] first_failure(seed@, index) && e == (
            DeriveError::ChildDerivationFailed {
                index,
                cause: derived_key_outcome(seed@, index)->Err_0.as_child_failure(),
            }),
        r is Ok <==> all_derivable(seed@, child_count),
{
    let master = match master_key(seed) {
        Ok(master) => master,
        Err(cause) => {
            proof {
                lemma_run_fails_at(seed@, child_count, 0);
            }
            return Err(
                DeriveError::ChildDerivationFailed { index: 0, cause: cause.to_child_failure() },
            );
        },
    };
    let mut records: Vec<OutputRecord> = Vec::new();
    let mut index: u32 = 0;
    loop
        invariant
            index <= child_count,
            master_key_outcome(seed@) == Ok::<_, KeyFailure>(master@),
            records@.len() == index,
            forall|j: u32| j < index ==> #[trigger] derivable(seed@, j),
            forall|i: int|
                0 <= i < index ==> #[trigger] records@[i]@ == record_of(
                    i as u32,
                    derived_key_outcome(seed@, i as u32)->Ok_0,
                ) && record_shape(records@[i]@),
        decreases child_count - index,
    {
        let outcome = match derive_child(&master, index) {
            Ok(key) => Ok(record_for(index, &key)),
            Err(cause) => Err(cause.to_child_failure()),
        };
        match take_outcome(records, index, outcome) {
            Ok(extended) => {
                records = extended;
            },
            Err(e) => {
                proof {
                    lemma_run_fails_at(seed@, child_count, index);
                }
                return Err(e);
            },
        }
        if index == child_count {
            proof {
                assert forall|i: int| 0 <= i <= child_count implies (#[trigger] records@[i]).index
                    == i && record_shape(records@[i]@) by {
                    assert(records@[i]@.index == i);
                }
            }
            return Ok(records);
        }
        index = index + 1;
    }
}

/// A run whose first failing index is `index` reports exactly that index.
pub proof fn lemma_run_fails_at(seed: Seq<u8>, last: u32, index: u32)
    requires
        index <= last,
        first_failure(seed, index),
    ensures
        run_outcome(seed, last) == Err::<Seq<OutputRecordView>, DeriveError>(
            DeriveError::ChildDerivationFailed {
                index,
                cause: derived_key_outcome(seed, index)->Err_0.as_child_failure(),
            },
        ),
{
    let chosen = choose|i: u32| first_failure(seed, i);
    lemma_first_failure_unique(seed, chosen, index);
}

/// What importing `phrase` and deriving its key at address index `index`
/// yields: the key, or the refusal of the phrase, or the failure of the
/// derivation.
pub open spec fn imported_key_outcome(phrase: Seq<char>, index: u32) -> Result<
    Seq<u8>,
    DeriveError,
> {
    match parse_outcome(phrase) {
        Ok(accepted) => match derived_key_outcome(bip39_seed(accepted), index) {
            Ok(bytes) => Ok(bytes),
            Err(cause) => Err(cause.as_error()),
        },
        Err(e) => Err(e),
    }
}

/// Validates `phrase` and derives the private key at address index `index`
/// (index 0 if none is given).
pub fn build_from_imported_mnemonic(phrase: &str, index: Option<u32>) -> (r: Result<
    PrivateKey,
    DeriveError,
>)
    ensures
        match imported_key_outcome(
            phrase@,
            match index {
                Some(i) => i,
                None => 0,
            },
        ) {
            Ok(bytes) => r matches Ok(key) && key@ == bytes && key.well_formed(),
            Err(e) => r == Err::<PrivateKey, DeriveError>(e),
        },
{
    let child = match index {
        Some(i) => i,
        None => 0,
    };
    let mnemonic = match MnemonicPhrase::parse(phrase) {
        Ok(mnemonic) => mnemonic,
        Err(e) => {
            return Err(e);
        },
    };
    let seed = mnemonic.to_seed();
    let master = match master_key(&seed) {
        Ok(master) => master,
        Err(cause) => {
            return Err(cause.to_error());
        },
    };
    match derive_child(&master, child) {
        Ok(key) => Ok(key),
        Err(cause) => Err(cause.to_error()),
    }
}

/// The imported key depends on the words alone: phrases with the same words
/// in the same order, whatever whitespace separates or surrounds them, give
/// the same key or the same error at every index.
pub proof fn lemma_imported_key_depends_on_words(first: Seq<char>, second: Seq<char>, index: u32)
    requires
        joined_words(first) == joined_words(second),
    ensures
        imported_key_outcome(first, index) == imported_key_outcome(second, index),
{
    lemma_parse_depends_on_words(first, second);
}

/// Derivation is repeatable: two passes through seed, master key and child
/// key, from the same phrase and for the same index, end in the same key or
/// in the same failure.
pub proof fn lemma_derivation_deterministic(
    phrase: Seq<char>,
    index: u32,
    first_seed: Seq<u8>,
    second_seed: Seq<u8>,
    first_master: Result<ExtendedKeyView, KeyFailure>,
    second_master: Result<ExtendedKeyView, KeyFailure>,
    first_key: Result<Seq<u8>, KeyFailure>,
    second_key: Result<Seq<u8>, KeyFailure>,
)
    requires
        first_seed == bip39_seed(phrase),
        second_seed == bip39_seed(phrase),
        first_master == master_key_outcome(first_seed),
        second_master == master_key_outcome(second_seed),
        first_master matches Ok(master) ==> first_key == child_key_outcome(master, index),
        second_master matches Ok(master) ==> second_key == child_key_outcome(master, index),
        first_master matches Err(e) ==> first_key == Err::<Seq<u8>, KeyFailure>(e),
        second_master matches Err(e) ==> second_key == Err::<Seq<u8>, KeyFailure>(e),
    ensures
        first_key == second_key,
        first_key == derived_key_outcome(bip39_seed(phrase), index),
{
}

/// No key can be derived at an address index in the hardened range.
pub proof fn lemma_hardened_index_fails(seed: Seq<u8>, index: u32)
    requires
        index >= HARDENED_FLAG,
    ensures
        derived_key_outcome(seed, index) is Err,
{
}

/// A run that reaches into the hardened range fails.
pub proof fn lemma_run_fails_in_hardened_range(seed: Seq<u8>, last: u32)
    requires
        last >= HARDENED_FLAG,
    ensures
        run_outcome(seed, last) is Err,
{
    assert(!all_derivable(seed, last)) by {
        if all_derivable(seed, last) {
            assert(derivable(seed, HARDENED_FLAG));
        }
    }
}

/// A run on a seed without a master key fails at index 0, whatever the number
/// of children.
pub proof fn lemma_run_without_master_key(seed: Seq<u8>, last: u32)
    requires
        master_key_outcome(seed) is Err,
    ensures
        run_outcome(seed, last) == Err::<Seq<OutputRecordView>, DeriveError>(
            DeriveError::ChildDerivationFailed {
                index: 0,
                cause: ChildFailure::KeyGenerationFailure,
            },
        ),
{
    lemma_run_fails_at(seed, last, 0);
}

} // verus!
