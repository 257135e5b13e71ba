use kderive::derive::{build_from_imported_mnemonic, record_for, run, take_outcome, OutputRecord};
use kderive::error::{ChildFailure, DeriveError};
use kderive::keys::{derive_child, master_key, PrivateKey};
use kderive::path::HARDENED_FLAG;
use kderive::mnemonic::{MnemonicPhrase, Seed};
use kderive::report::{build_child_keys, render_record, render_report};
use kderive::text::decimal_string;

const ABANDON_12: &str = "abandon abandon abandon abandon abandon abandon abandon abandon abandon abandon abandon about";
const ABANDON_24: &str = "abandon abandon abandon abandon abandon abandon abandon abandon abandon abandon abandon abandon abandon abandon abandon abandon abandon abandon abandon abandon abandon abandon abandon art";

fn seed_of(phrase: &str) -> Seed {
    MnemonicPhrase::parse(phrase).unwrap().to_seed()
}

fn is_lower_hex(text: &str) -> bool {
    text.chars().all(|c| matches!(c, '0'..='9' | 'a'..='f'))
}

#[test]
fn fixed_known_phrase_gives_the_recorded_key_and_addresses() {
    let records = run(&seed_of(ABANDON_24), 0).unwrap();
    assert_eq!(records.len(), 1);
    assert_eq!(records[0].index, 0);
    assert_eq!(records[0].private_key_hex, "0e96dce68713d9596aa8b4279055c140ba66b6997af1f19b1d807f118a75bea2");
    assert_eq!(records[0].mainnet_address, "kaspa:qz20g2ugrrm629fnnvmfjpsjlx9zu2f2zj828wwpv9gvxcnajl0qs36s8hfkl");
    assert_eq!(records[0].testnet_address, "kaspatest:qz20g2ugrrm629fnnvmfjpsjlx9zu2f2zj828wwpv9gvxcnajl0qssukuch8m");
    let key = build_from_imported_mnemonic(ABANDON_24, Some(0)).unwrap();
    assert_eq!(key.to_hex(), "0e96dce68713d9596aa8b4279055c140ba66b6997af1f19b1d807f118a75bea2");
}

#[test]
fn fixed_known_phrase_further_indices() {
    let records = run(&seed_of(ABANDON_24), 2).unwrap();
    assert_eq!(records[1].private_key_hex, "4118b0bae4e06f3f84a5635a2c490ff3920296632c9d65e8420a6591abe86112");
    assert_eq!(records[1].mainnet_address, "kaspa:qpp5c48p4ryt4v7nufd44udfddgn9yt2ddac0sk6w4pprajx8ftjs4x358jsx");
    assert_eq!(records[1].testnet_address, "kaspatest:qpp5c48p4ryt4v7nufd44udfddgn9yt2ddac0sk6w4pprajx8ftjs5qh0gvpz");
    assert_eq!(records[2].private_key_hex, "7277af3512e0e68362e47ff3d54f44029dc5fcbab989525e18861d81a23619ca");
    assert_eq!(records[2].mainnet_address, "kaspa:qptqpm3emzmhksmhpd5enzj8r346nzc8j0zr68j8p9lumpdazpflkqvclj8dp");
    assert_eq!(records[2].testnet_address, "kaspatest:qptqpm3emzmhksmhpd5enzj8r346nzc8j0zr68j8p9lumpdazpflkp27yaeu9");
}

#[test]
fn known_key_agrees_with_the_outside_derivation() {
    let mnemonic = kaspa_bip32::Mnemonic::new(ABANDON_24, kaspa_bip32::Language::English).unwrap();
    let xprv = kaspa_bip32::ExtendedPrivateKey::<kaspa_bip32::SecretKey>::new(mnemonic.to_seed("")).unwrap();
    for index in [0u32, 1, 17] {
        let path: kaspa_bip32::DerivationPath = format!("m/44'/111111'/0'/0/{}", index).parse().unwrap();
        let expected = kaspa_wallet_keys::prelude::PrivateKey::from(xprv.clone().derive_path(&path).unwrap().private_key());
        let key = build_from_imported_mnemonic(ABANDON_24, Some(index)).unwrap();
        assert_eq!(key.secret_bytes(), expected.secret_bytes());
        assert_eq!(key.to_hex(), expected.to_hex());
    }
}

#[test]
fn children_count() {
    let seed = seed_of(ABANDON_12);
    let records = run(&seed, 5).unwrap();
    assert_eq!(records.len(), 6);
    let indices: Vec<u32> = records.iter().map(|r| r.index).collect();
    assert_eq!(indices, vec![0, 1, 2, 3, 4, 5]);
    let records = run(&seed, 0).unwrap();
    assert_eq!(records.len(), 1);
    assert_eq!(records[0].index, 0);
}

#[test]
fn output_is_complete_and_ordered() {
    let seed = seed_of(ABANDON_12);
    let master = master_key(&seed).unwrap();
    for n in [0u32, 1, 2, 9] {
        let records = run(&seed, n).unwrap();
        assert_eq!(records.len() as u32, n + 1);
        for (position, record) in records.iter().enumerate() {
            assert_eq!(record.index as usize, position);
            let key = derive_child(&master, record.index).unwrap();
            let expected = record_for(record.index, &key);
            assert_eq!(record.mainnet_address, expected.mainnet_address);
            assert_eq!(record.testnet_address, expected.testnet_address);
            assert_eq!(record.private_key_hex, expected.private_key_hex);
        }
    }
}

#[test]
fn a_longer_run_extends_a_shorter_one() {
    let seed = seed_of(ABANDON_24);
    let short = run(&seed, 2).unwrap();
    let long = run(&seed, 4).unwrap();
    for i in 0..3 {
        assert_eq!(short[i].private_key_hex, long[i].private_key_hex);
        assert_eq!(short[i].mainnet_address, long[i].mainnet_address);
        assert_eq!(short[i].testnet_address, long[i].testnet_address);
    }
}

#[test]
fn derivation_is_deterministic() {
    for index in [0u32, 1, 2, 50, HARDENED_FLAG - 1] {
        let first = derive_child(&master_key(&seed_of(ABANDON_24)).unwrap(), index).unwrap();
        let second = derive_child(&master_key(&seed_of(ABANDON_24)).unwrap(), index).unwrap();
        assert_eq!(first.secret_bytes(), second.secret_bytes());
        let third = build_from_imported_mnemonic(ABANDON_24, Some(index)).unwrap();
        assert_eq!(first.secret_bytes(), third.secret_bytes());
    }
}

#[test]
fn keys_of_different_indices_differ() {
    let master = master_key(&seed_of(ABANDON_12)).unwrap();
    let keys: Vec<[u8; 32]> = (0u32..100).map(|i| derive_child(&master, i).unwrap().secret_bytes()).collect();
    for i in 0..keys.len() {
        for j in (i + 1)..keys.len() {
            assert_ne!(keys[i], keys[j], "{} {}", i, j);
        }
    }
}

#[test]
fn fresh_24_word_generation() {
    let phrase = MnemonicPhrase::generate(24).unwrap();
    let records = run(&phrase.to_seed(), 0).unwrap();
    assert_eq!(records.len(), 1);
    let record = &records[0];
    assert_eq!(record.index, 0);
    assert!(record.mainnet_address.starts_with("kaspa:"));
    assert!(record.testnet_address.starts_with("kaspatest:"));
    let mainnet = kaspa_addresses::Address::try_from(record.mainnet_address.as_str()).unwrap();
    let testnet = kaspa_addresses::Address::try_from(record.testnet_address.as_str()).unwrap();
    assert_eq!(mainnet.prefix, kaspa_addresses::Prefix::Mainnet);
    assert_eq!(testnet.prefix, kaspa_addresses::Prefix::Testnet);
    assert_eq!(mainnet.payload, testnet.payload);
    assert_eq!(record.private_key_hex.len(), 64);
    assert!(is_lower_hex(&record.private_key_hex));
}

#[test]
fn run_reports_the_failing_index_and_cause() {
    let bad = Seed::from_bytes(vec![1u8; 10]);
    for n in [0u32, 3, u32::MAX] {
        assert_eq!(
            run(&bad, n).err().unwrap(),
            DeriveError::ChildDerivationFailed { index: 0, cause: ChildFailure::KeyGenerationFailure }
        );
    }
}

#[test]
fn build_from_imported_mnemonic_defaults_to_index_zero() {
    let default = build_from_imported_mnemonic(ABANDON_12, None).unwrap();
    let zero = build_from_imported_mnemonic(ABANDON_12, Some(0)).unwrap();
    assert_eq!(default.secret_bytes(), zero.secret_bytes());
    assert_eq!(default.to_hex(), "24cd8d2875e8e17e4f88fbc554834a89b7b3e0c6f9d84fae36883604359ba440");
    let one = build_from_imported_mnemonic(ABANDON_12, Some(1)).unwrap();
    assert_eq!(one.to_hex(), "03c8757528d03aeaa7af44bb90deed1a8aa4263b257f0499c3b12270a7dbe7d1");
}

#[test]
fn build_from_imported_mnemonic_reports_each_error() {
    assert_eq!(build_from_imported_mnemonic("abandon about", Some(0)).err().unwrap(), DeriveError::UnsupportedPhraseLength);
    let altered = ABANDON_12.replace("about", "abandon");
    assert_eq!(build_from_imported_mnemonic(&altered, Some(0)).err().unwrap(), DeriveError::InvalidMnemonic);
    assert_eq!(build_from_imported_mnemonic(ABANDON_12, Some(HARDENED_FLAG)).err().unwrap(), DeriveError::DerivationFailure);
    assert_eq!(build_from_imported_mnemonic(ABANDON_12, Some(u32::MAX)).err().unwrap(), DeriveError::DerivationFailure);
}

#[test]
fn decimal_string_of_indices() {
    for n in [0u32, 1, 9, 10, 11, 99, 100, 101, 1000, 65535, 2147483647, 2147483648, 4294967295] {
        assert_eq!(decimal_string(n), n.to_string());
    }
    assert_eq!(decimal_string(0), "0");
    assert_eq!(decimal_string(4294967295), "4294967295");
}

#[test]
fn render_record_lays_out_one_block() {
    let mut bytes = [0u8; 32];
    bytes[31] = 1;
    let record = record_for(12, &PrivateKey::from_bytes(bytes).unwrap());
    assert_eq!(
        render_record(&record),
        "## Index: 12\nkaspa:qpumuen7l8wthtz45p3ftn58pvrs9xlumvkuu2xet8egzkcklqtes4ypce9sf\nkaspatest:qpumuen7l8wthtz45p3ftn58pvrs9xlumvkuu2xet8egzkcklqtes5z8rkmpd\n0000000000000000000000000000000000000000000000000000000000000001\n\n"
    );
}

#[test]
fn render_report_without_records_is_the_header() {
    assert_eq!(render_report(ABANDON_12, &Vec::new()), format!("Master Phrase: {}\n\n", ABANDON_12));
    assert_eq!(render_report("", &Vec::new()), "Master Phrase: \n\n");
}

#[test]
fn build_child_keys_writes_the_whole_report() {
    let expected = format!(
        "Master Phrase: {}\n\n## Index: 0\nkaspa:qqd6e65yefepe9wk0m9vuxdufxd80sphy67gwwd0vdaumzdt4tc9s3qt0lqeh\nkaspatest:qqd6e65yefepe9wk0m9vuxdufxd80sphy67gwwd0vdaumzdt4tc9ssxd5s7gn\n24cd8d2875e8e17e4f88fbc554834a89b7b3e0c6f9d84fae36883604359ba440\n\n## Index: 1\nkaspa:qp6r0d88yj4fazlj057wc35245jfgs87n9jn6nahfg223996dfukvgpgq6pcp\nkaspatest:qp6r0d88yj4fazlj057wc35245jfgs87n9jn6nahfg223996dfukvf8wm4lf9\n03c8757528d03aeaa7af44bb90deed1a8aa4263b257f0499c3b12270a7dbe7d1\n\n",
        ABANDON_12
    );
    assert_eq!(build_child_keys(ABANDON_12, 1).unwrap(), expected);
}

#[test]
fn build_child_keys_report_has_one_block_per_index() {
    let report = build_child_keys(ABANDON_24, 11).unwrap();
    assert_eq!(report.matches("## Index: ").count(), 12);
    assert!(report.starts_with(&format!("Master Phrase: {}\n\n## Index: 0\n", ABANDON_24)));
    assert!(report.contains("\n\n## Index: 10\n"));
    assert!(report.contains("\n\n## Index: 11\n"));
    assert!(report.ends_with("\n\n"));
    assert_eq!(report.lines().count(), 2 + 12 * 5);
}

#[test]
fn build_child_keys_reports_a_refused_phrase_as_the_failure_of_child_zero() {
    let unsupported = DeriveError::ChildDerivationFailed { index: 0, cause: ChildFailure::UnsupportedPhraseLength };
    let invalid = DeriveError::ChildDerivationFailed { index: 0, cause: ChildFailure::InvalidMnemonic };
    assert_eq!(build_child_keys(&vec!["abandon"; 11].join(" "), 3).err().unwrap(), unsupported);
    assert_eq!(build_child_keys("", 0).err().unwrap(), unsupported);
    assert_eq!(build_child_keys(&vec!["abandon"; 13].join(" "), 3).err().unwrap(), unsupported);
    assert_eq!(build_child_keys(&vec!["abandon"; 24].join(" "), 3).err().unwrap(), invalid);
    assert_eq!(build_child_keys(&vec!["abandon"; 12].join(" "), 0).err().unwrap(), invalid);
    assert_eq!(
        build_child_keys(&vec!["abandon"; 11].join(" "), 3).err().unwrap().message(),
        "Failed to create child 0: Phrase must have 12 or 24 words"
    );
}

#[test]
fn the_same_words_give_the_same_keys_and_report_whatever_the_whitespace() {
    let messy = format!("\t{} \n", ABANDON_12.replace(" ", "  \t"));
    for index in [0u32, 1, 7] {
        let plain = build_from_imported_mnemonic(ABANDON_12, Some(index)).unwrap();
        let other = build_from_imported_mnemonic(&messy, Some(index)).unwrap();
        assert_eq!(plain.secret_bytes(), other.secret_bytes());
    }
    assert_eq!(build_child_keys(&messy, 2).unwrap(), build_child_keys(ABANDON_12, 2).unwrap());
    assert!(build_child_keys(&messy, 0).unwrap().starts_with(&format!("Master Phrase: {}\n\n", ABANDON_12)));
}

#[test]
fn records_have_the_form_of_records() {
    for record in run(&seed_of(ABANDON_12), 3).unwrap() {
        assert!(record.mainnet_address.starts_with("kaspa:"));
        assert_eq!(record.mainnet_address.len(), "kaspa:".len() + 61);
        assert!(record.testnet_address.starts_with("kaspatest:"));
        assert_eq!(record.testnet_address.len(), "kaspatest:".len() + 61);
        for text in [&record.mainnet_address, &record.testnet_address] {
            let body = text.split_once(':').unwrap().1;
            assert!(body.chars().all(|c| "qpzry9x8gf2tvdw0s3jn54khce6mua7l".contains(c)));
        }
        assert_eq!(record.private_key_hex.len(), 64);
        assert!(is_lower_hex(&record.private_key_hex));
    }
}

fn plain_record(index: u32) -> OutputRecord {
    OutputRecord {
        index,
        mainnet_address: format!("kaspa:m{}", index),
        testnet_address: format!("kaspatest:t{}", index),
        private_key_hex: format!("{:064x}", index),
    }
}

#[test]
fn render_report_lays_out_plain_records_in_order() {
    let records = vec![plain_record(0), plain_record(1)];
    let zeros = "0".repeat(63);
    assert_eq!(
        render_report("one two", &records),
        format!(
            "Master Phrase: one two\n\n## Index: 0\nkaspa:m0\nkaspatest:t0\n{}0\n\n## Index: 1\nkaspa:m1\nkaspatest:t1\n{}1\n\n",
            zeros, zeros
        )
    );
}

#[test]
fn take_outcome_appends_a_record() {
    let records = take_outcome(Vec::new(), 0, Ok(plain_record(0))).unwrap();
    assert_eq!(records.len(), 1);
    let records = take_outcome(records, 1, Ok(plain_record(1))).unwrap();
    assert_eq!(records.len(), 2);
    assert_eq!(records[0].index, 0);
    assert_eq!(records[1].index, 1);
    assert_eq!(records[1].mainnet_address, "kaspa:m1");
}

#[test]
fn take_outcome_ends_the_run_at_a_failure() {
    let records = vec![plain_record(0), plain_record(1)];
    assert_eq!(
        take_outcome(records, 2, Err(ChildFailure::DerivationFailure)).err().unwrap(),
        DeriveError::ChildDerivationFailed { index: 2, cause: ChildFailure::DerivationFailure }
    );
    assert_eq!(
        take_outcome(Vec::new(), 0, Err(ChildFailure::KeyGenerationFailure)).err().unwrap(),
        DeriveError::ChildDerivationFailed { index: 0, cause: ChildFailure::KeyGenerationFailure }
    );
}
