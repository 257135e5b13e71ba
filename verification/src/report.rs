//! The text of the derived-records report.

use vstd::prelude::*;
use vstd::string::*;
use crate::derive::{run, run_outcome, views_of, OutputRecord, OutputRecordView};
use crate::error::{ChildFailure, DeriveError};
use crate::mnemonic::{bip39_seed, lemma_parse_depends_on_words, parse_outcome, MnemonicPhrase};
use crate::text::{decimal_string, decimal_text, joined_words};

verus! {

/// The block of one record: a heading with the index, then the mainnet
/// address, the testnet address and the private key, one per line, and an
/// empty line.
pub open spec fn record_text(record: OutputRecordView) -> Seq<char> {
    "## Index: "@ + decimal_text(record.index as nat) + "\n"@ + record.mainnet_address + "\n"@
        + record.testnet_address + "\n"@ + record.private_key_hex + "\n\n"@
}

/// The blocks of `records`, in order.
pub open spec fn records_text(records: Seq<OutputRecordView>) -> Seq<char>
    decreases records.len(),
{
    if records.len() == 0 {
        Seq::empty()
    } else {
        records_text(records.drop_last()) + record_text(records.last())
    }
}

/// The whole report: the master phrase, an empty line, and the blocks of the
/// records.
pub open spec fn report_text(phrase: Seq<char>, records: Seq<OutputRecordView>) -> Seq<char> {
    "Master Phrase: "@ + phrase + "\n\n"@ + records_text(records)
}

/// Writes the block of one record.
pub fn render_record(record: &OutputRecord) -> (text: String)
    ensures
        text@ == record_text(record@),
{
    let mut text = "## Index: ".to_owned();
    text.append(decimal_string(record.index).as_str());
    text.append("\n");
    text.append(record.mainnet_address.as_str());
    text.append("\n");
    text.append(record.testnet_address.as_str());
    text.append("\n");
    text.append(record.private_key_hex.as_str());
    text.append("\n\n");
    text
}

/// Writes the report of `phrase` and its `records`.
pub fn render_report(phrase: &str, records: &Vec<OutputRecord>) -> (text: String)
    ensures
        text@ == report_text(phrase@, views_of(records@)),
{
    let mut text = "Master Phrase: ".to_owned();
    text.append(phrase);
    text.append("\n\n");
    let ghost head = text@;
    let mut i: usize = 0;
    while i < records.len()
        invariant
            i <= records.len(),
            text@ == head + records_text(views_of(records@).take(i as int)),
        decreases records.len() - i,
    {
        let block = render_record(&records[i]);
        text.append(block.as_str());
        proof {
            let views = views_of(records@);
            assert(views.take(i + 1).drop_last() =~= views.take(i as int));
        }
        i = i + 1;
    }
    proof {
        assert(views_of(records@).take(i as int) =~= views_of(records@));
    }
    text
}

/// The failure of the child at index 0 that reports the refusal of a phrase.
pub open spec fn refused_at_first_child(refusal: DeriveError) -> Option<DeriveError> {
    match refusal {
        DeriveError::UnsupportedPhraseLength => Some(
            DeriveError::ChildDerivationFailed {
                index: 0,
                cause: ChildFailure::UnsupportedPhraseLength,
            },
        ),
        DeriveError::InvalidMnemonic => Some(
            DeriveError::ChildDerivationFailed { index: 0, cause: ChildFailure::InvalidMnemonic },
        ),
        _ => None,
    }
}

/// What deriving a report from the text `phrase` yields: the report of the
/// accepted phrase and its records for the address indices `0..=last`, or
/// the failure of the first child that could not be produced. A phrase that
/// is refused is the failure of the child at index 0, with the refusal as the
/// cause.
pub open spec fn report_outcome(phrase: Seq<char>, last: u32) -> Result<Seq<char>, DeriveError> {
    match parse_outcome(phrase) {
        Ok(accepted) => match run_outcome(bip39_seed(accepted), last) {
            Ok(records) => Ok(report_text(accepted, records)),
            Err(e) => Err(e),
        },
        Err(e) => Err(e.at_child(0)),
    }
}

/// Validates `phrase`, derives the keys of the address indices `0..=n` and
/// returns the text of their report. Nothing is returned unless every record
/// was derived: the first child that fails ends the run and is reported with
/// its index and the cause, and a refused phrase is reported as the failure
/// of child 0.
pub fn build_child_keys(phrase: &str, n: u32) -> (r: Result<String, DeriveError>)
    ensures
        match report_outcome(phrase@, n) {
            Ok(expected) => r matches Ok(text) && text@ == expected,
            Err(e) => r matches Err(actual) && actual == e,
        },
        r matches Err(e) ==> e is ChildDerivationFailed,
        parse_outcome(phrase@) matches Err(refusal) ==> r matches Err(e) && Some(e)
            == refused_at_first_child(refusal),
{
    let mnemonic = match MnemonicPhrase::parse(phrase) {
        Ok(mnemonic) => mnemonic,
        Err(e) => {
            return Err(e.wrap_at_child(0));
        },
    };
    match run(&mnemonic.to_seed(), n) {
        Ok(records) => Ok(render_report(mnemonic.as_str(), &records)),
        Err(e) => Err(e),
    }
}

/// The report depends on the words alone: phrases with the same words in the
/// same order, whatever whitespace separates or surrounds them, give the same
/// report or the same error.
pub proof fn lemma_report_depends_on_words(first: Seq<char>, second: Seq<char>, last: u32)
    requires
        joined_words(first) == joined_words(second),
    ensures
        report_outcome(first, last) == report_outcome(second, last),
{
    lemma_parse_depends_on_words(first, second);
}

} // verus!
