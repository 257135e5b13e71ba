//! BIP39 mnemonic phrases: generation, validation and conversion to a seed.

use vstd::prelude::*;
use kaspa_bip32::{Language, Mnemonic};
use crate::error::DeriveError;
use crate::text::{
    count_words, join_words, joined_words, lemma_joined_words, lemma_joined_words_idempotent,
    word_count,
};

verus! {

/// The error type of `kaspa_bip32`. Its values are carried as they come and
/// never looked into.
#[verifier::external_type_specification]
#[verifier::external_body]
pub struct ExBip32Error(kaspa_bip32::Error);

/// The sizes in which a fresh phrase can be drawn.
#[derive(Clone, Copy, Debug, PartialEq, Eq, Structural)]
pub enum WordCount {
    /// 12 words, from 128 bits of entropy.
    Words12,
    /// 24 words, from 256 bits of entropy.
    Words24,
}

/// Whether `Mnemonic::new` of `kaspa_bip32` accepts `phrase` for the English
/// wordlist: every piece between single spaces is a wordlist entry and the
/// checksum bits match.
pub uninterp spec fn bip39_english_valid(phrase: Seq<char>) -> bool;

/// The 64-byte seed that `Mnemonic::to_seed` of `kaspa_bip32` stretches out
/// of an accepted phrase and the empty passphrase.
pub uninterp spec fn bip39_seed(phrase: Seq<char>) -> Seq<u8>;

/// Calls `Mnemonic::random` of `kaspa_bip32` with the English wordlist and
/// hands out the text of the phrase it drew. The outcome depends on the
/// random source, so nothing is claimed about it: callers validate the text
/// themselves.
#[verifier::external_body]
fn draw_phrase(size: WordCount) -> (r: Result<String, kaspa_bip32::Error>) {
    let size = match size {
        WordCount::Words12 => kaspa_bip32::WordCount::Words12,
        WordCount::Words24 => kaspa_bip32::WordCount::Words24,
    };
    Ok(Mnemonic::random(size, Language::English)?.phrase().to_string())
}

/// Calls `Mnemonic::new` with the English wordlist and reports whether the
/// phrase was accepted; trusted to succeed exactly on the phrases that
/// [`bip39_english_valid`] names.
#[verifier::external_body]
fn check_phrase(phrase: &str) -> (r: Result<(), kaspa_bip32::Error>)
    ensures
        r is Ok <==> bip39_english_valid(phrase@),
{
    match Mnemonic::new(phrase, Language::English) {
        Ok(_) => Ok(()),
        Err(e) => Err(e),
    }
}

/// Rebuilds the accepted mnemonic from its text and calls `Mnemonic::to_seed`
/// with the empty passphrase; trusted to return the bytes that
/// [`bip39_seed`] names.
#[verifier::external_body]
fn phrase_seed(phrase: &str) -> (seed: Vec<u8>)
    requires
        bip39_english_valid(phrase@),
    ensures
        seed@ == bip39_seed(phrase@),
        seed@.len() == 64,
{
    Mnemonic::new(phrase, Language::English).unwrap().to_seed("").as_bytes().to_vec()
}

/// Whether `text` is the text of a phrase this library derives from: 12 or
/// 24 words, joined by single spaces, that pass wordlist and checksum
/// validation.
pub open spec fn phrase_valid(text: Seq<char>) -> bool {
    &&& (word_count(text) == 12 || word_count(text) == 24)
    &&& joined_words(text) == text
    &&& bip39_english_valid(text)
}

/// What parsing `text` yields. The text is split on whitespace into words.
/// Unless there are 12 or 24 of them the length is unsupported; unless the
/// words, joined by single spaces, pass wordlist and checksum validation the
/// mnemonic is invalid; else the joined words are the accepted phrase.
pub open spec fn parse_outcome(text: Seq<char>) -> Result<Seq<char>, DeriveError> {
    if word_count(text) != 12 && word_count(text) != 24 {
        Err(DeriveError::UnsupportedPhraseLength)
    } else if !bip39_english_valid(joined_words(text)) {
        Err(DeriveError::InvalidMnemonic)
    } else {
        Ok(joined_words(text))
    }
}

/// Parsing depends on the words alone: texts with the same words in the same
/// order, whatever whitespace separates or surrounds them, have the same
/// outcome.
pub proof fn lemma_parse_depends_on_words(first: Seq<char>, second: Seq<char>)
    requires
        joined_words(first) == joined_words(second),
    ensures
        parse_outcome(first) == parse_outcome(second),
{
    lemma_joined_words(first);
    lemma_joined_words(second);
}

/// An accepted phrase parses to itself.
pub proof fn lemma_accepted_phrase_parses_to_itself(text: Seq<char>)
    requires
        parse_outcome(text) is Ok,
    ensures
        phrase_valid(parse_outcome(text)->Ok_0),
        parse_outcome(parse_outcome(text)->Ok_0) == parse_outcome(text),
{
    lemma_joined_words(text);
    lemma_joined_words_idempotent(text);
}

/// What a request for a fresh phrase of `requested` words yields, given the
/// candidate text that the random source delivered, if any.
pub open spec fn generated_outcome(requested: u8, candidate: Option<Seq<char>>) -> Result<
    Seq<char>,
    DeriveError,
> {
    if requested != 12 && requested != 24 {
        Err(DeriveError::InvalidWordCount)
    } else {
        match candidate {
            Some(text) => if parse_outcome(text) is Ok && word_count(text) == requested {
                parse_outcome(text)
            } else {
                Err(DeriveError::GenerationFailure)
            },
            None => Err(DeriveError::GenerationFailure),
        }
    }
}

impl WordCount {
    /// The number of words of a phrase of this size.
    pub open spec fn words(self) -> u8 {
        match self {
            WordCount::Words12 => 12u8,
            WordCount::Words24 => 24u8,
        }
    }

    /// The size with `count` words, if there is one.
    pub fn from_count(count: u8) -> (r: Option<WordCount>)
        ensures
            r is Some <==> count == 12 || count == 24,
            r matches Some(size) ==> size.words() == count,
    {
        if count == 12 {
            Some(WordCount::Words12)
        } else if count == 24 {
            Some(WordCount::Words24)
        } else {
            None
        }
    }

    /// The size of the phrase `text`, by the number of its words; a phrase of
    /// another length is not supported.
    pub fn of_phrase(text: &str) -> (r: Result<WordCount, DeriveError>)
        ensures
            r matches Ok(size) ==> word_count(text@) == size.words(),
            r matches Err(e) ==> e == DeriveError::UnsupportedPhraseLength,
            r is Ok <==> word_count(text@) == 12 || word_count(text@) == 24,
    {
        let words = count_words(text);
        if words == 12 {
            Ok(WordCount::Words12)
        } else if words == 24 {
            Ok(WordCount::Words24)
        } else {
            Err(DeriveError::UnsupportedPhraseLength)
        }
    }
}

/// Raw seed bytes, the input of master key generation.
pub struct Seed {
    bytes: Vec<u8>,
}

impl View for Seed {
    type V = Seq<u8>;

    closed spec fn view(&self) -> Seq<u8> {
        self.bytes@
    }
}

impl Seed {
    /// Wraps raw bytes as a seed.
    pub fn from_bytes(bytes: Vec<u8>) -> (seed: Seed)
        ensures
            seed@ == bytes@,
    {
        Seed { bytes }
    }

    /// The seed's bytes.
    pub fn as_bytes(&self) -> (bytes: &Vec<u8>)
        ensures
            bytes@ == self@,
    {
        &self.bytes
    }
}

/// A validated English BIP39 mnemonic phrase of 12 or 24 words, held as the
/// words joined by single spaces.
pub struct MnemonicPhrase {
    text: String,
}

impl View for MnemonicPhrase {
    type V = Seq<char>;

    closed spec fn view(&self) -> Seq<char> {
        self.text@
    }
}

impl MnemonicPhrase {
    /// Every phrase value is valid.
    #[verifier::type_invariant]
    pub open spec fn well_formed(self) -> bool {
        phrase_valid(self@)
    }

    /// Validates `text`: it is split on whitespace into words, the words are
    /// counted, and then checked against wordlist and checksum. Only a phrase
    /// of 12 or 24 words is accepted; any other word count is an unsupported
    /// length, and words of supported number that fail wordlist or checksum
    /// validation are an invalid mnemonic. The accepted phrase holds the
    /// words joined by single spaces.
    pub fn parse(text: &str) -> (r: Result<MnemonicPhrase, DeriveError>)
        ensures
            match parse_outcome(text@) {
                Ok(accepted) => r matches Ok(p) && p@ == accepted && p.well_formed(),
                Err(e) => r == Err::<MnemonicPhrase, DeriveError>(e),
            },
            r is Ok <==> ((word_count(text@) == 12 || word_count(text@) == 24)
                && bip39_english_valid(joined_words(text@))),
            r == Err::<MnemonicPhrase, DeriveError>(DeriveError::UnsupportedPhraseLength) <==> (
            word_count(text@) != 12 && word_count(text@) != 24),
            r == Err::<MnemonicPhrase, DeriveError>(DeriveError::InvalidMnemonic) <==> ((
            word_count(text@) == 12 || word_count(text@) == 24) && !bip39_english_valid(
                joined_words(text@),
            )),
    {
        match WordCount::of_phrase(text) {
            Ok(_) => {
                let joined = join_words(text);
                proof {
                    lemma_joined_words(text@);
                    lemma_joined_words_idempotent(text@);
                }
                match check_phrase(joined.as_str()) {
                    Ok(_) => Ok(MnemonicPhrase { text: joined }),
                    Err(_) => Err(DeriveError::InvalidMnemonic),
                }
            },
            Err(e) => Err(e),
        }
    }

    /// Decides what a freshly drawn candidate is worth: it is accepted only
    /// if it validates and has the requested number of words.
    pub fn accept_generated(requested: u8, candidate: Option<&str>) -> (r: Result<
        MnemonicPhrase,
        DeriveError,
    >)
        ensures
            match generated_outcome(
                requested,
                match candidate {
                    Some(text) => Some(text@),
                    None => None,
                },
            ) {
                Ok(accepted) => r matches Ok(p) && p@ == accepted && p.well_formed(),
                Err(e) => r == Err::<MnemonicPhrase, DeriveError>(e),
            },
    {
        if requested != 12 && requested != 24 {
            return Err(DeriveError::InvalidWordCount);
        }
        match candidate {
            Some(text) => match MnemonicPhrase::parse(text) {
                Ok(phrase) => if count_words(text) == requested as usize {
                    Ok(phrase)
                } else {
                    Err(DeriveError::GenerationFailure)
                },
                Err(_) => Err(DeriveError::GenerationFailure),
            },
            None => Err(DeriveError::GenerationFailure),
        }
    }

    /// Draws a fresh phrase of `requested` words (12 for 128 bits of entropy,
    /// 24 for 256 bits) from the operating system's random source.
    pub fn generate(requested: u8) -> (r: Result<MnemonicPhrase, DeriveError>)
        ensures
            (requested != 12 && requested != 24) <==> r == Err::<MnemonicPhrase, DeriveError>(
                DeriveError::InvalidWordCount,
            ),
            r matches Ok(p) ==> p.well_formed() && word_count(p@) == requested,
            r matches Err(e) ==> e == DeriveError::InvalidWordCount || e
                == DeriveError::GenerationFailure,
    {
        let size = match WordCount::from_count(requested) {
            Some(size) => size,
            None => {
                return Err(DeriveError::InvalidWordCount);
            },
        };
        match draw_phrase(size) {
            Ok(text) => {
                proof {
                    lemma_joined_words(text@);
                }
                MnemonicPhrase::accept_generated(requested, Some(text.as_str()))
            },
            Err(_) => MnemonicPhrase::accept_generated(requested, None),
        }
    }

    /// The phrase as text.
    pub fn as_str(&self) -> (s: &str)
        ensures
            s@ == self@,
    {
        self.text.as_str()
    }

    /// Stretches the phrase, with the empty passphrase, into its 64-byte seed.
    pub fn to_seed(&self) -> (seed: Seed)
        ensures
            seed@ == bip39_seed(self@),
            seed@.len() == 64,
    {
        proof {
            use_type_invariant(self);
        }
        Seed::from_bytes(phrase_seed(self.text.as_str()))
    }
}

/// Generates a fresh phrase of `word_count` words and returns its text.
pub fn build_new_mnemonic(word_count: u8) -> (r: Result<String, DeriveError>)
    ensures
        (word_count != 12 && word_count != 24) <==> r == Err::<String, DeriveError>(
            DeriveError::InvalidWordCount,
        ),
        r matches Ok(text) ==> phrase_valid(text@) && crate::text::word_count(text@) == word_count,
        r matches Err(e) ==> e == DeriveError::InvalidWordCount || e
            == DeriveError::GenerationFailure,
{
    match MnemonicPhrase::generate(word_count) {
        Ok(phrase) => {
            proof {
                use_type_invariant(&phrase);
            }
            Ok(phrase.text)
        },
        Err(e) => Err(e),
    }
}

} // verus!
