//! Errors reported by the derivation pipeline.

use vstd::prelude::*;
use vstd::string::*;
use crate::text::{decimal_string, decimal_text};

verus! {

/// Why a key could not be derived from a seed.
#[derive(Clone, Copy, Debug, PartialEq, Eq, Structural)]
pub enum KeyFailure {
    /// Expanding the seed into the master extended key failed.
    KeyGenerationFailure,
    /// Building the derivation path, or one step along it, failed.
    DerivationFailure,
}

/// Why the pipeline could not produce the record of one address index: the
/// phrase was refused, or a key could not be derived.
#[derive(Clone, Copy, Debug, PartialEq, Eq, Structural)]
pub enum ChildFailure {
    /// The phrase does not have 12 or 24 words.
    UnsupportedPhraseLength,
    /// The phrase failed wordlist or checksum validation.
    InvalidMnemonic,
    /// Expanding the seed into the master extended key failed.
    KeyGenerationFailure,
    /// Building the derivation path, or one step along it, failed.
    DerivationFailure,
}

/// Errors of mnemonic handling, key derivation and the pipeline built on them.
#[derive(Clone, Copy, Debug, PartialEq, Eq, Structural)]
pub enum DeriveError {
    /// A fresh mnemonic was requested with a word count other than 12 or 24.
    InvalidWordCount,
    /// A supplied phrase does not have 12 or 24 words.
    UnsupportedPhraseLength,
    /// A supplied phrase failed wordlist or checksum validation.
    InvalidMnemonic,
    /// The random source did not deliver a usable phrase.
    GenerationFailure,
    /// Expanding the seed into the master extended key failed.
    KeyGenerationFailure,
    /// Building the derivation path, or one step along it, failed.
    DerivationFailure,
    /// The pipeline stopped at `index`, for the reason given by `cause`.
    ChildDerivationFailed { index: u32, cause: ChildFailure },
}

impl ChildFailure {
    /// What the failure says to the user.
    pub open spec fn text(self) -> Seq<char> {
        match self {
            ChildFailure::UnsupportedPhraseLength => "Phrase must have 12 or 24 words"@,
            ChildFailure::InvalidMnemonic => "Failed to create mnemonic"@,
            ChildFailure::KeyGenerationFailure => "Failed to create the master key"@,
            ChildFailure::DerivationFailure => "Failed to derive the child key"@,
        }
    }

    /// What the failure says to the user.
    pub fn message(&self) -> (r: String)
        ensures
            r@ == self.text(),
    {
        match self {
            ChildFailure::UnsupportedPhraseLength => "Phrase must have 12 or 24 words".to_owned(),
            ChildFailure::InvalidMnemonic => "Failed to create mnemonic".to_owned(),
            ChildFailure::KeyGenerationFailure => "Failed to create the master key".to_owned(),
            ChildFailure::DerivationFailure => "Failed to derive the child key".to_owned(),
        }
    }

    /// The same failure as a stand-alone error.
    pub open spec fn as_error(self) -> DeriveError {
        match self {
            ChildFailure::UnsupportedPhraseLength => DeriveError::UnsupportedPhraseLength,
            ChildFailure::InvalidMnemonic => DeriveError::InvalidMnemonic,
            ChildFailure::KeyGenerationFailure => DeriveError::KeyGenerationFailure,
            ChildFailure::DerivationFailure => DeriveError::DerivationFailure,
        }
    }

    /// Executable form of [`ChildFailure::as_error`].
    pub fn to_error(self) -> (e: DeriveError)
        ensures
            e == self.as_error(),
    {
        match self {
            ChildFailure::UnsupportedPhraseLength => DeriveError::UnsupportedPhraseLength,
            ChildFailure::InvalidMnemonic => DeriveError::InvalidMnemonic,
            ChildFailure::KeyGenerationFailure => DeriveError::KeyGenerationFailure,
            ChildFailure::DerivationFailure => DeriveError::DerivationFailure,
        }
    }
}

impl KeyFailure {
    /// The same failure as the cause of a failed child.
    pub open spec fn as_child_failure(self) -> ChildFailure {
        match self {
            KeyFailure::KeyGenerationFailure => ChildFailure::KeyGenerationFailure,
            KeyFailure::DerivationFailure => ChildFailure::DerivationFailure,
        }
    }

    /// Executable form of [`KeyFailure::as_child_failure`].
    pub fn to_child_failure(self) -> (cause: ChildFailure)
        ensures
            cause == self.as_child_failure(),
    {
        match self {
            KeyFailure::KeyGenerationFailure => ChildFailure::KeyGenerationFailure,
            KeyFailure::DerivationFailure => ChildFailure::DerivationFailure,
        }
    }

    /// The same failure as a stand-alone error.
    pub open spec fn as_error(self) -> DeriveError {
        self.as_child_failure().as_error()
    }

    /// Executable form of [`KeyFailure::as_error`].
    pub fn to_error(self) -> (e: DeriveError)
        ensures
            e == self.as_error(),
    {
        self.to_child_failure().to_error()
    }

    /// What the failure says to the user.
    pub open spec fn text(self) -> Seq<char> {
        self.as_child_failure().text()
    }

    /// What the failure says to the user.
    pub fn message(&self) -> (r: String)
        ensures
            r@ == self.text(),
    {
        self.to_child_failure().message()
    }
}

impl DeriveError {
    /// The error as the cause of a failed child, if it can be one: the two
    /// refusals of a phrase and the two failures of key derivation.
    pub open spec fn as_child_failure(self) -> Option<ChildFailure> {
        match self {
            DeriveError::UnsupportedPhraseLength => Some(ChildFailure::UnsupportedPhraseLength),
            DeriveError::InvalidMnemonic => Some(ChildFailure::InvalidMnemonic),
            DeriveError::KeyGenerationFailure => Some(ChildFailure::KeyGenerationFailure),
            DeriveError::DerivationFailure => Some(ChildFailure::DerivationFailure),
            _ => None,
        }
    }

    /// Executable form of [`DeriveError::as_child_failure`].
    pub fn to_child_failure(self) -> (cause: Option<ChildFailure>)
        ensures
            cause == self.as_child_failure(),
    {
        match self {
            DeriveError::UnsupportedPhraseLength => Some(ChildFailure::UnsupportedPhraseLength),
            DeriveError::InvalidMnemonic => Some(ChildFailure::InvalidMnemonic),
            DeriveError::KeyGenerationFailure => Some(ChildFailure::KeyGenerationFailure),
            DeriveError::DerivationFailure => Some(ChildFailure::DerivationFailure),
            _ => None,
        }
    }

    /// The error as the failure of the child at `index`: an error that can be
    /// the cause of a failed child is wrapped with the index; any other error
    /// stays as it is.
    pub open spec fn at_child(self, index: u32) -> DeriveError {
        match self.as_child_failure() {
            Some(cause) => DeriveError::ChildDerivationFailed { index, cause },
            None => self,
        }
    }

    /// Executable form of [`DeriveError::at_child`].
    pub fn wrap_at_child(self, index: u32) -> (e: DeriveError)
        ensures
            e == self.at_child(index),
    {
        match self.to_child_failure() {
            Some(cause) => DeriveError::ChildDerivationFailed { index, cause },
            None => self,
        }
    }

    /// What the error says to the user: the operation that failed, and for a
    /// failed child its index and the cause.
    pub open spec fn text(self) -> Seq<char> {
        match self {
            DeriveError::InvalidWordCount => "Incorrect word count choice"@,
            DeriveError::UnsupportedPhraseLength => ChildFailure::UnsupportedPhraseLength.text(),
            DeriveError::InvalidMnemonic => ChildFailure::InvalidMnemonic.text(),
            DeriveError::GenerationFailure => "Failed to generate a random seed phrase"@,
            DeriveError::KeyGenerationFailure => ChildFailure::KeyGenerationFailure.text(),
            DeriveError::DerivationFailure => ChildFailure::DerivationFailure.text(),
            DeriveError::ChildDerivationFailed { index, cause } => "Failed to create child "@
                + decimal_text(index as nat) + ": "@ + cause.text(),
        }
    }

    /// What the error says to the user.
    pub fn message(&self) -> (r: String)
        ensures
            r@ == self.text(),
    {
        match self {
            DeriveError::InvalidWordCount => "Incorrect word count choice".to_owned(),
            DeriveError::UnsupportedPhraseLength => ChildFailure::UnsupportedPhraseLength.message(),
            DeriveError::InvalidMnemonic => ChildFailure::InvalidMnemonic.message(),
            DeriveError::GenerationFailure => "Failed to generate a random seed phrase".to_owned(),
            DeriveError::KeyGenerationFailure => ChildFailure::KeyGenerationFailure.message(),
            DeriveError::DerivationFailure => ChildFailure::DerivationFailure.message(),
            DeriveError::ChildDerivationFailed { index, cause } => {
                let mut text = "Failed to create child ".to_owned();
                text.append(decimal_string(*index).as_str());
                text.append(": ");
                text.append(cause.message().as_str());
                text
            },
        }
    }
}

} // verus!
