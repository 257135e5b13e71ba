//! The options of a run.

use vstd::prelude::*;

verus! {

/// The options of a run, as given on the command line.
#[derive(Debug, Clone)]
pub struct Args {
    /// File whose first line is the phrase to derive from.
    pub input_file: String,
    /// File that receives the report.
    pub output_file: String,
    /// Number of child indices beyond index 0.
    pub num_children: u32,
    /// Whether to generate a fresh phrase instead of reading one.
    pub new_mnemonic: bool,
    /// Whether a fresh phrase has 12 words instead of 24.
    pub short_word_count: bool,
}

/// What the options hold.
pub struct ArgsView {
    pub input_file: Seq<char>,
    pub output_file: Seq<char>,
    pub num_children: u32,
    pub new_mnemonic: bool,
    pub short_word_count: bool,
}

impl View for Args {
    type V = ArgsView;

    open spec fn view(&self) -> ArgsView {
        ArgsView {
            input_file: self.input_file@,
            output_file: self.output_file@,
            num_children: self.num_children,
            new_mnemonic: self.new_mnemonic,
            short_word_count: self.short_word_count,
        }
    }
}

/// The number of words of the fresh phrase that the options ask for: none
/// unless a fresh phrase is requested, else 12 for the short form and 24
/// otherwise.
pub open spec fn requested_words(args: ArgsView) -> Option<u8> {
    if !args.new_mnemonic {
        None
    } else if args.short_word_count {
        Some(12u8)
    } else {
        Some(24u8)
    }
}

impl Args {
    /// Assembles the options from the values found on the command line. An
    /// option that was not given gets its default: an empty file name, no
    /// children, a flag that is off.
    pub fn from_matches(
        input_file: Option<String>,
        output_file: Option<String>,
        num_children: Option<u32>,
        new_mnemonic: Option<bool>,
        short_word_count: Option<bool>,
    ) -> (args: Args)
        ensures
            args@.input_file == (match input_file {
                Some(name) => name@,
                None => Seq::<char>::empty(),
            }),
            args@.output_file == (match output_file {
                Some(name) => name@,
                None => Seq::<char>::empty(),
            }),
            args@.num_children == (match num_children {
                Some(n) => n,
                None => 0,
            }),
            args@.new_mnemonic == (new_mnemonic == Some(true)),
            args@.short_word_count == (short_word_count == Some(true)),
    {
        Args {
            input_file: match input_file {
                Some(name) => name,
                None => String::new(),
            },
            output_file: match output_file {
                Some(name) => name,
                None => String::new(),
            },
            num_children: match num_children {
                Some(n) => n,
                None => 0,
            },
            new_mnemonic: match new_mnemonic {
                Some(flag) => flag,
                None => false,
            },
            short_word_count: match short_word_count {
                Some(flag) => flag,
                None => false,
            },
        }
    }

    /// The number of words of the fresh phrase that the options ask for.
    pub fn requested_word_count(&self) -> (r: Option<u8>)
        ensures
            r == requested_words(self@),
    {
        if !self.new_mnemonic {
            None
        } else if self.short_word_count {
            Some(12)
        } else {
            Some(24)
        }
    }
}

} // verus!
