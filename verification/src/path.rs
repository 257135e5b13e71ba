//! Derivation paths: the segments of a path and the fixed address path
//! `m/44'/111111'/0'/0/i`.

use vstd::prelude::*;

verus! {

/// First child number of the hardened range.
pub const HARDENED_FLAG: u32 = 0x8000_0000;

/// Purpose segment of the address path (hardened).
pub const PURPOSE: u32 = 44;

/// Coin-type segment of the address path (hardened).
pub const COIN_TYPE: u32 = 111111;

/// Account segment of the address path (hardened).
pub const ACCOUNT: u32 = 0;

/// Change segment of the address path (not hardened): the external chain.
pub const CHANGE: u32 = 0;

/// One segment of a derivation path: the number of a child below its parent
/// and whether the step to it is hardened.
#[derive(Clone, Copy, Debug)]
pub struct PathSegment {
    index: u32,
    hardened: bool,
}

impl PathSegment {
    /// Every segment numbers its child below the hardened range.
    #[verifier::type_invariant]
    pub open spec fn well_formed(self) -> bool {
        self.spec_index() < HARDENED_FLAG
    }

    /// The number of the child, without the hardened marker.
    pub closed spec fn spec_index(self) -> u32 {
        self.index
    }

    /// Whether the step is hardened.
    pub closed spec fn spec_hardened(self) -> bool {
        self.hardened
    }

    /// The child number as BIP32 encodes it: hardened children occupy the
    /// upper half of the range.
    pub open spec fn number(self) -> u32 {
        if self.spec_hardened() {
            (self.spec_index() + HARDENED_FLAG) as u32
        } else {
            self.spec_index()
        }
    }

    /// A segment for child `index`; `None` if `index` does not fit below the
    /// hardened range.
    pub fn new(index: u32, hardened: bool) -> (r: Option<PathSegment>)
        ensures
            r is Some <==> index < HARDENED_FLAG,
            r matches Some(s) ==> s.well_formed() && s.spec_index() == index && s.spec_hardened()
                == hardened,
    {
        if index >= HARDENED_FLAG {
            None
        } else {
            Some(PathSegment { index, hardened })
        }
    }

    /// The number of the child, without the hardened marker.
    pub fn index(&self) -> (r: u32)
        ensures
            r == self.spec_index(),
            r < HARDENED_FLAG,
    {
        proof {
            use_type_invariant(self);
        }
        self.index
    }

    /// Whether the step is hardened.
    pub fn is_hardened(&self) -> (r: bool)
        ensures
            r == self.spec_hardened(),
    {
        self.hardened
    }

    /// The child number as BIP32 encodes it.
    pub fn to_number(&self) -> (r: u32)
        ensures
            r == self.number(),
            self.spec_hardened() <==> r >= HARDENED_FLAG,
    {
        proof {
            use_type_invariant(self);
        }
        if self.hardened {
            self.index + HARDENED_FLAG
        } else {
            self.index
        }
    }
}

/// The child numbers of the path `m/44'/111111'/0'/0/index`, or `None` if
/// `index` does not fit below the hardened range.
pub open spec fn address_path_numbers(index: u32) -> Option<Seq<u32>> {
    if index < HARDENED_FLAG {
        Some(
            seq![
                (PURPOSE + HARDENED_FLAG) as u32,
                (COIN_TYPE + HARDENED_FLAG) as u32,
                (ACCOUNT + HARDENED_FLAG) as u32,
                CHANGE,
                index,
            ],
        )
    } else {
        None
    }
}

/// The child numbers that `path` spells.
pub open spec fn path_numbers(path: Seq<PathSegment>) -> Seq<u32> {
    path.map_values(|s: PathSegment| s.number())
}

/// Builds the path `m/44'/111111'/0'/0/index`: purpose, coin type and account
/// hardened, change and address index not.
pub fn address_path(index: u32) -> (r: Option<Vec<PathSegment>>)
    ensures
        match address_path_numbers(index) {
            Some(numbers) => r matches Some(path) && path_numbers(path@) == numbers,
            None => r is None,
        },
{
    let purpose = PathSegment::new(PURPOSE, true);
    let coin_type = PathSegment::new(COIN_TYPE, true);
    let account = PathSegment::new(ACCOUNT, true);
    let change = PathSegment::new(CHANGE, false);
    let address = PathSegment::new(index, false);
    match (purpose, coin_type, account, change, address) {
        (Some(p), Some(c), Some(a), Some(x), Some(i)) => {
            let mut path: Vec<PathSegment> = Vec::new();
            path.push(p);
            path.push(c);
            path.push(a);
            path.push(x);
            path.push(i);
            Some(path)
        },
        _ => None,
    }
}

} // verus!
