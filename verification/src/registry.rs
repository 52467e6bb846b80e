//! The registry of hash algorithms and their one-byte identifiers.

use vstd::prelude::*;

verus! {

/// The hash algorithms that the format knows.
///
/// Every kind has one fixed identifier. The identifiers are part of the wire
/// format and never change. `SHA3` is another name for `SHA3512`: both have
/// the identifier `0x14`, and reading that identifier back gives `SHA3512`.
#[derive(PartialEq, Eq, Clone, Copy, Debug, Structural)]
pub enum HashTypes {
    Identity,
    SHA1,
    SHA2256,
    SHA2512,
    SHA3,
    SHA3512,
    SHA3384,
    SHA3256,
    SHA3224,
    Shake128,
    Shake256,
    Blake2b,
    Blake2s,
}

impl HashTypes {
    /// The identifier of a kind.
    pub open spec fn code(self) -> u8 {
        match self {
            HashTypes::Identity => 0x00,
            HashTypes::SHA1 => 0x11,
            HashTypes::SHA2256 => 0x12,
            HashTypes::SHA2512 => 0x13,
            HashTypes::SHA3 | HashTypes::SHA3512 => 0x14,
            HashTypes::SHA3384 => 0x15,
            HashTypes::SHA3256 => 0x16,
            HashTypes::SHA3224 => 0x17,
            HashTypes::Shake128 => 0x18,
            HashTypes::Shake256 => 0x19,
            HashTypes::Blake2b => 0x40,
            HashTypes::Blake2s => 0x41,
        }
    }

    /// The kind that stands for `self` on the wire: `SHA3512` for the alias
    /// `SHA3`, and the kind itself otherwise.
    pub open spec fn canonical(self) -> HashTypes {
        if self == HashTypes::SHA3 {
            HashTypes::SHA3512
        } else {
            self
        }
    }

    /// The kind that an identifier names, if it names one. The shared
    /// identifier `0x14` names `SHA3512`.
    pub open spec fn of_code(b: u8) -> Option<HashTypes> {
        match b {
            0x00u8 => Some(HashTypes::Identity),
            0x11u8 => Some(HashTypes::SHA1),
            0x12u8 => Some(HashTypes::SHA2256),
            0x13u8 => Some(HashTypes::SHA2512),
            0x14u8 => Some(HashTypes::SHA3512),
            0x15u8 => Some(HashTypes::SHA3384),
            0x16u8 => Some(HashTypes::SHA3256),
            0x17u8 => Some(HashTypes::SHA3224),
            0x18u8 => Some(HashTypes::Shake128),
            0x19u8 => Some(HashTypes::Shake256),
            0x40u8 => Some(HashTypes::Blake2b),
            0x41u8 => Some(HashTypes::Blake2s),
            _ => None,
        }
    }

    /// The identifier of this kind.
    pub fn to_u8(&self) -> (b: u8)
        ensures
            b == self.code(),
    {
        match *self {
            HashTypes::Identity => 0x00,
            HashTypes::SHA1 => 0x11,
            HashTypes::SHA2256 => 0x12,
            HashTypes::SHA2512 => 0x13,
            HashTypes::SHA3 | HashTypes::SHA3512 => 0x14,
            HashTypes::SHA3384 => 0x15,
            HashTypes::SHA3256 => 0x16,
            HashTypes::SHA3224 => 0x17,
            HashTypes::Shake128 => 0x18,
            HashTypes::Shake256 => 0x19,
            HashTypes::Blake2b => 0x40,
            HashTypes::Blake2s => 0x41,
        }
    }

    /// Reads a byte as an identifier. An unassigned byte gives `None`.
    pub fn from_u8(b: u8) -> (r: Option<HashTypes>)
        ensures
            r == HashTypes::of_code(b),
            r matches Some(k) ==> k.code() == b && k != HashTypes::SHA3,
            r is None ==> forall|k: HashTypes| k.code() != b,
    {
        match b {
            0x00 => Some(HashTypes::Identity),
            0x11 => Some(HashTypes::SHA1),
            0x12 => Some(HashTypes::SHA2256),
            0x13 => Some(HashTypes::SHA2512),
            0x14 => Some(HashTypes::SHA3512),
            0x15 => Some(HashTypes::SHA3384),
            0x16 => Some(HashTypes::SHA3256),
            0x17 => Some(HashTypes::SHA3224),
            0x18 => Some(HashTypes::Shake128),
            0x19 => Some(HashTypes::Shake256),
            0x40 => Some(HashTypes::Blake2b),
            0x41 => Some(HashTypes::Blake2s),
            _ => None,
        }
    }
}

/// Reading back the identifier of a kind gives the kind itself, except for
/// the alias `SHA3`, which comes back as `SHA3512`.
pub proof fn lemma_code_round_trip(kind: HashTypes)
    ensures
        HashTypes::of_code(kind.code()) == Some(kind.canonical()),
        kind != HashTypes::SHA3 ==> HashTypes::of_code(kind.code()) == Some(kind),
{
}

/// A byte names a kind exactly when it is the identifier of some kind. The
/// kind it names has that byte as its identifier and is never the alias `SHA3`.
pub proof fn lemma_of_code_inverse(b: u8)
    ensures
        HashTypes::of_code(b) matches Some(k) ==> k.code() == b && k.canonical() == k,
        HashTypes::of_code(b) is None <==> forall|k: HashTypes| k.code() != b,
{
    if HashTypes::of_code(b) is Some {
        assert(HashTypes::of_code(b).unwrap().code() == b);
    }
}

/// Two kinds share an identifier only if they are the same kind on the wire.
pub proof fn lemma_code_injective(a: HashTypes, b: HashTypes)
    requires
        a.code() == b.code(),
    ensures
        a.canonical() == b.canonical(),
{
}

} // verus!
