//! The unsigned integer widths that a table's entries can be stored in.

use vstd::arithmetic::power2::{lemma2_to64, lemma2_to64_rest, pow2};
use vstd::prelude::*;

verus! {

/// One of the four unsigned integer types that can hold a table's entries.
#[derive(Clone, Copy, Debug, PartialEq, Eq, Structural)]
pub enum TargetWidth {
    U8,
    U16,
    U32,
    U64,
}

impl TargetWidth {
    /// The number of bits of the type.
    pub open spec fn spec_bits(self) -> nat {
        match self {
            TargetWidth::U8 => 8,
            TargetWidth::U16 => 16,
            TargetWidth::U32 => 32,
            TargetWidth::U64 => 64,
        }
    }

    /// The largest value that the type can hold.
    pub open spec fn spec_max_value(self) -> u64 {
        match self {
            TargetWidth::U8 => 0xFF,
            TargetWidth::U16 => 0xFFFF,
            TargetWidth::U32 => 0xFFFF_FFFF,
            TargetWidth::U64 => 0xFFFF_FFFF_FFFF_FFFF,
        }
    }

    /// The largest value of a type is the one with all of its bits set: two
    /// to the power of its width, less one.
    pub proof fn lemma_max_value_is_all_bits_set(self)
        ensures
            self.spec_max_value() == pow2(self.spec_bits()) - 1,
    {
        lemma2_to64();
        lemma2_to64_rest();
    }

    /// The name by which the type is written.
    pub open spec fn spec_name(self) -> Seq<char> {
        match self {
            TargetWidth::U8 => "u8"@,
            TargetWidth::U16 => "u16"@,
            TargetWidth::U32 => "u32"@,
            TargetWidth::U64 => "u64"@,
        }
    }

    /// The width that a type name stands for, if it names one of the four.
    pub open spec fn spec_from_name(name: Seq<char>) -> Option<TargetWidth> {
        if name == "u8"@ {
            Some(TargetWidth::U8)
        } else if name == "u16"@ {
            Some(TargetWidth::U16)
        } else if name == "u32"@ {
            Some(TargetWidth::U32)
        } else if name == "u64"@ {
            Some(TargetWidth::U64)
        } else {
            None
        }
    }

    /// The four names are pairwise different, so each width is found again
    /// from its own name.
    pub proof fn lemma_name_round_trip(self)
        ensures
            Self::spec_from_name(self.spec_name()) == Some(self),
    {
        reveal_strlit("u8");
        reveal_strlit("u16");
        reveal_strlit("u32");
        reveal_strlit("u64");
        assert("u8"@.len() == 2);
        assert("u16"@[1] == '1');
        assert("u32"@[1] == '3');
        assert("u64"@[1] == '6');
    }

    /// A name is recognised only if it is the name of the width it gives.
    pub proof fn lemma_from_name_is_exact(name: Seq<char>)
        ensures
            Self::spec_from_name(name) matches Some(w) ==> w.spec_name() == name,
    {
    }

    /// The number of bits of the type.
    pub fn bits(self) -> (bits: u32)
        ensures
            bits == self.spec_bits(),
    {
        match self {
            TargetWidth::U8 => 8,
            TargetWidth::U16 => 16,
            TargetWidth::U32 => 32,
            TargetWidth::U64 => 64,
        }
    }

    /// The largest value that the type can hold.
    pub fn max_value(self) -> (max: u64)
        ensures
            max == self.spec_max_value(),
    {
        match self {
            TargetWidth::U8 => 0xFF,
            TargetWidth::U16 => 0xFFFF,
            TargetWidth::U32 => 0xFFFF_FFFF,
            TargetWidth::U64 => 0xFFFF_FFFF_FFFF_FFFF,
        }
    }

    /// The name by which the type is written.
    pub fn name(self) -> (name: &'static str)
        ensures
            name@ == self.spec_name(),
    {
        match self {
            TargetWidth::U8 => "u8",
            TargetWidth::U16 => "u16",
            TargetWidth::U32 => "u32",
            TargetWidth::U64 => "u64",
        }
    }

    /// Looks a type name up among the four supported ones.
    pub fn from_name(name: &str) -> (width: Option<TargetWidth>)
        ensures
            width == Self::spec_from_name(name@),
    {
        if name.eq("u8") {
            Some(TargetWidth::U8)
        } else if name.eq("u16") {
            Some(TargetWidth::U16)
        } else if name.eq("u32") {
            Some(TargetWidth::U32)
        } else if name.eq("u64") {
            Some(TargetWidth::U64)
        } else {
            None
        }
    }
}

/// The largest value of the integer type that `entry_type` names; `None` for
/// a name that stands for none of the four types.
pub open spec fn spec_integer_type_max_value(entry_type: Seq<char>) -> Option<u64> {
    match TargetWidth::spec_from_name(entry_type) {
        Some(width) => Some(width.spec_max_value()),
        None => None,
    }
}

/// The largest value that can be stored in the integer type that
/// `entry_type` names, or `None` where the name is none of `u8`, `u16`, `u32`
/// and `u64`.
pub fn get_integer_type_max_value(entry_type: &str) -> (max: Option<u64>)
    ensures
        max == spec_integer_type_max_value(entry_type@),
{
    match TargetWidth::from_name(entry_type) {
        Some(width) => Some(width.max_value()),
        None => None,
    }
}

} // verus!
