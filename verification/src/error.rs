//! The reasons for which a table configuration is rejected.

use crate::text::{append_decimal, decimal};
use vstd::prelude::*;

verus! {

/// Why a configuration was rejected. Each variant belongs to one check of the
/// validator; the first check that fails is the one reported.
#[derive(Clone, Copy, Debug, PartialEq, Eq, Structural)]
pub enum ValidationError {
    /// The exponent is not greater than zero.
    NonPositiveExponent,
    /// The table has fewer than three entries.
    TableTooSmall,
    /// The entry type is none of the supported unsigned integer types.
    UnsupportedTargetWidth,
    /// The output ceiling is larger than `limit`, the largest value of the
    /// entry type.
    OutputCeilingOverflow { ceiling: u64, limit: u64 },
}

impl ValidationError {
    /// The diagnostic for this error, for a request that named `entry_type`
    /// as the type of its entries.
    pub open spec fn spec_message(self, entry_type: Seq<char>) -> Seq<char> {
        match self {
            ValidationError::NonPositiveExponent => "Gamma value must be positive"@,
            ValidationError::TableTooSmall => "Size must be at least 3 to create a meaningful gamma table. Smaller sizes only have min and max values."@,
            ValidationError::UnsupportedTargetWidth => "Unsupported entry_type: "@ + entry_type
                + ". Supported types are: u8, u16, u32, u64"@,
            ValidationError::OutputCeilingOverflow { ceiling, limit } => "max_value ("@ + decimal(
                ceiling as nat,
            ) + ") exceeds the maximum value ("@ + decimal(limit as nat)
                + ") that can be stored in entry_type "@ + entry_type,
        }
    }

    /// Renders the diagnostic for this error. `entry_type` is the entry type
    /// as the request wrote it; it appears in the text of the two errors that
    /// concern it.
    pub fn message(&self, entry_type: &str) -> (text: String)
        ensures
            text@ == self.spec_message(entry_type@),
    {
        match self {
            ValidationError::NonPositiveExponent => String::from_str(
                "Gamma value must be positive",
            ),
            ValidationError::TableTooSmall => String::from_str(
                "Size must be at least 3 to create a meaningful gamma table. Smaller sizes only have min and max values.",
            ),
            ValidationError::UnsupportedTargetWidth => {
                let mut text = String::from_str("Unsupported entry_type: ");
                text.append(entry_type);
                text.append(". Supported types are: u8, u16, u32, u64");
                text
            },
            ValidationError::OutputCeilingOverflow { ceiling, limit } => {
                let mut text = String::from_str("max_value (");
                append_decimal(&mut text, *ceiling);
                text.append(") exceeds the maximum value (");
                append_decimal(&mut text, *limit);
                text.append(") that can be stored in entry_type ");
                text.append(entry_type);
                text
            },
        }
    }
}

} // verus!
