//! Table configurations and the validator that admits them.

use crate::error::ValidationError;
use crate::exponent::{
    exponent_is_positive, is_nan, is_positive, is_zero, lemma_positive_by_fields, sign_bit,
};
use crate::width::TargetWidth;
use vstd::prelude::*;

verus! {

/// The direction in which the curve is applied.
#[derive(Clone, Copy, Debug, PartialEq, Eq, Structural)]
pub enum Mode {
    /// The exponent is applied as it is: mid-tones get darker.
    Encode,
    /// The reciprocal of the exponent is applied: mid-tones get brighter.
    Decode,
}

impl Mode {
    /// The mode that an optional decoding flag selects: `Decode` for
    /// `Some(true)`, `Encode` otherwise.
    pub open spec fn spec_from_decoding(decoding: Option<bool>) -> Mode {
        if decoding == Some(true) {
            Mode::Decode
        } else {
            Mode::Encode
        }
    }

    /// The mode that an optional decoding flag selects; a request without the
    /// flag encodes.
    pub fn from_decoding(decoding: Option<bool>) -> (mode: Mode)
        ensures
            mode == Self::spec_from_decoding(decoding),
    {
        match decoding {
            Some(true) => Mode::Decode,
            _ => Mode::Encode,
        }
    }

    /// Whether the reciprocal of the exponent is applied.
    pub fn is_decode(self) -> (decode: bool)
        ensures
            decode == (self == Mode::Decode),
    {
        match self {
            Mode::Decode => true,
            Mode::Encode => false,
        }
    }
}

/// The parameters of a table, as plain values. Any combination can be
/// written down; whether it is sound is what `valid` says.
#[derive(Clone, Copy, Debug, PartialEq, Eq, Structural)]
pub struct TableParams {
    /// The exponent of the curve, as an IEEE-754 binary64 bit pattern.
    pub exponent_bits: u64,
    /// The number of entries.
    pub size: usize,
    /// The largest value that an entry may take.
    pub output_ceiling: u64,
    /// The integer type that the entries must fit into.
    pub target_width: TargetWidth,
    /// The direction in which the curve is applied.
    pub mode: Mode,
}

impl TableParams {
    /// The parameters are sound: a positive exponent, at least three
    /// entries, and a ceiling that the entry type can hold.
    pub open spec fn valid(self) -> bool {
        &&& is_positive(self.exponent_bits)
        &&& self.size >= 3
        &&& self.output_ceiling <= self.target_width.spec_max_value()
    }
}

/// The ceiling of a request: the one it names, or else the largest index of
/// the table.
pub open spec fn effective_ceiling(size: usize, output_ceiling: Option<u64>) -> u64
    recommends
        size >= 1,
{
    match output_ceiling {
        Some(ceiling) => ceiling,
        None => (size - 1) as u64,
    }
}

/// The verdict of the validator on a request: the error of the first check
/// that fails, or `None` where all four pass. The checks come in this order:
/// the exponent, the size, the entry type, the ceiling.
pub open spec fn validation_error(
    exponent_bits: u64,
    size: usize,
    output_ceiling: Option<u64>,
    entry_type: Seq<char>,
) -> Option<ValidationError> {
    if !is_positive(exponent_bits) {
        Some(ValidationError::NonPositiveExponent)
    } else if size < 3 {
        Some(ValidationError::TableTooSmall)
    } else {
        match TargetWidth::spec_from_name(entry_type) {
            None => Some(ValidationError::UnsupportedTargetWidth),
            Some(width) => {
                let ceiling = effective_ceiling(size, output_ceiling);
                let limit = width.spec_max_value();
                if ceiling > limit {
                    Some(ValidationError::OutputCeilingOverflow { ceiling, limit })
                } else {
                    None
                }
            },
        }
    }
}

/// The parameters that an accepted request stands for.
pub open spec fn accepted_params(
    exponent_bits: u64,
    size: usize,
    output_ceiling: Option<u64>,
    entry_type: Seq<char>,
    mode: Mode,
) -> TableParams
    recommends
        validation_error(exponent_bits, size, output_ceiling, entry_type) is None,
{
    TableParams {
        exponent_bits,
        size,
        output_ceiling: effective_ceiling(size, output_ceiling),
        target_width: TargetWidth::spec_from_name(entry_type)->0,
        mode,
    }
}

/// A request on which no check fails stands for sound parameters.
pub proof fn lemma_accepted_params_are_valid(
    exponent_bits: u64,
    size: usize,
    output_ceiling: Option<u64>,
    entry_type: Seq<char>,
    mode: Mode,
)
    requires
        validation_error(exponent_bits, size, output_ceiling, entry_type) is None,
    ensures
        accepted_params(exponent_bits, size, output_ceiling, entry_type, mode).valid(),
{
}

/// An exponent that is zero, negative or no number has the request refused
/// for its exponent, whatever else the request holds.
pub proof fn lemma_non_positive_exponent_is_refused(
    exponent_bits: u64,
    size: usize,
    output_ceiling: Option<u64>,
    entry_type: Seq<char>,
)
    requires
        is_zero(exponent_bits) || sign_bit(exponent_bits) == 1 || is_nan(exponent_bits),
    ensures
        validation_error(exponent_bits, size, output_ceiling, entry_type) == Some(
            ValidationError::NonPositiveExponent,
        ),
{
    lemma_positive_by_fields(exponent_bits);
}

/// With a positive exponent, a table of fewer than three entries is refused
/// for its size, and one of three entries or more is not.
pub proof fn lemma_size_three_is_the_smallest(
    exponent_bits: u64,
    size: usize,
    output_ceiling: Option<u64>,
    entry_type: Seq<char>,
)
    requires
        is_positive(exponent_bits),
    ensures
        size < 3 <==> validation_error(exponent_bits, size, output_ceiling, entry_type) == Some(
            ValidationError::TableTooSmall,
        ),
{
}

/// A configuration that has passed the validator. None exists that has not:
/// the fields are private and `validate` is the only constructor.
#[derive(Clone, Copy, Debug, PartialEq, Eq)]
pub struct TableConfig {
    params: TableParams,
}

impl View for TableConfig {
    type V = TableParams;

    closed spec fn view(&self) -> TableParams {
        self.params
    }
}

impl TableConfig {
    #[verifier::type_invariant]
    spec fn sound(&self) -> bool {
        self.params.valid()
    }

    /// Checks a request and, where it is sound, admits it as a
    /// configuration. `entry_type` is the name of the integer type of the
    /// entries; a request without a ceiling gets `size - 1`.
    pub fn validate(
        exponent_bits: u64,
        size: usize,
        output_ceiling: Option<u64>,
        entry_type: &str,
        mode: Mode,
    ) -> (verdict: Result<TableConfig, ValidationError>)
        ensures
            match verdict {
                Ok(config) => {
                    &&& validation_error(exponent_bits, size, output_ceiling, entry_type@) is None
                    &&& config@ == accepted_params(
                        exponent_bits,
                        size,
                        output_ceiling,
                        entry_type@,
                        mode,
                    )
                    &&& config@.valid()
                },
                Err(error) => validation_error(exponent_bits, size, output_ceiling, entry_type@)
                    == Some(error),
            },
    {
        if !exponent_is_positive(exponent_bits) {
            return Err(ValidationError::NonPositiveExponent);
        }
        if size < 3 {
            return Err(ValidationError::TableTooSmall);
        }
        let target_width = match TargetWidth::from_name(entry_type) {
            Some(width) => width,
            None => {
                return Err(ValidationError::UnsupportedTargetWidth);
            },
        };
        let ceiling = match output_ceiling {
            Some(ceiling) => ceiling,
            None => (size - 1) as u64,
        };
        let limit = target_width.max_value();
        if ceiling > limit {
            return Err(ValidationError::OutputCeilingOverflow { ceiling, limit });
        }
        Ok(
            TableConfig {
                params: TableParams {
                    exponent_bits,
                    size,
                    output_ceiling: ceiling,
                    target_width,
                    mode,
                },
            },
        )
    }

    /// The parameters of this configuration; they are sound.
    pub fn params(&self) -> (params: TableParams)
        ensures
            params == self@,
            params.valid(),
    {
        proof {
            use_type_invariant(self);
        }
        self.params
    }
}

} // verus!
