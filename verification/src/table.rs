//! Gamma tables, built from the rounded samples of the curve.
//!
//! The curve itself is evaluated outside this library, in floating point.
//! For each index the library says what is to be evaluated, as a
//! `SamplePoint`: the input `numerator / denominator`, the exponent and the
//! direction, and the scale. The sample at that index is the power
//! `input ^ e`, times the scale, rounded to the nearest integer, where `e` is
//! the exponent when encoding and its reciprocal when decoding. Here each
//! sample is limited to the ceiling and the table is put together.

use crate::config::{Mode, TableConfig, TableParams};
use vstd::prelude::*;

verus! {

/// What the curve is evaluated on for one entry of a table.
#[derive(Clone, Copy, Debug, PartialEq, Eq, Structural)]
pub struct SamplePoint {
    /// The index of the entry. The input of the curve is the quotient of
    /// `numerator` and `denominator`.
    pub numerator: usize,
    /// The last index of the table.
    pub denominator: usize,
    /// The exponent of the curve, as an IEEE-754 binary64 bit pattern.
    pub exponent_bits: u64,
    /// Whether the exponent is applied as it is or by its reciprocal.
    pub mode: Mode,
    /// The output ceiling, by which the value of the curve is multiplied.
    pub scale: u64,
}

/// The point for the entry at `index` of a table with the parameters
/// `params`: the indices are spread evenly from the input 0, at index 0, to
/// the input 1, at the last index.
pub open spec fn sample_point_at(params: TableParams, index: usize) -> SamplePoint
    recommends
        params.valid(),
        index < params.size,
{
    SamplePoint {
        numerator: index,
        denominator: (params.size - 1) as usize,
        exponent_bits: params.exponent_bits,
        mode: params.mode,
        scale: params.output_ceiling,
    }
}

/// The inputs of the curve lie between 0 and 1, both included: the
/// denominator is not zero, no numerator is above it, the first is 0 and the
/// last is the denominator itself.
pub proof fn lemma_inputs_span_the_unit_interval(params: TableParams, index: usize)
    requires
        params.valid(),
        index < params.size,
    ensures
        sample_point_at(params, index).denominator >= 2,
        sample_point_at(params, index).numerator <= sample_point_at(params, index).denominator,
        sample_point_at(params, 0).numerator == 0,
        sample_point_at(params, (params.size - 1) as usize).numerator == sample_point_at(
            params,
            index,
        ).denominator,
{
}

/// A sample limited to the ceiling.
pub open spec fn clamp(sample: u64, ceiling: u64) -> u64 {
    if sample <= ceiling {
        sample
    } else {
        ceiling
    }
}

/// The entries that a sequence of samples gives under a ceiling: one per
/// sample, in the same order, each limited to the ceiling.
pub open spec fn clamped(samples: Seq<u64>, ceiling: u64) -> Seq<u64> {
    Seq::new(samples.len(), |i: int| clamp(samples[i], ceiling))
}

/// A sequence in which no entry is smaller than the one before it.
pub open spec fn non_decreasing(entries: Seq<u64>) -> bool {
    forall|i: int, j: int| 0 <= i <= j < entries.len() ==> entries[i] <= entries[j]
}

impl TableConfig {
    /// What is to be evaluated for the entry at `index`, or `None` where the
    /// table of this configuration has no such index.
    pub fn sample_point(&self, index: usize) -> (point: Option<SamplePoint>)
        ensures
            point == (if index < self@.size {
                Some(sample_point_at(self@, index))
            } else {
                None
            }),
    {
        let params = self.params();
        if index < params.size {
            Some(
                SamplePoint {
                    numerator: index,
                    denominator: params.size - 1,
                    exponent_bits: params.exponent_bits,
                    mode: params.mode,
                    scale: params.output_ceiling,
                },
            )
        } else {
            None
        }
    }
}

/// Limits one sample to the ceiling.
pub fn clamp_sample(sample: u64, ceiling: u64) -> (entry: u64)
    ensures
        entry == clamp(sample, ceiling),
{
    if sample <= ceiling {
        sample
    } else {
        ceiling
    }
}

/// A finished table: as many entries as its configuration asks for, none
/// above the configuration's ceiling.
#[derive(Debug, PartialEq, Eq)]
pub struct GammaTable {
    config: TableConfig,
    entries: Vec<u64>,
}

impl View for GammaTable {
    type V = Seq<u64>;

    closed spec fn view(&self) -> Seq<u64> {
        self.entries@
    }
}

impl GammaTable {
    #[verifier::type_invariant]
    spec fn sound(&self) -> bool {
        &&& self.config@.valid()
        &&& self.entries@.len() == self.config@.size
        &&& forall|i: int|
            0 <= i < self.entries@.len() ==> #[trigger] self.entries@[i]
                <= self.config@.output_ceiling
    }

    /// The parameters that the table was generated for.
    pub closed spec fn spec_params(&self) -> TableParams {
        self.config@
    }

    /// The table is what `samples` give under the parameters `params`.
    pub open spec fn is_generated_from(&self, params: TableParams, samples: Seq<u64>) -> bool {
        &&& self.spec_params() == params
        &&& self@ == clamped(samples, params.output_ceiling)
    }

    /// The parameters that the table was generated for; they are sound, and
    /// the table has the size and keeps to the ceiling that they name.
    pub fn params(&self) -> (params: TableParams)
        ensures
            params == self.spec_params(),
            params.valid(),
            self@.len() == params.size,
            forall|i: int| 0 <= i < self@.len() ==> #[trigger] self@[i] <= params.output_ceiling,
    {
        proof {
            use_type_invariant(self);
        }
        self.config.params()
    }

    /// The number of entries.
    pub fn len(&self) -> (len: usize)
        ensures
            len == self@.len(),
            len == self.spec_params().size,
    {
        proof {
            use_type_invariant(self);
        }
        self.entries.len()
    }

    /// The entry at `index`, or `None` where the table has no such index.
    pub fn get(&self, index: usize) -> (entry: Option<u64>)
        ensures
            entry == (if index < self@.len() {
                Some(self@[index as int])
            } else {
                None
            }),
            entry matches Some(value) ==> value <= self.spec_params().output_ceiling,
    {
        proof {
            use_type_invariant(self);
        }
        if index < self.entries.len() {
            Some(self.entries[index])
        } else {
            None
        }
    }

    /// The entries, in order.
    pub fn entries(&self) -> (entries: &Vec<u64>)
        ensures
            entries@ == self@,
    {
        &self.entries
    }

    /// Gives the entries up, in order.
    pub fn into_entries(self) -> (entries: Vec<u64>)
        ensures
            entries@ == self@,
    {
        self.entries
    }
}

/// Builds the table of a configuration from the rounded samples of its
/// curve, one sample for each index. Every sample is limited to the
/// configuration's ceiling. Without exactly one sample for each entry there
/// is no table.
pub fn generate(config: &TableConfig, samples: &Vec<u64>) -> (table: Option<GammaTable>)
    ensures
        table is Some <==> samples@.len() == config@.size,
        table matches Some(t) ==> {
            &&& t.is_generated_from(config@, samples@)
            &&& t@.len() == config@.size
            &&& forall|i: int| 0 <= i < t@.len() ==> #[trigger] t@[i] <= config@.output_ceiling
        },
{
    let params = config.params();
    if samples.len() != params.size {
        return None;
    }
    let mut entries: Vec<u64> = Vec::with_capacity(samples.len());
    let mut index: usize = 0;
    while index < samples.len()
        invariant
            index <= samples@.len(),
            entries@.len() == index,
            forall|i: int|
                0 <= i < index ==> #[trigger] entries@[i] == clamp(
                    samples@[i],
                    params.output_ceiling,
                ),
        decreases samples@.len() - index,
    {
        entries.push(clamp_sample(samples[index], params.output_ceiling));
        index += 1;
    }
    assert(entries@ =~= clamped(samples@, params.output_ceiling));
    Some(GammaTable { config: *config, entries })
}

/// A table has one entry for each sample, and no entry is above the
/// ceiling, whatever the samples are.
pub proof fn lemma_entries_within_ceiling(
    table: GammaTable,
    params: TableParams,
    samples: Seq<u64>,
)
    requires
        table.is_generated_from(params, samples),
    ensures
        table@.len() == samples.len(),
        forall|i: int| 0 <= i < table@.len() ==> #[trigger] table@[i] <= params.output_ceiling,
{
}

/// Every entry of a table for sound parameters can be stored in the entry
/// type that the parameters name.
pub proof fn lemma_entries_fit_target_width(
    table: GammaTable,
    params: TableParams,
    samples: Seq<u64>,
)
    requires
        params.valid(),
        table.is_generated_from(params, samples),
    ensures
        forall|i: int|
            0 <= i < table@.len() ==> #[trigger] table@[i] <= params.target_width.spec_max_value(),
{
}

/// Limiting the samples keeps their order: where no sample is smaller than
/// the one before it, no entry is.
pub proof fn lemma_order_is_kept(table: GammaTable, params: TableParams, samples: Seq<u64>)
    requires
        table.is_generated_from(params, samples),
        non_decreasing(samples),
    ensures
        non_decreasing(table@),
{
}

/// The first entry is zero where the first sample is, and the last entry is
/// the ceiling where the last sample reaches it.
pub proof fn lemma_endpoints(table: GammaTable, params: TableParams, samples: Seq<u64>)
    requires
        params.valid(),
        samples.len() == params.size,
        table.is_generated_from(params, samples),
    ensures
        samples[0] == 0 ==> table@[0] == 0,
        samples[params.size - 1] >= params.output_ceiling ==> table@[params.size - 1]
            == params.output_ceiling,
{
}

/// Generation is repeatable: two tables from the same parameters and the
/// same samples have the same entries.
pub proof fn lemma_generation_is_repeatable(
    first: GammaTable,
    second: GammaTable,
    params: TableParams,
    samples: Seq<u64>,
)
    requires
        first.is_generated_from(params, samples),
        second.is_generated_from(params, samples),
    ensures
        first@ == second@,
        first.spec_params() == second.spec_params(),
{
}

} // verus!
