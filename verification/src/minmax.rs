//! An ordered pair of clock bounds and its persisted form.

use vstd::prelude::*;

verus! {

/// A user-requested clock range: a lower and an upper bound in MHz.
#[derive(Clone, Copy, Debug, PartialEq, Eq)]
pub struct MinMax {
    pub min: u64,
    pub max: u64,
}

impl MinMax {
    /// An ordered pair keeps its bounds in order.
    pub open spec fn wf(self) -> bool {
        self.min <= self.max
    }
}

/// The persisted form of a clock range. The schema is version-tagged so a
/// later layout can be migrated; every known version stores the pair
/// directly.
#[derive(Clone, Copy, Debug, PartialEq, Eq)]
pub struct MinMaxJson {
    pub min: u64,
    pub max: u64,
}

/// What `min_max_from_json` returns for any known schema version.
pub open spec fn min_max_from_json_view(other: MinMaxJson, version: u64) -> MinMax {
    MinMax { min: other.min, max: other.max }
}

/// Migrate a persisted clock range of schema `version` to the in-memory
/// form. Every known version stores the pair directly, so the conversion
/// is the identity on the bounds.
pub fn min_max_from_json(other: MinMaxJson, version: u64) -> (r: MinMax)
    ensures
        r == min_max_from_json_view(other, version),
{
    MinMax { min: other.min, max: other.max }
}

/// What `min_max_to_json` returns.
pub open spec fn min_max_to_json_view(m: MinMax) -> MinMaxJson {
    MinMaxJson { min: m.min, max: m.max }
}

/// Convert an in-memory clock range to its persisted form.
pub fn min_max_to_json(m: MinMax) -> (r: MinMaxJson)
    ensures
        r == min_max_to_json_view(m),
{
    MinMaxJson { min: m.min, max: m.max }
}

/// Migrating a freshly-persisted range reproduces it, for every version.
pub proof fn lemma_min_max_round_trip(m: MinMax, version: u64)
    ensures
        min_max_from_json_view(min_max_to_json_view(m), version) == m,
{
}

} // verus!
