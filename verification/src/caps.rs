//! Capability descriptors: which knobs a GPU backend supports and their
//! legal ranges, plus the effective-limits snapshot handed to UI consumers.

use vstd::prelude::*;

verus! {

/// Default lower bound for a power knob whose descriptor omits a minimum.
pub const PPT_DEFAULT_MIN: u64 = 0;
/// Default upper bound for a power knob whose descriptor omits a maximum,
/// in microwatts.
pub const PPT_DEFAULT_MAX: u64 = 15_000_000;
/// Default lower bound for a clock knob whose descriptor omits a minimum.
pub const CLOCK_DEFAULT_MIN: u64 = 0;
/// Default upper bound for a clock knob whose descriptor omits a maximum,
/// in MHz.
pub const CLOCK_DEFAULT_MAX: u64 = 3_000;
/// Default step size for power knobs when the descriptor gives none.
pub const PPT_DEFAULT_STEP: u64 = 1_000_000;
/// Default step size for the TDP knobs when the descriptor gives none.
pub const TDP_DEFAULT_STEP: u64 = 42;
/// Default step size for the clock knobs when the descriptor gives none.
pub const CLOCK_DEFAULT_STEP: u64 = 100;

/// An optionally-bounded inclusive range for one knob.
///
/// `None` for a bound means the descriptor leaves that side open; clamping
/// then falls back to `0` below and `u64::MAX` above.
#[derive(Clone, Copy, Debug, PartialEq, Eq)]
pub struct RangeBound {
    pub min: Option<u64>,
    pub max: Option<u64>,
}

impl RangeBound {
    /// When both bounds are present they must be ordered.
    pub open spec fn wf(self) -> bool {
        self.min is Some && self.max is Some ==> self.min->0 <= self.max->0
    }

    /// The lower bound used for clamping.
    pub open spec fn lo(self) -> u64 {
        self.min.unwrap_or(0)
    }

    /// The upper bound used for clamping.
    pub open spec fn hi(self) -> u64 {
        self.max.unwrap_or(u64::MAX)
    }
}

/// What `clamp_to` returns: `v` constrained to `[b.lo(), b.hi()]`.
pub open spec fn clamp_view(v: u64, b: RangeBound) -> u64 {
    if v < b.lo() {
        b.lo()
    } else if v > b.hi() {
        b.hi()
    } else {
        v
    }
}

/// Constrain a requested value to the inclusive range advertised by `b`.
pub fn clamp_to(v: u64, b: RangeBound) -> (r: u64)
    requires
        b.wf(),
    ensures
        r == clamp_view(v, b),
        b.lo() <= r <= b.hi(),
{
    let lo: u64 = match b.min {
        Some(m) => m,
        None => 0,
    };
    let hi: u64 = match b.max {
        Some(m) => m,
        None => u64::MAX,
    };
    if v < lo {
        lo
    } else if v > hi {
        hi
    } else {
        v
    }
}

/// Decide whether an optional range is ordered when present.
fn range_ok(b: Option<RangeBound>) -> (r: bool)
    ensures
        r == (b is Some ==> b->0.wf()),
{
    match b {
        Some(rb) => match (rb.min, rb.max) {
            (Some(lo), Some(hi)) => lo <= hi,
            _ => true,
        },
        None => true,
    }
}

/// Immutable description of which GPU knobs exist and their legal ranges
/// and step sizes. `None` means the backend does not support that knob.
#[derive(Clone, Copy, Debug, PartialEq, Eq)]
pub struct CapabilityDescriptor {
    pub fast_ppt: Option<RangeBound>,
    pub slow_ppt: Option<RangeBound>,
    pub tdp: Option<RangeBound>,
    pub tdp_boost: Option<RangeBound>,
    pub clock_min: Option<RangeBound>,
    pub clock_max: Option<RangeBound>,
    pub ppt_step: Option<u64>,
    pub tdp_step: Option<u64>,
    pub clock_step: Option<u64>,
}

impl CapabilityDescriptor {
    /// Every range that is present is ordered, and when both clock ranges
    /// are present the clock-min range lies at or below the clock-max
    /// range, bound for bound. Without the latter, clamping an ordered
    /// clock request against the two ranges could cross the pair, breaking
    /// the ordered-pair shape of the stored clock range.
    pub open spec fn wf(self) -> bool {
        &&& self.fast_ppt is Some ==> self.fast_ppt->0.wf()
        &&& self.slow_ppt is Some ==> self.slow_ppt->0.wf()
        &&& self.tdp is Some ==> self.tdp->0.wf()
        &&& self.tdp_boost is Some ==> self.tdp_boost->0.wf()
        &&& self.clock_min is Some ==> self.clock_min->0.wf()
        &&& self.clock_max is Some ==> self.clock_max->0.wf()
        &&& self.clock_min is Some && self.clock_max is Some ==> self.clock_min->0.lo()
            <= self.clock_max->0.lo() && self.clock_min->0.hi() <= self.clock_max->0.hi()
    }

    /// Decide well-formedness as `wf` defines it.
    pub fn check_wf(&self) -> (r: bool)
        ensures
            r == self.wf(),
    {
        let clocks_compatible: bool = match (self.clock_min, self.clock_max) {
            (Some(a), Some(b)) => a.min.unwrap_or(0) <= b.min.unwrap_or(0) && a.max.unwrap_or(
                u64::MAX,
            ) <= b.max.unwrap_or(u64::MAX),
            _ => true,
        };
        range_ok(self.fast_ppt) && range_ok(self.slow_ppt) && range_ok(self.tdp) && range_ok(
            self.tdp_boost,
        ) && range_ok(self.clock_min) && range_ok(self.clock_max) && clocks_compatible
    }

    /// A descriptor that supports no knob at all.
    pub fn empty() -> (r: Self)
        ensures
            r == (CapabilityDescriptor {
                fast_ppt: None,
                slow_ppt: None,
                tdp: None,
                tdp_boost: None,
                clock_min: None,
                clock_max: None,
                ppt_step: None,
                tdp_step: None,
                clock_step: None,
            }),
            r.wf(),
    {
        CapabilityDescriptor {
            fast_ppt: None,
            slow_ppt: None,
            tdp: None,
            tdp_boost: None,
            clock_min: None,
            clock_max: None,
            ppt_step: None,
            tdp_step: None,
            clock_step: None,
        }
    }
}

/// A fully-populated inclusive range in an effective-limits snapshot.
#[derive(Clone, Copy, Debug, PartialEq, Eq)]
pub struct RangeLimit {
    pub min: u64,
    pub max: u64,
}

/// Read-only snapshot of a backend's effective ranges, with every supported
/// knob fully populated from the descriptor or from the design defaults.
#[derive(Clone, Copy, Debug, PartialEq, Eq)]
pub struct CapabilitySnapshot {
    pub fast_ppt_limits: Option<RangeLimit>,
    pub slow_ppt_limits: Option<RangeLimit>,
    pub ppt_step: u64,
    pub tdp_limits: Option<RangeLimit>,
    pub tdp_boost_limits: Option<RangeLimit>,
    pub tdp_step: u64,
    pub clock_min_limits: Option<RangeLimit>,
    pub clock_max_limits: Option<RangeLimit>,
    pub clock_step: u64,
    pub memory_control_capable: bool,
}

/// A snapshot entry for one power knob: absent knobs stay `None`, present
/// knobs get missing bounds filled with the power defaults.
pub open spec fn ppt_entry_view(b: Option<RangeBound>) -> Option<RangeLimit> {
    match b {
        Some(r) => Some(
            RangeLimit {
                min: r.min.unwrap_or(PPT_DEFAULT_MIN),
                max: r.max.unwrap_or(PPT_DEFAULT_MAX),
            },
        ),
        None => None,
    }
}

/// A snapshot entry for one clock knob, filled with the clock defaults.
pub open spec fn clock_entry_view(b: Option<RangeBound>) -> Option<RangeLimit> {
    match b {
        Some(r) => Some(
            RangeLimit {
                min: r.min.unwrap_or(CLOCK_DEFAULT_MIN),
                max: r.max.unwrap_or(CLOCK_DEFAULT_MAX),
            },
        ),
        None => None,
    }
}

/// The snapshot the generic backend derives from a descriptor: per-knob
/// defaults as in `ppt_entry_view` / `clock_entry_view`, default step sizes,
/// and no memory control.
pub open spec fn snapshot_view(caps: CapabilityDescriptor) -> CapabilitySnapshot {
    CapabilitySnapshot {
        fast_ppt_limits: ppt_entry_view(caps.fast_ppt),
        slow_ppt_limits: ppt_entry_view(caps.slow_ppt),
        ppt_step: caps.ppt_step.unwrap_or(PPT_DEFAULT_STEP),
        tdp_limits: ppt_entry_view(caps.tdp),
        tdp_boost_limits: ppt_entry_view(caps.tdp_boost),
        tdp_step: caps.tdp_step.unwrap_or(TDP_DEFAULT_STEP),
        clock_min_limits: clock_entry_view(caps.clock_min),
        clock_max_limits: clock_entry_view(caps.clock_max),
        clock_step: caps.clock_step.unwrap_or(CLOCK_DEFAULT_STEP),
        memory_control_capable: false,
    }
}

/// Build one power-knob snapshot entry.
fn ppt_entry(b: Option<RangeBound>) -> (r: Option<RangeLimit>)
    ensures
        r == ppt_entry_view(b),
{
    match b {
        Some(rb) => Some(
            RangeLimit {
                min: rb.min.unwrap_or(PPT_DEFAULT_MIN),
                max: rb.max.unwrap_or(PPT_DEFAULT_MAX),
            },
        ),
        None => None,
    }
}

/// Build one clock-knob snapshot entry.
fn clock_entry(b: Option<RangeBound>) -> (r: Option<RangeLimit>)
    ensures
        r == clock_entry_view(b),
{
    match b {
        Some(rb) => Some(
            RangeLimit {
                min: rb.min.unwrap_or(CLOCK_DEFAULT_MIN),
                max: rb.max.unwrap_or(CLOCK_DEFAULT_MAX),
            },
        ),
        None => None,
    }
}

/// Compute the effective-limits snapshot for a descriptor.
///
/// Every entry is either `None` (knob unsupported) or fully populated, with
/// missing bounds and steps replaced by the design defaults.
pub fn snapshot_of(caps: &CapabilityDescriptor) -> (r: CapabilitySnapshot)
    ensures
        r == snapshot_view(*caps),
        r.fast_ppt_limits is Some <==> caps.fast_ppt is Some,
        r.slow_ppt_limits is Some <==> caps.slow_ppt is Some,
        r.tdp_limits is Some <==> caps.tdp is Some,
        r.tdp_boost_limits is Some <==> caps.tdp_boost is Some,
        r.clock_min_limits is Some <==> caps.clock_min is Some,
        r.clock_max_limits is Some <==> caps.clock_max is Some,
        !r.memory_control_capable,
{
    CapabilitySnapshot {
        fast_ppt_limits: ppt_entry(caps.fast_ppt),
        slow_ppt_limits: ppt_entry(caps.slow_ppt),
        ppt_step: caps.ppt_step.unwrap_or(PPT_DEFAULT_STEP),
        tdp_limits: ppt_entry(caps.tdp),
        tdp_boost_limits: ppt_entry(caps.tdp_boost),
        tdp_step: caps.tdp_step.unwrap_or(TDP_DEFAULT_STEP),
        clock_min_limits: clock_entry(caps.clock_min),
        clock_max_limits: clock_entry(caps.clock_max),
        clock_step: caps.clock_step.unwrap_or(CLOCK_DEFAULT_STEP),
        memory_control_capable: false,
    }
}

} // verus!
