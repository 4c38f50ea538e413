//! The polymorphic capability contract shared by GPU backends, and the
//! lifecycle hooks an external scheduler drives.

use vstd::prelude::*;

use crate::caps::CapabilityDescriptor;
use crate::caps::CapabilitySnapshot;
use crate::minmax::MinMax;
use crate::persist::Driver;
use crate::persist::GpuJson;
use crate::persist::RecordView;
use crate::persist::SettingError;

verus! {

/// How a requested clock range is reconciled against the two clock
/// capability ranges.
///
/// `IndependentRanges` clamps the requested minimum against the clock-min
/// range and the requested maximum against the clock-max range, each on its
/// own. `PinToUpperBound` clamps the minimum the same way but forces the
/// maximum to the effective upper bound of the clock-max range; it is kept
/// as a compatibility policy until the intended reconciliation of the upper
/// bound is settled against real hardware.
#[derive(Clone, Copy, Debug, PartialEq, Eq)]
pub enum ClockClampPolicy {
    IndependentRanges,
    PinToUpperBound,
}

/// The mathematical state of a settings entity: every requested value, the
/// resolved device path, the persisted root override, and the clock
/// reconciliation policy in force.
#[verifier::ext_equal]
pub struct SettingsView {
    pub preset: Option<u64>,
    pub stapm_ppt: Option<u64>,
    pub fast_ppt: Option<u64>,
    pub slow_ppt: Option<u64>,
    pub clock_limits: Option<MinMax>,
    pub slow_memory: bool,
    pub device_path: Seq<char>,
    pub root_hint: Option<Seq<char>>,
    pub clock_policy: ClockClampPolicy,
}

/// A settings state is gated by a descriptor when no field holds a value
/// for a knob the descriptor does not support.
pub open spec fn settings_gated(s: SettingsView, caps: CapabilityDescriptor) -> bool {
    &&& s.stapm_ppt is Some ==> caps.tdp is Some
    &&& s.fast_ppt is Some ==> caps.fast_ppt is Some
    &&& s.slow_ppt is Some ==> caps.slow_ppt is Some
    &&& s.clock_limits is Some ==> caps.clock_min is Some && caps.clock_max is Some
}

/// A settings state is clamped under a descriptor when, beyond being
/// gated, every value it holds lies within the effective bounds of its
/// knob. `from_limits` establishes this and every mutator preserves it,
/// while `from_json_and_limits` promises only `settings_gated`, since it
/// keeps persisted values as they stand.
pub open spec fn settings_clamped(s: SettingsView, caps: CapabilityDescriptor) -> bool {
    &&& s.stapm_ppt is Some ==> caps.tdp is Some && caps.tdp->0.lo() <= s.stapm_ppt->0
        <= caps.tdp->0.hi()
    &&& s.fast_ppt is Some ==> caps.fast_ppt is Some && caps.fast_ppt->0.lo() <= s.fast_ppt->0
        <= caps.fast_ppt->0.hi()
    &&& s.slow_ppt is Some ==> caps.slow_ppt is Some && caps.slow_ppt->0.lo() <= s.slow_ppt->0
        <= caps.slow_ppt->0.hi()
    &&& s.clock_limits is Some ==> caps.clock_min is Some && caps.clock_max is Some
        && caps.clock_min->0.lo() <= s.clock_limits->0.min <= caps.clock_min->0.hi()
        && caps.clock_max->0.lo() <= s.clock_limits->0.max <= caps.clock_max->0.hi()
}

/// A settings state keeps its stored clock range ordered, as the pair's
/// definition demands: a held range has min at most max.
pub open spec fn clock_ordered(s: SettingsView) -> bool {
    s.clock_limits is Some ==> s.clock_limits->0.wf()
}

/// The uniform contract every GPU backend presents: capability queries,
/// clamped mutation, and serialization, all specified against the backend's
/// own advertised descriptor.
pub trait CapabilityInterface: Sized {
    /// The capability descriptor this backend advertises.
    spec fn caps(&self) -> CapabilityDescriptor;

    /// The current settings state.
    spec fn current(&self) -> SettingsView;

    /// The backend's well-formedness condition; every mutator preserves it.
    spec fn inv(&self) -> bool;

    /// The fixed tag this backend reports.
    spec fn provider_spec() -> Driver;

    /// The effective-limits snapshot this backend derives from its
    /// descriptor.
    spec fn snapshot_spec(&self) -> CapabilitySnapshot;

    /// The persistence record this backend serializes to.
    spec fn record_spec(&self) -> RecordView;

    /// How this backend reconciles a PPT request against a state.
    spec fn set_ppt_spec(
        pre: SettingsView,
        caps: CapabilityDescriptor,
        fast: Option<u64>,
        slow: Option<u64>,
    ) -> SettingsView;

    /// How this backend reconciles a combined TDP and PPT request.
    spec fn set_ppt_with_tdp_spec(
        pre: SettingsView,
        caps: CapabilityDescriptor,
        tdp: Option<u64>,
        fast: Option<u64>,
        slow: Option<u64>,
    ) -> SettingsView;

    /// How this backend reconciles a clock-range request.
    spec fn set_clock_limits_spec(
        pre: SettingsView,
        caps: CapabilityDescriptor,
        limits: Option<MinMax>,
    ) -> SettingsView;

    /// Query the effective ranges for display: each supported knob fully
    /// populated, each unsupported knob `None`.
    fn effective_limits(&self) -> (r: CapabilitySnapshot)
        requires
            self.inv(),
        ensures
            r == self.snapshot_spec(),
            (r.fast_ppt_limits is Some) == (self.caps().fast_ppt is Some),
            (r.slow_ppt_limits is Some) == (self.caps().slow_ppt is Some),
            (r.tdp_limits is Some) == (self.caps().tdp is Some),
            (r.tdp_boost_limits is Some) == (self.caps().tdp_boost is Some),
            (r.clock_min_limits is Some) == (self.caps().clock_min is Some),
            (r.clock_max_limits is Some) == (self.caps().clock_max is Some),
    ;

    /// Report which backend this is.
    fn provider(&self) -> (r: Driver)
        ensures
            r == Self::provider_spec(),
    ;

    /// Serialize the current state into the persistence schema.
    fn to_persisted_record(&self) -> (r: GpuJson)
        requires
            self.inv(),
        ensures
            r@ == self.record_spec(),
    ;

    /// Request fast and slow PPT values; each is clamped to capability, and
    /// a request for an unsupported knob is dropped.
    fn set_ppt(&mut self, fast: Option<u64>, slow: Option<u64>)
        requires
            old(self).inv(),
        ensures
            final(self).inv(),
            final(self).caps() == old(self).caps(),
            final(self).current() == Self::set_ppt_spec(
                old(self).current(),
                old(self).caps(),
                fast,
                slow,
            ),
    ;

    /// Request TDP, fast and slow PPT values in one batch.
    fn set_ppt_with_tdp(&mut self, tdp: Option<u64>, fast: Option<u64>, slow: Option<u64>)
        requires
            old(self).inv(),
        ensures
            final(self).inv(),
            final(self).caps() == old(self).caps(),
            final(self).current() == Self::set_ppt_with_tdp_spec(
                old(self).current(),
                old(self).caps(),
                tdp,
                fast,
                slow,
            ),
    ;

    /// Request a clock range; applied only when the backend supports both
    /// clock knobs. The requested range must be an ordered pair, as its
    /// type's definition demands.
    fn set_clock_limits(&mut self, limits: Option<MinMax>)
        requires
            old(self).inv(),
            limits is Some ==> limits->0.wf(),
        ensures
            final(self).inv(),
            final(self).caps() == old(self).caps(),
            final(self).current() == Self::set_clock_limits_spec(
                old(self).current(),
                old(self).caps(),
                limits,
            ),
    ;

    /// The current fast and slow PPT values.
    fn get_ppt(&self) -> (r: (Option<u64>, Option<u64>))
        ensures
            r.0 == self.current().fast_ppt,
            r.1 == self.current().slow_ppt,
    ;

    /// The current TDP, fast and slow PPT values.
    fn get_ppt_tdp(&self) -> (r: (Option<u64>, Option<u64>, Option<u64>))
        ensures
            r.0 == self.current().stapm_ppt,
            r.1 == self.current().fast_ppt,
            r.2 == self.current().slow_ppt,
    ;

    /// The current clock range.
    fn get_clock_limits(&self) -> (r: Option<MinMax>)
        ensures
            r == self.current().clock_limits,
    ;

    /// The current preset selector.
    fn get_preset(&self) -> (r: Option<u64>)
        ensures
            r == self.current().preset,
    ;

    /// Select a preset; an opaque pass-through, unconstrained by capability.
    fn set_preset(&mut self, preset: Option<u64>)
        requires
            old(self).inv(),
        ensures
            final(self).inv(),
            final(self).caps() == old(self).caps(),
            final(self).current() == (SettingsView { preset, ..old(self).current() }),
    ;

    /// Mutable access to the slow-memory flag; an unconstrained
    /// pass-through.
    fn slow_memory(&mut self) -> (r: &mut bool)
        ensures
            *r == old(self).current().slow_memory,
            final(self).caps() == old(self).caps(),
            final(self).current() == (SettingsView {
                slow_memory: *final(r),
                ..old(self).current()
            }),
            old(self).inv() ==> final(self).inv(),
    ;
}

/// Lifecycle callbacks an external scheduler drives on settings-applied,
/// resume, and power-source-change events.
///
/// The default bodies are intentionally empty: in a backend with no
/// hardware write-out of its own there is nothing to push, so every hook
/// succeeds. A hardware-backed backend overrides them and reports the set
/// of knobs that failed instead of aborting the whole batch.
pub trait PowerEventHooks: CapabilityInterface {
    /// Whether this backend's hooks can fail at all.
    spec fn hooks_infallible(&self) -> bool;

    /// Invoked after a mutation batch; a hardware-backed backend pushes the
    /// clamped values out here.
    fn on_settings_applied(&mut self) -> (r: Result<(), Vec<SettingError>>)
        ensures
            final(self).caps() == old(self).caps(),
            final(self).current() == old(self).current(),
            old(self).inv() ==> final(self).inv(),
            old(self).hooks_infallible() ==> r is Ok,
    {
        Ok(())
    }

    /// Invoked after an OS-level device resume.
    fn on_resume(&self) -> (r: Result<(), Vec<SettingError>>)
        ensures
            self.hooks_infallible() ==> r is Ok,
    {
        Ok(())
    }

    /// Invoked on an AC/battery transition.
    fn on_power_source_changed(&mut self) -> (r: Result<(), Vec<SettingError>>)
        ensures
            final(self).caps() == old(self).caps(),
            final(self).current() == old(self).current(),
            old(self).inv() ==> final(self).inv(),
            old(self).hooks_infallible() ==> r is Ok,
    {
        Ok(())
    }
}

} // verus!
