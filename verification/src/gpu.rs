//! The generic GPU settings entity: accepts requested values, clamps them
//! to the advertised capability, and converts to and from the persistence
//! record.

use vstd::prelude::*;

use crate::caps::clamp_to;
use crate::caps::clamp_view;
use crate::caps::snapshot_of;
use crate::caps::snapshot_view;
use crate::caps::CapabilityDescriptor;
use crate::caps::CapabilitySnapshot;
use crate::caps::RangeBound;
use crate::iface::clock_ordered;
use crate::iface::settings_clamped;
use crate::iface::settings_gated;
use crate::iface::CapabilityInterface;
use crate::iface::ClockClampPolicy;
use crate::iface::PowerEventHooks;
use crate::iface::SettingsView;
use crate::locator::opt_str_view;
use crate::locator::resolve_device_path;
use crate::locator::resolve_path_view;
use crate::minmax::min_max_from_json;
use crate::minmax::min_max_from_json_view;
use crate::minmax::min_max_to_json;
use crate::minmax::min_max_to_json_view;
use crate::minmax::MinMax;
use crate::persist::Driver;
use crate::persist::GpuJson;
use crate::persist::RecordView;

verus! {

/// One power knob under a request: a supported knob stores the clamped
/// request (or clears on an empty request); an unsupported knob keeps its
/// value, silently dropping the request.
pub open spec fn apply_ppt_knob(
    cur: Option<u64>,
    cap: Option<RangeBound>,
    req: Option<u64>,
) -> Option<u64> {
    match cap {
        Some(b) => match req {
            Some(v) => Some(clamp_view(v, b)),
            None => None,
        },
        None => cur,
    }
}

/// What `set_ppt` does to a settings state.
pub open spec fn set_ppt_view(
    pre: SettingsView,
    caps: CapabilityDescriptor,
    fast: Option<u64>,
    slow: Option<u64>,
) -> SettingsView {
    SettingsView {
        fast_ppt: apply_ppt_knob(pre.fast_ppt, caps.fast_ppt, fast),
        slow_ppt: apply_ppt_knob(pre.slow_ppt, caps.slow_ppt, slow),
        ..pre
    }
}

/// What `set_ppt_with_tdp` does: `set_ppt`, then the TDP knob on its own.
pub open spec fn set_ppt_with_tdp_view(
    pre: SettingsView,
    caps: CapabilityDescriptor,
    tdp: Option<u64>,
    fast: Option<u64>,
    slow: Option<u64>,
) -> SettingsView {
    SettingsView {
        stapm_ppt: apply_ppt_knob(pre.stapm_ppt, caps.tdp, tdp),
        ..set_ppt_view(pre, caps, fast, slow)
    }
}

/// A requested clock range reconciled against the two clock capability
/// ranges under the given policy.
pub open spec fn clamp_clock_pair(
    m: MinMax,
    lo_range: RangeBound,
    hi_range: RangeBound,
    policy: ClockClampPolicy,
) -> MinMax {
    match policy {
        ClockClampPolicy::IndependentRanges => MinMax {
            min: clamp_view(m.min, lo_range),
            max: clamp_view(m.max, hi_range),
        },
        ClockClampPolicy::PinToUpperBound => MinMax {
            min: clamp_view(m.min, lo_range),
            max: hi_range.hi(),
        },
    }
}

/// What `set_clock_limits` does: applied only when both clock knobs are
/// supported, otherwise the request is dropped.
pub open spec fn set_clock_limits_view(
    pre: SettingsView,
    caps: CapabilityDescriptor,
    limits: Option<MinMax>,
) -> SettingsView {
    if caps.clock_min is Some && caps.clock_max is Some {
        SettingsView {
            clock_limits: match limits {
                Some(m) => Some(
                    clamp_clock_pair(m, caps.clock_min->0, caps.clock_max->0, pre.clock_policy),
                ),
                None => None,
            },
            ..pre
        }
    } else {
        pre
    }
}

/// The persistence record written for a settings state: fields map one to
/// one, the slow-memory flag is always written `false`, and the root
/// override is carried as stored.
pub open spec fn record_view_of(s: SettingsView) -> RecordView {
    RecordView {
        preset: s.preset,
        stapm_ppt: s.stapm_ppt,
        fast_ppt: s.fast_ppt,
        slow_ppt: s.slow_ppt,
        clock_limits: match s.clock_limits {
            Some(m) => Some(min_max_to_json_view(m)),
            None => None,
        },
        slow_memory: false,
        root: s.root_hint,
    }
}

/// The settings state rehydrated from a persistence record: each knob is
/// copied only when the descriptor supports it, the clock range is
/// migrated through the version-aware conversion and kept only when the
/// migrated pair is ordered, and the device path is the one resolved by
/// the caller's scan.
pub open spec fn rehydrate_view(
    rec: RecordView,
    version: u64,
    caps: CapabilityDescriptor,
    path: Seq<char>,
) -> SettingsView {
    SettingsView {
        preset: rec.preset,
        stapm_ppt: if caps.tdp is Some {
            rec.stapm_ppt
        } else {
            None
        },
        fast_ppt: if caps.fast_ppt is Some {
            rec.fast_ppt
        } else {
            None
        },
        slow_ppt: if caps.slow_ppt is Some {
            rec.slow_ppt
        } else {
            None
        },
        clock_limits: if caps.clock_min is Some && caps.clock_max is Some {
            match rec.clock_limits {
                Some(mj) => if min_max_from_json_view(mj, version).wf() {
                    Some(min_max_from_json_view(mj, version))
                } else {
                    None
                },
                None => None,
            }
        } else {
            None
        },
        slow_memory: false,
        device_path: path,
        root_hint: rec.root,
        clock_policy: ClockClampPolicy::IndependentRanges,
    }
}

/// The generic GPU backend's settings entity.
///
/// The requested values are public, as is the reserved slow-memory flag;
/// the descriptor, the resolved device path, the persisted root override
/// and the clock policy are fixed at construction (the policy through its
/// own setter).
pub struct Gpu {
    pub slow_memory: bool,
    pub preset: Option<u64>,
    pub stapm_ppt: Option<u64>,
    pub fast_ppt: Option<u64>,
    pub slow_ppt: Option<u64>,
    pub clock_limits: Option<MinMax>,
    limits: CapabilityDescriptor,
    device_path: String,
    root_hint: Option<String>,
    clock_policy: ClockClampPolicy,
}

impl Gpu {
    /// A fresh settings entity: every optional setting empty, the device
    /// path resolved from the caller's scan under the default root.
    pub fn from_limits(limits: CapabilityDescriptor, scan: Option<String>) -> (r: Gpu)
        requires
            limits.wf(),
        ensures
            r.inv(),
            r.caps() == limits,
            settings_clamped(r.current(), limits),
            r.current() == (SettingsView {
                preset: None,
                stapm_ppt: None,
                fast_ppt: None,
                slow_ppt: None,
                clock_limits: None,
                slow_memory: false,
                device_path: resolve_path_view(opt_str_view(scan), None),
                root_hint: None,
                clock_policy: ClockClampPolicy::IndependentRanges,
            }),
    {
        Gpu {
            preset: None,
            slow_memory: false,
            stapm_ppt: None,
            fast_ppt: None,
            slow_ppt: None,
            clock_limits: None,
            limits,
            device_path: resolve_device_path(scan, None),
            root_hint: None,
            clock_policy: ClockClampPolicy::IndependentRanges,
        }
    }

    /// Rehydrate a settings entity from a persisted record of schema
    /// `version`, keeping a value only where `limits` supports its knob.
    /// A persisted clock pair that is out of order after migration is
    /// dropped, so the entity's ordered-pair invariant holds from the
    /// start.
    ///
    /// `scan` is the first match of a device-class scan performed by the
    /// caller under the record's root override.
    pub fn from_json_and_limits(
        other: GpuJson,
        version: u64,
        limits: CapabilityDescriptor,
        scan: Option<String>,
    ) -> (r: Gpu)
        requires
            limits.wf(),
        ensures
            r.inv(),
            r.caps() == limits,
            r.current() == rehydrate_view(
                other@,
                version,
                limits,
                resolve_path_view(opt_str_view(scan), other@.root),
            ),
    {
        let root_for_path: Option<String> = match &other.root {
            Some(s) => Some(s.clone()),
            None => None,
        };
        let device_path = resolve_device_path(scan, root_for_path);
        let clock_lims: Option<MinMax> = if limits.clock_min.is_some()
            && limits.clock_max.is_some() {
            match other.clock_limits {
                Some(mj) => {
                    let m = min_max_from_json(mj, version);
                    if m.min <= m.max {
                        Some(m)
                    } else {
                        None
                    }
                },
                None => None,
            }
        } else {
            None
        };
        Gpu {
            preset: other.preset,
            slow_memory: false,
            stapm_ppt: if limits.tdp.is_some() {
                other.stapm_ppt
            } else {
                None
            },
            fast_ppt: if limits.fast_ppt.is_some() {
                other.fast_ppt
            } else {
                None
            },
            slow_ppt: if limits.slow_ppt.is_some() {
                other.slow_ppt
            } else {
                None
            },
            clock_limits: clock_lims,
            limits,
            device_path,
            root_hint: other.root,
            clock_policy: ClockClampPolicy::IndependentRanges,
        }
    }

    /// The device path resolved at construction.
    pub fn device_path(&self) -> (r: &str)
        ensures
            r@ == self.current().device_path,
    {
        self.device_path.as_str()
    }

    /// Choose how `set_clock_limits` reconciles the upper clock bound.
    pub fn set_clock_clamp_policy(&mut self, policy: ClockClampPolicy)
        ensures
            final(self).caps() == old(self).caps(),
            final(self).current() == (SettingsView {
                clock_policy: policy,
                ..old(self).current()
            }),
            old(self).inv() ==> final(self).inv(),
    {
        self.clock_policy = policy;
    }
}

impl CapabilityInterface for Gpu {
    closed spec fn caps(&self) -> CapabilityDescriptor {
        self.limits
    }

    closed spec fn current(&self) -> SettingsView {
        SettingsView {
            preset: self.preset,
            stapm_ppt: self.stapm_ppt,
            fast_ppt: self.fast_ppt,
            slow_ppt: self.slow_ppt,
            clock_limits: self.clock_limits,
            slow_memory: self.slow_memory,
            device_path: self.device_path@,
            root_hint: opt_str_view(self.root_hint),
            clock_policy: self.clock_policy,
        }
    }

    open spec fn inv(&self) -> bool {
        self.caps().wf() && settings_gated(self.current(), self.caps()) && clock_ordered(
            self.current(),
        )
    }

    open spec fn provider_spec() -> Driver {
        Driver::Generic
    }

    open spec fn snapshot_spec(&self) -> CapabilitySnapshot {
        snapshot_view(self.caps())
    }

    open spec fn record_spec(&self) -> RecordView {
        record_view_of(self.current())
    }

    open spec fn set_ppt_spec(
        pre: SettingsView,
        caps: CapabilityDescriptor,
        fast: Option<u64>,
        slow: Option<u64>,
    ) -> SettingsView {
        set_ppt_view(pre, caps, fast, slow)
    }

    open spec fn set_ppt_with_tdp_spec(
        pre: SettingsView,
        caps: CapabilityDescriptor,
        tdp: Option<u64>,
        fast: Option<u64>,
        slow: Option<u64>,
    ) -> SettingsView {
        set_ppt_with_tdp_view(pre, caps, tdp, fast, slow)
    }

    open spec fn set_clock_limits_spec(
        pre: SettingsView,
        caps: CapabilityDescriptor,
        limits: Option<MinMax>,
    ) -> SettingsView {
        set_clock_limits_view(pre, caps, limits)
    }

    fn effective_limits(&self) -> (r: CapabilitySnapshot) {
        snapshot_of(&self.limits)
    }

    fn provider(&self) -> (r: Driver) {
        Driver::Generic
    }

    fn to_persisted_record(&self) -> (r: GpuJson) {
        GpuJson {
            preset: self.preset,
            stapm_ppt: self.stapm_ppt,
            fast_ppt: self.fast_ppt,
            slow_ppt: self.slow_ppt,
            clock_limits: match self.clock_limits {
                Some(m) => Some(min_max_to_json(m)),
                None => None,
            },
            slow_memory: false,
            root: match &self.root_hint {
                Some(s) => Some(s.clone()),
                None => None,
            },
        }
    }

    fn set_ppt(&mut self, fast: Option<u64>, slow: Option<u64>) {
        if let Some(b) = self.limits.fast_ppt {
            self.fast_ppt = match fast {
                Some(v) => Some(clamp_to(v, b)),
                None => None,
            };
        }
        if let Some(b) = self.limits.slow_ppt {
            self.slow_ppt = match slow {
                Some(v) => Some(clamp_to(v, b)),
                None => None,
            };
        }
    }

    fn set_ppt_with_tdp(&mut self, tdp: Option<u64>, fast: Option<u64>, slow: Option<u64>) {
        self.set_ppt(fast, slow);
        if let Some(b) = self.limits.tdp {
            self.stapm_ppt = match tdp {
                Some(v) => Some(clamp_to(v, b)),
                None => None,
            };
        }
    }

    fn set_clock_limits(&mut self, limits: Option<MinMax>) {
        if self.limits.clock_min.is_some() && self.limits.clock_max.is_some() {
            let lo_range = self.limits.clock_min.unwrap();
            let hi_range = self.limits.clock_max.unwrap();
            self.clock_limits = match limits {
                Some(m) => Some(
                    match self.clock_policy {
                        ClockClampPolicy::IndependentRanges => MinMax {
                            min: clamp_to(m.min, lo_range),
                            max: clamp_to(m.max, hi_range),
                        },
                        ClockClampPolicy::PinToUpperBound => MinMax {
                            min: clamp_to(m.min, lo_range),
                            max: hi_range.max.unwrap_or(u64::MAX),
                        },
                    },
                ),
                None => None,
            };
        }
    }

    fn get_ppt(&self) -> (r: (Option<u64>, Option<u64>)) {
        (self.fast_ppt, self.slow_ppt)
    }

    fn get_ppt_tdp(&self) -> (r: (Option<u64>, Option<u64>, Option<u64>)) {
        (self.stapm_ppt, self.fast_ppt, self.slow_ppt)
    }

    fn get_clock_limits(&self) -> (r: Option<MinMax>) {
        self.clock_limits
    }

    fn get_preset(&self) -> (r: Option<u64>) {
        self.preset
    }

    fn set_preset(&mut self, preset: Option<u64>) {
        self.preset = preset;
    }

    fn slow_memory(&mut self) -> (r: &mut bool) {
        &mut self.slow_memory
    }
}

impl PowerEventHooks for Gpu {
    /// This backend performs no hardware write-out, so its hooks cannot
    /// fail.
    open spec fn hooks_infallible(&self) -> bool {
        true
    }
}

} // verus!
