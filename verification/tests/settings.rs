//! Behavioral tests for the GPU settings entity: clamping, capability
//! gating, persistence round trips, and the effective-limits snapshot.

use gpu_settings::caps::CapabilityDescriptor;
use gpu_settings::caps::RangeBound;
use gpu_settings::gpu::Gpu;
use gpu_settings::iface::CapabilityInterface;
use gpu_settings::iface::ClockClampPolicy;
use gpu_settings::iface::PowerEventHooks;
use gpu_settings::minmax::MinMax;
use gpu_settings::minmax::MinMaxJson;
use gpu_settings::persist::Driver;
use gpu_settings::persist::GpuJson;

fn no_knobs() -> CapabilityDescriptor {
    CapabilityDescriptor::empty()
}

fn ppt_only() -> CapabilityDescriptor {
    CapabilityDescriptor {
        fast_ppt: Some(RangeBound {
            min: Some(5),
            max: Some(15),
        }),
        slow_ppt: Some(RangeBound {
            min: Some(5),
            max: Some(10),
        }),
        ..no_knobs()
    }
}

fn with_clocks() -> CapabilityDescriptor {
    CapabilityDescriptor {
        clock_min: Some(RangeBound {
            min: Some(400),
            max: Some(800),
        }),
        clock_max: Some(RangeBound {
            min: Some(1500),
            max: Some(2500),
        }),
        ..no_knobs()
    }
}

#[test]
fn set_ppt_clamps_to_advertised_range() {
    let mut g = Gpu::from_limits(ppt_only(), None);
    g.set_ppt(Some(20), Some(2));
    assert_eq!(g.fast_ppt, Some(15));
    assert_eq!(g.slow_ppt, Some(5));
    assert_eq!(g.get_ppt(), (Some(15), Some(5)));
}

#[test]
fn set_ppt_with_tdp_drops_unsupported_tdp() {
    let mut g = Gpu::from_limits(ppt_only(), None);
    g.set_ppt_with_tdp(Some(100), Some(20), Some(2));
    assert_eq!(g.stapm_ppt, None);
    assert_eq!(g.fast_ppt, Some(15));
    assert_eq!(g.slow_ppt, Some(5));
    assert_eq!(g.get_ppt_tdp(), (None, Some(15), Some(5)));
}

#[test]
fn set_ppt_unsupported_knobs_stay_empty() {
    let mut g = Gpu::from_limits(no_knobs(), None);
    g.set_ppt(Some(0), Some(u64::MAX));
    assert_eq!(g.get_ppt(), (None, None));
    g.set_ppt_with_tdp(Some(u64::MAX), Some(1), Some(1));
    assert_eq!(g.get_ppt_tdp(), (None, None, None));
}

#[test]
fn set_ppt_in_range_value_kept_and_zero_clamped_up() {
    let mut g = Gpu::from_limits(ppt_only(), None);
    g.set_ppt(Some(7), Some(0));
    assert_eq!(g.get_ppt(), (Some(7), Some(5)));
}

#[test]
fn set_ppt_none_clears_supported_knob() {
    let mut g = Gpu::from_limits(ppt_only(), None);
    g.set_ppt(Some(7), Some(7));
    g.set_ppt(None, Some(8));
    assert_eq!(g.get_ppt(), (None, Some(8)));
}

#[test]
fn set_ppt_twice_same_as_once() {
    let mut once = Gpu::from_limits(ppt_only(), None);
    once.set_ppt(Some(20), Some(2));
    let mut twice = Gpu::from_limits(ppt_only(), None);
    twice.set_ppt(Some(20), Some(2));
    twice.set_ppt(Some(20), Some(2));
    assert_eq!(once.get_ppt(), twice.get_ppt());
    assert_eq!(once.to_persisted_record(), twice.to_persisted_record());
}

#[test]
fn clock_limits_without_capability_stay_empty() {
    let mut g = Gpu::from_limits(no_knobs(), None);
    g.set_clock_limits(Some(MinMax {
        min: 1000,
        max: 2000,
    }));
    assert_eq!(g.get_clock_limits(), None);
}

#[test]
fn clock_limits_with_half_the_capability_stay_empty() {
    let mut g = Gpu::from_limits(
        CapabilityDescriptor {
            clock_min: Some(RangeBound {
                min: Some(400),
                max: Some(800),
            }),
            ..no_knobs()
        },
        None,
    );
    g.set_clock_limits(Some(MinMax {
        min: 1000,
        max: 2000,
    }));
    assert_eq!(g.get_clock_limits(), None);
}

#[test]
fn rehydration_drops_clock_range_when_half_supported() {
    let rec = GpuJson {
        preset: None,
        stapm_ppt: None,
        fast_ppt: None,
        slow_ppt: None,
        clock_limits: Some(MinMaxJson {
            min: 1000,
            max: 2000,
        }),
        slow_memory: false,
        root: None,
    };
    let d = CapabilityDescriptor {
        clock_max: Some(RangeBound {
            min: Some(1500),
            max: Some(2500),
        }),
        ..no_knobs()
    };
    let g = Gpu::from_json_and_limits(rec, 0, d, None);
    assert_eq!(g.get_clock_limits(), None);
}

#[test]
fn rehydration_drops_unordered_clock_pair() {
    let rec = GpuJson {
        preset: None,
        stapm_ppt: None,
        fast_ppt: None,
        slow_ppt: None,
        clock_limits: Some(MinMaxJson {
            min: 2000,
            max: 1000,
        }),
        slow_memory: false,
        root: None,
    };
    let g = Gpu::from_json_and_limits(rec, 0, with_clocks(), None);
    assert_eq!(g.get_clock_limits(), None);
}

#[test]
fn stored_clock_pair_stays_ordered() {
    let mut g = Gpu::from_limits(with_clocks(), None);
    g.set_clock_limits(Some(MinMax {
        min: 1000,
        max: 1000,
    }));
    let stored = g.get_clock_limits().unwrap();
    assert!(stored.min <= stored.max);
    assert_eq!(stored, MinMax { min: 800, max: 1500 });
}

#[test]
fn clock_limits_clamped_independently() {
    let mut g = Gpu::from_limits(with_clocks(), None);
    g.set_clock_limits(Some(MinMax { min: 100, max: 3000 }));
    assert_eq!(g.get_clock_limits(), Some(MinMax { min: 400, max: 2500 }));
    g.set_clock_limits(Some(MinMax { min: 600, max: 1800 }));
    assert_eq!(g.get_clock_limits(), Some(MinMax { min: 600, max: 1800 }));
    g.set_clock_limits(None);
    assert_eq!(g.get_clock_limits(), None);
}

#[test]
fn clock_limits_pin_policy_forces_upper_bound() {
    let mut g = Gpu::from_limits(with_clocks(), None);
    g.set_clock_clamp_policy(ClockClampPolicy::PinToUpperBound);
    g.set_clock_limits(Some(MinMax { min: 600, max: 1800 }));
    assert_eq!(g.get_clock_limits(), Some(MinMax { min: 600, max: 2500 }));
}

#[test]
fn preset_and_slow_memory_pass_through() {
    let mut g = Gpu::from_limits(no_knobs(), None);
    assert_eq!(g.get_preset(), None);
    g.set_preset(Some(3));
    assert_eq!(g.get_preset(), Some(3));
    assert!(!g.slow_memory);
    *g.slow_memory() = true;
    assert!(g.slow_memory);
}

#[test]
fn provider_reports_generic() {
    let g = Gpu::from_limits(no_knobs(), None);
    assert_eq!(g.provider(), Driver::Generic);
}

#[test]
fn hooks_always_succeed() {
    let mut g = Gpu::from_limits(ppt_only(), None);
    g.set_ppt(Some(20), Some(2));
    assert!(g.on_settings_applied().is_ok());
    assert!(g.on_resume().is_ok());
    assert!(g.on_power_source_changed().is_ok());
}

#[test]
fn record_round_trip_reproduces_supported_fields() {
    let d = CapabilityDescriptor {
        tdp: Some(RangeBound {
            min: Some(4),
            max: Some(30),
        }),
        ..with_clocks()
    };
    let mut g = Gpu::from_limits(d, None);
    g.set_preset(Some(9));
    g.set_ppt_with_tdp(Some(12), Some(99), Some(99));
    g.set_clock_limits(Some(MinMax { min: 500, max: 2000 }));
    let rec = g.to_persisted_record();
    assert_eq!(rec.slow_memory, false);
    let h = Gpu::from_json_and_limits(rec, 0, d, None);
    assert_eq!(h.get_preset(), Some(9));
    assert_eq!(h.get_ppt_tdp(), g.get_ppt_tdp());
    assert_eq!(h.get_clock_limits(), Some(MinMax { min: 500, max: 2000 }));
    assert_eq!(h.slow_memory, false);
}

#[test]
fn rehydration_filters_unsupported_knobs() {
    let rec = GpuJson {
        preset: Some(1),
        stapm_ppt: Some(10),
        fast_ppt: Some(11),
        slow_ppt: Some(12),
        clock_limits: Some(MinMaxJson {
            min: 1000,
            max: 2000,
        }),
        slow_memory: true,
        root: None,
    };
    let g = Gpu::from_json_and_limits(rec, 0, no_knobs(), None);
    assert_eq!(g.get_ppt_tdp(), (None, None, None));
    assert_eq!(g.get_clock_limits(), None);
    assert_eq!(g.get_preset(), Some(1));
    assert_eq!(g.slow_memory, false);
}

#[test]
fn rehydration_keeps_values_of_supported_knobs_unclamped() {
    let rec = GpuJson {
        preset: None,
        stapm_ppt: None,
        fast_ppt: Some(99),
        slow_ppt: None,
        clock_limits: None,
        slow_memory: false,
        root: None,
    };
    let g = Gpu::from_json_and_limits(rec, 0, ppt_only(), None);
    assert_eq!(g.fast_ppt, Some(99));
}

#[test]
fn min_max_migration_is_identity_for_known_versions() {
    let j = MinMaxJson { min: 7, max: 9 };
    assert_eq!(
        gpu_settings::minmax::min_max_from_json(j, 0),
        MinMax { min: 7, max: 9 }
    );
    assert_eq!(
        gpu_settings::minmax::min_max_from_json(j, 2),
        MinMax { min: 7, max: 9 }
    );
    assert_eq!(gpu_settings::minmax::min_max_to_json(MinMax { min: 7, max: 9 }), j);
}
