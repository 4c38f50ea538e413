//! Tests for the effective-limits snapshot and for device-path resolution.

use gpu_settings::caps::CapabilityDescriptor;
use gpu_settings::caps::RangeBound;
use gpu_settings::caps::RangeLimit;
use gpu_settings::gpu::Gpu;
use gpu_settings::iface::CapabilityInterface;
use gpu_settings::locator::resolve_device_path;
use gpu_settings::persist::GpuJson;

fn no_knobs() -> CapabilityDescriptor {
    CapabilityDescriptor::empty()
}

#[test]
fn effective_limits_fills_missing_bounds_with_defaults() {
    let d = CapabilityDescriptor {
        fast_ppt: Some(RangeBound {
            min: None,
            max: Some(28_000_000),
        }),
        slow_ppt: Some(RangeBound {
            min: Some(2_000_000),
            max: None,
        }),
        tdp_boost: Some(RangeBound {
            min: None,
            max: None,
        }),
        clock_min: Some(RangeBound {
            min: None,
            max: Some(2_600),
        }),
        clock_max: Some(RangeBound {
            min: Some(100),
            max: Some(2_800),
        }),
        ..no_knobs()
    };
    let g = Gpu::from_limits(d, None);
    let snap = g.effective_limits();
    assert_eq!(
        snap.fast_ppt_limits,
        Some(RangeLimit {
            min: 0,
            max: 28_000_000
        })
    );
    assert_eq!(
        snap.slow_ppt_limits,
        Some(RangeLimit {
            min: 2_000_000,
            max: 15_000_000
        })
    );
    assert_eq!(snap.tdp_limits, None);
    assert_eq!(
        snap.tdp_boost_limits,
        Some(RangeLimit {
            min: 0,
            max: 15_000_000
        })
    );
    assert_eq!(
        snap.clock_min_limits,
        Some(RangeLimit { min: 0, max: 2_600 })
    );
    assert_eq!(
        snap.clock_max_limits,
        Some(RangeLimit {
            min: 100,
            max: 2_800
        })
    );
    assert_eq!(snap.ppt_step, 1_000_000);
    assert_eq!(snap.tdp_step, 42);
    assert_eq!(snap.clock_step, 100);
    assert!(!snap.memory_control_capable);
}

#[test]
fn effective_limits_keeps_given_steps() {
    let d = CapabilityDescriptor {
        ppt_step: Some(500_000),
        tdp_step: Some(1),
        clock_step: Some(50),
        ..no_knobs()
    };
    let g = Gpu::from_limits(d, None);
    let snap = g.effective_limits();
    assert_eq!(snap.ppt_step, 500_000);
    assert_eq!(snap.tdp_step, 1);
    assert_eq!(snap.clock_step, 50);
}

#[test]
fn effective_limits_clock_default_upper_bound() {
    let d = CapabilityDescriptor {
        clock_min: Some(RangeBound {
            min: Some(200),
            max: None,
        }),
        clock_max: Some(RangeBound {
            min: Some(300),
            max: None,
        }),
        ..no_knobs()
    };
    let g = Gpu::from_limits(d, None);
    let snap = g.effective_limits();
    assert_eq!(
        snap.clock_min_limits,
        Some(RangeLimit { min: 200, max: 3_000 })
    );
    assert_eq!(
        snap.clock_max_limits,
        Some(RangeLimit { min: 300, max: 3_000 })
    );
}

#[test]
fn check_wf_rejects_unordered_and_crossed_ranges() {
    let unordered = CapabilityDescriptor {
        fast_ppt: Some(RangeBound {
            min: Some(10),
            max: Some(5),
        }),
        ..no_knobs()
    };
    assert!(!unordered.check_wf());
    let crossed = CapabilityDescriptor {
        clock_min: Some(RangeBound {
            min: Some(1_500),
            max: Some(2_500),
        }),
        clock_max: Some(RangeBound {
            min: Some(0),
            max: Some(1_000),
        }),
        ..no_knobs()
    };
    assert!(!crossed.check_wf());
    assert!(no_knobs().check_wf());
}

#[test]
fn effective_limits_all_unsupported_is_all_empty() {
    let g = Gpu::from_limits(no_knobs(), None);
    let snap = g.effective_limits();
    assert_eq!(snap.fast_ppt_limits, None);
    assert_eq!(snap.slow_ppt_limits, None);
    assert_eq!(snap.tdp_limits, None);
    assert_eq!(snap.tdp_boost_limits, None);
    assert_eq!(snap.clock_min_limits, None);
    assert_eq!(snap.clock_max_limits, None);
    assert!(!snap.memory_control_capable);
}

#[test]
fn resolve_prefers_the_scan_match() {
    let p = resolve_device_path(Some(String::from("/sys/class/drm/card1")), None);
    assert_eq!(p, "/sys/class/drm/card1");
}

#[test]
fn resolve_falls_back_under_default_root() {
    let p = resolve_device_path(None, None);
    assert_eq!(p, "/sys/class/drm/card0");
}

#[test]
fn resolve_falls_back_under_given_root() {
    let p = resolve_device_path(None, Some(String::from("/tmp/fake")));
    assert_eq!(p, "/tmp/fake/sys/class/drm/card0");
}

#[test]
fn empty_scan_still_yields_usable_instance() {
    let g = Gpu::from_limits(no_knobs(), None);
    assert_eq!(g.device_path(), "/sys/class/drm/card0");
    let rec = GpuJson {
        preset: None,
        stapm_ppt: None,
        fast_ppt: None,
        slow_ppt: None,
        clock_limits: None,
        slow_memory: false,
        root: Some(String::from("/tmp/fake")),
    };
    let h = Gpu::from_json_and_limits(rec, 0, no_knobs(), None);
    assert_eq!(h.device_path(), "/tmp/fake/sys/class/drm/card0");
    let rec2 = h.to_persisted_record();
    assert_eq!(rec2.root, Some(String::from("/tmp/fake")));
}

#[test]
fn scan_match_is_used_as_device_path() {
    let g = Gpu::from_limits(no_knobs(), Some(String::from("/sys/class/drm/card2")));
    assert_eq!(g.device_path(), "/sys/class/drm/card2");
}
