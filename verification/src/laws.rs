//! Laws relating the settings operations: capability safety of `set_ppt`
//! and `set_clock_limits`, preservation of the clamped and ordered-pair
//! invariants by every mutator, the persistence round trip, and
//! idempotence of repeated requests.

use vstd::prelude::*;

use crate::caps::CapabilityDescriptor;
use crate::gpu::record_view_of;
use crate::gpu::rehydrate_view;
use crate::gpu::set_clock_limits_view;
use crate::gpu::set_ppt_view;
use crate::gpu::set_ppt_with_tdp_view;
use crate::iface::clock_ordered;
use crate::iface::settings_clamped;
use crate::iface::settings_gated;
use crate::iface::SettingsView;
use crate::minmax::MinMax;

verus! {

/// Capability safety of `set_ppt`: on a gated state, whatever value is
/// requested, a supported knob ends within its advertised bounds (or empty
/// when the request was empty) and an unsupported knob stays empty.
pub proof fn lemma_set_ppt_within_limits(
    pre: SettingsView,
    caps: CapabilityDescriptor,
    fast: Option<u64>,
    slow: Option<u64>,
)
    requires
        caps.wf(),
        settings_gated(pre, caps),
    ensures
        ({
            let post = set_ppt_view(pre, caps, fast, slow);
            &&& caps.fast_ppt is None ==> post.fast_ppt is None
            &&& caps.fast_ppt is Some && fast is Some ==> post.fast_ppt is Some
                && caps.fast_ppt->0.lo() <= post.fast_ppt->0 <= caps.fast_ppt->0.hi()
            &&& caps.fast_ppt is Some && fast is None ==> post.fast_ppt is None
            &&& caps.slow_ppt is None ==> post.slow_ppt is None
            &&& caps.slow_ppt is Some && slow is Some ==> post.slow_ppt is Some
                && caps.slow_ppt->0.lo() <= post.slow_ppt->0 <= caps.slow_ppt->0.hi()
            &&& caps.slow_ppt is Some && slow is None ==> post.slow_ppt is None
        }),
        settings_gated(set_ppt_view(pre, caps, fast, slow), caps),
{
}

/// Idempotence of `set_ppt`: repeating a request with the same arguments
/// leaves the state exactly as after the first application.
pub proof fn lemma_set_ppt_idempotent(
    pre: SettingsView,
    caps: CapabilityDescriptor,
    fast: Option<u64>,
    slow: Option<u64>,
)
    requires
        caps.wf(),
    ensures
        set_ppt_view(set_ppt_view(pre, caps, fast, slow), caps, fast, slow) == set_ppt_view(
            pre,
            caps,
            fast,
            slow,
        ),
{
    assert(set_ppt_view(set_ppt_view(pre, caps, fast, slow), caps, fast, slow) =~= set_ppt_view(
        pre,
        caps,
        fast,
        slow,
    ));
}

/// A clamped state is in particular gated.
pub proof fn lemma_clamped_is_gated(s: SettingsView, caps: CapabilityDescriptor)
    requires
        settings_clamped(s, caps),
    ensures
        settings_gated(s, caps),
{
}

/// Every value a clamped state holds stays within bounds across a PPT
/// request.
pub proof fn lemma_set_ppt_preserves_clamped(
    pre: SettingsView,
    caps: CapabilityDescriptor,
    fast: Option<u64>,
    slow: Option<u64>,
)
    requires
        caps.wf(),
        settings_clamped(pre, caps),
    ensures
        settings_clamped(set_ppt_view(pre, caps, fast, slow), caps),
{
}

/// Every value a clamped state holds stays within bounds across a
/// combined TDP and PPT request.
pub proof fn lemma_set_ppt_with_tdp_preserves_clamped(
    pre: SettingsView,
    caps: CapabilityDescriptor,
    tdp: Option<u64>,
    fast: Option<u64>,
    slow: Option<u64>,
)
    requires
        caps.wf(),
        settings_clamped(pre, caps),
    ensures
        settings_clamped(set_ppt_with_tdp_view(pre, caps, tdp, fast, slow), caps),
{
}

/// Every value a clamped state holds stays within bounds across a clock
/// request, under either clamping policy; when a clock knob is missing the
/// state is unchanged, so the requested range never lands.
pub proof fn lemma_set_clock_limits_preserves_clamped(
    pre: SettingsView,
    caps: CapabilityDescriptor,
    limits: Option<MinMax>,
)
    requires
        caps.wf(),
        settings_clamped(pre, caps),
    ensures
        settings_clamped(set_clock_limits_view(pre, caps, limits), caps),
        caps.clock_min is None || caps.clock_max is None ==> set_clock_limits_view(
            pre,
            caps,
            limits,
        ) == pre,
{
}

/// Capability safety of `set_clock_limits`: on a gated state and a
/// well-formed descriptor, whatever ordered range is requested, a stored
/// result lies within both advertised clock ranges and is itself an
/// ordered pair; with either clock knob missing the state is unchanged.
pub proof fn lemma_set_clock_limits_within_limits(
    pre: SettingsView,
    caps: CapabilityDescriptor,
    limits: Option<MinMax>,
)
    requires
        caps.wf(),
        limits is Some ==> limits->0.wf(),
        settings_gated(pre, caps),
    ensures
        ({
            let post = set_clock_limits_view(pre, caps, limits);
            &&& caps.clock_min is None || caps.clock_max is None ==> post == pre
                && post.clock_limits is None
            &&& post.clock_limits is Some ==> caps.clock_min is Some && caps.clock_max is Some
                && caps.clock_min->0.lo() <= post.clock_limits->0.min <= caps.clock_min->0.hi()
                && caps.clock_max->0.lo() <= post.clock_limits->0.max <= caps.clock_max->0.hi()
                && post.clock_limits->0.wf()
        }),
{
}

/// On a well-formed descriptor, a clock request that is an ordered pair
/// is stored as an ordered pair, under either clamping policy; a state
/// that keeps its clock range ordered therefore still does after any
/// clock request.
pub proof fn lemma_set_clock_limits_keeps_order(
    pre: SettingsView,
    caps: CapabilityDescriptor,
    limits: Option<MinMax>,
)
    requires
        caps.wf(),
        limits is Some ==> limits->0.wf(),
        clock_ordered(pre),
    ensures
        clock_ordered(set_clock_limits_view(pre, caps, limits)),
{
}

/// The persistence round trip: rehydrating the record written for a gated
/// state that keeps its clock range ordered, with any schema version and
/// the same descriptor, reproduces every supported field; fields of
/// unsupported knobs are empty on both sides, and the slow-memory flag
/// comes back `false` as it was written.
pub proof fn lemma_record_round_trip(pre: SettingsView, caps: CapabilityDescriptor, version: u64)
    requires
        settings_gated(pre, caps),
        clock_ordered(pre),
    ensures
        ({
            let re = rehydrate_view(record_view_of(pre), version, caps, pre.device_path);
            &&& re.preset == pre.preset
            &&& re.stapm_ppt == pre.stapm_ppt
            &&& re.fast_ppt == pre.fast_ppt
            &&& re.slow_ppt == pre.slow_ppt
            &&& re.clock_limits == pre.clock_limits
            &&& re.root_hint == pre.root_hint
            &&& re.device_path == pre.device_path
            &&& !re.slow_memory
        }),
{
}

} // verus!
