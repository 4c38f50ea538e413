//! The persistence record schema, the backend tag, and setting-level errors.

use vstd::prelude::*;

use crate::minmax::MinMaxJson;

verus! {

/// The persisted form of a GPU settings entity.
///
/// `slow_memory` is always written `false`: the capability is reserved and
/// not yet wired end to end. `root` carries a device-root override only
/// when one was supplied, so typical records stay small.
#[derive(Clone, Debug, PartialEq, Eq)]
pub struct GpuJson {
    pub preset: Option<u64>,
    pub stapm_ppt: Option<u64>,
    pub fast_ppt: Option<u64>,
    pub slow_ppt: Option<u64>,
    pub clock_limits: Option<MinMaxJson>,
    pub slow_memory: bool,
    pub root: Option<String>,
}

/// The mathematical value of a persistence record: the same fields with the
/// root override as a character sequence.
pub struct RecordView {
    pub preset: Option<u64>,
    pub stapm_ppt: Option<u64>,
    pub fast_ppt: Option<u64>,
    pub slow_ppt: Option<u64>,
    pub clock_limits: Option<MinMaxJson>,
    pub slow_memory: bool,
    pub root: Option<Seq<char>>,
}

impl View for GpuJson {
    type V = RecordView;

    open spec fn view(&self) -> RecordView {
        RecordView {
            preset: self.preset,
            stapm_ppt: self.stapm_ppt,
            fast_ppt: self.fast_ppt,
            slow_ppt: self.slow_ppt,
            clock_limits: self.clock_limits,
            slow_memory: self.slow_memory,
            root: match self.root {
                Some(s) => Some(s@),
                None => None,
            },
        }
    }
}

/// Tag identifying which backend produced a settings entity, so callers can
/// dispatch polymorphically across backend variants.
#[derive(Clone, Copy, Debug, PartialEq, Eq)]
pub enum Driver {
    Generic,
}

/// A per-knob failure reported by a hardware-backed lifecycle hook: the
/// setting that failed and a human-readable reason.
#[derive(Clone, Debug)]
pub struct SettingError {
    pub setting: String,
    pub message: String,
}

} // verus!
