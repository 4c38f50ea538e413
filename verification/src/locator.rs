//! Device-path resolution: turn the outcome of a best-effort device-class
//! scan into the path a settings entity will use, falling back to a fixed
//! well-known node when the scan found nothing.

use vstd::prelude::*;
use vstd::string::StringExecFns;

verus! {

/// The character sequence of an optional string.
pub open spec fn opt_str_view(s: Option<String>) -> Option<Seq<char>> {
    match s {
        Some(p) => Some(p@),
        None => None,
    }
}

/// The fallback device node under a root: `<root>/sys/class/drm/card0`,
/// with an absent root treated as the filesystem root.
pub open spec fn fallback_path_view(root: Option<Seq<char>>) -> Seq<char> {
    (match root {
        Some(r) => r,
        None => Seq::<char>::empty(),
    }) + "/sys/class/drm/card0"@
}

/// What `resolve_device_path` returns: the scan's first match when there is
/// one, else the fallback node under the given root.
pub open spec fn resolve_path_view(scan: Option<Seq<char>>, root: Option<Seq<char>>) -> Seq<
    char,
> {
    match scan {
        Some(p) => p,
        None => fallback_path_view(root),
    }
}

/// With no scan match and no root override, resolution yields the fixed
/// well-known device node.
pub proof fn lemma_default_fallback_path()
    ensures
        resolve_path_view(None, None) == "/sys/class/drm/card0"@,
{
    assert(Seq::<char>::empty() + "/sys/class/drm/card0"@ =~= "/sys/class/drm/card0"@);
}

/// Choose the device path for a settings entity.
///
/// `scan` is the first match of a device-class scan under `root` (performed
/// by the caller; this component does no I/O), and `root` is an optional
/// device-root override. Discovery never fails the caller: when the scan
/// errored or found nothing, the fixed fallback node is returned so
/// downstream code always has a path.
pub fn resolve_device_path(scan: Option<String>, root: Option<String>) -> (r: String)
    ensures
        r@ == resolve_path_view(opt_str_view(scan), opt_str_view(root)),
{
    match scan {
        Some(p) => p,
        None => {
            let base: String = match root {
                Some(r) => r,
                None => String::new(),
            };
            base.concat("/sys/class/drm/card0")
        },
    }
}

} // verus!
