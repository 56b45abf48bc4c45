//! Permission reporting.  Platforms without a consent database need no
//! permission for microphone or accessibility use, so the checks resolve to
//! fixed, always-granted answers; a platform that does gate access supplies
//! its own checks outside the library.

use vstd::prelude::*;

verus! {

/// What a permission check found.
#[derive(Clone, Copy, Debug, PartialEq, Eq, Structural)]
pub struct PermissionCheckResult {
    pub ok: bool,
    pub need_accessibility: bool,
}

/// Whether an accessibility prompt was actually raised.
#[derive(Clone, Copy, Debug, PartialEq, Eq, Structural)]
pub struct RequestAccessibilityResult {
    pub requested: bool,
}

/// Reports the permission state: everything is in order and no
/// accessibility grant is needed.
pub fn check_permissions() -> (r: Result<PermissionCheckResult, String>)
    ensures
        r == Ok::<PermissionCheckResult, String>(
            PermissionCheckResult { ok: true, need_accessibility: false },
        ),
{
    Ok(PermissionCheckResult { ok: true, need_accessibility: false })
}

/// Requests accessibility access: there is nothing to request, so no prompt
/// is raised.
pub fn request_accessibility() -> (r: Result<RequestAccessibilityResult, String>)
    ensures
        r == Ok::<RequestAccessibilityResult, String>(RequestAccessibilityResult { requested: false }),
{
    Ok(RequestAccessibilityResult { requested: false })
}

} // verus!
