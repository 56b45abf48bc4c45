//! Delivering transcribed text to the frontmost application.  The platform
//! deliverers (synthetic keystrokes, clipboard juggling) are OS scripting
//! and live outside the library; a platform without a deliverer falls back
//! to reporting an unattempted copy, which is decided here.

use vstd::prelude::*;

verus! {

/// How text was delivered.
#[derive(Clone, Copy, Debug, PartialEq, Eq, Structural)]
pub enum DeliveryMode {
    /// Inserted at the caret of the focused element.
    Insert,
    /// Placed on the clipboard.
    Copy,
}

/// What a delivery attempt did.
#[derive(Clone, Debug)]
pub struct DeliveryResult {
    pub mode: DeliveryMode,
    pub ok: bool,
    pub detail: Option<String>,
}

/// Delivers text on a platform without a deliverer: nothing is attempted,
/// and the result says so.
pub fn deliver(text: &str, attempt_insert: bool) -> (r: Result<DeliveryResult, String>)
    ensures
        r matches Ok(d) && d.mode == DeliveryMode::Copy && !d.ok && (d.detail matches Some(m) && m@
            == "unsupported_platform"@),
{
    let _ = text;
    let _ = attempt_insert;
    Ok(
        DeliveryResult {
            mode: DeliveryMode::Copy,
            ok: false,
            detail: Some(String::from_str("unsupported_platform")),
        },
    )
}

} // verus!
