//! Global-hotkey bookkeeping: which accelerator is registered, the last
//! registration error, the accelerator validation rules, and the default
//! accelerators.  Talking to the platform's shortcut service happens outside
//! the library; what is decided here is which requests are acceptable and
//! how the bookkeeping changes for each outcome.

use vstd::prelude::*;

use crate::strutil::byte_len;
use crate::strutil::byte_len_capped;
use crate::strutil::contains_seq;
use crate::strutil::lower_of;
use crate::strutil::lowercase;
use crate::strutil::str_contains;
use crate::strutil::str_eq;
use crate::strutil::trim_str;
use crate::strutil::trimmed;

verus! {

/// The hotkey bookkeeping: the accelerator currently registered with the
/// platform, if any, and the last registration error.
#[derive(Clone, Debug)]
pub struct HotkeyState {
    pub current: Option<String>,
    pub last_error: Option<String>,
}

impl Default for HotkeyState {
    /// Nothing registered, no error.
    fn default() -> (r: HotkeyState)
        ensures
            r.current is None,
            r.last_error is None,
    {
        HotkeyState { current: None, last_error: None }
    }
}

/// How one registration attempt left the bookkeeping.
#[derive(Clone, Copy, Debug, PartialEq, Eq, Structural)]
pub enum RegisterDisposition {
    /// The new accelerator is registered.
    Registered,
    /// The new accelerator was rejected; the previous one is registered
    /// again.
    FailedRestored,
    /// The new accelerator was rejected and no previous one is registered.
    FailedCleared,
}

impl HotkeyState {
    /// The accelerator currently registered, if any.
    pub fn current(&self) -> (r: Option<String>)
        ensures
            r == self.current,
    {
        match &self.current {
            Some(acc) => Some(acc.clone()),
            None => None,
        }
    }

    /// Whether an accelerator is currently registered.
    pub fn is_enabled(&self) -> (r: bool)
        ensures
            r == (self.current is Some),
    {
        self.current.is_some()
    }

    /// Records a registration error.
    pub fn set_error(&mut self, err: String)
        ensures
            final(self).last_error == Some(err),
            final(self).current == old(self).current,
    {
        self.last_error = Some(err);
    }

    /// Clears the bookkeeping for an unregistration and hands back the
    /// accelerator that was registered, so the caller can release it with
    /// the platform.
    pub fn unregister(&mut self) -> (prev: Option<String>)
        ensures
            final(self).current is None,
            final(self).last_error == old(self).last_error,
            prev == old(self).current,
    {
        let prev = self.current();
        self.current = None;
        prev
    }

    /// Applies the outcome of one registration attempt: `accepted` says
    /// whether the platform took the new accelerator; when it did not and a
    /// previous accelerator existed, `rollback_accepted` says whether the
    /// platform took that one back.
    pub fn register(&mut self, accelerator: String, accepted: bool, rollback_accepted: bool) -> (r:
        RegisterDisposition)
        ensures
            final(self).last_error == old(self).last_error,
            accepted ==> final(self).current == Some(accelerator) && r
                == RegisterDisposition::Registered,
            !accepted && old(self).current is Some && rollback_accepted ==> final(self).current
                == old(self).current && r == RegisterDisposition::FailedRestored,
            !accepted && old(self).current is Some && !rollback_accepted ==> final(self).current
                is None && r == RegisterDisposition::FailedCleared,
            !accepted && old(self).current is None ==> final(self).current is None && r
                == RegisterDisposition::FailedCleared,
    {
        if accepted {
            self.current = Some(accelerator);
            RegisterDisposition::Registered
        } else if self.current.is_some() && rollback_accepted {
            RegisterDisposition::FailedRestored
        } else {
            self.current = None;
            RegisterDisposition::FailedCleared
        }
    }
}

/// The accelerator registered when none is stored.
pub fn default_hotkey_str() -> (r: &'static str)
    ensures
        r@ == "Ctrl+Shift+Space"@,
{
    "Ctrl+Shift+Space"
}

/// The accelerator tried when the default cannot be registered.
pub fn fallback_hotkey_str() -> (r: &'static str)
    ensures
        r@ == "Ctrl+Alt+Space"@,
{
    "Ctrl+Alt+Space"
}

/// A bare modifier name, which cannot stand alone as a hotkey.
pub open spec fn pure_modifier(l: Seq<char>) -> bool {
    ||| l == "shift"@
    ||| l == "ctrl"@
    ||| l == "control"@
    ||| l == "alt"@
    ||| l == "cmd"@
    ||| l == "command"@
    ||| l == "option"@
    ||| l == "win"@
    ||| l == "super"@
    ||| l == "meta"@
}

/// Whether a lowercased accelerator mentions any modifier.
pub open spec fn mentions_modifier(l: Seq<char>) -> bool {
    ||| contains_seq(l, "ctrl"@)
    ||| contains_seq(l, "alt"@)
    ||| contains_seq(l, "shift"@)
    ||| contains_seq(l, "cmd"@)
    ||| contains_seq(l, "command"@)
    ||| contains_seq(l, "option"@)
    ||| contains_seq(l, "win"@)
    ||| contains_seq(l, "super"@)
    ||| contains_seq(l, "meta"@)
}

/// A key that may stand alone, without any modifier.
pub open spec fn allowed_standalone(l: Seq<char>) -> bool {
    ||| l == "ins"@
    ||| l == "insert"@
    ||| l == "pageup"@
    ||| l == "pagedown"@
    ||| l == "home"@
    ||| l == "end"@
    ||| l == "f1"@
    ||| l == "f2"@
    ||| l == "f3"@
    ||| l == "f4"@
    ||| l == "f5"@
    ||| l == "f6"@
    ||| l == "f7"@
    ||| l == "f8"@
    ||| l == "f9"@
    ||| l == "f10"@
    ||| l == "f11"@
    ||| l == "f12"@
    ||| l == "f13"@
    ||| l == "f14"@
    ||| l == "f15"@
    ||| l == "f16"@
    ||| l == "f17"@
    ||| l == "f18"@
    ||| l == "f19"@
    ||| l == "f20"@
    ||| l == "f21"@
    ||| l == "f22"@
    ||| l == "f23"@
    ||| l == "f24"@
    ||| l == "pause"@
    ||| l == "printscreen"@
    ||| l == "scrolllock"@
    ||| l == "arrowup"@
    ||| l == "arrowdown"@
    ||| l == "arrowleft"@
    ||| l == "arrowright"@
    ||| l == "tab"@
    ||| l == "space"@
    ||| l == "enter"@
}

/// An acceptable accelerator, judged from its trimmed text `t` and that
/// text's lowercase form `l`: not a bare modifier, and carrying either a
/// modifier, an allowed standalone key, or a single one-byte character.
/// Lengths are counted in UTF-8 bytes.
pub open spec fn acceptable_hotkey(t: Seq<char>, l: Seq<char>) -> bool {
    &&& t.len() != 0
    &&& byte_len(t) <= 64
    &&& !pure_modifier(l)
    &&& (mentions_modifier(l) || allowed_standalone(l) || byte_len(t) == 1)
}

fn is_pure_modifier(l: &str) -> (r: bool)
    ensures
        r == pure_modifier(l@),
{
    str_eq(l, "shift") || str_eq(l, "ctrl") || str_eq(l, "control") || str_eq(l, "alt") || str_eq(
        l,
        "cmd",
    ) || str_eq(l, "command") || str_eq(l, "option") || str_eq(l, "win") || str_eq(l, "super")
        || str_eq(l, "meta")
}

fn has_modifier(l: &str) -> (r: bool)
    ensures
        r == mentions_modifier(l@),
{
    str_contains(l, "ctrl") || str_contains(l, "alt") || str_contains(l, "shift") || str_contains(
        l,
        "cmd",
    ) || str_contains(l, "command") || str_contains(l, "option") || str_contains(l, "win")
        || str_contains(l, "super") || str_contains(l, "meta")
}

fn is_allowed_standalone(l: &str) -> (r: bool)
    ensures
        r == allowed_standalone(l@),
{
    str_eq(l, "ins") || str_eq(l, "insert") || str_eq(l, "pageup") || str_eq(l, "pagedown")
        || str_eq(l, "home") || str_eq(l, "end") || str_eq(l, "f1") || str_eq(l, "f2") || str_eq(
        l,
        "f3",
    ) || str_eq(l, "f4") || str_eq(l, "f5") || str_eq(l, "f6") || str_eq(l, "f7") || str_eq(l, "f8")
        || str_eq(l, "f9") || str_eq(l, "f10") || str_eq(l, "f11") || str_eq(l, "f12") || str_eq(
        l,
        "f13",
    ) || str_eq(l, "f14") || str_eq(l, "f15") || str_eq(l, "f16") || str_eq(l, "f17") || str_eq(
        l,
        "f18",
    ) || str_eq(l, "f19") || str_eq(l, "f20") || str_eq(l, "f21") || str_eq(l, "f22") || str_eq(
        l,
        "f23",
    ) || str_eq(l, "f24") || str_eq(l, "pause") || str_eq(l, "printscreen") || str_eq(
        l,
        "scrolllock",
    ) || str_eq(l, "arrowup") || str_eq(l, "arrowdown") || str_eq(l, "arrowleft") || str_eq(
        l,
        "arrowright",
    ) || str_eq(l, "tab") || str_eq(l, "space") || str_eq(l, "enter")
}

/// Checks an accelerator before it is offered to the platform.  Acceptance
/// is decided by `acceptable_hotkey` over the trimmed text and its lowercase
/// form, with lengths counted in UTF-8 bytes; each rejection names its
/// reason.
pub fn validate_hotkey(acc: &str) -> (r: Result<(), String>)
    ensures
        r is Ok <==> acceptable_hotkey(trimmed(acc@), lower_of(trimmed(acc@))),
        trimmed(acc@).len() == 0 ==> (r matches Err(m) && m@ == "hotkey is empty"@),
        trimmed(acc@).len() != 0 && byte_len(trimmed(acc@)) > 64 ==> (r matches Err(m) && m@
            == "hotkey is too long"@),
        trimmed(acc@).len() != 0 && byte_len(trimmed(acc@)) <= 64 && pure_modifier(
            lower_of(trimmed(acc@)),
        ) ==> (r matches Err(m) && m@ == "hotkey must include a non-modifier key"@),
        !(r is Ok) && trimmed(acc@).len() != 0 && byte_len(trimmed(acc@)) <= 64 && !pure_modifier(
            lower_of(trimmed(acc@)),
        ) ==> (r matches Err(m) && m@
            == "hotkey must include a non-modifier key or be a valid standalone key"@),
{
    let t = trim_str(acc);
    if t.as_str().is_empty() {
        return Err(String::from_str("hotkey is empty"));
    }
    let bl = byte_len_capped(t.as_str(), 64);
    if bl > 64 {
        return Err(String::from_str("hotkey is too long"));
    }
    let low = lowercase(t.as_str());
    if is_pure_modifier(low.as_str()) {
        return Err(String::from_str("hotkey must include a non-modifier key"));
    }
    if has_modifier(low.as_str()) {
        return Ok(());
    }
    if is_allowed_standalone(low.as_str()) {
        return Ok(());
    }
    if bl == 1 {
        return Ok(());
    }
    Err(String::from_str("hotkey must include a non-modifier key or be a valid standalone key"))
}


/// The accelerator in effect: the stored one, trimmed, or the default when
/// nothing usable is stored.
pub fn get_hotkey(s: &crate::settings::Settings) -> (r: String)
    ensures
        trimmed(s.hotkey_accelerator@).len() == 0 ==> r@ == "Ctrl+Shift+Space"@,
        trimmed(s.hotkey_accelerator@).len() != 0 ==> r@ == trimmed(s.hotkey_accelerator@),
{
    let t = trim_str(s.hotkey_accelerator.as_str());
    if t.as_str().is_empty() {
        String::from_str(default_hotkey_str())
    } else {
        t
    }
}

} // verus!
