//! The push-to-talk configuration and its key table.  The key-state polling
//! that drives push-to-talk is platform work and lives outside the library;
//! the mapping from a physical key code to the platform's virtual-key number
//! is decided here.

use vstd::prelude::*;

use crate::settings::HotkeyMods;
use crate::strutil::ascii_upper;
use crate::strutil::char_ascii_upper;
use crate::strutil::char_is_ascii_alpha;
use crate::strutil::is_ascii_alpha;
use crate::strutil::parse_uint;
use crate::strutil::parse_uint_of;
use crate::strutil::prefix_of;
use crate::strutil::str_eq;
use crate::strutil::str_starts_with;

verus! {

/// What a push-to-talk listener is asked to watch.
#[derive(Clone, Debug)]
pub struct PttConfig {
    /// The accelerator text, such as a modifier chord with a key.
    pub accelerator: String,
    /// The physical key code for a combo, when one is known.
    pub code: Option<String>,
    /// The modifiers of a combo, when they are known.
    pub mods: Option<HotkeyMods>,
}

/// The poller's virtual-key number for a physical key code: the fixed table,
/// with digit codes read numerically and single-letter codes mapped
/// alphabetically when the table has no row for them.
pub open spec fn mac_vk_of(code: Seq<char>) -> Option<u16> {
    if code == "KeyA"@ {
        Some(0u16)
    } else if code == "KeyS"@ {
        Some(1u16)
    } else if code == "KeyD"@ {
        Some(2u16)
    } else if code == "KeyF"@ {
        Some(3u16)
    } else if code == "KeyH"@ {
        Some(4u16)
    } else if code == "KeyG"@ {
        Some(5u16)
    } else if code == "KeyZ"@ {
        Some(6u16)
    } else if code == "KeyX"@ {
        Some(7u16)
    } else if code == "KeyC"@ {
        Some(8u16)
    } else if code == "KeyV"@ {
        Some(9u16)
    } else if code == "KeyB"@ {
        Some(11u16)
    } else if code == "KeyQ"@ {
        Some(12u16)
    } else if code == "KeyW"@ {
        Some(13u16)
    } else if code == "KeyE"@ {
        Some(14u16)
    } else if code == "KeyR"@ {
        Some(15u16)
    } else if code == "KeyY"@ {
        Some(16u16)
    } else if code == "KeyT"@ {
        Some(17u16)
    } else if code == "Key1"@ {
        Some(18u16)
    } else if code == "Key2"@ {
        Some(19u16)
    } else if code == "Key3"@ {
        Some(20u16)
    } else if code == "Key4"@ {
        Some(21u16)
    } else if code == "Key6"@ {
        Some(22u16)
    } else if code == "Key5"@ {
        Some(23u16)
    } else if code == "Key9"@ {
        Some(25u16)
    } else if code == "Key7"@ {
        Some(26u16)
    } else if code == "Key8"@ {
        Some(28u16)
    } else if code == "Key0"@ {
        Some(29u16)
    } else if code == "KeyO"@ {
        Some(31u16)
    } else if code == "KeyU"@ {
        Some(32u16)
    } else if code == "KeyI"@ {
        Some(34u16)
    } else if code == "KeyP"@ {
        Some(35u16)
    } else if code == "Enter"@ {
        Some(36u16)
    } else if code == "KeyL"@ {
        Some(37u16)
    } else if code == "KeyJ"@ {
        Some(38u16)
    } else if code == "KeyK"@ {
        Some(40u16)
    } else if code == "KeyN"@ {
        Some(45u16)
    } else if code == "KeyM"@ {
        Some(46u16)
    } else if code == "Tab"@ {
        Some(48u16)
    } else if code == "Space"@ {
        Some(49u16)
    } else if code == "Backspace"@ {
        Some(51u16)
    } else if code == "Escape"@ {
        Some(53u16)
    } else if code == "F1"@ {
        Some(122u16)
    } else if code == "F2"@ {
        Some(120u16)
    } else if code == "F3"@ {
        Some(99u16)
    } else if code == "F4"@ {
        Some(118u16)
    } else if code == "F5"@ {
        Some(96u16)
    } else if code == "F6"@ {
        Some(97u16)
    } else if code == "F7"@ {
        Some(98u16)
    } else if code == "F8"@ {
        Some(100u16)
    } else if code == "F9"@ {
        Some(101u16)
    } else if code == "F10"@ {
        Some(109u16)
    } else if code == "F11"@ {
        Some(103u16)
    } else if code == "F12"@ {
        Some(111u16)
    } else if code == "F13"@ {
        Some(105u16)
    } else if code == "F14"@ {
        Some(107u16)
    } else if code == "F15"@ {
        Some(113u16)
    } else if code == "F16"@ {
        Some(106u16)
    } else if code == "F17"@ {
        Some(64u16)
    } else if code == "F18"@ {
        Some(79u16)
    } else if code == "F19"@ {
        Some(80u16)
    } else if code == "F20"@ {
        Some(90u16)
    } else if code == "F21"@ {
        Some(83u16)
    } else if code == "F22"@ {
        Some(84u16)
    } else if code == "F23"@ {
        Some(85u16)
    } else if code == "F24"@ {
        Some(86u16)
    } else if code == "ArrowUp"@ {
        Some(126u16)
    } else if code == "ArrowDown"@ {
        Some(125u16)
    } else if code == "ArrowLeft"@ {
        Some(123u16)
    } else if code == "ArrowRight"@ {
        Some(124u16)
    } else if code == "PageUp"@ {
        Some(116u16)
    } else if code == "PageDown"@ {
        Some(121u16)
    } else if code == "Home"@ {
        Some(115u16)
    } else if code == "End"@ {
        Some(119u16)
    } else if code == "Insert"@ {
        Some(114u16)
    } else if code == "Delete"@ {
        Some(117u16)
    } else if prefix_of(code, "Digit"@) {
        match parse_uint_of(code.skip(5), 65535) {
            Some(n) => if n + 18 <= 65535 {
                Some((n + 18) as u16)
            } else {
                None
            },
            None => None,
        }
    } else if prefix_of(code, "Key"@) {
        if code.skip(3).len() == 1 && is_ascii_alpha(code.skip(3)[0]) {
            Some((((ascii_upper(code.skip(3)[0]) as u32) - 65) as u16))
        } else {
            None
        }
    } else {
        None
    }
}

/// Maps a physical key code to the poller's virtual-key number.
pub fn code_to_vk(code: &str) -> (r: Option<u16>)
    ensures
        r == mac_vk_of(code@),
{
    if str_eq(code, "KeyA") {
        return Some(0);
    }
    if str_eq(code, "KeyS") {
        return Some(1);
    }
    if str_eq(code, "KeyD") {
        return Some(2);
    }
    if str_eq(code, "KeyF") {
        return Some(3);
    }
    if str_eq(code, "KeyH") {
        return Some(4);
    }
    if str_eq(code, "KeyG") {
        return Some(5);
    }
    if str_eq(code, "KeyZ") {
        return Some(6);
    }
    if str_eq(code, "KeyX") {
        return Some(7);
    }
    if str_eq(code, "KeyC") {
        return Some(8);
    }
    if str_eq(code, "KeyV") {
        return Some(9);
    }
    if str_eq(code, "KeyB") {
        return Some(11);
    }
    if str_eq(code, "KeyQ") {
        return Some(12);
    }
    if str_eq(code, "KeyW") {
        return Some(13);
    }
    if str_eq(code, "KeyE") {
        return Some(14);
    }
    if str_eq(code, "KeyR") {
        return Some(15);
    }
    if str_eq(code, "KeyY") {
        return Some(16);
    }
    if str_eq(code, "KeyT") {
        return Some(17);
    }
    if str_eq(code, "Key1") {
        return Some(18);
    }
    if str_eq(code, "Key2") {
        return Some(19);
    }
    if str_eq(code, "Key3") {
        return Some(20);
    }
    if str_eq(code, "Key4") {
        return Some(21);
    }
    if str_eq(code, "Key6") {
        return Some(22);
    }
    if str_eq(code, "Key5") {
        return Some(23);
    }
    if str_eq(code, "Key9") {
        return Some(25);
    }
    if str_eq(code, "Key7") {
        return Some(26);
    }
    if str_eq(code, "Key8") {
        return Some(28);
    }
    if str_eq(code, "Key0") {
        return Some(29);
    }
    if str_eq(code, "KeyO") {
        return Some(31);
    }
    if str_eq(code, "KeyU") {
        return Some(32);
    }
    if str_eq(code, "KeyI") {
        return Some(34);
    }
    if str_eq(code, "KeyP") {
        return Some(35);
    }
    if str_eq(code, "Enter") {
        return Some(36);
    }
    if str_eq(code, "KeyL") {
        return Some(37);
    }
    if str_eq(code, "KeyJ") {
        return Some(38);
    }
    if str_eq(code, "KeyK") {
        return Some(40);
    }
    if str_eq(code, "KeyN") {
        return Some(45);
    }
    if str_eq(code, "KeyM") {
        return Some(46);
    }
    if str_eq(code, "Tab") {
        return Some(48);
    }
    if str_eq(code, "Space") {
        return Some(49);
    }
    if str_eq(code, "Backspace") {
        return Some(51);
    }
    if str_eq(code, "Escape") {
        return Some(53);
    }
    if str_eq(code, "F1") {
        return Some(122);
    }
    if str_eq(code, "F2") {
        return Some(120);
    }
    if str_eq(code, "F3") {
        return Some(99);
    }
    if str_eq(code, "F4") {
        return Some(118);
    }
    if str_eq(code, "F5") {
        return Some(96);
    }
    if str_eq(code, "F6") {
        return Some(97);
    }
    if str_eq(code, "F7") {
        return Some(98);
    }
    if str_eq(code, "F8") {
        return Some(100);
    }
    if str_eq(code, "F9") {
        return Some(101);
    }
    if str_eq(code, "F10") {
        return Some(109);
    }
    if str_eq(code, "F11") {
        return Some(103);
    }
    if str_eq(code, "F12") {
        return Some(111);
    }
    if str_eq(code, "F13") {
        return Some(105);
    }
    if str_eq(code, "F14") {
        return Some(107);
    }
    if str_eq(code, "F15") {
        return Some(113);
    }
    if str_eq(code, "F16") {
        return Some(106);
    }
    if str_eq(code, "F17") {
        return Some(64);
    }
    if str_eq(code, "F18") {
        return Some(79);
    }
    if str_eq(code, "F19") {
        return Some(80);
    }
    if str_eq(code, "F20") {
        return Some(90);
    }
    if str_eq(code, "F21") {
        return Some(83);
    }
    if str_eq(code, "F22") {
        return Some(84);
    }
    if str_eq(code, "F23") {
        return Some(85);
    }
    if str_eq(code, "F24") {
        return Some(86);
    }
    if str_eq(code, "ArrowUp") {
        return Some(126);
    }
    if str_eq(code, "ArrowDown") {
        return Some(125);
    }
    if str_eq(code, "ArrowLeft") {
        return Some(123);
    }
    if str_eq(code, "ArrowRight") {
        return Some(124);
    }
    if str_eq(code, "PageUp") {
        return Some(116);
    }
    if str_eq(code, "PageDown") {
        return Some(121);
    }
    if str_eq(code, "Home") {
        return Some(115);
    }
    if str_eq(code, "End") {
        return Some(119);
    }
    if str_eq(code, "Insert") {
        return Some(114);
    }
    if str_eq(code, "Delete") {
        return Some(117);
    }
    if str_starts_with(code, "Digit") {
        let n = code.unicode_len();
        proof {
            reveal_strlit("Digit");
        }
        let rest = code.substring_char(5, n);
        proof {
            assert(rest@ =~= code@.skip(5));
        }
        return match parse_uint(rest, 65535) {
            Some(v) => if v + 18 <= 65535 {
                Some((v + 18) as u16)
            } else {
                None
            },
            None => None,
        };
    }
    if str_starts_with(code, "Key") {
        proof {
            reveal_strlit("Key");
        }
        let n = code.unicode_len();
        if n == 4 {
            let c = code.get_char(3);
            proof {
                assert(code@.skip(3).len() == 1);
                assert(code@.skip(3)[0] == c);
            }
            if char_is_ascii_alpha(c) {
                let u = char_ascii_upper(c);
                return Some(((u as u32) - 65) as u16);
            }
            return None;
        }
        proof {
            assert(code@.skip(3).len() == n - 3);
        }
        return None;
    }
    None
}

} // verus!
