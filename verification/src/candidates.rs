//! Accelerator candidates for the global-shortcut service: a physical key
//! code maps to the list of key names the service might accept, and a combo
//! is offered under each of them in turn, modifiers first.

use vstd::prelude::*;

use crate::settings::HotkeyMods;
use crate::strutil::prefix_of;
use crate::strutil::str_eq;
use crate::strutil::str_starts_with;

verus! {

/// The character sequences of a list of candidate strings.
pub open spec fn candidate_views(ss: Seq<String>) -> Seq<Seq<char>> {
    ss.map(|i: int, s: String| s@)
}

/// The key-name candidates for one physical key code.  An unknown code of a
/// recognized shape stands for itself; anything else yields no candidate,
/// which makes registration fail.
pub open spec fn key_candidates_chars(code: Seq<char>) -> Seq<Seq<char>> {
    if code == "Digit1"@ || code == "1"@ {
        seq!["1"@, "Digit1"@, "Key1"@, "Numpad1"@]
    } else if code == "Digit2"@ || code == "2"@ {
        seq!["2"@, "Digit2"@, "Key2"@, "Numpad2"@]
    } else if code == "Digit3"@ || code == "3"@ {
        seq!["3"@, "Digit3"@, "Key3"@, "Numpad3"@]
    } else if code == "Digit4"@ || code == "4"@ {
        seq!["4"@, "Digit4"@, "Key4"@, "Numpad4"@]
    } else if code == "Digit5"@ || code == "5"@ {
        seq!["5"@, "Digit5"@, "Key5"@, "Numpad5"@]
    } else if code == "Digit6"@ || code == "6"@ {
        seq!["6"@, "Digit6"@, "Key6"@, "Numpad6"@]
    } else if code == "Digit7"@ || code == "7"@ {
        seq!["7"@, "Digit7"@, "Key7"@, "Numpad7"@]
    } else if code == "Digit8"@ || code == "8"@ {
        seq!["8"@, "Digit8"@, "Key8"@, "Numpad8"@]
    } else if code == "Digit9"@ || code == "9"@ {
        seq!["9"@, "Digit9"@, "Key9"@, "Numpad9"@]
    } else if code == "Digit0"@ || code == "0"@ {
        seq!["0"@, "Digit0"@, "Key0"@, "Numpad0"@]
    } else if code == "KeyQ"@ {
        seq!["Q"@, "KeyQ"@]
    } else if code == "KeyW"@ {
        seq!["W"@, "KeyW"@]
    } else if code == "KeyE"@ {
        seq!["E"@, "KeyE"@]
    } else if code == "KeyR"@ {
        seq!["R"@, "KeyR"@]
    } else if code == "KeyT"@ {
        seq!["T"@, "KeyT"@]
    } else if code == "KeyY"@ {
        seq!["Y"@, "KeyY"@]
    } else if code == "KeyU"@ {
        seq!["U"@, "KeyU"@]
    } else if code == "KeyI"@ {
        seq!["I"@, "KeyI"@]
    } else if code == "KeyO"@ {
        seq!["O"@, "KeyO"@]
    } else if code == "KeyP"@ {
        seq!["P"@, "KeyP"@]
    } else if code == "KeyA"@ {
        seq!["A"@, "KeyA"@]
    } else if code == "KeyS"@ {
        seq!["S"@, "KeyS"@]
    } else if code == "KeyD"@ {
        seq!["D"@, "KeyD"@]
    } else if code == "KeyF"@ {
        seq!["F"@, "KeyF"@]
    } else if code == "KeyG"@ {
        seq!["G"@, "KeyG"@]
    } else if code == "KeyH"@ {
        seq!["H"@, "KeyH"@]
    } else if code == "KeyJ"@ {
        seq!["J"@, "KeyJ"@]
    } else if code == "KeyK"@ {
        seq!["K"@, "KeyK"@]
    } else if code == "KeyL"@ {
        seq!["L"@, "KeyL"@]
    } else if code == "KeyZ"@ {
        seq!["Z"@, "KeyZ"@]
    } else if code == "KeyX"@ {
        seq!["X"@, "KeyX"@]
    } else if code == "KeyC"@ {
        seq!["C"@, "KeyC"@]
    } else if code == "KeyV"@ {
        seq!["V"@, "KeyV"@]
    } else if code == "KeyB"@ {
        seq!["B"@, "KeyB"@]
    } else if code == "KeyN"@ {
        seq!["N"@, "KeyN"@]
    } else if code == "KeyM"@ {
        seq!["M"@, "KeyM"@]
    } else if code == "Space"@ {
        seq!["Space"@]
    } else if code == "Insert"@ {
        seq!["Insert"@, "Ins"@]
    } else if code == "PageUp"@ {
        seq!["PageUp"@, "Prior"@]
    } else if code == "PageDown"@ {
        seq!["PageDown"@, "Next"@]
    } else if code == "Home"@ {
        seq!["Home"@]
    } else if code == "End"@ {
        seq!["End"@]
    } else if code == "ArrowUp"@ {
        seq!["ArrowUp"@, "Up"@]
    } else if code == "ArrowDown"@ {
        seq!["ArrowDown"@, "Down"@]
    } else if code == "ArrowLeft"@ {
        seq!["ArrowLeft"@, "Left"@]
    } else if code == "ArrowRight"@ {
        seq!["ArrowRight"@, "Right"@]
    } else if code == "F1"@ {
        seq!["F1"@]
    } else if code == "F2"@ {
        seq!["F2"@]
    } else if code == "F3"@ {
        seq!["F3"@]
    } else if code == "F4"@ {
        seq!["F4"@]
    } else if code == "F5"@ {
        seq!["F5"@]
    } else if code == "F6"@ {
        seq!["F6"@]
    } else if code == "F7"@ {
        seq!["F7"@]
    } else if code == "F8"@ {
        seq!["F8"@]
    } else if code == "F9"@ {
        seq!["F9"@]
    } else if code == "F10"@ {
        seq!["F10"@]
    } else if code == "F11"@ {
        seq!["F11"@]
    } else if code == "F12"@ {
        seq!["F12"@]
    } else if code == "Tab"@ {
        seq!["Tab"@]
    } else if code == "Enter"@ {
        seq!["Enter"@]
    } else if code == "Escape"@ {
        seq!["Escape"@]
    } else if code == "Backspace"@ {
        seq!["Backspace"@]
    } else if code == "Delete"@ {
        seq!["Delete"@]
    } else if prefix_of(code, "Key"@) || prefix_of(code, "Digit"@) || prefix_of(
        code,
        "Arrow"@,
    ) || prefix_of(code, "F"@) {
        seq![code]
    } else {
        Seq::empty()
    }
}

fn strs1(a: &str) -> (r: Vec<String>)
    ensures
        candidate_views(r@) == seq![a@],
{
    let r = vec![String::from_str(a)];
    proof {
        assert(candidate_views(r@) =~= seq![a@]);
    }
    r
}

fn strs2(a: &str, b: &str) -> (r: Vec<String>)
    ensures
        candidate_views(r@) == seq![a@, b@],
{
    let r = vec![String::from_str(a), String::from_str(b)];
    proof {
        assert(candidate_views(r@) =~= seq![a@, b@]);
    }
    r
}

fn strs4(a: &str, b: &str, c: &str, d: &str) -> (r: Vec<String>)
    ensures
        candidate_views(r@) == seq![a@, b@, c@, d@],
{
    let r = vec![
        String::from_str(a),
        String::from_str(b),
        String::from_str(c),
        String::from_str(d),
    ];
    proof {
        assert(candidate_views(r@) =~= seq![a@, b@, c@, d@]);
    }
    r
}

/// Lists the key names the shortcut service might accept for one physical
/// key code.
pub fn plugin_key_candidates_from_code(code: &str) -> (r: Vec<String>)
    ensures
        candidate_views(r@) == key_candidates_chars(code@),
{
    if str_eq(code, "Digit1") || str_eq(code, "1") {
        return strs4("1", "Digit1", "Key1", "Numpad1");
    }
    if str_eq(code, "Digit2") || str_eq(code, "2") {
        return strs4("2", "Digit2", "Key2", "Numpad2");
    }
    if str_eq(code, "Digit3") || str_eq(code, "3") {
        return strs4("3", "Digit3", "Key3", "Numpad3");
    }
    if str_eq(code, "Digit4") || str_eq(code, "4") {
        return strs4("4", "Digit4", "Key4", "Numpad4");
    }
    if str_eq(code, "Digit5") || str_eq(code, "5") {
        return strs4("5", "Digit5", "Key5", "Numpad5");
    }
    if str_eq(code, "Digit6") || str_eq(code, "6") {
        return strs4("6", "Digit6", "Key6", "Numpad6");
    }
    if str_eq(code, "Digit7") || str_eq(code, "7") {
        return strs4("7", "Digit7", "Key7", "Numpad7");
    }
    if str_eq(code, "Digit8") || str_eq(code, "8") {
        return strs4("8", "Digit8", "Key8", "Numpad8");
    }
    if str_eq(code, "Digit9") || str_eq(code, "9") {
        return strs4("9", "Digit9", "Key9", "Numpad9");
    }
    if str_eq(code, "Digit0") || str_eq(code, "0") {
        return strs4("0", "Digit0", "Key0", "Numpad0");
    }
    if str_eq(code, "KeyQ") {
        return strs2("Q", "KeyQ");
    }
    if str_eq(code, "KeyW") {
        return strs2("W", "KeyW");
    }
    if str_eq(code, "KeyE") {
        return strs2("E", "KeyE");
    }
    if str_eq(code, "KeyR") {
        return strs2("R", "KeyR");
    }
    if str_eq(code, "KeyT") {
        return strs2("T", "KeyT");
    }
    if str_eq(code, "KeyY") {
        return strs2("Y", "KeyY");
    }
    if str_eq(code, "KeyU") {
        return strs2("U", "KeyU");
    }
    if str_eq(code, "KeyI") {
        return strs2("I", "KeyI");
    }
    if str_eq(code, "KeyO") {
        return strs2("O", "KeyO");
    }
    if str_eq(code, "KeyP") {
        return strs2("P", "KeyP");
    }
    if str_eq(code, "KeyA") {
        return strs2("A", "KeyA");
    }
    if str_eq(code, "KeyS") {
        return strs2("S", "KeyS");
    }
    if str_eq(code, "KeyD") {
        return strs2("D", "KeyD");
    }
    if str_eq(code, "KeyF") {
        return strs2("F", "KeyF");
    }
    if str_eq(code, "KeyG") {
        return strs2("G", "KeyG");
    }
    if str_eq(code, "KeyH") {
        return strs2("H", "KeyH");
    }
    if str_eq(code, "KeyJ") {
        return strs2("J", "KeyJ");
    }
    if str_eq(code, "KeyK") {
        return strs2("K", "KeyK");
    }
    if str_eq(code, "KeyL") {
        return strs2("L", "KeyL");
    }
    if str_eq(code, "KeyZ") {
        return strs2("Z", "KeyZ");
    }
    if str_eq(code, "KeyX") {
        return strs2("X", "KeyX");
    }
    if str_eq(code, "KeyC") {
        return strs2("C", "KeyC");
    }
    if str_eq(code, "KeyV") {
        return strs2("V", "KeyV");
    }
    if str_eq(code, "KeyB") {
        return strs2("B", "KeyB");
    }
    if str_eq(code, "KeyN") {
        return strs2("N", "KeyN");
    }
    if str_eq(code, "KeyM") {
        return strs2("M", "KeyM");
    }
    if str_eq(code, "Space") {
        return strs1("Space");
    }
    if str_eq(code, "Insert") {
        return strs2("Insert", "Ins");
    }
    if str_eq(code, "PageUp") {
        return strs2("PageUp", "Prior");
    }
    if str_eq(code, "PageDown") {
        return strs2("PageDown", "Next");
    }
    if str_eq(code, "Home") {
        return strs1("Home");
    }
    if str_eq(code, "End") {
        return strs1("End");
    }
    if str_eq(code, "ArrowUp") {
        return strs2("ArrowUp", "Up");
    }
    if str_eq(code, "ArrowDown") {
        return strs2("ArrowDown", "Down");
    }
    if str_eq(code, "ArrowLeft") {
        return strs2("ArrowLeft", "Left");
    }
    if str_eq(code, "ArrowRight") {
        return strs2("ArrowRight", "Right");
    }
    if str_eq(code, "F1") {
        return strs1("F1");
    }
    if str_eq(code, "F2") {
        return strs1("F2");
    }
    if str_eq(code, "F3") {
        return strs1("F3");
    }
    if str_eq(code, "F4") {
        return strs1("F4");
    }
    if str_eq(code, "F5") {
        return strs1("F5");
    }
    if str_eq(code, "F6") {
        return strs1("F6");
    }
    if str_eq(code, "F7") {
        return strs1("F7");
    }
    if str_eq(code, "F8") {
        return strs1("F8");
    }
    if str_eq(code, "F9") {
        return strs1("F9");
    }
    if str_eq(code, "F10") {
        return strs1("F10");
    }
    if str_eq(code, "F11") {
        return strs1("F11");
    }
    if str_eq(code, "F12") {
        return strs1("F12");
    }
    if str_eq(code, "Tab") {
        return strs1("Tab");
    }
    if str_eq(code, "Enter") {
        return strs1("Enter");
    }
    if str_eq(code, "Escape") {
        return strs1("Escape");
    }
    if str_eq(code, "Backspace") {
        return strs1("Backspace");
    }
    if str_eq(code, "Delete") {
        return strs1("Delete");
    }
    if str_starts_with(code, "Key") || str_starts_with(code, "Digit") || str_starts_with(
        code,
        "Arrow",
    ) || str_starts_with(code, "F") {
        return strs1(code);
    }
    let none: Vec<String> = Vec::new();
    proof {
        assert(candidate_views(none@) =~= Seq::<Seq<char>>::empty());
    }
    none
}

/// `x` appended to an accelerator under construction, with a separator when
/// something already stands there.
pub open spec fn plus_sep(acc: Seq<char>, x: Seq<char>) -> Seq<char> {
    if acc.len() == 0 {
        x
    } else {
        acc + seq!['+'] + x
    }
}

/// The modifier prefix of a combo, in the fixed order.
pub open spec fn mod_prefix_chars(m: HotkeyMods) -> Seq<char> {
    let after_cmd: Seq<char> = if m.cmd {
        "Cmd"@
    } else {
        Seq::empty()
    };
    let after_ctrl = if m.ctrl {
        plus_sep(after_cmd, "Ctrl"@)
    } else {
        after_cmd
    };
    let after_alt = if m.alt {
        plus_sep(after_ctrl, "Alt"@)
    } else {
        after_ctrl
    };
    if m.shift {
        plus_sep(after_alt, "Shift"@)
    } else {
        after_alt
    }
}

/// Every key name put behind the modifier prefix.
pub open spec fn with_prefix(prefix: Seq<char>, keys: Seq<Seq<char>>) -> Seq<Seq<char>> {
    keys.map(|i: int, k: Seq<char>| prefix + seq!['+'] + k)
}

/// Duplicates removed, keeping the first occurrence of each candidate.
pub open spec fn dedup_keep_first(s: Seq<Seq<char>>) -> Seq<Seq<char>>
    decreases s.len(),
{
    if s.len() == 0 {
        s
    } else {
        let rest = dedup_keep_first(s.drop_last());
        if s.drop_last().contains(s.last()) {
            rest
        } else {
            rest.push(s.last())
        }
    }
}

/// The full candidate list for a combo: nothing for an unusable key code;
/// otherwise each key name, behind the modifier prefix when any modifier is
/// set, with duplicates removed.
pub open spec fn hotkey_candidates_chars(code: Seq<char>, m: HotkeyMods) -> Seq<Seq<char>> {
    let keys = key_candidates_chars(code);
    if keys.len() == 0 {
        Seq::empty()
    } else if !(m.cmd || m.ctrl || m.alt || m.shift) {
        dedup_keep_first(keys)
    } else {
        dedup_keep_first(with_prefix(mod_prefix_chars(m), keys))
    }
}

/// Appends one modifier name to the prefix under construction.
fn push_part(acc: String, x: &str) -> (r: String)
    ensures
        r@ == plus_sep(acc@, x@),
{
    proof {
        reveal_strlit("+");
    }
    if acc.as_str().is_empty() {
        String::from_str(x)
    } else {
        let mut out = acc;
        out.append("+");
        out.append(x);
        out
    }
}

/// Lists the accelerators to offer the shortcut service for one combo, in
/// the order they should be tried.
pub fn generate_hotkey_candidates_from_code(code: &str, mods: &HotkeyMods) -> (r: Vec<String>)
    ensures
        candidate_views(r@) == hotkey_candidates_chars(code@, *mods),
{
    let keys = plugin_key_candidates_from_code(code);
    if keys.len() == 0 {
        let none: Vec<String> = Vec::new();
        proof {
            assert(candidate_views(none@) =~= Seq::<Seq<char>>::empty());
        }
        return none;
    }
    let has_mods = mods.cmd || mods.ctrl || mods.alt || mods.shift;
    let combined: Vec<String> = if !has_mods {
        keys
    } else {
        let mut prefix = String::new();
        if mods.cmd {
            prefix = push_part(prefix, "Cmd");
        }
        if mods.ctrl {
            prefix = push_part(prefix, "Ctrl");
        }
        if mods.alt {
            prefix = push_part(prefix, "Alt");
        }
        if mods.shift {
            prefix = push_part(prefix, "Shift");
        }
        proof {
            assert(prefix@ == mod_prefix_chars(*mods));
        }
        let mut out: Vec<String> = Vec::new();
        let ghost keyviews = candidate_views(keys@);
        let mut i: usize = 0;
        proof {
            assert(candidate_views(out@) =~= with_prefix(prefix@, keyviews.take(0)));
        }
        while i < keys.len()
            invariant
                keyviews == candidate_views(keys@),
                0 <= i <= keys@.len(),
                candidate_views(out@) == with_prefix(prefix@, keyviews.take(i as int)),
            decreases keys@.len() - i,
        {
            proof {
                reveal_strlit("+");
                assert("+"@ =~= seq!['+']);
            }
            let ghost out_before = out@;
            let mut cand = prefix.clone();
            cand.append("+");
            cand.append(keys[i].as_str());
            proof {
                assert(cand@ == prefix@ + seq!['+'] + keys@[i as int]@);
            }
            out.push(cand);
            proof {
                let b = with_prefix(prefix@, keyviews.take(i + 1));
                assert(out@ == out_before.push(cand));
                assert(candidate_views(out_before).len() == out_before.len());
                assert(out_before.len() == i);
                assert forall|k: int| 0 <= k <= i implies candidate_views(out@)[k] == b[k] by {
                    if k < i {
                        assert(out@[k] == out_before[k]);
                        assert(candidate_views(out_before)[k] == with_prefix(
                            prefix@,
                            keyviews.take(i as int),
                        )[k]);
                        assert(keyviews.take(i as int)[k] == keyviews.take(i + 1)[k]);
                    } else {
                        assert(keyviews[i as int] == keys@[i as int]@);
                    }
                };
                assert(candidate_views(out@) =~= b);
            }
            i = i + 1;
        }
        proof {
            assert(keyviews.take(keys@.len() as int) =~= keyviews);
        }
        out
    };
    let ghost all = candidate_views(combined@);
    let mut result: Vec<String> = Vec::new();
    let mut i: usize = 0;
    proof {
        assert(all.take(0) =~= Seq::<Seq<char>>::empty());
        assert(candidate_views(result@) =~= dedup_keep_first(all.take(0)));
    }
    while i < combined.len()
        invariant
            all == candidate_views(combined@),
            0 <= i <= combined@.len(),
            candidate_views(result@) == dedup_keep_first(all.take(i as int)),
        decreases combined@.len() - i,
    {
        let mut seen = false;
        let mut j: usize = 0;
        while j < i
            invariant
                all == candidate_views(combined@),
                0 <= j <= i < combined@.len(),
                seen ==> exists|k: int| 0 <= k < i && all[k] == all[i as int],
                !seen ==> forall|k: int| 0 <= k < j ==> all[k] != all[i as int],
            decreases i - j,
        {
            if str_eq(combined[j].as_str(), combined[i].as_str()) {
                seen = true;
                proof {
                    assert(all[j as int] == all[i as int]);
                }
                j = i;
            } else {
                j = j + 1;
            }
        }
        proof {
            assert(seen == all.take(i as int).contains(all[i as int])) by {
                if seen {
                    let k = choose|k: int| 0 <= k < i && all[k] == all[i as int];
                    assert(all.take(i as int)[k] == all[i as int]);
                } else {
                    if all.take(i as int).contains(all[i as int]) {
                        let k = choose|k: int|
                            0 <= k < i && all.take(i as int)[k] == all[i as int];
                        assert(all[k] == all[i as int]);
                    }
                }
            };
        }
        if !seen {
            result.push(combined[i].clone());
        }
        proof {
            assert(all.take(i + 1).drop_last() =~= all.take(i as int));
            assert(candidate_views(result@) =~= dedup_keep_first(all.take(i + 1)));
        }
        i = i + 1;
    }
    proof {
        assert(all.take(combined@.len() as int) =~= all);
    }
    result
}

} // verus!
