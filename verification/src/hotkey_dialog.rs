//! The hotkey-capture dialog's decision logic: polling the keyboard state
//! is platform work, delivered here as plain values; this module decides
//! what the poll means, when the display changes, and what the dialog
//! returns.

use vstd::prelude::*;
use crate::config::lemma_join_plus_push;
use crate::config::push_join_part;
use crate::config::push_key_name;
use crate::config::spec_join_plus;
use crate::config::spec_key_name;
use crate::config::spec_mod_parts;
use crate::text::push_char;
use vstd::string::StringExecFns;

verus! {

/// What the dialog shows for a candidate binding: the set modifiers and
/// the key joined with `+`, a prompt while nothing was captured yet.
pub open spec fn spec_format_hotkey(mods: u32, key: u32) -> Seq<char> {
    let parts = if key == 0 {
        spec_mod_parts(mods)
    } else {
        spec_mod_parts(mods).push(spec_key_name(key))
    };
    if parts.len() == 0 {
        "Press a key..."@
    } else {
        spec_join_plus(parts)
    }
}

/// Formats a candidate binding for the dialog's display field: like
/// `HotkeyConfig::display`, except that a zero key prints nothing, and
/// that with nothing at all to print the prompt `Press a key...` appears.
#[verifier::rlimit(50)]
pub fn format_hotkey(modifiers: u32, key: u32) -> (r: String)
    ensures
        r@ == spec_format_hotkey(modifiers, key),
{
    let mut out = String::new();
    let mut first = true;
    let ghost mut parts: Seq<Seq<char>> = Seq::empty();
    if modifiers & 0x2 != 0 {
        proof {
            lemma_join_plus_push(parts, "Ctrl"@);
        }
        push_join_part(&mut out, &mut first, "Ctrl");
        proof {
            parts = parts.push("Ctrl"@);
        }
    }
    if modifiers & 0x1 != 0 {
        proof {
            lemma_join_plus_push(parts, "Alt"@);
        }
        push_join_part(&mut out, &mut first, "Alt");
        proof {
            parts = parts.push("Alt"@);
        }
    }
    if modifiers & 0x4 != 0 {
        proof {
            lemma_join_plus_push(parts, "Shift"@);
        }
        push_join_part(&mut out, &mut first, "Shift");
        proof {
            parts = parts.push("Shift"@);
        }
    }
    if modifiers & 0x8 != 0 {
        proof {
            lemma_join_plus_push(parts, "Win"@);
        }
        push_join_part(&mut out, &mut first, "Win");
        proof {
            parts = parts.push("Win"@);
        }
    }
    proof {
        assert(parts == spec_mod_parts(modifiers));
        assert(out@ == spec_join_plus(parts));
        assert(first == (parts.len() == 0));
    }
    if key != 0 {
        proof {
            lemma_join_plus_push(parts, spec_key_name(key));
        }
        if !first {
            push_char(&mut out, '+');
        }
        push_key_name(&mut out, key);
        proof {
            assert(out@ =~= spec_format_hotkey(modifiers, key));
        }
        out
    } else if first {
        String::from_str("Press a key...")
    } else {
        out
    }
}

/// The modifier mask the poll reports: Ctrl, Alt, Shift and either Win key,
/// read from the per-virtual-key down states.
pub open spec fn spec_modifiers_down(down: Seq<bool>) -> u32 {
    (if down[0x11] {
        0x2u32
    } else {
        0u32
    }) | (if down[0x12] {
        0x1u32
    } else {
        0u32
    }) | (if down[0x10] {
        0x4u32
    } else {
        0u32
    }) | (if down[0x5B] || down[0x5C] {
        0x8u32
    } else {
        0u32
    })
}

/// The first virtual key held down in `lo..hi`.
pub open spec fn spec_first_down(down: Seq<bool>, lo: int, hi: int) -> Option<u32>
    decreases hi - lo,
{
    if lo >= hi {
        None
    } else if down[lo] {
        Some(lo as u32)
    } else {
        spec_first_down(down, lo + 1, hi)
    }
}

/// The key the poll reports: the first letter held down, else the first
/// digit, else the first function key.
pub open spec fn spec_scan_key(down: Seq<bool>) -> Option<u32> {
    match spec_first_down(down, 0x41, 0x5B) {
        Some(k) => Some(k),
        None => match spec_first_down(down, 0x30, 0x3A) {
            Some(k) => Some(k),
            None => spec_first_down(down, 0x70, 0x7C),
        },
    }
}

/// What one keyboard poll means: nothing while no candidate key is held
/// down; otherwise the held modifiers together with the first candidate
/// key in scan order.
pub open spec fn spec_check_key_state(down: Seq<bool>) -> Option<(u32, u32)> {
    match spec_scan_key(down) {
        None => None,
        Some(k) => Some((spec_modifiers_down(down), k)),
    }
}

fn first_down_in(down: &Vec<bool>, lo: usize, hi: usize) -> (r: Option<u32>)
    requires
        lo <= hi,
        hi <= down@.len(),
    ensures
        r == spec_first_down(down@, lo as int, hi as int),
{
    let mut vk: usize = lo;
    while vk < hi
        invariant
            lo <= vk <= hi,
            hi <= down@.len(),
            spec_first_down(down@, lo as int, hi as int) == spec_first_down(
                down@,
                vk as int,
                hi as int,
            ),
        decreases hi - vk,
    {
        if down[vk] {
            return Some(vk as u32);
        }
        vk = vk + 1;
    }
    None
}

/// Reads one keyboard poll, given for each virtual-key code whether that
/// key is currently held down: the held modifier mask, together with the
/// first held candidate key — letters before digits before function keys —
/// or nothing while no candidate key is down.
pub fn check_key_state(down: &Vec<bool>) -> (r: Option<(u32, u32)>)
    requires
        down@.len() == 256,
    ensures
        r == spec_check_key_state(down@),
{
    let m1: u32 = if down[0x11] {
        0x2
    } else {
        0
    };
    let m2: u32 = if down[0x12] {
        0x1
    } else {
        0
    };
    let m3: u32 = if down[0x10] {
        0x4
    } else {
        0
    };
    let m4: u32 = if down[0x5B] || down[0x5C] {
        0x8
    } else {
        0
    };
    let modifiers = m1 | m2 | m3 | m4;
    let key = match first_down_in(down, 0x41, 0x5B) {
        Some(k) => Some(k),
        None => match first_down_in(down, 0x30, 0x3A) {
            Some(k) => Some(k),
            None => first_down_in(down, 0x70, 0x7C),
        },
    };
    match key {
        Some(k) => Some((modifiers, k)),
        None => None,
    }
}

/// The capture dialog's state: the candidate binding, whether OK confirmed
/// it, and the key seen by the previous poll, kept to avoid rewriting the
/// display while a key is held.
#[derive(Clone, Copy, Debug, PartialEq, Eq, Structural)]
pub struct DialogState {
    pub modifiers: u32,
    pub key: u32,
    pub confirmed: bool,
    pub last_key: u32,
}

impl DialogState {
    /// A fresh dialog showing the current binding, nothing confirmed and
    /// no key seen yet.
    pub fn new(current_modifiers: u32, current_key: u32) -> (s: DialogState)
        ensures
            s == (DialogState {
                modifiers: current_modifiers,
                key: current_key,
                confirmed: false,
                last_key: 0,
            }),
    {
        DialogState { modifiers: current_modifiers, key: current_key, confirmed: false, last_key: 0 }
    }
}

/// Feeds one timer poll into the dialog. A poll with a newly pressed key
/// replaces the candidate binding and asks for the display to be redrawn;
/// a poll with the same key still held changes nothing; a poll with no key
/// down only rearms the capture.
pub fn dialog_timer_tick(state: &mut DialogState, polled: Option<(u32, u32)>) -> (changed: bool)
    ensures
        polled is None ==> *final(state) == (DialogState { last_key: 0, ..*old(state) })
            && !changed,
        polled is Some ==> {
            let m = (polled->0).0;
            let k = (polled->0).1;
            if old(state).last_key != k {
                &&& *final(state) == (DialogState {
                    modifiers: m,
                    key: k,
                    last_key: k,
                    confirmed: old(state).confirmed,
                })
                &&& changed
            } else {
                &&& *final(state) == *old(state)
                &&& !changed
            }
        },
{
    match polled {
        Some((m, k)) => {
            if state.last_key != k {
                state.modifiers = m;
                state.key = k;
                state.last_key = k;
                true
            } else {
                false
            }
        },
        None => {
            state.last_key = 0;
            false
        },
    }
}

/// The OK button: with no key captured yet the dialog stays open and asks
/// for a warning; with a captured key the binding is confirmed and the
/// dialog may close.
pub fn dialog_confirm(state: &mut DialogState) -> (accepted: bool)
    ensures
        old(state).key == 0 ==> *final(state) == *old(state) && !accepted,
        old(state).key != 0 ==> *final(state) == (DialogState { confirmed: true, ..*old(state) })
            && accepted,
{
    if state.key == 0 {
        false
    } else {
        state.confirmed = true;
        true
    }
}

/// What the closed dialog hands back: the captured binding when OK
/// confirmed a non-empty capture, nothing on cancel or close.
pub fn dialog_result(state: &DialogState) -> (r: Option<(u32, u32)>)
    ensures
        r == (if state.confirmed && state.key != 0 {
            Some((state.modifiers, state.key))
        } else {
            None
        }),
{
    if state.confirmed && state.key != 0 {
        Some((state.modifiers, state.key))
    } else {
        None
    }
}

} // verus!
