//! The persisted configuration: a single global hotkey binding, stored as
//! one human-readable `hotkey = ...` line, with a formatter (`display`) and
//! a forgiving parser that falls back to the default binding on anything it
//! cannot read.

use vstd::prelude::*;
use vstd::string::StringExecFns;
use crate::text::all_digits;
use crate::text::chars_of;
use crate::text::digits_val;
use crate::text::eq_str;
use crate::text::push_char;
use crate::text::push_dec;
use crate::text::push_hex_pad2;
use crate::text::spec_dec;
use crate::text::spec_hex_pad2;
use crate::text::spec_split;
use crate::text::spec_split_once;
use crate::text::spec_trim;
use crate::text::spec_upper;
use crate::text::split_chars;
use crate::text::split_once_char;
use crate::text::to_upper;
use crate::text::trimmed;

verus! {

/// The default binding used whenever no valid configuration is found:
/// Ctrl+Shift+B.
pub open spec fn default_hotkey() -> HotkeyConfig {
    HotkeyConfig { modifiers: 0x0006, key: 0x42 }
}

/// A global hotkey binding: a bitmask of modifier keys (`0x1` Alt, `0x2`
/// Ctrl, `0x4` Shift, `0x8` Win) and a virtual-key code.
#[derive(Clone, Copy, Debug, PartialEq, Eq, Structural)]
pub struct HotkeyConfig {
    pub modifiers: u32,
    pub key: u32,
}

impl Default for HotkeyConfig {
    /// Ctrl+Shift+B.
    fn default() -> (d: HotkeyConfig)
        ensures
            d == default_hotkey(),
    {
        HotkeyConfig { modifiers: 0x0006, key: 0x42 }
    }
}

/// The name of the key `key`, as the formatters print it: letters and
/// digits as themselves, function keys as `F1` to `F12`, anything else as a
/// hexadecimal `0x..` code.
pub open spec fn spec_key_name(key: u32) -> Seq<char> {
    if (0x41 <= key && key <= 0x5A) || (0x30 <= key && key <= 0x39) {
        seq![(key as u8) as char]
    } else if 0x70 <= key && key <= 0x7B {
        "F"@ + spec_dec(key - 0x6F)
    } else {
        "0x"@ + spec_hex_pad2(key as int)
    }
}

/// The names of the modifiers set in `mods`, in the fixed order Ctrl, Alt,
/// Shift, Win.
pub open spec fn spec_mod_parts(mods: u32) -> Seq<Seq<char>> {
    let p0 = Seq::<Seq<char>>::empty();
    let p1 = if mods & 0x2 != 0 {
        p0.push("Ctrl"@)
    } else {
        p0
    };
    let p2 = if mods & 0x1 != 0 {
        p1.push("Alt"@)
    } else {
        p1
    };
    let p3 = if mods & 0x4 != 0 {
        p2.push("Shift"@)
    } else {
        p2
    };
    if mods & 0x8 != 0 {
        p3.push("Win"@)
    } else {
        p3
    }
}

/// The given parts joined with `+` between them.
pub open spec fn spec_join_plus(parts: Seq<Seq<char>>) -> Seq<char>
    decreases parts.len(),
{
    if parts.len() == 0 {
        Seq::empty()
    } else if parts.len() == 1 {
        parts[0]
    } else {
        spec_join_plus(parts.drop_last()) + seq!['+'] + parts.last()
    }
}

/// What `display` prints for a binding: its modifiers in the fixed order,
/// then the key's name, joined with `+`.
pub open spec fn spec_display_hotkey(mods: u32, key: u32) -> Seq<char> {
    spec_join_plus(spec_mod_parts(mods).push(spec_key_name(key)))
}

pub proof fn lemma_join_plus_push(parts: Seq<Seq<char>>, p: Seq<char>)
    ensures
        spec_join_plus(parts.push(p)) == if parts.len() == 0 {
            p
        } else {
            spec_join_plus(parts) + seq!['+'] + p
        },
{
    let w = parts.push(p);
    if parts.len() == 0 {
        assert(w.len() == 1);
        assert(w[0] == p);
    } else {
        assert(w.drop_last() =~= parts);
        assert(w.last() == p);
    }
}

/// Appends one `+`-joined part: a separator first unless this is the first
/// part.
pub(crate) fn push_join_part(out: &mut String, first: &mut bool, part: &str)
    ensures
        final(out)@ == old(out)@ + (if *old(first) {
            part@
        } else {
            seq!['+'] + part@
        }),
        *final(first) == false,
{
    if !*first {
        push_char(out, '+');
    }
    out.append(part);
    *first = false;
    proof {
        if *old(first) {
            assert(final(out)@ =~= old(out)@ + part@);
        } else {
            assert(final(out)@ =~= old(out)@ + (seq!['+'] + part@));
        }
    }
}

/// Appends the name of key `key`.
pub(crate) fn push_key_name(out: &mut String, key: u32)
    ensures
        final(out)@ == old(out)@ + spec_key_name(key),
{
    if (0x41 <= key && key <= 0x5A) || (0x30 <= key && key <= 0x39) {
        push_char(out, (key as u8) as char);
        proof {
            assert(final(out)@ =~= old(out)@ + spec_key_name(key));
        }
    } else if 0x70 <= key && key <= 0x7B {
        out.append("F");
        push_dec(out, key - 0x6F);
        proof {
            assert(final(out)@ =~= old(out)@ + spec_key_name(key));
        }
    } else {
        out.append("0x");
        push_hex_pad2(out, key);
        proof {
            assert(final(out)@ =~= old(out)@ + spec_key_name(key));
        }
    }
}

impl HotkeyConfig {
    /// The human-readable form of the binding, as written to the
    /// configuration file and shown in the tray menu: the set modifiers in
    /// the order Ctrl, Alt, Shift, Win, then the key's name, joined with
    /// `+` — for example `Ctrl+Shift+B`.
    #[verifier::rlimit(50)]
    pub fn display(&self) -> (r: String)
        ensures
            r@ == spec_display_hotkey(self.modifiers, self.key),
    {
        let mut out = String::new();
        let mut first = true;
        let ghost mut parts: Seq<Seq<char>> = Seq::empty();
        if self.modifiers & 0x2 != 0 {
            proof {
                lemma_join_plus_push(parts, "Ctrl"@);
            }
            push_join_part(&mut out, &mut first, "Ctrl");
            proof {
                parts = parts.push("Ctrl"@);
            }
        }
        if self.modifiers & 0x1 != 0 {
            proof {
                lemma_join_plus_push(parts, "Alt"@);
            }
            push_join_part(&mut out, &mut first, "Alt");
            proof {
                parts = parts.push("Alt"@);
            }
        }
        if self.modifiers & 0x4 != 0 {
            proof {
                lemma_join_plus_push(parts, "Shift"@);
            }
            push_join_part(&mut out, &mut first, "Shift");
            proof {
                parts = parts.push("Shift"@);
            }
        }
        if self.modifiers & 0x8 != 0 {
            proof {
                lemma_join_plus_push(parts, "Win"@);
            }
            push_join_part(&mut out, &mut first, "Win");
            proof {
                parts = parts.push("Win"@);
            }
        }
        proof {
            assert(parts == spec_mod_parts(self.modifiers));
            assert(out@ == spec_join_plus(parts));
            assert(first == (parts.len() == 0));
            lemma_join_plus_push(parts, spec_key_name(self.key));
        }
        if !first {
            push_char(&mut out, '+');
        }
        push_key_name(&mut out, self.key);
        proof {
            assert(out@ =~= spec_display_hotkey(self.modifiers, self.key));
        }
        out
    }
}

/// An ASCII letter or digit.
pub open spec fn is_alnum_char(c: char) -> bool {
    (0x30 <= c as u32 && c as u32 <= 0x39) || (0x41 <= c as u32 && c as u32 <= 0x5A) || (0x61
        <= c as u32 && c as u32 <= 0x7A)
}

/// The effect of one `+`-separated part on the binding being assembled:
/// a modifier name (case-insensitively) sets its bit; a single letter or
/// digit, or `F1` to `F12`, becomes the key; anything else is ignored.
pub open spec fn spec_part_step(acc: (u32, u32), part: Seq<char>) -> (u32, u32) {
    let up = spec_upper(spec_trim(part));
    if up == "CTRL"@ || up == "CONTROL"@ {
        ((acc.0 | 0x2) as u32, acc.1)
    } else if up == "ALT"@ {
        ((acc.0 | 0x1) as u32, acc.1)
    } else if up == "SHIFT"@ {
        ((acc.0 | 0x4) as u32, acc.1)
    } else if up == "WIN"@ || up == "WINDOWS"@ {
        ((acc.0 | 0x8) as u32, acc.1)
    } else if up.len() == 1 && is_alnum_char(up[0]) {
        (acc.0, up[0] as u32)
    } else if up.len() >= 2 && up[0] == 'F' && all_digits(up.skip(1)) && 1 <= digits_val(
        up.skip(1),
    ) && digits_val(up.skip(1)) <= 12 {
        (acc.0, (0x6F + digits_val(up.skip(1))) as u32)
    } else {
        acc
    }
}

pub open spec fn spec_fold_parts(acc: (u32, u32), parts: Seq<Seq<char>>) -> (u32, u32)
    decreases parts.len(),
{
    if parts.len() == 0 {
        acc
    } else {
        spec_part_step(spec_fold_parts(acc, parts.drop_last()), parts.last())
    }
}

/// What parsing a hotkey string yields: the binding assembled from its
/// `+`-separated parts, provided some part named a key; `None` otherwise.
pub open spec fn spec_parse_hotkey(s: Seq<char>) -> Option<HotkeyConfig> {
    let mk = spec_fold_parts((0u32, 0u32), spec_split(s, '+'));
    if mk.1 != 0 {
        Some(HotkeyConfig { modifiers: mk.0, key: mk.1 })
    } else {
        None
    }
}

/// Reads `F<number>` digits with the value capped: returns the exact value
/// while it is at most 12, and any value above 12 otherwise.
fn fkey_digits_val(up: &Vec<char>) -> (r: Option<u32>)
    requires
        up@.len() >= 2,
    ensures
        (r is Some) == all_digits(up@.skip(1)),
        r is Some ==> {
            &&& digits_val(up@.skip(1)) <= 12 ==> r->0 == digits_val(up@.skip(1))
            &&& digits_val(up@.skip(1)) > 12 ==> r->0 >= 13
        },
{
    let n = up.len();
    let mut ok = true;
    let mut val: u32 = 0;
    let mut j: usize = 1;
    proof {
        assert(up@.subrange(1, 1) =~= Seq::<char>::empty());
    }
    while j < n
        invariant
            1 <= j <= n,
            n == up@.len(),
            ok == all_digits(up@.subrange(1, j as int)),
            ok ==> {
                &&& digits_val(up@.subrange(1, j as int)) <= 12 ==> val == digits_val(
                    up@.subrange(1, j as int),
                )
                &&& digits_val(up@.subrange(1, j as int)) > 12 ==> 13 <= val <= 129
            },
        decreases n - j,
    {
        let ghost pre = up@.subrange(1, j as int);
        proof {
            assert(up@.subrange(1, j + 1).drop_last() =~= pre);
            assert(up@.subrange(1, j + 1).last() == up@[j as int]);
        }
        let u = up[j] as u32;
        if 0x30 <= u && u <= 0x39 {
            if ok {
                if val >= 13 {
                    val = 13;
                } else {
                    val = val * 10 + (u - 0x30);
                }
            }
        } else {
            ok = false;
        }
        j = j + 1;
    }
    proof {
        assert(up@.subrange(1, n as int) =~= up@.skip(1));
    }
    if ok {
        Some(val)
    } else {
        None
    }
}

/// Parses the characters of one hotkey string.
pub(crate) fn parse_hotkey_chars(v: &Vec<char>) -> (r: Option<HotkeyConfig>)
    ensures
        r == spec_parse_hotkey(v@),
{
    let parts = split_chars(v, '+');
    let ghost pviews = parts.deep_view();
    let mut mods: u32 = 0;
    let mut key: u32 = 0;
    let mut i: usize = 0;
    proof {
        assert(pviews.take(0) =~= Seq::<Seq<char>>::empty());
    }
    while i < parts.len()
        invariant
            i <= parts@.len(),
            pviews == parts.deep_view(),
            pviews == spec_split(v@, '+'),
            pviews.len() == parts@.len(),
            (mods, key) == spec_fold_parts((0u32, 0u32), pviews.take(i as int)),
        decreases parts@.len() - i,
    {
        proof {
            assert(pviews.take(i + 1).drop_last() =~= pviews.take(i as int));
            assert(pviews.take(i + 1).last() == pviews[i as int]);
            assert(pviews[i as int] == parts@[i as int]@);
        }
        let ghost acc0 = (mods, key);
        let t = trimmed(&parts[i]);
        let up = to_upper(&t);
        let ghost upv = spec_upper(spec_trim(pviews[i as int]));
        proof {
            assert(up@ == upv);
        }
        if eq_str(&up, "CTRL") || eq_str(&up, "CONTROL") {
            mods = mods | 0x2;
        } else if eq_str(&up, "ALT") {
            mods = mods | 0x1;
        } else if eq_str(&up, "SHIFT") {
            mods = mods | 0x4;
        } else if eq_str(&up, "WIN") || eq_str(&up, "WINDOWS") {
            mods = mods | 0x8;
        } else if up.len() == 1 {
            let c = up[0];
            let u = c as u32;
            if (0x30 <= u && u <= 0x39) || (0x41 <= u && u <= 0x5A) || (0x61 <= u && u <= 0x7A) {
                key = u;
            }
        } else if up.len() >= 2 && up[0] == 'F' {
            match fkey_digits_val(&up) {
                Some(n) => {
                    if 1 <= n && n <= 12 {
                        key = 0x6F + n;
                    }
                },
                None => {},
            }
        }
        proof {
            assert((mods, key) == spec_part_step(acc0, pviews[i as int]));
        }
        i = i + 1;
    }
    proof {
        assert(pviews.take(parts@.len() as int) =~= pviews);
    }
    if key != 0 {
        Some(HotkeyConfig { modifiers: mods, key })
    } else {
        None
    }
}

/// Parses one hotkey string, such as `Ctrl+Alt+5`: modifier names set
/// modifier bits, a single letter or digit or `F1` to `F12` names the key,
/// unknown parts are ignored, and without a key there is no binding.
pub fn parse_hotkey(s: &str) -> (r: Option<HotkeyConfig>)
    ensures
        r == spec_parse_hotkey(s@),
{
    let v = chars_of(s);
    parse_hotkey_chars(&v)
}

/// The effect of one configuration line on the binding: blank lines and
/// `#` comments change nothing; a `hotkey = ...` line with a parsable value
/// replaces the binding; everything else is ignored.
pub open spec fn spec_line_step(acc: HotkeyConfig, line: Seq<char>) -> HotkeyConfig {
    let t = spec_trim(line);
    if t.len() == 0 || t.first() == '#' {
        acc
    } else {
        match spec_split_once(t, '=') {
            None => acc,
            Some(kv) => if spec_trim(kv.0) == "hotkey"@ {
                match spec_parse_hotkey(spec_trim(kv.1)) {
                    Some(hk) => hk,
                    None => acc,
                }
            } else {
                acc
            },
        }
    }
}

pub open spec fn spec_fold_lines(acc: HotkeyConfig, lines: Seq<Seq<char>>) -> HotkeyConfig
    decreases lines.len(),
{
    if lines.len() == 0 {
        acc
    } else {
        spec_line_step(spec_fold_lines(acc, lines.drop_last()), lines.last())
    }
}

/// What parsing a whole configuration file yields: the default binding,
/// replaced by each well-formed `hotkey = ...` line in turn.
pub open spec fn spec_parse_config(content: Seq<char>) -> HotkeyConfig {
    spec_fold_lines(default_hotkey(), spec_split(content, '\n'))
}

/// The application's configuration as a whole.
#[derive(Clone, Copy, Debug, PartialEq, Eq, Structural)]
pub struct Config {
    pub hotkey: HotkeyConfig,
}

impl Default for Config {
    fn default() -> (d: Config)
        ensures
            d.hotkey == default_hotkey(),
    {
        Config { hotkey: HotkeyConfig::default() }
    }
}

impl Config {
    /// Parses a configuration file. Lines are read in order; blank lines
    /// and `#` comments are skipped; each readable `hotkey = ...` line
    /// replaces the binding; anything unreadable is silently ignored, so
    /// the worst case is the default binding.
    pub fn parse(content: &str) -> (r: Config)
        ensures
            r == (Config { hotkey: spec_parse_config(content@) }),
    {
        let v = chars_of(content);
        let lines = split_chars(&v, '\n');
        let ghost lviews = lines.deep_view();
        let mut hk = HotkeyConfig::default();
        let mut i: usize = 0;
        proof {
            assert(lviews.take(0) =~= Seq::<Seq<char>>::empty());
        }
        while i < lines.len()
            invariant
                i <= lines@.len(),
                lviews == lines.deep_view(),
                lviews == spec_split(content@, '\n'),
                lviews.len() == lines@.len(),
                hk == spec_fold_lines(default_hotkey(), lviews.take(i as int)),
            decreases lines@.len() - i,
        {
            proof {
                assert(lviews.take(i + 1).drop_last() =~= lviews.take(i as int));
                assert(lviews.take(i + 1).last() == lviews[i as int]);
                assert(lviews[i as int] == lines@[i as int]@);
            }
            let ghost acc0 = hk;
            let t = trimmed(&lines[i]);
            if t.len() == 0 || t[0] == '#' {
            } else {
                match split_once_char(&t, '=') {
                    None => {},
                    Some((k, val)) => {
                        let kt = trimmed(&k);
                        if eq_str(&kt, "hotkey") {
                            let vt = trimmed(&val);
                            match parse_hotkey_chars(&vt) {
                                Some(parsed) => {
                                    hk = parsed;
                                },
                                None => {},
                            }
                        }
                    },
                }
            }
            proof {
                assert(hk == spec_line_step(acc0, lviews[i as int]));
            }
            i = i + 1;
        }
        proof {
            assert(lviews.take(lines@.len() as int) =~= lviews);
        }
        Config { hotkey: hk }
    }

    /// The single line the configuration is saved as.
    pub fn file_content(&self) -> (r: String)
        ensures
            r@ == "hotkey = "@ + spec_display_hotkey(self.hotkey.modifiers, self.hotkey.key)
                + "\n"@,
    {
        let mut out = String::from_str("hotkey = ");
        let d = self.hotkey.display();
        out.append(d.as_str());
        out.append("\n");
        proof {
            assert(out@ =~= "hotkey = "@ + spec_display_hotkey(
                self.hotkey.modifiers,
                self.hotkey.key,
            ) + "\n"@);
        }
        out
    }

    /// Where the configuration file lives: under the given application-data
    /// directory, or beside the working directory when none is known.
    pub fn config_path(appdata: Option<&str>) -> (r: String)
        ensures
            appdata is Some ==> r@ == appdata->0@ + "\\Blanqr\\config.ini"@,
            appdata is None ==> r@ == ".\\config.ini"@,
    {
        match appdata {
            Some(d) => {
                let mut out = String::from_str(d);
                out.append("\\Blanqr\\config.ini");
                out
            },
            None => String::from_str(".\\config.ini"),
        }
    }
}

} // verus!
