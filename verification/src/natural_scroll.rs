//! Whether the desktop scrolls "naturally" (content follows the fingers).
//!
//! KDE answers over D-Bus, GNOME through `gsettings`, and otherwise the
//! libinput device default is read from `libinput list-devices`. Running those
//! tools is the caller's work; which to ask and how to read their answers is
//! decided here.

use vstd::prelude::*;

use crate::focused_app::{is_kde_desktop, kde_desktop};
use crate::text::{
    chars_of, contains, ends_with, has_prefix, has_substring, has_suffix, lines, lowercase,
    same_text, split_lines, starts_with, to_lowercase, trim, trimmed,
};

verus! {

/// The desktop is GNOME (the name is compared ignoring case).
pub open spec fn gnome_desktop(desktop: Seq<char>) -> bool {
    has_substring(lowercase(desktop), "gnome"@)
}

/// Which desktop settings to ask, in order, before the libinput default:
/// `(kde, gnome)`.
pub fn natural_scroll_sources(desktop: &str) -> (res: (bool, bool))
    ensures
        res == (kde_desktop(desktop@), gnome_desktop(desktop@)),
{
    let lowered = to_lowercase(desktop);
    let d = chars_of(lowered.as_str());
    let gnome = chars_of("gnome");
    (is_kde_desktop(desktop), contains(d.as_slice(), gnome.as_slice()))
}

/// The KWin D-Bus object of a touchpad: `"/org/kde/KWin/InputDevice/{sysname}"`.
pub fn kde_input_device_path(sysname: &str) -> (res: String)
    ensures
        res@ == "/org/kde/KWin/InputDevice/"@ + sysname@,
{
    let mut s = String::from_str("/org/kde/KWin/InputDevice/");
    s.append(sysname);
    s
}

/// KWin's answer (`"b true"` or `"b false"`): a boolean answer is true when
/// the trimmed answer ends with "true"; anything else is no answer.
pub open spec fn kde_answer(out: Seq<char>) -> Option<bool> {
    if has_prefix(out, "b "@) {
        Some(has_suffix(trimmed(out), "true"@))
    } else {
        None
    }
}

/// Reads KWin's answer (see [`kde_answer`]).
pub fn parse_kde_natural_scroll(out: &str) -> (res: Option<bool>)
    ensures
        res == kde_answer(out@),
{
    let cs = chars_of(out);
    let b = chars_of("b ");
    if !starts_with(cs.as_slice(), b.as_slice()) {
        return None;
    }
    let t = trim(cs.as_slice());
    let yes = chars_of("true");
    Some(ends_with(t.as_slice(), yes.as_slice()))
}

/// `gsettings`' answer: exactly "true" or "false" once trimmed.
pub open spec fn gnome_answer(out: Seq<char>) -> Option<bool> {
    if trimmed(out) == "true"@ {
        Some(true)
    } else if trimmed(out) == "false"@ {
        Some(false)
    } else {
        None
    }
}

/// Reads `gsettings`' answer (see [`gnome_answer`]).
pub fn parse_gnome_natural_scroll(out: &str) -> (res: Option<bool>)
    ensures
        res == gnome_answer(out@),
{
    let cs = chars_of(out);
    let t = trim(cs.as_slice());
    let yes = chars_of("true");
    let no = chars_of("false");
    if same_text(t.as_slice(), yes.as_slice()) {
        Some(true)
    } else if same_text(t.as_slice(), no.as_slice()) {
        Some(false)
    } else {
        None
    }
}

/// The device node libinput lists a touchpad under: `"/dev/input/{sysname}"`.
pub fn libinput_device_node(sysname: &str) -> (res: String)
    ensures
        res@ == "/dev/input/"@ + sysname@,
{
    let mut s = String::from_str("/dev/input/");
    s.append(sysname);
    s
}

/// Scans `libinput list-devices` lines from line `i` on: after a line naming
/// the device node, the first "Nat.scrolling:" line tells whether natural
/// scrolling is enabled, unless the next device's block ("Device:") starts
/// first.
pub open spec fn libinput_scan(ls: Seq<Seq<char>>, node: Seq<char>, i: int, found: bool) -> Option<bool>
    decreases ls.len() - i,
{
    if i < 0 || i >= ls.len() {
        None
    } else if has_substring(ls[i], node) {
        libinput_scan(ls, node, i + 1, true)
    } else if found && has_substring(ls[i], "Nat.scrolling:"@) {
        Some(has_substring(ls[i], "enabled"@))
    } else if found && has_prefix(ls[i], "Device:"@) {
        None
    } else {
        libinput_scan(ls, node, i + 1, found)
    }
}

/// Reads the natural-scroll default of a device from `libinput list-devices`
/// output (see [`libinput_scan`]).
pub fn parse_libinput_natural_scroll(out: &str, sysname: &str) -> (res: Option<bool>)
    ensures
        res == libinput_scan(lines(out@), "/dev/input/"@ + sysname@, 0, false),
{
    let node_name = libinput_device_node(sysname);
    let node = chars_of(node_name.as_str());
    let cs = chars_of(out);
    let ls = split_lines(cs.as_slice());
    let ghost gl = lines(out@);
    let nat_tag = chars_of("Nat.scrolling:");
    let enabled = chars_of("enabled");
    let device = chars_of("Device:");
    let mut found = false;
    let mut i: usize = 0;
    while i < ls.len()
        invariant
            i <= ls@.len(),
            ls@.len() == gl.len(),
            gl == lines(out@),
            node@ == "/dev/input/"@ + sysname@,
            nat_tag@ == "Nat.scrolling:"@,
            enabled@ == "enabled"@,
            device@ == "Device:"@,
            forall|k: int| 0 <= k < ls@.len() ==> (#[trigger] ls@[k])@ == gl[k],
            libinput_scan(gl, node@, 0, false) == libinput_scan(gl, node@, i as int, found),
        decreases ls.len() - i,
    {
        let line = &ls[i];
        if contains(line.as_slice(), node.as_slice()) {
            found = true;
        } else if found {
            if contains(line.as_slice(), nat_tag.as_slice()) {
                return Some(contains(line.as_slice(), enabled.as_slice()));
            }
            if starts_with(line.as_slice(), device.as_slice()) {
                return None;
            }
        }
        i = i + 1;
    }
    None
}

} // verus!
