//! Which application has the keyboard focus.
//!
//! On KDE a one-shot KWin script prints the focused window's class, tagged
//! with a nonce, into the user journal; on X11 `xprop` names the active window
//! and its `WM_CLASS`. Running those tools is the caller's work; building their
//! inputs and reading their output is done here. Any failure yields no class
//! (momentum is never suppressed by accident).

use vstd::prelude::*;

use crate::text::{
    chars_of, contains, find_last_char_before, has_prefix, has_substring, last_index_before,
    lines, push_decimal, same_text, slice_chars, split_lines, split_words, starts_with, string_of,
    to_lowercase, trim, trimmed, words, decimal, lowercase,
};

verus! {

/// Tag that starts the line the KWin script prints.
pub const MARKER: &'static str = "RINERTIA_AW";

/// The KWin script up to the nonce.
pub const KWIN_SCRIPT_HEAD: &'static str = "var w = workspace.activeWindow;\nprint(\"RINERTIA_AW ";

/// The KWin script after the nonce.
pub const KWIN_SCRIPT_TAIL: &'static str = " \" + (w ? w.resourceClass : \"null\"));\n";

/// The class matches one of the exclusion patterns: some pattern occurs in it,
/// ignoring case.
pub open spec fn excluded(class: Seq<char>, patterns: Seq<String>) -> bool {
    exists|i: int| 0 <= i < patterns.len() && has_substring(lowercase(class), lowercase(#[trigger] patterns[i]@))
}

/// Case-insensitive substring match of `class` against the exclusion patterns.
pub fn is_excluded(class: &str, exclude_apps: &[String]) -> (res: bool)
    ensures
        res == excluded(class@, exclude_apps@),
{
    let lowered = to_lowercase(class);
    let c = chars_of(lowered.as_str());
    let mut i: usize = 0;
    while i < exclude_apps.len()
        invariant
            i <= exclude_apps@.len(),
            c@ == lowercase(class@),
            forall|k: int| 0 <= k < i ==> !has_substring(lowercase(class@), lowercase(#[trigger] exclude_apps@[k]@)),
        decreases exclude_apps.len() - i,
    {
        let p = to_lowercase(exclude_apps[i].as_str());
        let pc = chars_of(p.as_str());
        if contains(c.as_slice(), pc.as_slice()) {
            return true;
        }
        i = i + 1;
    }
    false
}

/// The desktop, as `XDG_CURRENT_DESKTOP` names it, is KDE Plasma.
pub open spec fn kde_desktop(desktop: Seq<char>) -> bool {
    has_substring(lowercase(desktop), "kde"@) || has_substring(lowercase(desktop), "plasma"@)
}

/// The desktop is KDE Plasma (the name is compared ignoring case).
pub fn is_kde_desktop(desktop: &str) -> (res: bool)
    ensures
        res == kde_desktop(desktop@),
{
    let lowered = to_lowercase(desktop);
    let d = chars_of(lowered.as_str());
    let kde = chars_of("kde");
    let plasma = chars_of("plasma");
    contains(d.as_slice(), kde.as_slice()) || contains(d.as_slice(), plasma.as_slice())
}

/// Which ways of asking for the focused window to try, in order:
/// `(kwin, x11)`. KWin is asked on KDE; X11 is asked (after KWin gave nothing)
/// when an X display is there.
pub fn focus_sources(desktop: &str, has_display: bool) -> (res: (bool, bool))
    ensures
        res == (kde_desktop(desktop@), has_display),
{
    (is_kde_desktop(desktop), has_display)
}

/// The nonce that tags one run of the KWin script: process id and
/// nanoseconds, `"{pid}_{nanos}"`.
pub fn kwin_nonce(pid: u32, nanos: u128) -> (res: String)
    ensures
        res@ == decimal(pid as nat) + "_"@ + decimal(nanos as nat),
{
    let mut s = String::new();
    push_decimal(&mut s, pid as u128);
    s.append("_");
    push_decimal(&mut s, nanos);
    s
}

/// Where the KWin script is written: `"{runtime_dir}/rinertia-focused-app-{nonce}.js"`.
pub fn kwin_script_path(runtime_dir: &str, nonce: &str) -> (res: String)
    ensures
        res@ == runtime_dir@ + "/rinertia-focused-app-"@ + nonce@ + ".js"@,
{
    let mut s = String::from_str(runtime_dir);
    s.append("/rinertia-focused-app-");
    s.append(nonce);
    s.append(".js");
    s
}

/// The KWin script for a nonce: it prints the marker, the nonce and the
/// focused window's class (or "null").
pub fn kwin_script(nonce: &str) -> (res: String)
    ensures
        res@ == KWIN_SCRIPT_HEAD@ + nonce@ + KWIN_SCRIPT_TAIL@,
{
    let mut s = String::from_str(KWIN_SCRIPT_HEAD);
    s.append(nonce);
    s.append(KWIN_SCRIPT_TAIL);
    s
}

/// The id of a loaded script: the second word of what `loadScript` answers.
pub fn parse_script_id(stdout: &str) -> (res: Option<String>)
    ensures
        match res {
            Some(id) => words(stdout@).len() >= 2 && id@ == words(stdout@)[1],
            None => words(stdout@).len() < 2,
        },
{
    let cs = chars_of(stdout);
    let ws = split_words(cs.as_slice());
    if ws.len() < 2 {
        return None;
    }
    Some(string_of(ws[1].as_slice()))
}

/// The D-Bus object of a loaded script: `"/Scripting/Script{id}"`.
pub fn script_object_path(id: &str) -> (res: String)
    ensures
        res@ == "/Scripting/Script"@ + id@,
{
    let mut s = String::from_str("/Scripting/Script");
    s.append(id);
    s
}

/// The start of the journal line the script prints for a nonce:
/// `"RINERTIA_AW {nonce} "`.
pub fn journal_marker(nonce: &str) -> (res: String)
    ensures
        res@ == MARKER@ + " "@ + nonce@ + " "@,
{
    let mut s = String::from_str(MARKER);
    s.append(" ");
    s.append(nonce);
    s.append(" ");
    s
}

/// How many times the journal is read before giving up.
pub const JOURNAL_ATTEMPTS: u32 = 5;

/// How long to wait, in milliseconds, after a read of the journal that found no
/// marked line.
pub const JOURNAL_RETRY_MS: u64 = 30;

/// What to do after reading the journal.
#[derive(Debug, Clone, PartialEq, Eq)]
pub enum JournalStep {
    /// A marked line was found: this is the answer (`None`: no focused window).
    Found(Option<String>),
    /// No marked line yet: wait [`JOURNAL_RETRY_MS`] and read again.
    Retry,
    /// No marked line in any of the [`JOURNAL_ATTEMPTS`] reads: wait
    /// [`JOURNAL_RETRY_MS`], then answer `None`.
    GiveUp,
}

/// Decides what follows read number `attempt` (counted from 0) of the journal,
/// which gave `output`: the class of the latest marked line when there is one
/// (see [`journal_class`]); otherwise another read, unless this was the last of
/// [`JOURNAL_ATTEMPTS`].
pub fn journal_step(attempt: u32, output: &str, marker: &str) -> (res: JournalStep)
    ensures
        match res {
            JournalStep::Found(None) => journal_class(output@, marker@) == Some(None::<Seq<char>>),
            JournalStep::Found(Some(c)) => journal_class(output@, marker@) == Some(Some(c@)),
            JournalStep::Retry => journal_class(output@, marker@) is None && attempt + 1
                < JOURNAL_ATTEMPTS,
            JournalStep::GiveUp => journal_class(output@, marker@) is None && attempt + 1
                >= JOURNAL_ATTEMPTS,
        },
{
    match find_journal_class(output, marker) {
        Some(found) => JournalStep::Found(found),
        None => {
            if attempt < JOURNAL_ATTEMPTS - 1 {
                JournalStep::Retry
            } else {
                JournalStep::GiveUp
            }
        },
    }
}

/// Index of the last of the first `j` lines that starts with `p` (`-1` when none does).
pub open spec fn last_line_with_prefix(ls: Seq<Seq<char>>, p: Seq<char>, j: int) -> int
    decreases j,
{
    if j <= 0 {
        -1
    } else if has_prefix(ls[j - 1], p) {
        j - 1
    } else {
        last_line_with_prefix(ls, p, j - 1)
    }
}

/// What the journal says of the focused window: `None` when no line carries the
/// marker yet; otherwise, for the latest such line, the rest of the line
/// trimmed, `Some(None)` when that is empty or "null".
pub open spec fn journal_class(output: Seq<char>, marker: Seq<char>) -> Option<Option<Seq<char>>> {
    let ls = lines(output);
    let k = last_line_with_prefix(ls, marker, ls.len() as int);
    if k < 0 {
        None
    } else {
        let class = trimmed(ls[k].subrange(marker.len() as int, ls[k].len() as int));
        if class.len() == 0 || class == "null"@ {
            Some(None)
        } else {
            Some(Some(class))
        }
    }
}

/// Reads the focused window's class from the journal output (see
/// [`journal_class`]).
pub fn find_journal_class(output: &str, marker: &str) -> (res: Option<Option<String>>)
    ensures
        match res {
            None => journal_class(output@, marker@) is None,
            Some(None) => journal_class(output@, marker@) == Some(None::<Seq<char>>),
            Some(Some(c)) => journal_class(output@, marker@) == Some(Some(c@)),
        },
{
    let out = chars_of(output);
    let m = chars_of(marker);
    let ls = split_lines(out.as_slice());
    let ghost gl = lines(output@);
    let mut j: usize = ls.len();
    while j > 0
        invariant
            j <= ls@.len(),
            ls@.len() == gl.len(),
            gl == lines(output@),
            m@ == marker@,
            forall|k: int| 0 <= k < ls@.len() ==> (#[trigger] ls@[k])@ == gl[k],
            last_line_with_prefix(gl, m@, gl.len() as int) == last_line_with_prefix(gl, m@, j as int),
        decreases j,
    {
        let line = &ls[j - 1];
        if starts_with(line.as_slice(), m.as_slice()) {
            let rest = slice_chars(line.as_slice(), m.len(), line.len());
            let class = trim(rest.as_slice());
            let null = chars_of("null");
            if class.len() == 0 || same_text(class.as_slice(), null.as_slice()) {
                return Some(None);
            }
            return Some(Some(string_of(class.as_slice())));
        }
        j = j - 1;
    }
    None
}

/// The active window's id in `xprop -root _NET_ACTIVE_WINDOW` output: the
/// last space-separated piece of the trimmed output, `None` for "0x0".
pub open spec fn active_window_id(out: Seq<char>) -> Option<Seq<char>> {
    let t = trimmed(out);
    let id = t.subrange(last_index_before(t, ' ', t.len() as int) + 1, t.len() as int);
    if id == "0x0"@ {
        None
    } else {
        Some(id)
    }
}

/// Reads the active window's id (see [`active_window_id`]).
pub fn parse_active_window(out: &str) -> (res: Option<String>)
    ensures
        match res {
            Some(id) => active_window_id(out@) == Some(id@),
            None => active_window_id(out@) is None,
        },
{
    let cs = chars_of(out);
    let t = trim(cs.as_slice());
    let start: usize = match find_last_char_before(t.as_slice(), ' ', t.len()) {
        Some(k) => k + 1,
        None => 0,
    };
    let id = slice_chars(t.as_slice(), start, t.len());
    let zero = chars_of("0x0");
    if same_text(id.as_slice(), zero.as_slice()) {
        return None;
    }
    Some(string_of(id.as_slice()))
}

/// The class in `xprop -id … WM_CLASS` output (`WM_CLASS(STRING) = "instance",
/// "Class"`): the piece of the trimmed output between its last two double
/// quotes (or from the start up to a lone one); `None` without a double quote.
pub open spec fn wm_class(out: Seq<char>) -> Option<Seq<char>> {
    let t = trimmed(out);
    let k1 = last_index_before(t, '"', t.len() as int);
    if k1 < 0 {
        None
    } else {
        Some(t.subrange(last_index_before(t, '"', k1) + 1, k1))
    }
}

/// Reads the window class (see [`wm_class`]).
pub fn parse_wm_class(out: &str) -> (res: Option<String>)
    ensures
        match res {
            Some(c) => wm_class(out@) == Some(c@),
            None => wm_class(out@) is None,
        },
{
    let cs = chars_of(out);
    let t = trim(cs.as_slice());
    let k1 = match find_last_char_before(t.as_slice(), '"', t.len()) {
        Some(k) => k,
        None => {
            return None;
        },
    };
    let start: usize = match find_last_char_before(t.as_slice(), '"', k1) {
        Some(k) => k + 1,
        None => 0,
    };
    Some(string_of(slice_chars(t.as_slice(), start, k1).as_slice()))
}

/// Without exclusion patterns no application is excluded, and an excluded
/// class stays excluded when more patterns are added.
pub proof fn law_exclusion_monotone(class: Seq<char>, patterns: Seq<String>, more: Seq<String>)
    ensures
        !excluded(class, Seq::<String>::empty()),
        excluded(class, patterns) ==> excluded(class, patterns + more),
{
    if excluded(class, patterns) {
        let i = choose|i: int| 0 <= i < patterns.len() && has_substring(lowercase(class), lowercase(#[trigger] patterns[i]@));
        assert((patterns + more)[i] == patterns[i]);
    }
}

/// Nothing the KWin script reports for another nonce is taken: a class read
/// from the journal always comes from a line that starts with the marker.
pub proof fn law_journal_class_needs_marker(output: Seq<char>, marker: Seq<char>)
    ensures
        journal_class(output, marker) is Some ==> exists|k: int|
            0 <= k < lines(output).len() && has_prefix(#[trigger] lines(output)[k], marker),
{
    let ls = lines(output);
    lemma_last_line_with_prefix(ls, marker, ls.len() as int);
}

proof fn lemma_last_line_with_prefix(ls: Seq<Seq<char>>, p: Seq<char>, j: int)
    requires
        j <= ls.len(),
    ensures
        -1 <= last_line_with_prefix(ls, p, j) < j || (j <= 0 && last_line_with_prefix(ls, p, j) == -1),
        last_line_with_prefix(ls, p, j) >= 0 ==> has_prefix(ls[last_line_with_prefix(ls, p, j)], p),
    decreases j,
{
    if j > 0 && !has_prefix(ls[j - 1], p) {
        lemma_last_line_with_prefix(ls, p, j - 1);
    }
}

} // verus!
