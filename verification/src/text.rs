//! Character-level text helpers used when reading the output of desktop tools.
//!
//! Text is handled as a sequence of `char`s. The spec functions here say what
//! `str::lines`, `str::split_whitespace`, `str::trim` and friends give back, and
//! the executable functions are proved against them.

use vstd::prelude::*;

verus! {

/// Unicode `White_Space`, the property that `char::is_whitespace` tests.
pub open spec fn is_ws(c: char) -> bool {
    let n = c as u32;
    ||| 0x09 <= n <= 0x0d
    ||| n == 0x20
    ||| n == 0x85
    ||| n == 0xa0
    ||| n == 0x1680
    ||| 0x2000 <= n <= 0x200a
    ||| n == 0x2028
    ||| n == 0x2029
    ||| n == 0x202f
    ||| n == 0x205f
    ||| n == 0x3000
}

/// `p` is a prefix of `s`.
pub open spec fn has_prefix(s: Seq<char>, p: Seq<char>) -> bool {
    p.len() <= s.len() && s.subrange(0, p.len() as int) == p
}

/// `p` is a suffix of `s`.
pub open spec fn has_suffix(s: Seq<char>, p: Seq<char>) -> bool {
    p.len() <= s.len() && s.subrange(s.len() - p.len(), s.len() as int) == p
}

/// `n` occurs in `h` starting at position `i`.
pub open spec fn occurs_at(h: Seq<char>, n: Seq<char>, i: int) -> bool {
    0 <= i && i + n.len() <= h.len() && h.subrange(i, i + n.len()) == n
}

/// `n` occurs somewhere in `h` (the empty text occurs everywhere).
pub open spec fn has_substring(h: Seq<char>, n: Seq<char>) -> bool {
    exists|i: int| occurs_at(h, n, i)
}

/// First position at or after `i` whose character is not white space (or the end).
pub open spec fn skip_ws(s: Seq<char>, i: int) -> int
    decreases s.len() - i,
{
    if i < 0 || i >= s.len() {
        s.len() as int
    } else if is_ws(s[i]) {
        skip_ws(s, i + 1)
    } else {
        i
    }
}

/// First position at or after `i` whose character is white space (or the end).
pub open spec fn to_ws(s: Seq<char>, i: int) -> int
    decreases s.len() - i,
{
    if i < 0 || i >= s.len() {
        s.len() as int
    } else if is_ws(s[i]) {
        i
    } else {
        to_ws(s, i + 1)
    }
}

/// Position just after the last character before `j`, at or after `lo`, that is
/// not white space (`lo` when there is none).
pub open spec fn back_ws(s: Seq<char>, lo: int, j: int) -> int
    decreases j - lo,
{
    if j <= lo {
        lo
    } else if is_ws(s[j - 1]) {
        back_ws(s, lo, j - 1)
    } else {
        j
    }
}

/// `s` without leading and trailing white space: what `str::trim` returns.
pub open spec fn trimmed(s: Seq<char>) -> Seq<char> {
    let a = skip_ws(s, 0);
    s.subrange(a, back_ws(s, a, s.len() as int))
}

/// First position at or after `i` holding `c` (the end when there is none).
pub open spec fn index_from(s: Seq<char>, c: char, i: int) -> int
    decreases s.len() - i,
{
    if i < 0 || i >= s.len() {
        s.len() as int
    } else if s[i] == c {
        i
    } else {
        index_from(s, c, i + 1)
    }
}

/// Last position before `j` holding `c` (`-1` when there is none).
pub open spec fn last_index_before(s: Seq<char>, c: char, j: int) -> int
    decreases j,
{
    if j <= 0 {
        -1
    } else if s[j - 1] == c {
        j - 1
    } else {
        last_index_before(s, c, j - 1)
    }
}

/// A line without the carriage return that may end it.
pub open spec fn without_cr(line: Seq<char>) -> Seq<char> {
    if line.len() > 0 && line.last() == '\r' {
        line.drop_last()
    } else {
        line
    }
}

/// The lines of `s` from position `i` on, as `str::lines` gives them: split at
/// `\n`, a `\r` before the `\n` dropped, no empty line after a final `\n`.
pub open spec fn lines_from(s: Seq<char>, i: int) -> Seq<Seq<char>>
    decreases s.len() - i,
{
    if i < 0 || i >= s.len() {
        Seq::empty()
    } else {
        let e = index_from(s, '\n', i);
        if e >= s.len() {
            seq![s.subrange(i, s.len() as int)]
        } else {
            proof {
                lemma_index_from_bounds(s, '\n', i);
            }
            seq![without_cr(s.subrange(i, e))] + lines_from(s, e + 1)
        }
    }
}

/// The lines of `s`.
pub open spec fn lines(s: Seq<char>) -> Seq<Seq<char>> {
    lines_from(s, 0)
}

/// The white-space separated words of `s` from position `i` on, as
/// `str::split_whitespace` gives them.
pub open spec fn words_from(s: Seq<char>, i: int) -> Seq<Seq<char>>
    decreases s.len() - i,
{
    let a = skip_ws(s, i);
    if i < 0 || a >= s.len() {
        Seq::empty()
    } else {
        proof {
            lemma_skip_ws_bounds(s, i);
            lemma_to_ws_after(s, a);
        }
        seq![s.subrange(a, to_ws(s, a))] + words_from(s, to_ws(s, a))
    }
}

/// The words of `s`.
pub open spec fn words(s: Seq<char>) -> Seq<Seq<char>> {
    words_from(s, 0)
}

/// `index_from` stays within the text and finds the first `c`.
pub proof fn lemma_index_from_bounds(s: Seq<char>, c: char, i: int)
    requires
        0 <= i,
    ensures
        i <= index_from(s, c, i) <= s.len() || (i > s.len() && index_from(s, c, i) == s.len()),
        index_from(s, c, i) < s.len() ==> s[index_from(s, c, i)] == c,
        forall|k: int| i <= k < index_from(s, c, i) ==> s[k] != c,
    decreases s.len() - i,
{
    if i < s.len() && s[i] != c {
        lemma_index_from_bounds(s, c, i + 1);
    }
}

/// `skip_ws` stops at the first character that is not white space.
pub proof fn lemma_skip_ws_bounds(s: Seq<char>, i: int)
    requires
        0 <= i,
    ensures
        skip_ws(s, i) <= s.len(),
        i <= s.len() ==> i <= skip_ws(s, i),
        skip_ws(s, i) < s.len() ==> !is_ws(s[skip_ws(s, i)]),
        forall|k: int| i <= k < skip_ws(s, i) ==> is_ws(#[trigger] s[k]),
    decreases s.len() - i,
{
    if i < s.len() && is_ws(s[i]) {
        lemma_skip_ws_bounds(s, i + 1);
    }
}

/// `to_ws` stops at the first white-space character, past a non-blank start.
pub proof fn lemma_to_ws_after(s: Seq<char>, i: int)
    requires
        0 <= i,
    ensures
        i < s.len() && !is_ws(s[i]) ==> i < to_ws(s, i),
        i <= s.len() ==> i <= to_ws(s, i) <= s.len(),
        to_ws(s, i) < s.len() ==> is_ws(s[to_ws(s, i)]),
        forall|k: int| i <= k < to_ws(s, i) ==> !is_ws(#[trigger] s[k]),
    decreases s.len() - i,
{
    if i < s.len() && !is_ws(s[i]) {
        lemma_to_ws_after(s, i + 1);
    }
}

/// The characters of `s`, in order.
pub fn chars_of(s: &str) -> (res: Vec<char>)
    ensures
        res@ == s@,
{
    let mut res: Vec<char> = Vec::new();
    for c in it: s.chars()
        invariant
            res@ == it.seq().take(it.index() as int),
    {
        res.push(c);
    }
    res
}

/// Appends one character to a `String`.
///
/// Trusted: calls `String::push`, whose documentation says it appends the
/// character to the end of the string; the contract says exactly that.
#[verifier::external_body]
pub(crate) fn push_char(s: &mut String, c: char)
    ensures
        final(s)@ == old(s)@.push(c),
{
    s.push(c);
}

/// The characters of `cs` as a `String`.
pub fn string_of(cs: &[char]) -> (res: String)
    ensures
        res@ == cs@,
{
    let mut res = String::new();
    let mut i: usize = 0;
    while i < cs.len()
        invariant
            i <= cs.len(),
            res@ == cs@.subrange(0, i as int),
        decreases cs.len() - i,
    {
        push_char(&mut res, cs[i]);
        i = i + 1;
        assert(res@ =~= cs@.subrange(0, i as int));
    }
    assert(res@ =~= cs@);
    res
}

/// The characters of `cs` from `a` up to (not including) `b`.
pub fn slice_chars(cs: &[char], a: usize, b: usize) -> (res: Vec<char>)
    requires
        a <= b <= cs@.len(),
    ensures
        res@ == cs@.subrange(a as int, b as int),
{
    let mut res: Vec<char> = Vec::new();
    let mut i: usize = a;
    while i < b
        invariant
            a <= i <= b <= cs@.len(),
            res@ == cs@.subrange(a as int, i as int),
        decreases b - i,
    {
        res.push(cs[i]);
        i = i + 1;
        assert(res@ =~= cs@.subrange(a as int, i as int));
    }
    res
}

/// What `to_lowercase` gives for a text: Unicode lowercase mapping, which can
/// change the length of the text.
pub uninterp spec fn lowercase(s: Seq<char>) -> Seq<char>;

/// Trusted: calls `str::to_lowercase`. Its result depends on the text alone,
/// and the contract names it `lowercase`; what the Unicode mapping does to
/// each character is not stated here.
#[verifier::external_body]
pub fn to_lowercase(s: &str) -> (res: String)
    ensures
        res@ == lowercase(s@),
{
    s.to_lowercase()
}

/// `char::is_whitespace`.
pub fn is_whitespace(c: char) -> (res: bool)
    ensures
        res == is_ws(c),
{
    let n: u32 = c as u32;
    (0x09 <= n && n <= 0x0d) || n == 0x20 || n == 0x85 || n == 0xa0 || n == 0x1680 || (0x2000
        <= n && n <= 0x200a) || n == 0x2028 || n == 0x2029 || n == 0x202f || n == 0x205f || n
        == 0x3000
}

/// `n` occurs in `h` at position `i`.
pub fn matches_at(h: &[char], n: &[char], i: usize) -> (res: bool)
    ensures
        res == occurs_at(h@, n@, i as int),
{
    if i > h.len() || n.len() > h.len() - i {
        return false;
    }
    let mut k: usize = 0;
    while k < n.len()
        invariant
            i + n.len() <= h.len(),
            k <= n@.len(),
            forall|m: int| 0 <= m < k ==> h@[i + m] == n@[m],
        decreases n.len() - k,
    {
        if h[i + k] != n[k] {
            assert(h@.subrange(i as int, i + n@.len())[k as int] != n@[k as int]);
            return false;
        }
        k = k + 1;
    }
    assert(h@.subrange(i as int, i + n@.len()) =~= n@);
    true
}

/// `p` is a prefix of `s`.
pub fn starts_with(s: &[char], p: &[char]) -> (res: bool)
    ensures
        res == has_prefix(s@, p@),
{
    matches_at(s, p, 0)
}

/// `p` is a suffix of `s`.
pub fn ends_with(s: &[char], p: &[char]) -> (res: bool)
    ensures
        res == has_suffix(s@, p@),
{
    if p.len() > s.len() {
        return false;
    }
    matches_at(s, p, s.len() - p.len())
}

/// `n` occurs somewhere in `h`.
pub fn contains(h: &[char], n: &[char]) -> (res: bool)
    ensures
        res == has_substring(h@, n@),
{
    if n.len() > h.len() {
        assert(forall|i: int| !occurs_at(h@, n@, i));
        return false;
    }
    let last: usize = h.len() - n.len();
    let mut i: usize = 0;
    loop
        invariant
            last == h@.len() - n@.len(),
            i <= last,
            forall|j: int| 0 <= j < i ==> !occurs_at(h@, n@, j),
        ensures
            forall|j: int| 0 <= j <= last ==> !occurs_at(h@, n@, j),
        decreases last - i,
    {
        if matches_at(h, n, i) {
            return true;
        }
        if i == last {
            break;
        }
        i = i + 1;
    }
    assert(forall|j: int| !occurs_at(h@, n@, j)) by {
        assert forall|j: int| !occurs_at(h@, n@, j) by {
            if j > last {
                assert(!(j + n@.len() <= h@.len()));
            }
        }
    }
    false
}

/// The two texts are equal.
pub fn same_text(a: &[char], b: &[char]) -> (res: bool)
    ensures
        res == (a@ == b@),
{
    if a.len() != b.len() {
        return false;
    }
    let r = matches_at(a, b, 0);
    assert(r ==> a@.subrange(0, b@.len() as int) =~= a@);
    assert(a@ == b@ ==> a@.subrange(0, b@.len() as int) =~= a@);
    r
}

/// `s` without leading and trailing white space (`str::trim`).
pub fn trim(s: &[char]) -> (res: Vec<char>)
    ensures
        res@ == trimmed(s@),
{
    let mut a: usize = 0;
    while a < s.len() && is_whitespace(s[a])
        invariant
            a <= s@.len(),
            skip_ws(s@, 0) == skip_ws(s@, a as int),
        decreases s.len() - a,
    {
        a = a + 1;
    }
    let mut b: usize = s.len();
    while b > a && is_whitespace(s[b - 1])
        invariant
            a <= b <= s@.len(),
            skip_ws(s@, 0) == a,
            back_ws(s@, a as int, s@.len() as int) == back_ws(s@, a as int, b as int),
        decreases b - a,
    {
        b = b - 1;
    }
    slice_chars(s, a, b)
}

/// Position of the first `c` at or after `i` (the length when there is none).
pub fn find_char_from(s: &[char], c: char, i: usize) -> (res: usize)
    requires
        i <= s@.len(),
    ensures
        res == index_from(s@, c, i as int),
        i <= res <= s@.len(),
{
    let mut j: usize = i;
    while j < s.len() && s[j] != c
        invariant
            i <= j <= s@.len(),
            index_from(s@, c, i as int) == index_from(s@, c, j as int),
        decreases s.len() - j,
    {
        j = j + 1;
    }
    j
}

/// Position of the last `c` before `j`, if there is one.
pub fn find_last_char_before(s: &[char], c: char, j: usize) -> (res: Option<usize>)
    requires
        j <= s@.len(),
    ensures
        match res {
            Some(k) => k < j && k as int == last_index_before(s@, c, j as int),
            None => last_index_before(s@, c, j as int) == -1,
        },
{
    let mut k: usize = j;
    while k > 0 && s[k - 1] != c
        invariant
            k <= j <= s@.len(),
            last_index_before(s@, c, j as int) == last_index_before(s@, c, k as int),
        decreases k,
    {
        k = k - 1;
    }
    if k == 0 {
        None
    } else {
        Some(k - 1)
    }
}

/// The lines of `s` (`str::lines`).
pub fn split_lines(s: &[char]) -> (res: Vec<Vec<char>>)
    ensures
        res@.len() == lines(s@).len(),
        forall|k: int| 0 <= k < res@.len() ==> (#[trigger] res@[k])@ == lines(s@)[k],
{
    let mut res: Vec<Vec<char>> = Vec::new();
    let mut start: usize = 0;
    let ghost mut done: Seq<Seq<char>> = Seq::empty();
    while start < s.len()
        invariant
            start <= s@.len(),
            res@.len() == done.len(),
            forall|k: int| 0 <= k < res@.len() ==> (#[trigger] res@[k])@ == done[k],
            done + lines_from(s@, start as int) == lines(s@),
        decreases s.len() - start,
    {
        let e = find_char_from(s, '\n', start);
        if e == s.len() {
            let line = slice_chars(s, start, e);
            proof {
                assert(lines_from(s@, start as int) == seq![s@.subrange(start as int, s@.len() as int)]);
                assert(lines_from(s@, s@.len() as int) == Seq::<Seq<char>>::empty());
                done = done.push(line@);
                assert(done + lines_from(s@, s@.len() as int) =~= done);
            }
            res.push(line);
            start = e;
        } else {
            let mut end: usize = e;
            if end > start && s[end - 1] == '\r' {
                end = end - 1;
            }
            let line = slice_chars(s, start, end);
            proof {
                let body = s@.subrange(start as int, e as int);
                assert(without_cr(body) =~= line@);
                assert(lines_from(s@, start as int) == seq![without_cr(body)] + lines_from(
                    s@,
                    e + 1,
                ));
                let old_done = done;
                done = done.push(line@);
                assert(old_done + lines_from(s@, start as int) =~= done + lines_from(s@, e + 1));
            }
            res.push(line);
            start = e + 1;
        }
    }
    proof {
        assert(lines_from(s@, start as int) == Seq::<Seq<char>>::empty());
        assert(done + lines_from(s@, start as int) =~= done);
    }
    res
}

/// The white-space separated words of `s` (`str::split_whitespace`).
pub fn split_words(s: &[char]) -> (res: Vec<Vec<char>>)
    ensures
        res@.len() == words(s@).len(),
        forall|k: int| 0 <= k < res@.len() ==> (#[trigger] res@[k])@ == words(s@)[k],
{
    let mut res: Vec<Vec<char>> = Vec::new();
    let mut i: usize = 0;
    let ghost mut done: Seq<Seq<char>> = Seq::empty();
    loop
        invariant
            i <= s@.len(),
            res@.len() == done.len(),
            forall|k: int| 0 <= k < res@.len() ==> (#[trigger] res@[k])@ == done[k],
            done + words_from(s@, i as int) == words(s@),
        decreases s.len() - i,
    {
        let mut a: usize = i;
        while a < s.len() && is_whitespace(s[a])
            invariant
                i <= a <= s@.len(),
                skip_ws(s@, i as int) == skip_ws(s@, a as int),
            decreases s.len() - a,
        {
            a = a + 1;
        }
        if a == s.len() {
            proof {
                assert(words_from(s@, i as int) == Seq::<Seq<char>>::empty());
                assert(done + words_from(s@, i as int) =~= done);
            }
            return res;
        }
        let mut b: usize = a + 1;
        while b < s.len() && !is_whitespace(s[b])
            invariant
                a < b <= s@.len(),
                to_ws(s@, a as int) == to_ws(s@, b as int),
            decreases s.len() - b,
        {
            b = b + 1;
        }
        let word = slice_chars(s, a, b);
        proof {
            assert(words_from(s@, i as int) == seq![word@] + words_from(s@, b as int));
            let old_done = done;
            done = done.push(word@);
            assert(old_done + words_from(s@, i as int) =~= done + words_from(s@, b as int));
        }
        res.push(word);
        i = b;
    }
}


/// The decimal digit of `d` (for `d` below 10).
pub open spec fn digit_char(d: int) -> char {
    (48 + d) as char
}

/// The decimal notation of `n`, as `Display` writes an unsigned integer.
pub open spec fn decimal(n: nat) -> Seq<char>
    decreases n,
{
    if n < 10 {
        seq![digit_char(n as int)]
    } else {
        decimal(n / 10).push(digit_char((n % 10) as int))
    }
}

/// Appends the decimal notation of `n`.
pub fn push_decimal(s: &mut String, n: u128)
    ensures
        final(s)@ == old(s)@ + decimal(n as nat),
    decreases n,
{
    if n >= 10 {
        push_decimal(s, n / 10);
    }
    let d: u8 = (n % 10) as u8;
    let c: char = (48u8 + d) as char;
    push_char(s, c);
    proof {
        if n >= 10 {
            assert(old(s)@ + decimal((n / 10) as nat) + seq![c] =~= old(s)@ + decimal(n as nat));
        } else {
            assert(old(s)@ + seq![c] =~= old(s)@ + decimal(n as nat));
        }
    }
}

} // verus!
