//! Whitespace classification, trimming and token scanning over strings,
//! the text-level ground the session loop and directive engine stand on.

use vstd::prelude::*;
use vstd::string::*;

verus! {

/// A character with Unicode's white-space property, the set `char::is_whitespace`
/// accepts: the ASCII spacing characters plus the Unicode space separators.
pub open spec fn is_ws(c: char) -> bool {
    let u = c as u32;
    ||| u == 0x20
    ||| (0x09 <= u && u <= 0x0d)
    ||| u == 0x85
    ||| u == 0xa0
    ||| u == 0x1680
    ||| (0x2000 <= u && u <= 0x200a)
    ||| u == 0x2028
    ||| u == 0x2029
    ||| u == 0x202f
    ||| u == 0x205f
    ||| u == 0x3000
}

/// Executable twin of `is_ws`.
pub fn is_whitespace_char(c: char) -> (r: bool)
    ensures
        r == is_ws(c),
{
    let u = c as u32;
    u == 0x20 || (0x09 <= u && u <= 0x0d) || u == 0x85 || u == 0xa0 || u == 0x1680 || (0x2000 <= u
        && u <= 0x200a) || u == 0x2028 || u == 0x2029 || u == 0x202f || u == 0x205f || u == 0x3000
}

/// The first position at or after `i` holding a non-whitespace character
/// (the length of `s` if there is none).
pub open spec fn skip_ws_from(s: Seq<char>, i: int) -> int
    decreases s.len() - i,
{
    if i < 0 || i >= s.len() {
        i
    } else if is_ws(s[i]) {
        skip_ws_from(s, i + 1)
    } else {
        i
    }
}

/// The first position at or after `i` holding a whitespace character
/// (the length of `s` if there is none): the end of a token starting at `i`.
pub open spec fn scan_token_from(s: Seq<char>, i: int) -> int
    decreases s.len() - i,
{
    if i < 0 || i >= s.len() {
        i
    } else if is_ws(s[i]) {
        i
    } else {
        scan_token_from(s, i + 1)
    }
}

/// The position just after the last non-whitespace character strictly before `i`
/// (zero if every character before `i` is whitespace).
pub open spec fn skip_ws_back(s: Seq<char>, i: int) -> int
    decreases i,
{
    if i <= 0 || i > s.len() {
        i
    } else if is_ws(s[i - 1]) {
        skip_ws_back(s, i - 1)
    } else {
        i
    }
}

/// Where the trimmed part of `s` starts.
pub open spec fn trim_start(s: Seq<char>) -> int {
    skip_ws_from(s, 0)
}

/// Where the trimmed part of `s` ends.
pub open spec fn trim_end(s: Seq<char>) -> int {
    skip_ws_back(s, s.len() as int)
}

/// `s` with leading and trailing whitespace removed.
pub open spec fn trimmed(s: Seq<char>) -> Seq<char> {
    if trim_start(s) == s.len() {
        Seq::<char>::empty()
    } else {
        s.subrange(trim_start(s), trim_end(s))
    }
}

/// Where the first token of `s` starts.
pub open spec fn tok1_start(s: Seq<char>) -> int {
    skip_ws_from(s, 0)
}

/// Where the first token of `s` ends.
pub open spec fn tok1_end(s: Seq<char>) -> int {
    scan_token_from(s, tok1_start(s))
}

/// Where the second token of `s` starts.
pub open spec fn tok2_start(s: Seq<char>) -> int {
    skip_ws_from(s, tok1_end(s))
}

/// Where the second token of `s` ends.
pub open spec fn tok2_end(s: Seq<char>) -> int {
    scan_token_from(s, tok2_start(s))
}

/// Whether `s` splits into at least two whitespace-separated tokens.
pub open spec fn has_two_tokens(s: Seq<char>) -> bool {
    tok1_start(s) < s.len() && tok2_start(s) < s.len()
}

/// The first whitespace-separated token of `s`.
pub open spec fn first_token_of(s: Seq<char>) -> Seq<char> {
    s.subrange(tok1_start(s), tok1_end(s))
}

/// The second whitespace-separated token of `s`.
pub open spec fn second_token_of(s: Seq<char>) -> Seq<char> {
    s.subrange(tok2_start(s), tok2_end(s))
}

pub proof fn lemma_skip_ws_from(s: Seq<char>, i: int)
    requires
        0 <= i <= s.len(),
    ensures
        i <= skip_ws_from(s, i) <= s.len(),
        skip_ws_from(s, i) < s.len() ==> !is_ws(s[skip_ws_from(s, i)]),
        forall|k: int| i <= k < skip_ws_from(s, i) ==> is_ws(s[k]),
    decreases s.len() - i,
{
    if i < s.len() && is_ws(s[i]) {
        lemma_skip_ws_from(s, i + 1);
    }
}

pub proof fn lemma_scan_token_from(s: Seq<char>, i: int)
    requires
        0 <= i <= s.len(),
    ensures
        i <= scan_token_from(s, i) <= s.len(),
        scan_token_from(s, i) < s.len() ==> is_ws(s[scan_token_from(s, i)]),
        forall|k: int| i <= k < scan_token_from(s, i) ==> !is_ws(s[k]),
    decreases s.len() - i,
{
    if i < s.len() && !is_ws(s[i]) {
        lemma_scan_token_from(s, i + 1);
    }
}

pub proof fn lemma_skip_ws_back(s: Seq<char>, i: int)
    requires
        0 <= i <= s.len(),
    ensures
        0 <= skip_ws_back(s, i) <= i,
        skip_ws_back(s, i) > 0 ==> !is_ws(s[skip_ws_back(s, i) - 1]),
        forall|k: int| skip_ws_back(s, i) <= k < i ==> is_ws(s[k]),
    decreases i,
{
    if 0 < i <= s.len() && is_ws(s[i - 1]) {
        lemma_skip_ws_back(s, i - 1);
    }
}

/// Once a non-whitespace character stands at `a`, scanning back from beyond it
/// cannot pass it.
proof fn lemma_skip_ws_back_past_nonws(s: Seq<char>, a: int, i: int)
    requires
        0 <= a < i <= s.len(),
        !is_ws(s[a]),
    ensures
        skip_ws_back(s, i) > a,
    decreases i,
{
    if is_ws(s[i - 1]) {
        lemma_skip_ws_back_past_nonws(s, a, i - 1);
    }
}

/// The trim bounds are ordered and in range; a string with any non-whitespace
/// character has a non-empty trimmed part.
pub proof fn lemma_trim_bounds(s: Seq<char>)
    ensures
        0 <= trim_start(s) <= s.len(),
        0 <= trim_end(s) <= s.len(),
        trim_start(s) < s.len() ==> trim_start(s) < trim_end(s),
        trim_start(s) < s.len() ==> trimmed(s).len() == trim_end(s) - trim_start(s),
        trim_start(s) == s.len() ==> trimmed(s).len() == 0,
{
    lemma_skip_ws_from(s, 0);
    lemma_skip_ws_back(s, s.len() as int);
    if trim_start(s) < s.len() {
        lemma_skip_ws_back_past_nonws(s, trim_start(s), s.len() as int);
    }
}

/// The first position at or after `start` holding a non-whitespace character.
pub fn skip_ws_from_idx(s: &str, start: usize) -> (r: usize)
    requires
        start <= s@.len(),
    ensures
        r as int == skip_ws_from(s@, start as int),
        start <= r <= s@.len(),
{
    proof {
        lemma_skip_ws_from(s@, start as int);
    }
    let n = s.unicode_len();
    let mut i: usize = start;
    while i < n
        invariant
            start <= i <= n,
            n == s@.len(),
            skip_ws_from(s@, start as int) == skip_ws_from(s@, i as int),
        decreases n - i,
    {
        let c = s.get_char(i);
        if !is_whitespace_char(c) {
            assert(skip_ws_from(s@, i as int) == i as int);
            return i;
        }
        assert(skip_ws_from(s@, i as int) == skip_ws_from(s@, i as int + 1));
        i += 1;
    }
    assert(skip_ws_from(s@, i as int) == i as int);
    i
}

/// The end of the token that starts at `start`: the first position at or after
/// `start` holding a whitespace character.
pub fn token_end_from(s: &str, start: usize) -> (r: usize)
    requires
        start <= s@.len(),
    ensures
        r as int == scan_token_from(s@, start as int),
        start <= r <= s@.len(),
{
    proof {
        lemma_scan_token_from(s@, start as int);
    }
    let n = s.unicode_len();
    let mut i: usize = start;
    while i < n
        invariant
            start <= i <= n,
            n == s@.len(),
            scan_token_from(s@, start as int) == scan_token_from(s@, i as int),
        decreases n - i,
    {
        let c = s.get_char(i);
        if is_whitespace_char(c) {
            assert(scan_token_from(s@, i as int) == i as int);
            return i;
        }
        assert(scan_token_from(s@, i as int) == scan_token_from(s@, i as int + 1));
        i += 1;
    }
    assert(scan_token_from(s@, i as int) == i as int);
    i
}

/// The position just after the last non-whitespace character of `s`.
fn find_trim_end(s: &str) -> (r: usize)
    ensures
        r as int == trim_end(s@),
        r <= s@.len(),
{
    let n = s.unicode_len();
    proof {
        lemma_skip_ws_back(s@, n as int);
    }
    let mut j: usize = n;
    while j > 0
        invariant
            j <= n,
            n == s@.len(),
            skip_ws_back(s@, n as int) == skip_ws_back(s@, j as int),
        decreases j,
    {
        let c = s.get_char(j - 1);
        if !is_whitespace_char(c) {
            assert(skip_ws_back(s@, j as int) == j as int);
            return j;
        }
        assert(skip_ws_back(s@, j as int) == skip_ws_back(s@, j as int - 1));
        j -= 1;
    }
    assert(skip_ws_back(s@, j as int) == j as int);
    j
}

/// `s` with its surrounding whitespace removed.
pub fn trim_str(s: &str) -> (t: String)
    ensures
        t@ == trimmed(s@),
{
    proof {
        lemma_trim_bounds(s@);
    }
    let n = s.unicode_len();
    let a = skip_ws_from_idx(s, 0);
    if a == n {
        String::new()
    } else {
        let b = find_trim_end(s);
        let sub = s.substring_char(a, b);
        sub.to_owned()
    }
}

/// Whether `p` is a prefix of `s`.
pub open spec fn starts_with_text(s: Seq<char>, p: Seq<char>) -> bool {
    p.len() <= s.len() && s.subrange(0, p.len() as int) == p
}

/// Whether the string `s` starts with the string `p`, compared character by
/// character.
pub fn str_starts_with(s: &str, p: &str) -> (r: bool)
    ensures
        r == starts_with_text(s@, p@),
{
    let n = s.unicode_len();
    let m = p.unicode_len();
    if m > n {
        return false;
    }
    let mut i: usize = 0;
    while i < m
        invariant
            0 <= i <= m <= n,
            n == s@.len(),
            m == p@.len(),
            forall|k: int| 0 <= k < i ==> s@[k] == p@[k],
        decreases m - i,
    {
        if s.get_char(i) != p.get_char(i) {
            assert(s@.subrange(0, m as int)[i as int] != p@[i as int]);
            return false;
        }
        i += 1;
    }
    assert(s@.subrange(0, m as int) =~= p@);
    true
}

/// Whether the views of two strings are equal, compared character by character.
pub fn str_eq(a: &str, b: &str) -> (r: bool)
    ensures
        r == (a@ == b@),
{
    let n = a.unicode_len();
    let m = b.unicode_len();
    if n != m {
        return false;
    }
    let mut i: usize = 0;
    while i < n
        invariant
            0 <= i <= n,
            n == a@.len(),
            n == b@.len(),
            forall|k: int| 0 <= k < i ==> a@[k] == b@[k],
        decreases n - i,
    {
        if a.get_char(i) != b.get_char(i) {
            return false;
        }
        i += 1;
    }
    assert(a@ =~= b@);
    true
}

} // verus!
