//! Verified text utilities: ASCII case folding, substring search,
//! whitespace splitting, trimming and decimal parsing over `Seq<char>`
//! views of strings.

use vstd::prelude::*;

verus! {

/// Whitespace as produced by the external tools this crate parses
/// (spaces, tabs and line breaks).
pub open spec fn is_ws_char(c: char) -> bool {
    c == ' ' || c == '\t' || c == '\r' || c == '\n'
}

/// ASCII lower-casing of a single character; everything outside
/// `'A'..='Z'` is left unchanged.
pub open spec fn lower_char(c: char) -> char {
    if 'A' <= c && c <= 'Z' {
        ((c as int) + 32) as char
    } else {
        c
    }
}

/// ASCII lower-casing of a whole character sequence.
pub open spec fn lower_seq(s: Seq<char>) -> Seq<char> {
    s.map_values(|c: char| lower_char(c))
}

/// Lower-case one character.
pub fn lower_char_exec(c: char) -> (r: char)
    ensures
        r == lower_char(c),
{
    if 'A' <= c && c <= 'Z' {
        (((c as u32) + 32) as u8) as char
    } else {
        c
    }
}

/// True when `s` lower-cased equals `t` (callers pass an
/// already-lower-case `t`).
pub fn eq_lower(s: &str, t: &str) -> (r: bool)
    ensures
        r == (lower_seq(s@) == t@),
{
    let n = s.unicode_len();
    if n != t.unicode_len() {
        assert(lower_seq(s@).len() == s@.len());
        return false;
    }
    let mut i: usize = 0;
    while i < n
        invariant
            i <= n,
            n == s@.len(),
            n == t@.len(),
            forall|j: int| 0 <= j < i ==> lower_char(s@[j]) == t@[j],
        decreases n - i,
    {
        if lower_char_exec(s.get_char(i)) != t.get_char(i) {
            assert(lower_seq(s@)[i as int] != t@[i as int]);
            return false;
        }
        i = i + 1;
    }
    assert(lower_seq(s@) =~= t@);
    true
}

/// Exact string equality.
pub fn eq_exact(s: &str, t: &str) -> (r: bool)
    ensures
        r == (s@ == t@),
{
    let n = s.unicode_len();
    if n != t.unicode_len() {
        return false;
    }
    let mut i: usize = 0;
    while i < n
        invariant
            i <= n,
            n == s@.len(),
            n == t@.len(),
            forall|j: int| 0 <= j < i ==> s@[j] == t@[j],
        decreases n - i,
    {
        if s.get_char(i) != t.get_char(i) {
            return false;
        }
        i = i + 1;
    }
    assert(s@ =~= t@);
    true
}

/// Views of a sequence of owned strings.
pub open spec fn str_views(v: Seq<String>) -> Seq<Seq<char>> {
    v.map_values(|t: String| t@)
}

/// The needle `n` occurs in `h` starting at position `i`.
pub open spec fn sub_at(h: Seq<char>, n: Seq<char>, i: int) -> bool {
    0 <= i && i + n.len() <= h.len() && h.subrange(i, i + n.len() as int) == n
}

/// The needle `n` occurs somewhere in `h`.
pub open spec fn has_sub(h: Seq<char>, n: Seq<char>) -> bool {
    exists|i: int| sub_at(h, n, i)
}

/// Compare `needle` against the characters of `s` starting at `i`,
/// after lower-casing `s`'s characters when `fold` is set.
fn match_at(s: &str, needle: &str, i: usize, fold: bool) -> (r: bool)
    requires
        i + needle@.len() <= s@.len(),
    ensures
        r == if fold {
            sub_at(lower_seq(s@), needle@, i as int)
        } else {
            sub_at(s@, needle@, i as int)
        },
{
    let ghost h: Seq<char> = if fold {
        lower_seq(s@)
    } else {
        s@
    };
    assert(h.len() == s@.len());
    let n = s.unicode_len();
    let m = needle.unicode_len();
    let mut j: usize = 0;
    while j < m
        invariant
            j <= m,
            m == needle@.len(),
            n == s@.len(),
            i + m <= n,
            h == if fold {
                lower_seq(s@)
            } else {
                s@
            },
            h.len() == s@.len(),
            forall|k: int| 0 <= k < j ==> h[i + k] == needle@[k],
        decreases m - j,
    {
        let c = s.get_char(i + j);
        let c = if fold {
            lower_char_exec(c)
        } else {
            c
        };
        if c != needle.get_char(j) {
            assert(h.subrange(i as int, i + m) != needle@) by {
                assert(h.subrange(i as int, i + m)[j as int] == h[i + j]);
            }
            return false;
        }
        j = j + 1;
    }
    assert(h.subrange(i as int, i + m) =~= needle@);
    true
}

/// Substring search: does `needle` occur anywhere in `s`?
pub fn contains_sub(s: &str, needle: &str) -> (r: bool)
    ensures
        r == has_sub(s@, needle@),
{
    let n = s.unicode_len();
    let m = needle.unicode_len();
    if m > n {
        assert(!has_sub(s@, needle@));
        return false;
    }
    if m == 0 {
        assert(s@.subrange(0, 0) =~= needle@);
        assert(sub_at(s@, needle@, 0));
        return true;
    }
    let mut i: usize = 0;
    while i <= n - m
        invariant
            1 <= m <= n,
            i <= n - m + 1,
            n == s@.len(),
            m == needle@.len(),
            forall|k: int| 0 <= k < i ==> !sub_at(s@, needle@, k),
        decreases n - i,
    {
        if match_at(s, needle, i, false) {
            return true;
        }
        i = i + 1;
    }
    assert forall|k: int| !sub_at(s@, needle@, k) by {
        if sub_at(s@, needle@, k) {
            assert(0 <= k < i);
        }
    }
    false
}

/// Substring search after ASCII-lower-casing `s`; `needle` is expected
/// in lower case already.
pub fn contains_sub_lower(s: &str, needle: &str) -> (r: bool)
    ensures
        r == has_sub(lower_seq(s@), needle@),
{
    let ghost h = lower_seq(s@);
    assert(h.len() == s@.len());
    let n = s.unicode_len();
    let m = needle.unicode_len();
    if m > n {
        assert(!has_sub(h, needle@));
        return false;
    }
    if m == 0 {
        assert(h.subrange(0, 0) =~= needle@);
        assert(sub_at(h, needle@, 0));
        return true;
    }
    let mut i: usize = 0;
    while i <= n - m
        invariant
            1 <= m <= n,
            i <= n - m + 1,
            n == s@.len(),
            m == needle@.len(),
            h == lower_seq(s@),
            h.len() == s@.len(),
            forall|k: int| 0 <= k < i ==> !sub_at(h, needle@, k),
        decreases n - i,
    {
        if match_at(s, needle, i, true) {
            return true;
        }
        i = i + 1;
    }
    assert forall|k: int| !sub_at(h, needle@, k) by {
        if sub_at(h, needle@, k) {
            assert(0 <= k < i);
        }
    }
    false
}

/// Does `s` end with the given suffix?
pub fn ends_with(s: &str, suffix: &str) -> (r: bool)
    ensures
        r == ends_with_spec(s@, suffix@),
{
    let n = s.unicode_len();
    let m = suffix.unicode_len();
    if m > n {
        return false;
    }
    match_at(s, suffix, n - m, false)
}

/// Index of the first occurrence of `c` in `s`, if any.
pub open spec fn first_idx(s: Seq<char>, c: char) -> Option<int>
    decreases s.len(),
{
    if s.len() == 0 {
        None
    } else if s[0] == c {
        Some(0)
    } else {
        match first_idx(s.drop_first(), c) {
            Some(i) => Some(i + 1),
            None => None,
        }
    }
}

/// What `first_idx` returns is the first occurrence indeed.
pub proof fn lemma_first_idx(s: Seq<char>, c: char)
    ensures
        match first_idx(s, c) {
            Some(i) => 0 <= i < s.len() && s[i] == c && (forall|j: int| 0 <= j < i ==> s[j] != c),
            None => forall|j: int| 0 <= j < s.len() ==> s[j] != c,
        },
    decreases s.len(),
{
    if s.len() > 0 && s[0] != c {
        lemma_first_idx(s.drop_first(), c);
        assert forall|j: int| 0 <= j < s.len() implies (s[j] == c ==> first_idx(s, c) is Some
            && first_idx(s, c)->Some_0 <= j) by {
            if 0 < j && s[j] == c {
                assert(s.drop_first()[j - 1] == c);
            }
        }
    }
}

/// Find the first occurrence of `c` in `s`.
pub fn find_char(s: &str, c: char) -> (r: Option<usize>)
    ensures
        match r {
            Some(i) => first_idx(s@, c) == Some(i as int),
            None => first_idx(s@, c) is None,
        },
{
    proof {
        lemma_first_idx(s@, c);
    }
    let n = s.unicode_len();
    let mut i: usize = 0;
    while i < n
        invariant
            i <= n,
            n == s@.len(),
            forall|j: int| 0 <= j < i ==> s@[j] != c,
        decreases n - i,
    {
        if s.get_char(i) == c {
            proof {
                lemma_first_idx_at(s@, c, i as int);
            }
            return Some(i);
        }
        i = i + 1;
    }
    None
}

/// If `s[i]` is the first occurrence of `c`, then `first_idx` says so.
pub proof fn lemma_first_idx_at(s: Seq<char>, c: char, i: int)
    requires
        0 <= i < s.len(),
        s[i] == c,
        forall|j: int| 0 <= j < i ==> s[j] != c,
    ensures
        first_idx(s, c) == Some(i),
    decreases s.len(),
{
    if i > 0 {
        assert(s.drop_first()[i - 1] == c);
        assert forall|j: int| 0 <= j < i - 1 implies s.drop_first()[j] != c by {
            assert(s.drop_first()[j] == s[j + 1]);
        }
        lemma_first_idx_at(s.drop_first(), c, i - 1);
    }
}

/// Splitting at the first occurrence of a separator.
pub open spec fn split_once_spec(s: Seq<char>, c: char) -> Option<(Seq<char>, Seq<char>)> {
    match first_idx(s, c) {
        Some(i) => Some((s.subrange(0, i), s.subrange(i + 1, s.len() as int))),
        None => None,
    }
}

/// Split `s` at the first occurrence of `c`; the separator itself is
/// kept in neither half.
pub fn split_once_char<'a>(s: &'a str, c: char) -> (r: Option<(&'a str, &'a str)>)
    ensures
        match r {
            Some(p) => split_once_spec(s@, c) == Some((p.0@, p.1@)),
            None => split_once_spec(s@, c) is None,
        },
{
    let n = s.unicode_len();
    match find_char(s, c) {
        None => None,
        Some(i) => {
            proof {
                lemma_first_idx(s@, c);
            }
            let left = s.substring_char(0, i);
            let right = s.substring_char(i + 1, n);
            Some((left, right))
        },
    }
}

/// A decimal digit.
pub open spec fn is_digit(c: char) -> bool {
    '0' <= c && c <= '9'
}

pub open spec fn digit_val(c: char) -> int {
    c as int - 48
}

pub open spec fn all_digits(s: Seq<char>) -> bool {
    forall|i: int| 0 <= i < s.len() ==> is_digit(s[i])
}

/// Value of a decimal digit string.
pub open spec fn dec_val(s: Seq<char>) -> int
    decreases s.len(),
{
    if s.len() == 0 {
        0
    } else {
        10 * dec_val(s.drop_last()) + digit_val(s.last())
    }
}

pub proof fn lemma_dec_val_nonneg(s: Seq<char>)
    requires
        all_digits(s),
    ensures
        dec_val(s) >= 0,
    decreases s.len(),
{
    if s.len() > 0 {
        lemma_dec_val_nonneg(s.drop_last());
    }
}

/// Appending digits never decreases the value.
pub proof fn lemma_dec_val_prefix(s: Seq<char>, i: int)
    requires
        all_digits(s),
        0 <= i <= s.len(),
    ensures
        dec_val(s.subrange(0, i)) <= dec_val(s),
    decreases s.len() - i,
{
    if i < s.len() {
        lemma_dec_val_prefix(s, i + 1);
        let p = s.subrange(0, i + 1);
        assert(p.drop_last() =~= s.subrange(0, i));
        lemma_dec_val_nonneg(s.subrange(0, i));
    } else {
        assert(s.subrange(0, i) =~= s);
    }
}

/// What `str::parse::<u32>` accepts: an optional `+` sign, then one or
/// more digits whose value fits.
pub open spec fn parse_u32_spec(s: Seq<char>) -> Option<u32> {
    let d = if s.len() > 0 && s[0] == '+' {
        s.drop_first()
    } else {
        s
    };
    if d.len() > 0 && all_digits(d) && dec_val(d) <= u32::MAX {
        Some(dec_val(d) as u32)
    } else {
        None
    }
}

/// Check that every character of `s@` from `start` on is a digit.
fn all_digits_from(s: &str, start: usize) -> (r: bool)
    requires
        start <= s@.len(),
    ensures
        r == all_digits(s@.subrange(start as int, s@.len() as int)),
{
    let n = s.unicode_len();
    let mut i: usize = start;
    while i < n
        invariant
            start <= i <= n,
            n == s@.len(),
            forall|j: int| start <= j < i ==> is_digit(s@[j]),
        decreases n - i,
    {
        let c = s.get_char(i);
        if c < '0' || c > '9' {
            assert(!all_digits(s@.subrange(start as int, n as int))) by {
                assert(s@.subrange(start as int, n as int)[i - start] == s@[i as int]);
            }
            return false;
        }
        i = i + 1;
    }
    assert forall|j: int| 0 <= j < s@.subrange(start as int, n as int).len() implies is_digit(
        s@.subrange(start as int, n as int)[j],
    ) by {
        assert(s@.subrange(start as int, n as int)[j] == s@[j + start]);
    }
    true
}

/// Accumulate the decimal value of `s@` from `start` on, stopping with
/// `None` as soon as the value exceeds `cap`.
fn dec_accumulate(s: &str, start: usize, cap: u64) -> (r: Option<u64>)
    requires
        start <= s@.len(),
        all_digits(s@.subrange(start as int, s@.len() as int)),
        cap <= 0x1_0000_0000,
    ensures
        ({
            let d = s@.subrange(start as int, s@.len() as int);
            match r {
                Some(v) => v == dec_val(d) && v <= cap,
                None => dec_val(d) > cap,
            }
        }),
{
    let ghost d = s@.subrange(start as int, s@.len() as int);
    let n = s.unicode_len();
    let mut acc: u64 = 0;
    let mut i: usize = start;
    while i < n
        invariant
            start <= i <= n,
            n == s@.len(),
            cap <= 0x1_0000_0000,
            d == s@.subrange(start as int, s@.len() as int),
            all_digits(d),
            acc == dec_val(s@.subrange(start as int, i as int)),
            acc <= cap,
        decreases n - i,
    {
        let c = s.get_char(i);
        assert(is_digit(s@[i as int])) by {
            assert(d[i - start] == s@[i as int]);
        }
        let dv: u64 = (c as u64) - 48;
        let ghost pref = s@.subrange(start as int, i as int);
        let ghost pref1 = s@.subrange(start as int, i + 1 as int);
        proof {
            assert(pref1.drop_last() =~= pref);
            assert(pref1.last() == s@[i as int]);
        }
        acc = acc * 10 + dv;
        i = i + 1;
        if acc > cap {
            proof {
                lemma_dec_val_prefix(d, i - start);
                assert(d.subrange(0, i - start) =~= pref1);
            }
            return None;
        }
    }
    assert(s@.subrange(start as int, i as int) =~= d);
    Some(acc)
}

/// Parse an unsigned 32-bit decimal number as `str::parse::<u32>` does.
pub fn parse_u32(s: &str) -> (r: Option<u32>)
    ensures
        r == parse_u32_spec(s@),
{
    let n = s.unicode_len();
    let start: usize = if n > 0 && s.get_char(0) == '+' {
        1
    } else {
        0
    };
    let ghost d: Seq<char> = if s@.len() > 0 && s@[0] == '+' {
        s@.drop_first()
    } else {
        s@
    };
    assert(d =~= s@.subrange(start as int, n as int));
    if start == n {
        return None;
    }
    if !all_digits_from(s, start) {
        return None;
    }
    match dec_accumulate(s, start, 0xffff_ffff) {
        None => None,
        Some(v) => Some(v as u32),
    }
}

/// What `str::parse::<i32>` accepts: an optional sign, then one or
/// more digits whose value fits.
pub open spec fn parse_i32_spec(s: Seq<char>) -> Option<i32> {
    if s.len() > 0 && s[0] == '-' {
        let d = s.drop_first();
        if d.len() > 0 && all_digits(d) && -dec_val(d) >= i32::MIN {
            Some((-dec_val(d)) as i32)
        } else {
            None
        }
    } else {
        let d = if s.len() > 0 && s[0] == '+' {
            s.drop_first()
        } else {
            s
        };
        if d.len() > 0 && all_digits(d) && dec_val(d) <= i32::MAX {
            Some(dec_val(d) as i32)
        } else {
            None
        }
    }
}

/// Parse a signed 32-bit decimal number as `str::parse::<i32>` does.
pub fn parse_i32(s: &str) -> (r: Option<i32>)
    ensures
        r == parse_i32_spec(s@),
{
    let n = s.unicode_len();
    let negative = n > 0 && s.get_char(0) == '-';
    let start: usize = if n > 0 && (s.get_char(0) == '-' || s.get_char(0) == '+') {
        1
    } else {
        0
    };
    let ghost d: Seq<char> = if s@.len() > 0 && (s@[0] == '-' || s@[0] == '+') {
        s@.drop_first()
    } else {
        s@
    };
    assert(d =~= s@.subrange(start as int, n as int));
    if start == n {
        return None;
    }
    if !all_digits_from(s, start) {
        return None;
    }
    if negative {
        match dec_accumulate(s, start, 0x8000_0000) {
            None => None,
            Some(v) => {
                if v == 0x8000_0000 {
                    Some(i32::MIN)
                } else {
                    Some(-((v as u32) as i32))
                }
            },
        }
    } else {
        match dec_accumulate(s, start, 0x7fff_ffff) {
            None => None,
            Some(v) => Some(v as i32),
        }
    }
}

pub fn is_ws_exec(c: char) -> (r: bool)
    ensures
        r == is_ws_char(c),
{
    c == ' ' || c == '\t' || c == '\r' || c == '\n'
}

/// `s` without its leading whitespace.
pub open spec fn trim_start_spec(s: Seq<char>) -> Seq<char>
    decreases s.len(),
{
    if s.len() > 0 && is_ws_char(s[0]) {
        trim_start_spec(s.drop_first())
    } else {
        s
    }
}

/// `s` without its trailing whitespace.
pub open spec fn trim_end_spec(s: Seq<char>) -> Seq<char>
    decreases s.len(),
{
    if s.len() > 0 && is_ws_char(s.last()) {
        trim_end_spec(s.drop_last())
    } else {
        s
    }
}

/// `s` without leading and trailing whitespace.
pub open spec fn trim_spec(s: Seq<char>) -> Seq<char> {
    trim_end_spec(trim_start_spec(s))
}

proof fn lemma_trim_start_at(s: Seq<char>, a: int)
    requires
        0 <= a <= s.len(),
        forall|j: int| 0 <= j < a ==> is_ws_char(s[j]),
        a == s.len() || !is_ws_char(s[a]),
    ensures
        trim_start_spec(s) =~= s.subrange(a, s.len() as int),
    decreases a,
{
    if a == 0 {
        if !(s.len() > 0 && is_ws_char(s[0])) {
            assert(s =~= s.subrange(0, s.len() as int));
        }
    } else {
        let t = s.drop_first();
        assert forall|j: int| 0 <= j < a - 1 implies is_ws_char(t[j]) by {
            assert(t[j] == s[j + 1]);
        }
        lemma_trim_start_at(t, a - 1);
        assert(t.subrange(a - 1, t.len() as int) =~= s.subrange(a, s.len() as int));
    }
}

proof fn lemma_trim_end_at(s: Seq<char>, b: int)
    requires
        0 <= b <= s.len(),
        forall|j: int| b <= j < s.len() ==> is_ws_char(s[j]),
        b == 0 || !is_ws_char(s[b - 1]),
    ensures
        trim_end_spec(s) =~= s.subrange(0, b),
    decreases s.len() - b,
{
    if b == s.len() {
        if !(s.len() > 0 && is_ws_char(s.last())) {
            assert(s =~= s.subrange(0, s.len() as int));
        }
    } else {
        let t = s.drop_last();
        lemma_trim_end_at(t, b);
        assert(t.subrange(0, b) =~= s.subrange(0, b));
    }
}

/// Remove leading and trailing whitespace, as `str::trim` does on the
/// outputs this crate parses.
pub fn trim<'a>(s: &'a str) -> (r: &'a str)
    ensures
        r@ == trim_spec(s@),
{
    let n = s.unicode_len();
    let mut a: usize = 0;
    while a < n && is_ws_exec(s.get_char(a))
        invariant
            a <= n,
            n == s@.len(),
            forall|j: int| 0 <= j < a ==> is_ws_char(s@[j]),
        decreases n - a,
    {
        a = a + 1;
    }
    let mut b: usize = n;
    while b > a && is_ws_exec(s.get_char(b - 1))
        invariant
            a <= b <= n,
            n == s@.len(),
            forall|j: int| b <= j < n ==> is_ws_char(s@[j]),
        decreases b,
    {
        b = b - 1;
    }
    proof {
        lemma_trim_start_at(s@, a as int);
        let t = s@.subrange(a as int, n as int);
        assert forall|j: int| b - a <= j < t.len() implies is_ws_char(t[j]) by {
            assert(t[j] == s@[j + a]);
        }
        if b > a {
            assert(t[b - a - 1] == s@[b - 1]);
        }
        lemma_trim_end_at(t, b - a);
        assert(t.subrange(0, b - a) =~= s@.subrange(a as int, b as int));
    }
    s.substring_char(a, b)
}

/// `str::split_whitespace`: the maximal whitespace-free runs of `s`,
/// in order.
pub open spec fn split_ws_spec(s: Seq<char>) -> Seq<Seq<char>>
    decreases s.len(),
{
    if s.len() == 0 {
        Seq::empty()
    } else {
        let pre = split_ws_spec(s.drop_last());
        let c = s.last();
        if is_ws_char(c) {
            pre
        } else if s.len() >= 2 && !is_ws_char(s[s.len() - 2]) {
            pre.update(pre.len() - 1, pre.last().push(c))
        } else {
            pre.push(seq![c])
        }
    }
}

/// Split `s` on runs of whitespace, dropping empty pieces.
pub fn split_ws(s: &str) -> (r: Vec<String>)
    ensures
        str_views(r@) == split_ws_spec(s@),
{
    let n = s.unicode_len();
    let mut out: Vec<String> = Vec::new();
    let mut in_token = false;
    let mut tok_start: usize = 0;
    let mut i: usize = 0;
    while i < n
        invariant
            i <= n,
            n == s@.len(),
            !in_token ==> str_views(out@) =~= split_ws_spec(s@.subrange(0, i as int)) && (i == 0
                || is_ws_char(s@[i - 1])),
            in_token ==> tok_start < i <= n && (forall|j: int|
                tok_start <= j < i ==> !is_ws_char(s@[j])) && (tok_start == 0 || is_ws_char(
                s@[tok_start - 1],
            )) && str_views(out@).push(s@.subrange(tok_start as int, i as int)) =~= split_ws_spec(
                s@.subrange(0, i as int),
            ),
        decreases n - i,
    {
        let c = s.get_char(i);
        let ghost pref = s@.subrange(0, i as int);
        let ghost pref1 = s@.subrange(0, i + 1 as int);
        proof {
            assert(pref1.drop_last() =~= pref);
            assert(pref1.last() == s@[i as int]);
        }
        if is_ws_exec(c) {
            if in_token {
                let tok = s.substring_char(tok_start, i).to_owned();
                let ghost old_out = out@;
                out.push(tok);
                proof {
                    assert(str_views(out@) =~= str_views(old_out).push(
                        s@.subrange(tok_start as int, i as int),
                    ));
                }
                in_token = false;
            }
            assert(str_views(out@) =~= split_ws_spec(pref1));
        } else {
            if !in_token {
                tok_start = i;
                in_token = true;
                proof {
                    if i > 0 {
                        assert(pref1[i - 1] == s@[i - 1]);
                    }
                    assert(s@.subrange(i as int, i + 1 as int) =~= seq![s@[i as int]]);
                    assert(str_views(out@).push(s@.subrange(i as int, i + 1 as int))
                        =~= split_ws_spec(pref1));
                }
            } else {
                proof {
                    assert(pref1.len() >= 2 && !is_ws_char(pref1[pref1.len() - 2])) by {
                        assert(pref1[i - 1] == s@[i - 1]);
                    }
                    let pre = split_ws_spec(pref);
                    assert(pre =~= str_views(out@).push(
                        s@.subrange(tok_start as int, i as int),
                    ));
                    assert(pre.len() >= 1);
                    assert(s@.subrange(tok_start as int, i as int).push(s@[i as int])
                        =~= s@.subrange(tok_start as int, i + 1 as int));
                    assert(str_views(out@).push(s@.subrange(tok_start as int, i + 1 as int))
                        =~= split_ws_spec(pref1));
                }
            }
        }
        i = i + 1;
    }
    if in_token {
        let tok = s.substring_char(tok_start, n).to_owned();
        let ghost old_out = out@;
        out.push(tok);
        proof {
            assert(str_views(out@) =~= str_views(old_out).push(
                s@.subrange(tok_start as int, n as int),
            ));
        }
    }
    assert(s@.subrange(0, n as int) =~= s@);
    assert(str_views(out@) =~= split_ws_spec(s@));
    out
}

/// `s` ends with the given suffix.
pub open spec fn ends_with_spec(s: Seq<char>, suf: Seq<char>) -> bool {
    suf.len() <= s.len() && s.subrange(s.len() - suf.len(), s.len() as int) == suf
}

/// Index of the last occurrence of `c` in `s`, if any.
pub open spec fn last_idx(s: Seq<char>, c: char) -> Option<int>
    decreases s.len(),
{
    if s.len() == 0 {
        None
    } else if s.last() == c {
        Some(s.len() - 1)
    } else {
        last_idx(s.drop_last(), c)
    }
}

/// What `last_idx` returns is the last occurrence indeed.
pub proof fn lemma_last_idx(s: Seq<char>, c: char)
    ensures
        match last_idx(s, c) {
            Some(i) => 0 <= i < s.len() && s[i] == c && (forall|j: int|
                i < j < s.len() ==> s[j] != c),
            None => forall|j: int| 0 <= j < s.len() ==> s[j] != c,
        },
    decreases s.len(),
{
    if s.len() > 0 && s.last() != c {
        lemma_last_idx(s.drop_last(), c);
        assert forall|j: int| 0 <= j < s.len() - 1 implies s[j] == s.drop_last()[j] by {}
        match last_idx(s.drop_last(), c) {
            Some(i) => {
                assert(s[i] == s.drop_last()[i]);
            },
            None => {},
        }
    }
}

/// If `s[i]` is the last occurrence of `c`, then `last_idx` says so.
pub proof fn lemma_last_idx_at(s: Seq<char>, c: char, i: int)
    requires
        0 <= i < s.len(),
        s[i] == c,
        forall|j: int| i < j < s.len() ==> s[j] != c,
    ensures
        last_idx(s, c) == Some(i),
    decreases s.len(),
{
    if i < s.len() - 1 {
        lemma_last_idx_at(s.drop_last(), c, i);
    }
}

/// Find the last occurrence of `c` in `s`.
pub fn rfind_char(s: &str, c: char) -> (r: Option<usize>)
    ensures
        match r {
            Some(i) => last_idx(s@, c) == Some(i as int),
            None => last_idx(s@, c) is None,
        },
{
    let n = s.unicode_len();
    let mut i: usize = n;
    while i > 0
        invariant
            i <= n,
            n == s@.len(),
            forall|j: int| i <= j < n ==> s@[j] != c,
        decreases i,
    {
        i = i - 1;
        if s.get_char(i) == c {
            proof {
                lemma_last_idx_at(s@, c, i as int);
            }
            return Some(i);
        }
    }
    proof {
        lemma_last_idx(s@, c);
    }
    None
}

/// A piece of a line with one trailing carriage return removed.
pub open spec fn strip_cr(s: Seq<char>) -> Seq<char> {
    if s.len() > 0 && s.last() == '\r' {
        s.drop_last()
    } else {
        s
    }
}

/// `str::lines`: pieces between `\n` separators, each with a trailing
/// `\r` removed; a final unterminated piece is kept as it stands.
pub open spec fn lines_spec(s: Seq<char>) -> Seq<Seq<char>>
    decreases s.len(),
    via lines_spec_decreases
{
    if s.len() == 0 {
        Seq::empty()
    } else {
        match first_idx(s, '\n') {
            None => seq![s],
            Some(i) => seq![strip_cr(s.subrange(0, i))] + lines_spec(
                s.subrange(i + 1, s.len() as int),
            ),
        }
    }
}

#[via_fn]
proof fn lines_spec_decreases(s: Seq<char>) {
    if s.len() > 0 {
        lemma_first_idx(s, '\n');
    }
}

/// Split `s` into lines as `str::lines` does.
pub fn lines_of(s: &str) -> (r: Vec<String>)
    ensures
        str_views(r@) == lines_spec(s@),
{
    let n = s.unicode_len();
    let mut out: Vec<String> = Vec::new();
    proof {
        assert(s@.subrange(0, n as int) =~= s@);
        assert(str_views(out@) =~= Seq::<Seq<char>>::empty());
        assert(lines_spec(s@) =~= str_views(out@) + lines_spec(s@.subrange(0, n as int)));
    }
    let mut pos: usize = 0;
    while pos < n
        invariant
            pos <= n,
            n == s@.len(),
            lines_spec(s@) =~= str_views(out@) + lines_spec(s@.subrange(pos as int, n as int)),
        decreases n - pos,
    {
        let rest = s.substring_char(pos, n);
        let ghost rv = s@.subrange(pos as int, n as int);
        let ghost old_out = out@;
        match find_char(rest, '\n') {
            None => {
                out.push(rest.to_owned());
                proof {
                    assert(str_views(out@) =~= str_views(old_out).push(rv));
                    assert(lines_spec(rv) =~= seq![rv]);
                    assert(s@.subrange(n as int, n as int) =~= Seq::<char>::empty());
                    assert(lines_spec(s@) =~= str_views(out@) + lines_spec(
                        s@.subrange(n as int, n as int),
                    ));
                }
                pos = n;
            },
            Some(i) => {
                proof {
                    lemma_first_idx(rv, '\n');
                }
                let piece = if i > 0 && rest.get_char(i - 1) == '\r' {
                    rest.substring_char(0, i - 1)
                } else {
                    rest.substring_char(0, i)
                };
                out.push(piece.to_owned());
                proof {
                    assert(rv.subrange(0, i as int).len() == i);
                    if i > 0 && rv[i - 1] == '\r' {
                        assert(rv.subrange(0, i as int).last() == rv[i - 1]);
                        assert(strip_cr(rv.subrange(0, i as int)) =~= rv.subrange(0, i - 1));
                    } else if i > 0 {
                        assert(rv.subrange(0, i as int).last() == rv[i - 1]);
                    }
                    assert(piece@ =~= strip_cr(rv.subrange(0, i as int)));
                    assert(str_views(out@) =~= str_views(old_out).push(piece@));
                    assert(rv.subrange(i + 1, rv.len() as int) =~= s@.subrange(
                        pos + i + 1,
                        n as int,
                    ));
                    assert(lines_spec(rv) =~= seq![strip_cr(rv.subrange(0, i as int))]
                        + lines_spec(s@.subrange(pos + i + 1, n as int)));
                    assert(lines_spec(s@) =~= str_views(out@) + lines_spec(
                        s@.subrange(pos + i + 1, n as int),
                    ));
                }
                pos = pos + i + 1;
            },
        }
    }
    proof {
        assert(s@.subrange(pos as int, n as int).len() == 0);
        assert(lines_spec(s@.subrange(pos as int, n as int)) =~= Seq::<Seq<char>>::empty());
        assert(str_views(out@) =~= lines_spec(s@));
    }
    out
}

} // verus!
