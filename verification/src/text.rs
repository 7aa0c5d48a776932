//! Character and string primitives shared by every parser in the crate.
//!
//! All specifications are stated over `Seq<char>`, the view of `&str` and
//! `String`; every executable function carries an exact contract against the
//! corresponding spec function.

use vstd::prelude::*;
use vstd::string::StrSliceExecFns;
use vstd::string::StringExecFns;

verus! {

// ---------------------------------------------------------------------------
// Characters
// ---------------------------------------------------------------------------

/// Whitespace as the parsers understand it: the blank characters that can
/// surround a value in tool output or in the config file.
pub open spec fn spec_is_space(c: char) -> bool {
    c == ' ' || c == '\t' || c == '\r' || c == '\n'
}

/// Runtime test matching `spec_is_space`.
pub fn is_space(c: char) -> (r: bool)
    ensures
        r == spec_is_space(c),
{
    c == ' ' || c == '\t' || c == '\r' || c == '\n'
}

/// ASCII lowering of one character; anything outside `A`..`Z` is unchanged.
pub open spec fn lower_char(c: char) -> char {
    if 'A' <= c && c <= 'Z' {
        ((c as u32) + 32) as char
    } else {
        c
    }
}

/// ASCII lowering of a whole string.
pub open spec fn to_lower(s: Seq<char>) -> Seq<char> {
    s.map_values(|c: char| lower_char(c))
}

/// Runtime ASCII lowering of one character, matching `lower_char`.
pub fn lower_char_exec(c: char) -> (r: char)
    ensures
        r == lower_char(c),
{
    if 'A' <= c && c <= 'Z' {
        (((c as u32) + 32) as u8) as char
    } else {
        c
    }
}

/// Decimal digit test.
pub open spec fn is_digit(c: char) -> bool {
    '0' <= c && c <= '9'
}

/// Numeric value of a decimal digit.
pub open spec fn digit_val(c: char) -> nat {
    ((c as int) - ('0' as int)) as nat
}

// ---------------------------------------------------------------------------
// Equality and case-insensitive equality
// ---------------------------------------------------------------------------

/// Character-for-character equality of two string slices.
pub fn str_eq(a: &str, b: &str) -> (r: bool)
    ensures
        r == (a@ == b@),
{
    let n = a.unicode_len();
    if n != b.unicode_len() {
        return false;
    }
    let mut i: usize = 0;
    while i < n
        invariant
            i <= n,
            n == a@.len(),
            n == b@.len(),
            forall|j: int| 0 <= j < i ==> a@[j] == b@[j],
        decreases n - i,
    {
        if a.get_char(i) != b.get_char(i) {
            return false;
        }
        i += 1;
    }
    proof {
        assert(a@ =~= b@);
    }
    true
}

/// True exactly when the ASCII-lowered form of `s` equals `t`.
///
/// `t` is expected to already be lowercase; the contract does not assume it.
pub fn eq_lower(s: &str, t: &str) -> (r: bool)
    ensures
        r == (to_lower(s@) == t@),
{
    let n = s.unicode_len();
    if n != t.unicode_len() {
        assert(to_lower(s@).len() == s@.len());
        return false;
    }
    let mut i: usize = 0;
    while i < n
        invariant
            i <= n,
            n == s@.len(),
            n == t@.len(),
            forall|j: int| 0 <= j < i ==> to_lower(s@)[j] == t@[j],
        decreases n - i,
    {
        if lower_char_exec(s.get_char(i)) != t.get_char(i) {
            assert(to_lower(s@)[i as int] == lower_char(s@[i as int]));
            return false;
        }
        i += 1;
    }
    proof {
        assert(to_lower(s@) =~= t@);
    }
    true
}

// ---------------------------------------------------------------------------
// Trimming
// ---------------------------------------------------------------------------

/// Drop leading whitespace.
pub open spec fn trim_start_rec(s: Seq<char>) -> Seq<char>
    decreases s.len(),
{
    if s.len() > 0 && spec_is_space(s.first()) {
        trim_start_rec(s.drop_first())
    } else {
        s
    }
}

/// Drop trailing whitespace.
pub open spec fn trim_end_rec(s: Seq<char>) -> Seq<char>
    decreases s.len(),
{
    if s.len() > 0 && spec_is_space(s.last()) {
        trim_end_rec(s.drop_last())
    } else {
        s
    }
}

/// Drop whitespace from both ends.
pub open spec fn spec_trim(s: Seq<char>) -> Seq<char> {
    trim_end_rec(trim_start_rec(s))
}

/// Runtime trim matching `spec_trim`.
pub fn trim(s: &str) -> (r: &str)
    ensures
        r@ == spec_trim(s@),
{
    let n = s.unicode_len();
    proof {
        assert(s@.skip(0) =~= s@);
    }
    let mut a: usize = 0;
    while a < n && is_space(s.get_char(a))
        invariant
            a <= n,
            n == s@.len(),
            trim_start_rec(s@.skip(a as int)) == trim_start_rec(s@),
        decreases n - a,
    {
        proof {
            assert(s@.skip(a as int).drop_first() =~= s@.skip(a as int + 1));
        }
        a += 1;
    }
    assert(trim_start_rec(s@) == s@.skip(a as int));
    proof {
        assert(s@.skip(a as int) =~= s@.subrange(a as int, n as int));
    }
    let mut b: usize = n;
    while b > a && is_space(s.get_char(b - 1))
        invariant
            a <= b <= n,
            n == s@.len(),
            trim_end_rec(s@.subrange(a as int, b as int)) == trim_end_rec(s@.skip(a as int)),
        decreases b,
    {
        proof {
            assert(s@.subrange(a as int, b as int).drop_last() =~= s@.subrange(
                a as int,
                b as int - 1,
            ));
        }
        b -= 1;
    }
    proof {
        assert(trim_end_rec(s@.subrange(a as int, b as int)) == s@.subrange(a as int, b as int));
    }
    s.substring_char(a, b)
}

// ---------------------------------------------------------------------------
// Prefix and substring search
// ---------------------------------------------------------------------------

/// Runtime prefix test: `p` is a prefix of `s`.
pub fn starts_with(s: &str, p: &str) -> (r: bool)
    ensures
        r == p@.is_prefix_of(s@),
{
    let n = s.unicode_len();
    let m = p.unicode_len();
    if m > n {
        return false;
    }
    let mut i: usize = 0;
    while i < m
        invariant
            i <= m <= n,
            n == s@.len(),
            m == p@.len(),
            forall|j: int| 0 <= j < i ==> p@[j] == s@[j],
        decreases m - i,
    {
        if p.get_char(i) != s.get_char(i) {
            assert(p@[i as int] != s@.subrange(0, m as int)[i as int]);
            return false;
        }
        i += 1;
    }
    proof {
        assert(p@ =~= s@.subrange(0, m as int));
    }
    true
}

/// `sub` occurs in `s` at position `i`.
pub open spec fn contains_at(s: Seq<char>, sub: Seq<char>, i: int) -> bool {
    0 <= i && i + sub.len() <= s.len() && sub == s.subrange(i, i + sub.len())
}

/// `sub` occurs somewhere in `s`.
pub open spec fn contains_seq(s: Seq<char>, sub: Seq<char>) -> bool {
    exists|i: int| contains_at(s, sub, i)
}

/// `sub` matches `s` at position `i` (runtime check for one position).
fn matches_at(s: &str, sub: &str, i: usize) -> (r: bool)
    requires
        i + sub@.len() <= s@.len(),
        s@.len() <= usize::MAX,
    ensures
        r == contains_at(s@, sub@, i as int),
{
    let m = sub.unicode_len();
    let mut j: usize = 0;
    while j < m
        invariant
            j <= m,
            m == sub@.len(),
            i + m <= s@.len(),
            s@.len() <= usize::MAX,
            forall|k: int| 0 <= k < j ==> sub@[k] == s@[i + k],
        decreases m - j,
    {
        if sub.get_char(j) != s.get_char(i + j) {
            assert(sub@[j as int] != s@.subrange(i as int, i as int + m as int)[j as int]);
            return false;
        }
        j += 1;
    }
    proof {
        assert(sub@ =~= s@.subrange(i as int, i as int + m as int));
    }
    true
}

/// Runtime substring search matching `contains_seq`.
pub fn contains(s: &str, sub: &str) -> (r: bool)
    ensures
        r == contains_seq(s@, sub@),
{
    let n = s.unicode_len();
    let m = sub.unicode_len();
    if m == 0 {
        proof {
            assert(contains_at(s@, sub@, 0)) by {
                assert(sub@ =~= s@.subrange(0, 0));
            }
        }
        return true;
    }
    if m > n {
        return false;
    }
    let mut i: usize = 0;
    while i <= n - m
        invariant
            0 < m <= n,
            i <= n - m + 1,
            n == s@.len(),
            m == sub@.len(),
            forall|k: int| 0 <= k < i ==> !contains_at(s@, sub@, k),
        decreases n - i,
    {
        if matches_at(s, sub, i) {
            return true;
        }
        i += 1;
    }
    assert forall|k: int| !contains_at(s@, sub@, k) by {
        if k >= i {
            assert(k + sub@.len() > s@.len());
        }
    }
    false
}

/// Single-character containment, matching `Seq::contains`.
pub fn contains_char(s: &str, c: char) -> (r: bool)
    ensures
        r == s@.contains(c),
{
    let n = s.unicode_len();
    let mut i: usize = 0;
    while i < n
        invariant
            i <= n,
            n == s@.len(),
            forall|j: int| 0 <= j < i ==> s@[j] != c,
        decreases n - i,
    {
        if s.get_char(i) == c {
            return true;
        }
        i += 1;
    }
    false
}

// ---------------------------------------------------------------------------
// Finding and counting characters
// ---------------------------------------------------------------------------

/// Index of the first occurrence of `c` in `s`, or `s.len()` if absent.
pub open spec fn find_char(s: Seq<char>, c: char) -> nat
    decreases s.len(),
{
    if s.len() == 0 {
        0
    } else if s.first() == c {
        0
    } else {
        1 + find_char(s.drop_first(), c)
    }
}

/// A scan that rules out `c` up to `i` and finds it at `i` (or runs off the
/// end) has found `find_char`.
pub proof fn lemma_find_char_from_scan(s: Seq<char>, c: char, i: int)
    requires
        0 <= i <= s.len(),
        forall|j: int| 0 <= j < i ==> s[j] != c,
        i < s.len() ==> s[i] == c,
    ensures
        find_char(s, c) == i,
    decreases i,
{
    if s.len() == 0 {
    } else if s.first() == c {
        assert(i == 0) by {
            if i > 0 {
                assert(s[0] != c);
            }
        }
    } else {
        assert(i > 0) by {
            if i == 0 {
                assert(s[0] == c);
            }
        }
        lemma_find_char_from_scan(s.drop_first(), c, i - 1);
    }
}

/// First position of `c` in `s` at or after `from`, or the length if absent.
pub fn find_char_from(s: &str, c: char, from: usize) -> (r: usize)
    requires
        from <= s@.len(),
    ensures
        from <= r <= s@.len(),
        r - from == find_char(s@.skip(from as int), c),
        forall|j: int| from <= j < r ==> s@[j] != c,
        r < s@.len() ==> s@[r as int] == c,
{
    let n = s.unicode_len();
    let mut i: usize = from;
    while i < n && s.get_char(i) != c
        invariant
            from <= i <= n,
            n == s@.len(),
            forall|j: int| from <= j < i ==> s@[j] != c,
        decreases n - i,
    {
        i += 1;
    }
    proof {
        let t = s@.skip(from as int);
        assert forall|j: int| 0 <= j < i - from implies t[j] != c by {
            assert(t[j] == s@[from + j]);
        }
        lemma_find_char_from_scan(t, c, i - from);
    }
    i
}

/// Number of occurrences of `c` in `s`.
pub open spec fn count_char(s: Seq<char>, c: char) -> nat
    decreases s.len(),
{
    if s.len() == 0 {
        0
    } else {
        count_char(s.drop_last(), c) + (if s.last() == c {
            1nat
        } else {
            0nat
        })
    }
}

/// Runtime count matching `count_char`.
pub fn count_char_exec(s: &str, c: char) -> (r: usize)
    ensures
        r == count_char(s@, c),
{
    let n = s.unicode_len();
    proof {
        assert(s@.take(0) =~= Seq::<char>::empty());
    }
    let mut cnt: usize = 0;
    let mut i: usize = 0;
    while i < n
        invariant
            i <= n,
            n == s@.len(),
            cnt <= i,
            cnt == count_char(s@.take(i as int), c),
        decreases n - i,
    {
        proof {
            assert(s@.take(i as int + 1).drop_last() =~= s@.take(i as int));
            assert(s@.take(i as int + 1).last() == s@[i as int]);
        }
        if s.get_char(i) == c {
            cnt += 1;
        }
        i += 1;
    }
    proof {
        assert(s@.take(n as int) =~= s@);
    }
    cnt
}

// ---------------------------------------------------------------------------
// Line splitting
// ---------------------------------------------------------------------------

/// The views of a vector of strings.
pub open spec fn views_of(v: Seq<String>) -> Seq<Seq<char>> {
    v.map_values(|l: String| l@)
}

/// `s` split at every newline. The final segment is kept even when empty, so
/// `spec_lines` of any input has at least one line.
pub open spec fn spec_lines(s: Seq<char>) -> Seq<Seq<char>>
    decreases s.len(),
{
    let i = find_char(s, '\n');
    if i < s.len() {
        seq![s.take(i as int)] + spec_lines(s.skip(i as int + 1))
    } else {
        seq![s]
    }
}

/// Runtime line splitting matching `spec_lines`.
pub fn split_lines(s: &str) -> (lines: Vec<String>)
    ensures
        views_of(lines@) == spec_lines(s@),
{
    let n = s.unicode_len();
    let mut lines: Vec<String> = Vec::new();
    let mut p: usize = 0;
    proof {
        assert(s@.skip(0) =~= s@);
        assert(views_of(lines@) =~= Seq::<Seq<char>>::empty());
    }
    loop
        invariant_except_break
            p <= n,
            n == s@.len(),
            spec_lines(s@) == views_of(lines@) + spec_lines(s@.skip(p as int)),
        ensures
            views_of(lines@) == spec_lines(s@),
        decreases n - p,
    {
        let q = find_char_from(s, '\n', p);
        let line = s.substring_char(p, q).to_owned();
        let ghost old_lines = lines@;
        lines.push(line);
        proof {
            let rest = s@.skip(p as int);
            assert(s@.subrange(p as int, q as int) =~= rest.take(q - p));
            assert(views_of(lines@) =~= views_of(old_lines).push(rest.take(q - p)));
        }
        if q < n {
            proof {
                let rest = s@.skip(p as int);
                assert(find_char(rest, '\n') < rest.len());
                assert(rest.skip(q - p + 1) =~= s@.skip(q as int + 1));
                assert(views_of(lines@) + spec_lines(s@.skip(q as int + 1)) =~= views_of(
                    old_lines,
                ) + spec_lines(rest));
            }
            p = q + 1;
        } else {
            proof {
                let rest = s@.skip(p as int);
                assert(find_char(rest, '\n') == rest.len());
                assert(rest.take(q - p) =~= rest);
                assert(spec_lines(rest) =~= seq![rest]);
                assert(views_of(lines@) =~= views_of(old_lines) + spec_lines(rest));
            }
            break;
        }
    }
    lines
}

// ---------------------------------------------------------------------------
// Colon-separated values
// ---------------------------------------------------------------------------

/// The raw text between the first colon of `line` and the next colon or the
/// end of the line; `None` when the line has no colon.
pub open spec fn spec_after_colon(line: Seq<char>) -> Option<Seq<char>> {
    let i = find_char(line, ':');
    if i < line.len() {
        let rest = line.skip(i as int + 1);
        Some(rest.take(find_char(rest, ':') as int))
    } else {
        None
    }
}

/// Runtime extraction matching `spec_after_colon`.
pub fn after_colon<'a>(line: &'a str) -> (r: Option<&'a str>)
    ensures
        match spec_after_colon(line@) {
            Some(seg) => r is Some && r->Some_0@ == seg,
            None => r is None,
        },
{
    let n = line.unicode_len();
    proof {
        assert(line@.skip(0) =~= line@);
    }
    let ci = find_char_from(line, ':', 0);
    if ci == n {
        return None;
    }
    let cj = find_char_from(line, ':', ci + 1);
    let seg = line.substring_char(ci + 1, cj);
    proof {
        assert(line@.subrange(ci as int + 1, cj as int) =~= line@.skip(ci as int + 1).take(
            cj - (ci as int + 1),
        ));
    }
    Some(seg)
}

/// Drop every trailing comma.
pub open spec fn strip_trailing_commas(s: Seq<char>) -> Seq<char>
    decreases s.len(),
{
    if s.len() > 0 && s.last() == ',' {
        strip_trailing_commas(s.drop_last())
    } else {
        s
    }
}

/// Trim `s`, then drop every trailing comma, matching how the config parser
/// cleans a value.
pub fn clean_value(seg: &str) -> (r: &str)
    ensures
        r@ == strip_trailing_commas(spec_trim(seg@)),
{
    let t = trim(seg);
    let n = t.unicode_len();
    let mut b: usize = n;
    proof {
        assert(t@.take(n as int) =~= t@);
    }
    while b > 0 && t.get_char(b - 1) == ','
        invariant
            b <= n,
            n == t@.len(),
            strip_trailing_commas(t@.take(b as int)) == strip_trailing_commas(t@),
        decreases b,
    {
        proof {
            assert(t@.take(b as int).drop_last() =~= t@.take(b as int - 1));
        }
        b -= 1;
    }
    proof {
        assert(strip_trailing_commas(t@.take(b as int)) == t@.take(b as int));
        assert(t@.subrange(0, b as int) =~= t@.take(b as int));
    }
    t.substring_char(0, b)
}

// ---------------------------------------------------------------------------
// Decimal numbers
// ---------------------------------------------------------------------------

/// All characters of `s` are decimal digits.
pub open spec fn all_digits(s: Seq<char>) -> bool {
    forall|i: int| 0 <= i < s.len() ==> is_digit(s[i])
}

/// Numeric value of a digit string, most significant digit first.
pub open spec fn dec_val(s: Seq<char>) -> nat
    decreases s.len(),
{
    if s.len() == 0 {
        0
    } else {
        dec_val(s.drop_last()) * 10 + digit_val(s.last())
    }
}

/// A longer digit string never has a smaller value.
proof fn lemma_dec_val_prefix(s: Seq<char>, k: int)
    requires
        0 <= k <= s.len(),
    ensures
        dec_val(s.take(k)) <= dec_val(s),
    decreases s.len() - k,
{
    if k < s.len() {
        assert(s.take(k + 1).drop_last() =~= s.take(k));
        assert(dec_val(s.take(k)) <= dec_val(s.take(k + 1)));
        lemma_dec_val_prefix(s, k + 1);
        assert(s.take(s.len() as int) =~= s);
    } else {
        assert(s.take(k) =~= s);
    }
}

/// The unsigned-integer grammar the config and wire decoders accept: an
/// optional leading `+`, then one or more decimal digits, with a value that
/// fits in 32 bits.
pub open spec fn spec_parse_u32(s: Seq<char>) -> Option<u32> {
    let t = if s.len() > 0 && s[0] == '+' {
        s.drop_first()
    } else {
        s
    };
    if t.len() > 0 && all_digits(t) && dec_val(t) <= u32::MAX {
        Some(dec_val(t) as u32)
    } else {
        None
    }
}

/// Runtime decimal parser matching `spec_parse_u32`.
pub fn parse_u32(s: &str) -> (r: Option<u32>)
    ensures
        r == spec_parse_u32(s@),
{
    let n = s.unicode_len();
    let start: usize = if n > 0 && s.get_char(0) == '+' {
        1
    } else {
        0
    };
    let ghost t = if s@.len() > 0 && s@[0] == '+' {
        s@.drop_first()
    } else {
        s@
    };
    proof {
        assert(t =~= s@.skip(start as int));
    }
    if start == n {
        return None;
    }
    let mut acc: u64 = 0;
    let mut i: usize = start;
    proof {
        assert(t.take(0) =~= Seq::<char>::empty());
    }
    while i < n
        invariant
            start <= i <= n,
            n == s@.len(),
            t == s@.skip(start as int),
            t == (if s@.len() > 0 && s@[0] == '+' {
                s@.drop_first()
            } else {
                s@
            }),
            start <= 1,
            acc <= u32::MAX,
            acc == dec_val(t.take(i - start)),
            all_digits(t.take(i - start)),
        decreases n - i,
    {
        let c = s.get_char(i);
        proof {
            assert(t[i - start] == s@[i as int]);
            assert(t.take(i - start + 1).drop_last() =~= t.take(i - start));
            assert(t.take(i - start + 1).last() == t[i - start]);
        }
        if !('0' <= c && c <= '9') {
            assert(!all_digits(t)) by {
                assert(!is_digit(t[i - start]));
            }
            return None;
        }
        let d: u64 = (c as u32) as u64 - 48;
        let next: u64 = acc * 10 + d;
        if next > u32::MAX as u64 {
            proof {
                assert(dec_val(t.take(i - start + 1)) > u32::MAX);
                lemma_dec_val_prefix(t, i - start + 1);
            }
            return None;
        }
        acc = next;
        i += 1;
    }
    proof {
        assert(t.take(n - start) =~= t);
    }
    Some(acc as u32)
}

/// Decimal rendering of `n`, most significant digit first, no sign, no
/// leading zeros (a single `0` for zero).
pub open spec fn dec_str(n: nat) -> Seq<char>
    decreases n,
{
    let d = (n % 10) as nat;
    let c = (('0' as int) + d) as char;
    if n < 10 {
        seq![c]
    } else {
        dec_str(n / 10).push(c)
    }
}

/// One decimal digit as a string slice.
fn digit_str(d: u32) -> (r: &'static str)
    requires
        d < 10,
    ensures
        r@ =~= seq![(('0' as int) + d) as char],
{
    let r = match d {
        0 => "0",
        1 => "1",
        2 => "2",
        3 => "3",
        4 => "4",
        5 => "5",
        6 => "6",
        7 => "7",
        8 => "8",
        _ => "9",
    };
    proof {
        reveal_strlit("0");
        reveal_strlit("1");
        reveal_strlit("2");
        reveal_strlit("3");
        reveal_strlit("4");
        reveal_strlit("5");
        reveal_strlit("6");
        reveal_strlit("7");
        reveal_strlit("8");
        reveal_strlit("9");
    }
    r
}

/// Runtime decimal rendering matching `dec_str`.
pub fn u32_dec(n: u32) -> (r: String)
    ensures
        r@ == dec_str(n as nat),
    decreases n,
{
    if n < 10 {
        digit_str(n).to_owned()
    } else {
        let s = u32_dec(n / 10);
        let r = s.concat(digit_str(n % 10));
        proof {
            assert(dec_str((n / 10) as nat).push((('0' as int) + (n % 10) as int) as char)
                =~= dec_str((n / 10) as nat) + seq![(('0' as int) + (n % 10) as int) as char]);
        }
        r
    }
}

} // verus!
