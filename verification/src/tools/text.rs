//! Verified text helpers shared by the query compiler, the response
//! formatter and the request parser: character search, trimming, decimal
//! rendering of lengths and status codes, and character counting (used to
//! relate a compiled statement's placeholders to its parameter list).

use vstd::prelude::*;

verus! {

/// The whitespace characters this library trims from request tokens.
pub open spec fn is_space_char(c: char) -> bool {
    c == ' ' || c == '\t' || c == '\r' || c == '\n'
}

/// Index of the first occurrence of `c` in `s` at or after `i`, or `s.len()`
/// if there is none.
pub open spec fn find_from(s: Seq<char>, c: char, i: int) -> int
    decreases s.len() - i,
{
    if i < 0 || i >= s.len() {
        s.len() as int
    } else if s[i] == c {
        i
    } else {
        find_from(s, c, i + 1)
    }
}

/// Index of the last occurrence of `c` in `s` strictly before `j`, or `-1`
/// if there is none.
pub open spec fn rfind_before(s: Seq<char>, c: char, j: int) -> int
    decreases j,
{
    if j <= 0 || j > s.len() {
        -1
    } else if s[j - 1] == c {
        j - 1
    } else {
        rfind_before(s, c, j - 1)
    }
}

/// What `find_from` promises: its result lies in `[i, s.len()]`, points at
/// `c` when it is inside the sequence, and nothing in between is `c`.
pub proof fn lemma_find_from(s: Seq<char>, c: char, i: int)
    requires
        0 <= i <= s.len(),
    ensures
        i <= find_from(s, c, i) <= s.len(),
        find_from(s, c, i) < s.len() ==> s[find_from(s, c, i)] == c,
        forall|j: int| i <= j < find_from(s, c, i) ==> s[j] != c,
    decreases s.len() - i,
{
    if i < s.len() && s[i] != c {
        lemma_find_from(s, c, i + 1);
    }
}

/// Index of the first non-whitespace character at or after `i`, or `s.len()`.
pub open spec fn trim_start_at(s: Seq<char>, i: int) -> int
    decreases s.len() - i,
{
    if i < 0 || i >= s.len() {
        s.len() as int
    } else if is_space_char(s[i]) {
        trim_start_at(s, i + 1)
    } else {
        i
    }
}

/// One past the last non-whitespace character strictly before `j`, or `0`.
pub open spec fn trim_end_at(s: Seq<char>, j: int) -> int
    decreases j,
{
    if j <= 0 || j > s.len() {
        0
    } else if is_space_char(s[j - 1]) {
        trim_end_at(s, j - 1)
    } else {
        j
    }
}

/// `s` with leading and trailing whitespace removed.
pub open spec fn trim_of(s: Seq<char>) -> Seq<char> {
    let a = trim_start_at(s, 0);
    let b = trim_end_at(s, s.len() as int);
    if a <= b {
        s.subrange(a, b)
    } else {
        Seq::empty()
    }
}

/// Number of occurrences of `c` in `s` at or after `i`.
pub open spec fn count_from(s: Seq<char>, c: char, i: int) -> nat
    decreases s.len() - i,
{
    if i < 0 || i >= s.len() {
        0
    } else {
        (if s[i] == c {
            1nat
        } else {
            0nat
        }) + count_from(s, c, i + 1)
    }
}

/// Number of occurrences of `c` in `s`.
pub open spec fn count_char(s: Seq<char>, c: char) -> nat {
    count_from(s, c, 0)
}

/// The decimal digit character for `d < 10`.
pub open spec fn dec_digit(d: nat) -> char {
    if d == 0 {
        '0'
    } else if d == 1 {
        '1'
    } else if d == 2 {
        '2'
    } else if d == 3 {
        '3'
    } else if d == 4 {
        '4'
    } else if d == 5 {
        '5'
    } else if d == 6 {
        '6'
    } else if d == 7 {
        '7'
    } else if d == 8 {
        '8'
    } else {
        '9'
    }
}

/// The usual decimal rendering of `n`, most significant digit first, with no
/// leading zeroes (except for `n == 0` itself).
pub open spec fn dec_chars(n: nat) -> Seq<char>
    decreases n,
{
    if n < 10 {
        seq![dec_digit(n)]
    } else {
        dec_chars(n / 10).push(dec_digit(n % 10))
    }
}

/// Whether this character is trimmed from request tokens.
pub fn is_space(c: char) -> (r: bool)
    ensures
        r == is_space_char(c),
{
    c == ' ' || c == '\t' || c == '\r' || c == '\n'
}

/// Character-wise string equality.
pub fn str_eq(a: &str, b: &str) -> (r: bool)
    ensures
        r == (a@ == b@),
{
    let an = a.unicode_len();
    let bn = b.unicode_len();
    if an != bn {
        return false;
    }
    let mut i: usize = 0;
    while i < an
        invariant
            an == a@.len(),
            an == b@.len(),
            0 <= i <= an,
            forall|j: int| 0 <= j < i ==> a@[j] == b@[j],
        decreases an - i,
    {
        if a.get_char(i) != b.get_char(i) {
            return false;
        }
        i = i + 1;
    }
    proof {
        assert(a@ =~= b@);
    }
    true
}

/// First occurrence of `c` in `s` at or after `from`, or the length of `s`.
pub fn find_char(s: &str, c: char, from: usize) -> (r: usize)
    requires
        from <= s@.len(),
    ensures
        r == find_from(s@, c, from as int),
{
    let n = s.unicode_len();
    let mut i: usize = from;
    while i < n
        invariant
            n == s@.len(),
            from <= i <= n,
            find_from(s@, c, from as int) == find_from(s@, c, i as int),
        decreases n - i,
    {
        if s.get_char(i) == c {
            return i;
        }
        i = i + 1;
    }
    i
}

/// Last occurrence of `c` in `s` strictly before `upto`, or `None`.
pub fn rfind_char(s: &str, c: char, upto: usize) -> (r: Option<usize>)
    requires
        upto <= s@.len(),
    ensures
        match r {
            Some(k) => k < upto && k == rfind_before(s@, c, upto as int) && rfind_before(
                s@,
                c,
                upto as int,
            ) >= 0,
            None => rfind_before(s@, c, upto as int) == -1,
        },
{
    let mut j: usize = upto;
    while j > 0
        invariant
            0 <= j <= upto <= s@.len(),
            rfind_before(s@, c, upto as int) == rfind_before(s@, c, j as int),
        decreases j,
    {
        if s.get_char(j - 1) == c {
            return Some(j - 1);
        }
        j = j - 1;
    }
    None
}

/// `s` with leading and trailing whitespace removed, as a fresh `String`.
pub fn trim(s: &str) -> (r: String)
    ensures
        r@ == trim_of(s@),
{
    let n = s.unicode_len();
    let mut a: usize = 0;
    while a < n && is_space(s.get_char(a))
        invariant
            n == s@.len(),
            0 <= a <= n,
            trim_start_at(s@, 0) == trim_start_at(s@, a as int),
        decreases n - a,
    {
        a = a + 1;
    }
    if a == n {
        proof {
            lemma_trim_end_bound(s@, n as int);
            assert(trim_of(s@) =~= Seq::<char>::empty());
        }
        return String::new();
    }
    let mut b: usize = n;
    while b > a && is_space(s.get_char(b - 1))
        invariant
            n == s@.len(),
            0 <= a < n,
            a + 1 <= b <= n,
            !is_space_char(s@[a as int]),
            trim_end_at(s@, n as int) == trim_end_at(s@, b as int),
        decreases b,
    {
        b = b - 1;
    }
    s.substring_char(a, b).to_owned()
}

/// `trim_end_at` never exceeds the bound it was given.
pub proof fn lemma_trim_end_bound(s: Seq<char>, j: int)
    ensures
        trim_end_at(s, j) <= j || j < 0,
        0 <= trim_end_at(s, j) <= s.len(),
    decreases j,
{
    if 0 < j <= s.len() && is_space_char(s[j - 1]) {
        lemma_trim_end_bound(s, j - 1);
    }
}

/// The decimal digit `d` as a one-character string slice.
pub fn digit_str(d: usize) -> (r: &'static str)
    requires
        d < 10,
    ensures
        r@ == seq![dec_digit(d as nat)],
{
    proof {
        reveal_strlit("0");
        reveal_strlit("1");
        reveal_strlit("2");
        reveal_strlit("3");
        reveal_strlit("4");
        reveal_strlit("5");
        reveal_strlit("6");
        reveal_strlit("7");
        reveal_strlit("8");
        reveal_strlit("9");
    }
    let r: &'static str = match d {
        0 => "0",
        1 => "1",
        2 => "2",
        3 => "3",
        4 => "4",
        5 => "5",
        6 => "6",
        7 => "7",
        8 => "8",
        _ => "9",
    };
    proof {
        assert(r@ =~= seq![dec_digit(d as nat)]);
    }
    r
}

/// Decimal rendering of `n`.
pub fn usize_to_string(n: usize) -> (r: String)
    ensures
        r@ == dec_chars(n as nat),
    decreases n,
{
    if n < 10 {
        digit_str(n).to_owned()
    } else {
        let mut s = usize_to_string(n / 10);
        s.append(digit_str(n % 10));
        proof {
            assert(dec_chars((n / 10) as nat) + seq![dec_digit((n % 10) as nat)] =~= dec_chars(
                (n / 10) as nat,
            ).push(dec_digit((n % 10) as nat)));
        }
        s
    }
}

/// Number of occurrences of `c` in `s`.
pub fn count_char_str(s: &str, c: char) -> (r: usize)
    ensures
        r == count_char(s@, c),
{
    let n = s.unicode_len();
    let mut i: usize = n;
    let mut acc: usize = 0;
    while i > 0
        invariant
            n == s@.len(),
            0 <= i <= n,
            acc == count_from(s@, c, i as int),
            acc <= n - i,
        decreases i,
    {
        if s.get_char(i - 1) == c {
            acc = acc + 1;
        }
        i = i - 1;
    }
    acc
}

} // verus!
