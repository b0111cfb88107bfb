//! Text utilities that the scraper applies to page contents: decimal
//! formatting and parsing of page numbers, whitespace trimming and
//! splitting at a separator.

use vstd::prelude::*;
use vstd::string::*;

verus! {

/// The character of the decimal digit `d`.
pub open spec fn digit_char(d: nat) -> char {
    (48 + d) as char
}

/// The decimal representation of `n`: most significant digit first,
/// no sign and no leading zeros.
pub open spec fn decimal(n: nat) -> Seq<char>
    decreases n,
{
    if n < 10 {
        seq![digit_char(n)]
    } else {
        decimal(n / 10).push(digit_char(n % 10))
    }
}

fn digit_str(d: u32) -> (s: &'static str)
    requires
        d < 10,
    ensures
        s@ == seq![digit_char(d as nat)],
{
    match d {
        0 => {
            proof {
                reveal_strlit("0");
            }
            "0"
        },
        1 => {
            proof {
                reveal_strlit("1");
            }
            "1"
        },
        2 => {
            proof {
                reveal_strlit("2");
            }
            "2"
        },
        3 => {
            proof {
                reveal_strlit("3");
            }
            "3"
        },
        4 => {
            proof {
                reveal_strlit("4");
            }
            "4"
        },
        5 => {
            proof {
                reveal_strlit("5");
            }
            "5"
        },
        6 => {
            proof {
                reveal_strlit("6");
            }
            "6"
        },
        7 => {
            proof {
                reveal_strlit("7");
            }
            "7"
        },
        8 => {
            proof {
                reveal_strlit("8");
            }
            "8"
        },
        _ => {
            proof {
                reveal_strlit("9");
            }
            "9"
        },
    }
}

/// Formats `n` in decimal, as `format!("{}", n)` does.
pub fn decimal_string(n: u32) -> (s: String)
    ensures
        s@ == decimal(n as nat),
    decreases n,
{
    if n < 10 {
        digit_str(n).to_owned()
    } else {
        let mut s = decimal_string(n / 10);
        s.append(digit_str(n % 10));
        s
    }
}


/// Whether `c` is an ASCII decimal digit.
pub open spec fn is_digit(c: char) -> bool {
    '0' <= c && c <= '9'
}

/// The value of the decimal digits `s`, most significant first.
pub open spec fn digits_value(s: Seq<char>) -> nat
    decreases s.len(),
{
    if s.len() == 0 {
        0
    } else {
        digits_value(s.drop_last()) * 10 + ((s.last() as int - 48) as nat)
    }
}

/// `s` without the one leading `+` that an unsigned number may carry.
pub open spec fn unsigned_digits(s: Seq<char>) -> Seq<char> {
    if s.len() > 0 && s[0] == '+' {
        s.drop_first()
    } else {
        s
    }
}

/// What `s.parse::<u32>()` gives: an optional `+`, then one or more
/// decimal digits whose value fits in a `u32`; anything else fails.
pub open spec fn parse_u32_spec(s: Seq<char>) -> Option<u32> {
    let d = unsigned_digits(s);
    if d.len() > 0 && (forall|i: int| 0 <= i < d.len() ==> #[trigger] is_digit(d[i]))
        && digits_value(d) <= u32::MAX {
        Some(digits_value(d) as u32)
    } else {
        None
    }
}

proof fn lemma_digits_value_prefix(s: Seq<char>, k: int)
    requires
        0 <= k <= s.len(),
    ensures
        digits_value(s.subrange(0, k)) <= digits_value(s),
    decreases s.len(),
{
    if k < s.len() {
        assert(s.drop_last().subrange(0, k) =~= s.subrange(0, k));
        lemma_digits_value_prefix(s.drop_last(), k);
    } else {
        assert(s.subrange(0, k) =~= s);
    }
}

/// Parses a page number as `str::parse::<u32>` does.
pub fn parse_u32(s: &str) -> (r: Option<u32>)
    ensures
        r == parse_u32_spec(s@),
{
    let n = s.unicode_len();
    let mut start: usize = 0;
    if n > 0 && s.get_char(0) == '+' {
        start = 1;
    }
    let ghost d = unsigned_digits(s@);
    assert(d =~= s@.subrange(start as int, n as int));
    if start >= n {
        return None;
    }
    let mut i: usize = start;
    let mut acc: u64 = 0;
    while i < n
        invariant
            start <= i <= n,
            n == s@.len(),
            d =~= s@.subrange(start as int, n as int),
            d == unsigned_digits(s@),
            d.len() > 0,
            acc <= u32::MAX,
            acc == digits_value(d.subrange(0, i - start)),
            forall|k: int| 0 <= k < i - start ==> #[trigger] is_digit(d[k]),
        decreases n - i,
    {
        let c = s.get_char(i);
        assert(d[i - start] == c);
        if !('0' <= c && c <= '9') {
            assert(!is_digit(d[i - start]));
            assert(!(forall|k: int| 0 <= k < d.len() ==> #[trigger] is_digit(d[k])));
            return None;
        }
        let v = (c as u32 - '0' as u32) as u64;
        let ghost pre = d.subrange(0, i + 1 - start);
        assert(pre.drop_last() =~= d.subrange(0, i - start));
        assert(pre.last() == c);
        assert(digits_value(pre) == digits_value(pre.drop_last()) * 10 + ((c as int - 48) as nat));
        acc = acc * 10 + v;
        assert(acc == digits_value(pre));
        if acc > u32::MAX as u64 {
            proof {
                lemma_digits_value_prefix(d, i + 1 - start);
            }
            return None;
        }
        i = i + 1;
    }
    assert(d.subrange(0, n - start) =~= d);
    Some(acc as u32)
}

proof fn lemma_decimal_digits(n: nat)
    ensures
        decimal(n).len() > 0,
        forall|i: int| 0 <= i < decimal(n).len() ==> #[trigger] is_digit(decimal(n)[i]),
        digits_value(decimal(n)) == n,
    decreases n,
{
    if n < 10 {
        assert(digit_char(n) as int == 48 + n);
        assert(decimal(n).drop_last() =~= Seq::<char>::empty());
        assert(digits_value(Seq::<char>::empty()) == 0);
        assert(decimal(n).last() == digit_char(n));
    } else {
        lemma_decimal_digits(n / 10);
        let d = decimal(n / 10);
        assert(digit_char(n % 10) as int == 48 + n % 10);
        assert(decimal(n).drop_last() =~= d);
        assert(decimal(n).last() == digit_char(n % 10));
        assert(n == (n / 10) * 10 + n % 10);
        assert(digits_value(decimal(n)) == digits_value(d) * 10 + ((decimal(n).last() as int - 48) as nat));
        assert forall|i: int| 0 <= i < decimal(n).len() implies #[trigger] is_digit(decimal(n)[i]) by {
            if i < d.len() {
                assert(decimal(n)[i] == d[i]);
            }
        }
    }
}

/// A page number survives its decimal form: parsing `decimal(n)` as a
/// `u32` gives `n` back.
pub proof fn lemma_parse_decimal(n: u32)
    ensures
        parse_u32_spec(decimal(n as nat)) == Some(n),
{
    lemma_decimal_digits(n as nat);
    let s = decimal(n as nat);
    assert(is_digit(s[0]));
    assert(unsigned_digits(s) == s);
}

/// Whether `c` has the Unicode `White_Space` property, as
/// `char::is_whitespace` tells.
pub open spec fn is_whitespace(c: char) -> bool {
    ||| ('\u{9}' <= c && c <= '\u{d}')
    ||| c == ' '
    ||| c == '\u{85}'
    ||| c == '\u{a0}'
    ||| c == '\u{1680}'
    ||| ('\u{2000}' <= c && c <= '\u{200a}')
    ||| c == '\u{2028}'
    ||| c == '\u{2029}'
    ||| c == '\u{202f}'
    ||| c == '\u{205f}'
    ||| c == '\u{3000}'
}

fn is_whitespace_exec(c: char) -> (b: bool)
    ensures
        b == is_whitespace(c),
{
    ('\u{9}' <= c && c <= '\u{d}') || c == ' ' || c == '\u{85}' || c == '\u{a0}' || c
        == '\u{1680}' || ('\u{2000}' <= c && c <= '\u{200a}') || c == '\u{2028}' || c
        == '\u{2029}' || c == '\u{202f}' || c == '\u{205f}' || c == '\u{3000}'
}

/// `s` without its leading whitespace.
pub open spec fn trim_start(s: Seq<char>) -> Seq<char>
    decreases s.len(),
{
    if s.len() > 0 && is_whitespace(s[0]) {
        trim_start(s.drop_first())
    } else {
        s
    }
}

/// `s` without its trailing whitespace.
pub open spec fn trim_end(s: Seq<char>) -> Seq<char>
    decreases s.len(),
{
    if s.len() > 0 && is_whitespace(s.last()) {
        trim_end(s.drop_last())
    } else {
        s
    }
}

/// `s` without leading and trailing whitespace, as `str::trim` gives it.
pub open spec fn trim_spec(s: Seq<char>) -> Seq<char> {
    trim_end(trim_start(s))
}

/// The number of leading whitespace characters of `s`.
fn leading_whitespace(s: &str, n: usize) -> (i: usize)
    requires
        n == s@.len(),
    ensures
        i <= n,
        trim_start(s@) == s@.subrange(i as int, n as int),
{
    let mut i: usize = 0;
    assert(s@.subrange(0, n as int) =~= s@);
    while i < n && is_whitespace_exec(s.get_char(i))
        invariant
            i <= n,
            n == s@.len(),
            trim_start(s@) == trim_start(s@.subrange(i as int, n as int)),
        decreases n - i,
    {
        assert(s@.subrange(i as int, n as int).drop_first() =~= s@.subrange(i + 1, n as int));
        i = i + 1;
    }
    i
}

/// The end of `s@.subrange(i, n)` once its trailing whitespace is dropped.
fn trailing_whitespace_start(s: &str, n: usize, i: usize) -> (j: usize)
    requires
        n == s@.len(),
        i <= n,
    ensures
        i <= j <= n,
        trim_end(s@.subrange(i as int, n as int)) == s@.subrange(i as int, j as int),
{
    let mut j: usize = n;
    while j > i && is_whitespace_exec(s.get_char(j - 1))
        invariant
            i <= j <= n,
            n == s@.len(),
            trim_end(s@.subrange(i as int, n as int)) == trim_end(s@.subrange(i as int, j as int)),
        decreases j,
    {
        assert(s@.subrange(i as int, j as int).drop_last() =~= s@.subrange(i as int, j - 1));
        j = j - 1;
    }
    j
}

/// Removes leading and trailing whitespace, as `str::trim` does.
pub fn trim(s: &str) -> (r: &str)
    ensures
        r@ == trim_spec(s@),
{
    let n = s.unicode_len();
    let i = leading_whitespace(s, n);
    let j = trailing_whitespace_start(s, n, i);
    s.substring_char(i, j)
}

/// The first position at or after `i` where `p` occurs in `s`.
pub open spec fn find_from(s: Seq<char>, p: Seq<char>, i: int) -> Option<int>
    decreases s.len() + 1 - i,
{
    if i < 0 || i + p.len() > s.len() {
        None
    } else if s.subrange(i, i + p.len()) == p {
        Some(i)
    } else {
        find_from(s, p, i + 1)
    }
}

proof fn lemma_find_from_bounds(s: Seq<char>, p: Seq<char>, i: int)
    ensures
        find_from(s, p, i) matches Some(j) ==> i <= j && j + p.len() <= s.len() && s.subrange(
            j,
            j + p.len(),
        ) == p,
    decreases s.len() + 1 - i,
{
    if i < 0 || i + p.len() > s.len() {
    } else if s.subrange(i, i + p.len()) == p {
    } else {
        lemma_find_from_bounds(s, p, i + 1);
    }
}

/// For a nonempty `p`, the first two pieces that `s.split(p)` yields: the
/// text before the first occurrence of `p`, and, where `p` occurs, the text
/// between its first and its second occurrence (or the end).
pub open spec fn first_two_pieces(s: Seq<char>, p: Seq<char>) -> (Seq<char>, Option<Seq<char>>) {
    match find_from(s, p, 0) {
        None => (s, None),
        Some(i) => {
            let rest = s.subrange(i + p.len(), s.len() as int);
            (
                s.subrange(0, i),
                Some(
                    match find_from(rest, p, 0) {
                        None => rest,
                        Some(j) => rest.subrange(0, j),
                    },
                ),
            )
        },
    }
}

fn occurs_at(s: &str, n: usize, p: &str, m: usize, i: usize) -> (b: bool)
    requires
        n == s@.len(),
        m == p@.len(),
        i + m <= n,
    ensures
        b == (s@.subrange(i as int, i + m) == p@),
{
    let mut k: usize = 0;
    while k < m
        invariant
            k <= m,
            n == s@.len(),
            m == p@.len(),
            i + m <= n,
            forall|t: int| 0 <= t < k ==> s@[i + t] == p@[t],
        decreases m - k,
    {
        if s.get_char(i + k) != p.get_char(k) {
            assert(s@.subrange(i as int, i + m)[k as int] != p@[k as int]);
            return false;
        }
        k = k + 1;
    }
    assert(s@.subrange(i as int, i + m) =~= p@);
    true
}

/// Finds the first occurrence of `p` in `s` at or after `from`.
fn find(s: &str, p: &str, from: usize) -> (r: Option<usize>)
    ensures
        match r {
            None => find_from(s@, p@, from as int) is None,
            Some(i) => find_from(s@, p@, from as int) == Some(i as int),
        },
{
    let n = s.unicode_len();
    let m = p.unicode_len();
    if m == 0 {
        if from <= n {
            assert(s@.subrange(from as int, from as int) =~= p@);
            return Some(from);
        } else {
            return None;
        }
    }
    if m > n {
        return None;
    }
    let mut i = from;
    while i <= n - m
        invariant
            n == s@.len(),
            m == p@.len(),
            1 <= m <= n,
            from <= i,
            find_from(s@, p@, from as int) == find_from(s@, p@, i as int),
        decreases n - i,
    {
        if occurs_at(s, n, p, m, i) {
            return Some(i);
        }
        i = i + 1;
    }
    None
}

/// Splits `s` at the nonempty separator `p` and gives the first two
/// pieces, as the first two calls of `next` on `s.split(p)` do.
pub fn split_first_two<'a>(s: &'a str, p: &str) -> (r: (&'a str, Option<&'a str>))
    requires
        p@.len() > 0,
    ensures
        r.0@ == first_two_pieces(s@, p@).0,
        match r.1 {
            None => first_two_pieces(s@, p@).1 is None,
            Some(second) => first_two_pieces(s@, p@).1 == Some(second@),
        },
{
    let n = s.unicode_len();
    let m = p.unicode_len();
    match find(s, p, 0) {
        None => (s.substring_char(0, n), None),
        Some(i) => {
            proof {
                lemma_find_from_bounds(s@, p@, 0);
            }
            let first = s.substring_char(0, i);
            let rest = s.substring_char(i + m, n);
            match find(rest, p, 0) {
                None => (first, Some(rest)),
                Some(j) => {
                    proof {
                        lemma_find_from_bounds(rest@, p@, 0);
                    }
                    (first, Some(rest.substring_char(0, j)))
                },
            }
        },
    }
}

} // verus!
