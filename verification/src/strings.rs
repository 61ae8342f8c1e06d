//! Character-level string helpers: comparison, prefixes, decimal rendering and parsing
//! of unsigned integers.

use vstd::prelude::*;

verus! {

/// Do `a` and `b` hold the same characters?
pub fn str_equals(a: &str, b: &str) -> (r: bool)
    ensures
        r == (a@ == b@),
{
    let n = a.unicode_len();
    if n != b.unicode_len() {
        return false;
    }
    let mut i: usize = 0;
    while i < n
        invariant
            n == a@.len(),
            n == b@.len(),
            i <= n,
            forall|j: int| 0 <= j < i ==> a@[j] == b@[j],
        decreases n - i,
    {
        if a.get_char(i) != b.get_char(i) {
            return false;
        }
        i = i + 1;
    }
    assert(a@ =~= b@);
    true
}

/// Is `prefix` a prefix of `s`?
pub open spec fn has_prefix(s: Seq<char>, prefix: Seq<char>) -> bool {
    prefix.len() <= s.len() && s.subrange(0, prefix.len() as int) == prefix
}

/// Does `s` start with `prefix`, counting from its `start`-th character?
pub fn starts_with_at(s: &str, start: usize, prefix: &str) -> (r: bool)
    requires
        start <= s@.len(),
    ensures
        r == has_prefix(s@.subrange(start as int, s@.len() as int), prefix@),
{
    let n = s.unicode_len();
    let m = prefix.unicode_len();
    if m > n - start {
        return false;
    }
    let mut i: usize = 0;
    while i < m
        invariant
            n == s@.len(),
            m == prefix@.len(),
            start + m <= n,
            i <= m,
            forall|j: int| 0 <= j < i ==> s@[start + j] == prefix@[j],
        decreases m - i,
    {
        if s.get_char(start + i) != prefix.get_char(i) {
            assert(s@.subrange(start as int, n as int).subrange(0, m as int)[i as int] != prefix@[i as int]);
            return false;
        }
        i = i + 1;
    }
    assert(s@.subrange(start as int, n as int).subrange(0, m as int) =~= prefix@);
    true
}

/// The decimal digit character for `d`.
pub open spec fn digit_char(d: nat) -> char {
    if d == 0 { '0' } else if d == 1 { '1' } else if d == 2 { '2' } else if d == 3 { '3' }
    else if d == 4 { '4' } else if d == 5 { '5' } else if d == 6 { '6' } else if d == 7 { '7' }
    else if d == 8 { '8' } else { '9' }
}

/// The decimal rendering of `n`, without leading zeros.
pub open spec fn decimal_spec(n: nat) -> Seq<char>
    decreases n,
{
    if n < 10 {
        seq![digit_char(n)]
    } else {
        decimal_spec(n / 10).push(digit_char(n % 10))
    }
}

fn push_digit(s: &mut String, d: u64)
    requires
        d < 10,
    ensures
        final(s)@ == old(s)@.push(digit_char(d as nat)),
{
    proof {
        reveal_strlit("0");
        reveal_strlit("1");
        reveal_strlit("2");
        reveal_strlit("3");
        reveal_strlit("4");
        reveal_strlit("5");
        reveal_strlit("6");
        reveal_strlit("7");
        reveal_strlit("8");
        reveal_strlit("9");
    }
    let t: &str = if d == 0 { "0" } else if d == 1 { "1" } else if d == 2 { "2" }
        else if d == 3 { "3" } else if d == 4 { "4" } else if d == 5 { "5" }
        else if d == 6 { "6" } else if d == 7 { "7" } else if d == 8 { "8" } else { "9" };
    s.append(t);
}

/// Appends the decimal rendering of `n` to `s`.
pub fn push_decimal(s: &mut String, n: u64)
    ensures
        final(s)@ == old(s)@ + decimal_spec(n as nat),
    decreases n,
{
    if n < 10 {
        push_digit(s, n);
        assert(old(s)@.push(digit_char(n as nat)) =~= old(s)@ + decimal_spec(n as nat));
    } else {
        push_decimal(s, n / 10);
        push_digit(s, n % 10);
        assert(old(s)@ + decimal_spec((n / 10) as nat) + seq![digit_char((n % 10) as nat)]
            =~= old(s)@ + decimal_spec(n as nat));
    }
}

/// The decimal rendering of `n`.
pub fn decimal_string(n: u64) -> (r: String)
    ensures
        r@ == decimal_spec(n as nat),
{
    let mut s = String::new();
    push_decimal(&mut s, n);
    assert(s@ =~= decimal_spec(n as nat));
    s
}

/// The value of a digit character in base `radix` (2 to 36), if it is one: `0`-`9`, then
/// `a`-`z` or `A`-`Z` for ten and above.
pub open spec fn digit_value(c: char, radix: nat) -> Option<nat> {
    let v: int = if '0' <= c && c <= '9' {
        c as int - '0' as int
    } else if 'a' <= c && c <= 'z' {
        c as int - 'a' as int + 10
    } else if 'A' <= c && c <= 'Z' {
        c as int - 'A' as int + 10
    } else {
        radix as int
    };
    if v < radix { Some(v as nat) } else { None }
}

/// Are all characters of `cs` digits in base `radix`?
pub open spec fn all_digits(cs: Seq<char>, radix: nat) -> bool {
    forall|i: int| 0 <= i < cs.len() ==> (#[trigger] digit_value(cs[i], radix)) is Some
}

/// The number written by the digits `cs` in base `radix`.
pub open spec fn digits_value(cs: Seq<char>, radix: nat) -> nat
    decreases cs.len(),
{
    if cs.len() == 0 {
        0
    } else {
        digits_value(cs.drop_last(), radix) * radix + match digit_value(cs.last(), radix) {
            Some(v) => v,
            None => 0,
        }
    }
}

/// The digits of an unsigned number as written: an optional leading `+`, then the digits.
pub open spec fn unsigned_digits(s: Seq<char>) -> Seq<char> {
    if s.len() > 0 && s[0] == '+' { s.drop_first() } else { s }
}

/// The unsigned number that `s` writes in base `radix` (an optional `+`, then at least one
/// digit), if it does and the number is at most `max`; this is how the standard library
/// parses unsigned integers.
pub open spec fn parse_unsigned_spec(s: Seq<char>, radix: nat, max: nat) -> Option<nat> {
    let ds = unsigned_digits(s);
    if ds.len() > 0 && all_digits(ds, radix) && digits_value(ds, radix) <= max {
        Some(digits_value(ds, radix))
    } else {
        None
    }
}

proof fn lemma_digits_value_monotone(cs: Seq<char>, radix: nat, k: int)
    requires
        0 <= k <= cs.len(),
        radix >= 2,
    ensures
        digits_value(cs.subrange(0, k), radix) <= digits_value(cs, radix),
    decreases cs.len() - k,
{
    if k < cs.len() {
        lemma_digits_value_monotone(cs, radix, k + 1);
        let pre = cs.subrange(0, k + 1);
        assert(pre.drop_last() =~= cs.subrange(0, k));
        let a = digits_value(cs.subrange(0, k), radix);
        assert(digits_value(pre, radix) >= a * radix);
        assert(a * radix >= a) by (nonlinear_arith)
            requires
                radix >= 2,
        ;
    } else {
        assert(cs.subrange(0, k) =~= cs);
    }
}

fn char_digit_value(c: char, radix: u32) -> (r: Option<u32>)
    requires
        2 <= radix <= 36,
    ensures
        r matches Some(v) ==> digit_value(c, radix as nat) == Some(v as nat),
        r is None ==> digit_value(c, radix as nat) is None,
{
    let v: u32 = if '0' <= c && c <= '9' {
        (c as u32) - ('0' as u32)
    } else if 'a' <= c && c <= 'z' {
        (c as u32) - ('a' as u32) + 10
    } else if 'A' <= c && c <= 'Z' {
        (c as u32) - ('A' as u32) + 10
    } else {
        radix
    };
    if v < radix { Some(v) } else { None }
}

/// Parses an unsigned number written in base `radix`, at most `max`, as the standard
/// library's `from_str_radix` does for unsigned integer types.
pub fn parse_unsigned(s: &str, radix: u32, max: u64) -> (r: Option<u64>)
    requires
        2 <= radix <= 36,
    ensures
        r matches Some(v) ==> parse_unsigned_spec(s@, radix as nat, max as nat) == Some(v as nat),
        r is None ==> parse_unsigned_spec(s@, radix as nat, max as nat) is None,
{
    let n = s.unicode_len();
    let mut i: usize = 0;
    if n > 0 && s.get_char(0) == '+' {
        i = 1;
    }
    let start = i;
    let ghost ds = unsigned_digits(s@);
    assert(ds =~= s@.subrange(start as int, n as int));
    if start == n {
        return None;
    }
    let mut acc: u64 = 0;
    while i < n
        invariant
            n == s@.len(),
            start <= i <= n,
            ds == s@.subrange(start as int, n as int),
            ds == unsigned_digits(s@),
            2 <= radix <= 36,
            acc as nat == digits_value(ds.subrange(0, i - start), radix as nat),
            all_digits(ds.subrange(0, i - start), radix as nat),
            acc <= max,
        decreases n - i,
    {
        let c = s.get_char(i);
        let ghost pre = ds.subrange(0, i - start + 1);
        assert(pre.drop_last() =~= ds.subrange(0, i - start));
        assert(pre.last() == c);
        match char_digit_value(c, radix) {
            None => {
                assert(ds[i - start] == c);
                assert(digit_value(ds[i - start], radix as nat) is None);
                assert(!all_digits(ds, radix as nat));
                return None;
            },
            Some(d) => {
                assert(acc * radix <= 0xffff_ffff_ffff_ffff * 36) by (nonlinear_arith)
                    requires
                        acc <= 0xffff_ffff_ffff_ffff,
                        radix <= 36,
                ;
                let big: u128 = (acc as u128) * (radix as u128) + (d as u128);
                if big > max as u128 {
                    proof {
                        lemma_digits_value_monotone(ds, radix as nat, i - start + 1);
                        assert(digits_value(pre, radix as nat) == acc * radix + d);
                    }
                    return None;
                }
                acc = big as u64;
                i = i + 1;
                assert forall|j: int| 0 <= j < i - start implies (#[trigger] digit_value(
                    ds.subrange(0, i - start)[j],
                    radix as nat,
                )) is Some by {
                    if j < i - start - 1 {
                        assert(ds.subrange(0, i - start)[j] == ds.subrange(0, i - start - 1)[j]);
                    }
                }
            },
        }
    }
    assert(ds.subrange(0, n - start) =~= ds);
    Some(acc)
}

proof fn lemma_digit_char_value(d: nat)
    requires
        d < 10,
    ensures
        digit_value(digit_char(d), 10) == Some(d),
        digit_char(d) != '+',
{
}

proof fn lemma_decimal_digits(n: nat)
    ensures
        decimal_spec(n).len() > 0,
        all_digits(decimal_spec(n), 10),
        digits_value(decimal_spec(n), 10) == n,
        decimal_spec(n)[0] != '+',
    decreases n,
{
    if n < 10 {
        lemma_digit_char_value(n);
        assert(decimal_spec(n).drop_last() =~= Seq::<char>::empty());
        assert(digits_value(Seq::<char>::empty(), 10) == 0);
        assert(decimal_spec(n).last() == digit_char(n));
    } else {
        lemma_decimal_digits(n / 10);
        lemma_digit_char_value(n % 10);
        let prev = decimal_spec(n / 10);
        let s = decimal_spec(n);
        assert(s == prev.push(digit_char(n % 10)));
        assert(s.drop_last() =~= prev);
        assert(s[0] == prev[0]);
        assert forall|i: int| 0 <= i < s.len() implies (#[trigger] digit_value(s[i], 10)) is Some by {
            if i < prev.len() {
                assert(s[i] == prev[i]);
            }
        }
        assert(digits_value(s, 10) == digits_value(prev, 10) * 10 + (n % 10));
        assert((n / 10) * 10 + n % 10 == n) by (nonlinear_arith);
    }
}

/// Parsing the decimal rendering of a number gives the number back.
pub proof fn lemma_decimal_parses_back(n: nat, max: nat)
    requires
        n <= max,
    ensures
        parse_unsigned_spec(decimal_spec(n), 10, max) == Some(n),
{
    lemma_decimal_digits(n);
}

/// Is `c` white space, as `char::is_whitespace` says (the Unicode `White_Space` property)?
pub open spec fn is_unicode_whitespace(c: char) -> bool {
    ('\u{9}' <= c && c <= '\u{d}') || c == ' ' || c == '\u{85}' || c == '\u{a0}' || c == '\u{1680}'
        || ('\u{2000}' <= c && c <= '\u{200a}') || c == '\u{2028}' || c == '\u{2029}' || c == '\u{202f}'
        || c == '\u{205f}' || c == '\u{3000}'
}

/// Is `c` a separator between tokens: any white space, or only the space character?
pub open spec fn is_separator(c: char, any_whitespace: bool) -> bool {
    if any_whitespace { is_unicode_whitespace(c) } else { c == ' ' }
}

/// Does `w` stand in `s` at `i`, between separators or the ends of `s`?
pub open spec fn token_at(s: Seq<char>, w: Seq<char>, any_whitespace: bool, i: int) -> bool {
    &&& 0 <= i
    &&& i + w.len() <= s.len()
    &&& s.subrange(i, i + w.len()) == w
    &&& (i == 0 || is_separator(s[i - 1], any_whitespace))
    &&& (i + w.len() == s.len() || is_separator(s[i + w.len()], any_whitespace))
}

/// Is `w` one of the tokens of `s`, as splitting `s` at separators gives them?
pub open spec fn has_token(s: Seq<char>, w: Seq<char>, any_whitespace: bool) -> bool {
    exists|i: int| token_at(s, w, any_whitespace, i)
}

fn is_separator_char(c: char, any_whitespace: bool) -> (r: bool)
    ensures
        r == is_separator(c, any_whitespace),
{
    if any_whitespace {
        ('\u{9}' <= c && c <= '\u{d}') || c == ' ' || c == '\u{85}' || c == '\u{a0}' || c == '\u{1680}'
            || ('\u{2000}' <= c && c <= '\u{200a}') || c == '\u{2028}' || c == '\u{2029}'
            || c == '\u{202f}' || c == '\u{205f}' || c == '\u{3000}'
    } else {
        c == ' '
    }
}

/// Is `w` one of the tokens of `s`, splitting at any white space or only at spaces?
pub fn has_token_exec(s: &str, w: &str, any_whitespace: bool) -> (r: bool)
    ensures
        r == has_token(s@, w@, any_whitespace),
{
    let n = s.unicode_len();
    let m = w.unicode_len();
    if m > n {
        proof {
            assert forall|i: int| !token_at(s@, w@, any_whitespace, i) by {}
        }
        return false;
    }
    let mut i: usize = 0;
    while i <= n - m
        invariant
            n == s@.len(),
            m == w@.len(),
            m <= n,
            i <= n - m,
            forall|j: int| 0 <= j < i ==> !token_at(s@, w@, any_whitespace, j),
        ensures
            forall|j: int| 0 <= j <= n - m ==> !token_at(s@, w@, any_whitespace, j),
        decreases n - m - i,
    {
        let before = i == 0 || is_separator_char(s.get_char(i - 1), any_whitespace);
        let after = i + m == n || is_separator_char(s.get_char(i + m), any_whitespace);
        if before && after && starts_with_at(s, i, w) {
            proof {
                assert(s@.subrange(i as int, n as int).subrange(0, m as int) =~= s@.subrange(
                    i as int,
                    i + m,
                ));
                assert(token_at(s@, w@, any_whitespace, i as int));
            }
            return true;
        }
        proof {
            if token_at(s@, w@, any_whitespace, i as int) {
                assert(s@.subrange(i as int, n as int).subrange(0, m as int) =~= s@.subrange(
                    i as int,
                    i + m,
                ));
            }
        }
        if i == n - m {
            break;
        }
        i = i + 1;
    }
    proof {
        assert forall|j: int| !token_at(s@, w@, any_whitespace, j) by {
            if 0 <= j && j <= n - m {
            }
        }
    }
    false
}

} // verus!
