//! Verified text utilities over the character view of strings: equality,
//! substring search, line counting and decimal parsing.
use vstd::prelude::*;

verus! {

/// The character views of a sequence of strings, element by element.
pub open spec fn str_views(v: Seq<String>) -> Seq<Seq<char>> {
    Seq::new(v.len(), |k: int| v[k]@)
}

/// Character-for-character equality of two string slices.
pub fn str_eq(a: &str, b: &str) -> (r: bool)
    ensures
        r == (a@ == b@),
{
    let alen = a.unicode_len();
    let blen = b.unicode_len();
    if alen != blen {
        return false;
    }
    let mut i: usize = 0;
    while i < alen
        invariant
            i <= alen,
            alen == a@.len(),
            alen == b@.len(),
            forall|m: int| 0 <= m < i ==> a@[m] == b@[m],
        decreases alen - i,
    {
        if a.get_char(i) != b.get_char(i) {
            return false;
        }
        i = i + 1;
    }
    proof {
        assert(a@ =~= b@);
    }
    true
}

/// How many characters of `s` equal `c`.
pub open spec fn count_char(s: Seq<char>, c: char) -> nat
    decreases s.len(),
{
    if s.len() == 0 {
        0
    } else {
        count_char(s.drop_last(), c) + if s.last() == c {
            1nat
        } else {
            0nat
        }
    }
}

/// No more characters equal `c` than there are characters.
pub proof fn lemma_count_char_le(s: Seq<char>, c: char)
    ensures
        count_char(s, c) <= s.len(),
    decreases s.len(),
{
    if s.len() > 0 {
        lemma_count_char_le(s.drop_last(), c);
    }
}

/// The number of lines of a text: lines are terminated by a newline, and a
/// final fragment without one still counts.
pub open spec fn spec_line_count(s: Seq<char>) -> nat {
    if s.len() == 0 {
        0
    } else if s.last() == '\n' {
        count_char(s, '\n')
    } else {
        count_char(s, '\n') + 1
    }
}

/// Count the lines of `s`.
pub fn count_lines(s: &str) -> (n: usize)
    ensures
        n == spec_line_count(s@),
{
    let len = s.unicode_len();
    let mut n: usize = 0;
    let mut i: usize = 0;
    proof {
        assert(s@.take(0) =~= Seq::<char>::empty());
    }
    while i < len
        invariant
            i <= len,
            len == s@.len(),
            n == count_char(s@.take(i as int), '\n'),
            n <= i,
        decreases len - i,
    {
        proof {
            assert(s@.take(i + 1).drop_last() =~= s@.take(i as int));
            assert(s@.take(i + 1).last() == s@[i as int]);
        }
        if s.get_char(i) == '\n' {
            n = n + 1;
        }
        i = i + 1;
    }
    proof {
        assert(s@.take(len as int) =~= s@);
    }
    if len == 0 {
        n
    } else if s.get_char(len - 1) == '\n' {
        n
    } else {
        proof {
            assert(count_char(s@, '\n') == count_char(s@.drop_last(), '\n'));
            lemma_count_char_le(s@.drop_last(), '\n');
        }
        n + 1
    }
}

/// `p` occurs in `s` starting at position `k`.
pub open spec fn spec_contains_at(s: Seq<char>, p: Seq<char>, k: int) -> bool {
    0 <= k && k + p.len() <= s.len() && s.subrange(k, k + p.len() as int) == p
}

/// `p` occurs somewhere in `s`.
pub open spec fn spec_has_substring(s: Seq<char>, p: Seq<char>) -> bool {
    exists|k: int| spec_contains_at(s, p, k)
}

/// Whether `p` occurs as a contiguous substring of `s`.
pub fn has_substring(s: &str, p: &str) -> (r: bool)
    ensures
        r == spec_has_substring(s@, p@),
{
    let slen = s.unicode_len();
    let plen = p.unicode_len();
    if plen > slen {
        proof {
            assert forall|k: int| !spec_contains_at(s@, p@, k) by {}
        }
        return false;
    }
    let mut k: usize = 0;
    while k <= slen - plen
        invariant
            plen <= slen,
            slen == s@.len(),
            plen == p@.len(),
            k <= slen - plen + 1,
            forall|m: int| 0 <= m < k ==> !spec_contains_at(s@, p@, m),
        decreases slen - plen + 1 - k,
    {
        let mut t: usize = 0;
        let mut matched = true;
        while t < plen
            invariant
                t <= plen,
                k + plen <= slen,
                slen == s@.len(),
                plen == p@.len(),
                matched <==> (forall|u: int| 0 <= u < t ==> s@[k + u] == p@[u]),
            decreases plen - t,
        {
            if s.get_char(k + t) != p.get_char(t) {
                matched = false;
            }
            t = t + 1;
        }
        if matched {
            proof {
                assert(s@.subrange(k as int, k + plen) =~= p@);
                assert(spec_contains_at(s@, p@, k as int));
            }
            return true;
        }
        k = k + 1;
    }
    proof {
        assert forall|m: int| !spec_contains_at(s@, p@, m) by {
            if 0 <= m < k {
            } else {
            }
        }
    }
    false
}

/// Whether `c` is an ASCII decimal digit.
pub open spec fn is_digit(c: char) -> bool {
    48 <= c as int <= 57
}

/// The numeric value of a digit character.
pub open spec fn digit_val(c: char) -> int {
    c as int - 48
}

/// Every character of `s` is a decimal digit.
pub open spec fn all_digits(s: Seq<char>) -> bool {
    forall|i: int| 0 <= i < s.len() ==> is_digit(#[trigger] s[i])
}

/// The number written in decimal by the digits of `s`.
pub open spec fn decimal_value(s: Seq<char>) -> int
    decreases s.len(),
{
    if s.len() == 0 {
        0
    } else {
        decimal_value(s.drop_last()) * 10 + digit_val(s.last())
    }
}

/// A digit string's value is non-negative.
pub proof fn lemma_decimal_nonneg(s: Seq<char>)
    requires
        all_digits(s),
    ensures
        decimal_value(s) >= 0,
    decreases s.len(),
{
    if s.len() > 0 {
        assert(all_digits(s.drop_last())) by {
            assert forall|i: int| 0 <= i < s.drop_last().len() implies is_digit(
                #[trigger] s.drop_last()[i],
            ) by {
                assert(s.drop_last()[i] == s[i]);
            }
        }
        lemma_decimal_nonneg(s.drop_last());
    }
}

/// A prefix of a digit string is worth no more than the whole.
pub proof fn lemma_decimal_prefix_le(s: Seq<char>, m: int)
    requires
        all_digits(s),
        0 <= m <= s.len(),
    ensures
        decimal_value(s.take(m)) <= decimal_value(s),
    decreases s.len() - m,
{
    if m < s.len() {
        lemma_decimal_prefix_le(s, m + 1);
        let t = s.take(m + 1);
        assert(t.drop_last() =~= s.take(m));
        assert(t.last() == s[m]);
        assert(all_digits(s.take(m))) by {
            assert forall|i: int| 0 <= i < s.take(m).len() implies is_digit(
                #[trigger] s.take(m)[i],
            ) by {
                assert(s.take(m)[i] == s[i]);
            }
        }
        lemma_decimal_nonneg(s.take(m));
        assert(decimal_value(s.take(m)) <= decimal_value(t)) by (nonlinear_arith)
            requires
                decimal_value(t) == decimal_value(s.take(m)) * 10 + digit_val(s[m]),
                decimal_value(s.take(m)) >= 0,
                0 <= digit_val(s[m]),
        {}
    } else {
        assert(s.take(m) =~= s);
    }
}

/// The decimal digits of a number literal: an optional leading plus sign is
/// not one of them.
pub open spec fn digits_of(s: Seq<char>) -> Seq<char> {
    if s.len() > 0 && s[0] == '+' {
        s.drop_first()
    } else {
        s
    }
}

/// Parse an unsigned decimal number, as number literals in remote URLs are
/// written: an optional leading plus sign, then at least one digit. `None`
/// on anything else, and on a value that does not fit.
pub fn parse_usize(s: &str) -> (r: Option<usize>)
    ensures
        r is Some <==> digits_of(s@).len() > 0 && all_digits(digits_of(s@)) && decimal_value(
            digits_of(s@),
        ) <= usize::MAX,
        r matches Some(n) ==> n == decimal_value(digits_of(s@)),
{
    let len = s.unicode_len();
    let ghost d = digits_of(s@);
    let mut i: usize = 0;
    if len > 0 && s.get_char(0) == '+' {
        i = 1;
    }
    let ghost start = i as int;
    proof {
        assert(d.len() == len - start);
        assert(forall|m: int| 0 <= m < d.len() ==> d[m] == s@[start + m]);
    }
    if i == len {
        return None;
    }
    let mut n: usize = 0;
    while i < len
        invariant
            start <= i <= len,
            len == s@.len(),
            d == digits_of(s@),
            d.len() == len - start,
            forall|m: int| 0 <= m < d.len() ==> d[m] == s@[start + m],
            all_digits(d.take(i - start)),
            n == decimal_value(d.take(i - start)),
        decreases len - i,
    {
        let c = s.get_char(i);
        if c < '0' || c > '9' {
            proof {
                assert(d[i - start] == s@[i as int]);
                assert(!is_digit(d[i - start]));
            }
            return None;
        }
        let dv: usize = (c as u32 as usize) - 48;
        proof {
            assert(d.take(i - start + 1).drop_last() =~= d.take(i - start));
            assert(d.take(i - start + 1).last() == d[i - start]);
            assert(d[i - start] == s@[i as int]);
        }
        if n > (usize::MAX - dv) / 10 {
            proof {
                let x = (usize::MAX - dv) as int;
                let q = x / 10;
                vstd::arithmetic::div_mod::lemma_fundamental_div_mod(x, 10);
                vstd::arithmetic::div_mod::lemma_mod_division_less_than_divisor(x, 10);
                assert(n * 10 + dv > usize::MAX) by (nonlinear_arith)
                    requires
                        n >= q + 1,
                        x == 10 * q + x % 10,
                        x % 10 < 10,
                        x == usize::MAX - dv,
                {}
                assert(decimal_value(d.take(i - start + 1)) > usize::MAX);
                if all_digits(d) {
                    lemma_decimal_prefix_le(d, i - start + 1);
                }
            }
            return None;
        }
        proof {
            let x = (usize::MAX - dv) as int;
            let q = x / 10;
            vstd::arithmetic::div_mod::lemma_fundamental_div_mod(x, 10);
            vstd::arithmetic::div_mod::lemma_mod_division_less_than_divisor(x, 10);
            assert(n * 10 + dv <= usize::MAX) by (nonlinear_arith)
                requires
                    n <= q,
                    x == 10 * q + x % 10,
                    x % 10 >= 0,
                    x == usize::MAX - dv,
            {}
        }
        n = n * 10 + dv;
        i = i + 1;
    }
    proof {
        assert(d.take(i - start) =~= d);
    }
    Some(n)
}

} // verus!
