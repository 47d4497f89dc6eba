//! Decimal numbers as text: rendering with zero padding and parsing (`u64::from_str`).
use vstd::prelude::*;

verus! {

/// The ASCII digit for `d` (0 through 9).
pub open spec fn digit_char(d: int) -> char {
    if d == 0 { '0' }
    else if d == 1 { '1' }
    else if d == 2 { '2' }
    else if d == 3 { '3' }
    else if d == 4 { '4' }
    else if d == 5 { '5' }
    else if d == 6 { '6' }
    else if d == 7 { '7' }
    else if d == 8 { '8' }
    else { '9' }
}

/// Whether `c` is an ASCII decimal digit.
pub open spec fn is_digit(c: char) -> bool {
    '0' <= c && c <= '9'
}

/// The value of an ASCII digit.
pub open spec fn digit_value(c: char) -> int {
    (c as int) - ('0' as int)
}

/// The shortest decimal rendering of `n` (`format!("{n}")`).
pub open spec fn decimal(n: nat) -> Seq<char>
    decreases n,
{
    if n < 10 {
        seq![digit_char(n as int)]
    } else {
        decimal(n / 10).push(digit_char((n % 10) as int))
    }
}

/// `s` padded on the left with `'0'` up to `width` characters (`format!("{n:0width$}")`).
pub open spec fn zero_pad(s: Seq<char>, width: nat) -> Seq<char> {
    if s.len() >= width {
        s
    } else {
        Seq::new((width - s.len()) as nat, |i: int| '0') + s
    }
}

/// The value of a sequence of ASCII digits.
pub open spec fn digits_value(s: Seq<char>) -> int
    decreases s.len(),
{
    if s.len() == 0 {
        0
    } else {
        digits_value(s.drop_last()) * 10 + digit_value(s.last())
    }
}

/// `s` without one leading `'+'`.
pub open spec fn strip_plus(s: Seq<char>) -> Seq<char> {
    if s.len() > 0 && s[0] == '+' {
        s.drop_first()
    } else {
        s
    }
}

/// Whether every character of `t` is an ASCII digit.
pub open spec fn all_digits(t: Seq<char>) -> bool {
    forall|i: int| 0 <= i < t.len() ==> is_digit(#[trigger] t[i])
}

/// `u64::from_str`: an optional `'+'`, then one or more ASCII digits whose value fits.
pub open spec fn parse_u64(s: Seq<char>) -> Option<u64> {
    if strip_plus(s).len() > 0 && all_digits(strip_plus(s)) && digits_value(strip_plus(s))
        <= u64::MAX {
        Some(digits_value(strip_plus(s)) as u64)
    } else {
        None
    }
}

proof fn lemma_digits_value_nonneg(s: Seq<char>)
    requires
        forall|i: int| 0 <= i < s.len() ==> is_digit(s[i]),
    ensures
        digits_value(s) >= 0,
    decreases s.len(),
{
    if s.len() > 0 {
        lemma_digits_value_nonneg(s.drop_last());
    }
}

proof fn lemma_digits_value_mono(s: Seq<char>, k: int)
    requires
        0 <= k <= s.len(),
        forall|i: int| 0 <= i < s.len() ==> is_digit(s[i]),
    ensures
        digits_value(s.take(k)) <= digits_value(s),
    decreases s.len() - k,
{
    if k < s.len() {
        assert(s.drop_last().take(k) =~= s.take(k));
        lemma_digits_value_mono(s.drop_last(), k);
        lemma_digits_value_nonneg(s.drop_last());
    } else {
        assert(s.take(k) =~= s);
    }
}

/// `u64::from_str` on a character sequence.
pub fn parse_u64_exec(s: &[char]) -> (r: Option<u64>)
    ensures
        r == parse_u64(s@),
{
    let start: usize = if s.len() > 0 && s[0] == '+' { 1 } else { 0 };
    let ghost t = strip_plus(s@);
    proof {
        assert(t =~= s@.skip(start as int));
    }
    if start >= s.len() {
        return None;
    }
    let mut acc: u64 = 0;
    let mut i = start;
    while i < s.len()
        invariant
            start <= i <= s@.len(),
            t == s@.skip(start as int),
            t == strip_plus(s@),
            acc as int == digits_value(t.take(i - start)),
            forall|j: int| 0 <= j < i - start ==> is_digit(t[j]),
        decreases s@.len() - i,
    {
        let c = s[i];
        proof {
            assert(t.take(i - start + 1).drop_last() =~= t.take(i - start));
            assert(t[i - start] == c);
        }
        if !('0' <= c && c <= '9') {
            proof {
                assert(!is_digit(t[i - start]));
                assert(!all_digits(t));
                assert(parse_u64(s@) is None);
            }
            return None;
        }
        let d: u64 = ((c as u32) - ('0' as u32)) as u64;
        proof {
            assert(d as int == digit_value(c));
        }
        match acc.checked_mul(10) {
            Some(m) => match m.checked_add(d) {
                Some(v) => {
                    acc = v;
                },
                None => {
                    proof {
                        let k = i - start;
                        assert(digits_value(t.take(k + 1)) == digits_value(t.take(k)) * 10 + digit_value(c));
                        if all_digits(t) {
                            lemma_digits_value_mono(t, k + 1);
                            assert(digits_value(t) > u64::MAX);
                        }
                        assert(parse_u64(s@) is None);
                    }
                    return None;
                },
            },
            None => {
                proof {
                    if all_digits(t) {
                        lemma_digits_value_mono(t, i - start + 1);
                        lemma_digits_value_nonneg(t.take(i - start));
                    }
                }
                return None;
            },
        }
        i = i + 1;
    }
    proof {
        assert(t.take(s@.len() - start) =~= t);
    }
    Some(acc)
}

proof fn lemma_decimal_len(n: nat)
    ensures
        decimal(n).len() >= 1,
    decreases n,
{
    if n >= 10 {
        lemma_decimal_len(n / 10);
    }
}

/// The decimal rendering of a number is made of digits whose value is the number.
proof fn lemma_decimal_digits(n: nat)
    ensures
        all_digits(decimal(n)),
        digits_value(decimal(n)) == n,
        decimal(n).len() >= 1,
    decreases n,
{
    let d = (n % 10) as int;
    assert(digit_value(digit_char(d)) == d && is_digit(digit_char(d))) by {
        assert(0 <= d <= 9);
    }
    if n >= 10 {
        lemma_decimal_digits(n / 10);
        let s = decimal(n);
        assert(s.drop_last() =~= decimal(n / 10));
        assert(s.last() == digit_char(d));
        assert(digits_value(s) == digits_value(decimal(n / 10)) * 10 + d);
        assert(forall|i: int| 0 <= i < s.len() ==> is_digit(#[trigger] s[i])) by {
            assert forall|i: int| 0 <= i < s.len() implies is_digit(#[trigger] s[i]) by {
                if i < s.len() - 1 {
                    assert(s[i] == decimal(n / 10)[i]);
                }
            }
        }
    } else {
        let s = decimal(n);
        assert(s.drop_last() =~= Seq::<char>::empty());
        assert(digits_value(Seq::<char>::empty()) == 0);
        assert(digits_value(s) == digits_value(s.drop_last()) * 10 + digit_value(s.last()));
    }
}

/// Parsing the decimal text of a `u64` gives the number back.
pub proof fn lemma_parse_decimal(n: u64)
    ensures
        parse_u64(decimal(n as nat)) == Some(n),
{
    lemma_decimal_digits(n as nat);
    let s = decimal(n as nat);
    assert(is_digit(s[0]));
    assert(strip_plus(s) == s);
}

/// Appends the shortest decimal rendering of `n` to `out`.
pub fn push_decimal(out: &mut String, n: u64)
    ensures
        final(out)@ == old(out)@ + decimal(n as nat),
{
    let mut digits: Vec<char> = Vec::new();
    let mut m = n;
    // Collect digits least significant first.
    loop
        invariant_except_break
            m <= n,
            decimal(n as nat) == decimal(m as nat) + digits@.reverse(),
        ensures
            decimal(n as nat) =~= digits@.reverse(),
        decreases m,
    {
        let d = m % 10;
        let c = if d == 0 { '0' } else if d == 1 { '1' } else if d == 2 { '2' } else if d == 3 { '3' }
            else if d == 4 { '4' } else if d == 5 { '5' } else if d == 6 { '6' } else if d == 7 { '7' }
            else if d == 8 { '8' } else { '9' };
        assert(c == digit_char(d as int));
        if m < 10 {
            digits.push(c);
            proof {
                assert(digits@.reverse() =~= seq![c] + digits@.drop_last().reverse());
                assert(decimal(n as nat) =~= digits@.reverse());
            }
            break;
        }
        let ghost prev = digits@;
        digits.push(c);
        proof {
            assert(digits@.reverse() =~= seq![c] + prev.reverse());
            assert(decimal(m as nat) == decimal((m / 10) as nat).push(c));
            assert(decimal((m / 10) as nat).push(c) + prev.reverse() =~= decimal((m / 10) as nat) + (seq![c] + prev.reverse()));
        }
        m = m / 10;
    }
    let mut k = digits.len();
    let ghost base = out@;
    while k > 0
        invariant
            k <= digits@.len(),
            decimal(n as nat) =~= digits@.reverse(),
            out@ == base + digits@.reverse().take(digits@.len() - k),
        decreases k,
    {
        k = k - 1;
        crate::text::push_char(out, digits[k]);
        proof {
            assert(digits@.reverse().take(digits@.len() - k) =~= digits@.reverse().take(digits@.len() - k - 1).push(digits@[k as int]));
        }
    }
    proof {
        assert(digits@.reverse().take(digits@.len() as int) =~= digits@.reverse());
    }
}

/// Appends `n` in decimal, padded on the left with zeros to `width` characters.
pub fn push_decimal_padded(out: &mut String, n: u64, width: usize)
    ensures
        final(out)@ == old(out)@ + zero_pad(decimal(n as nat), width as nat),
{
    let mut tmp = String::new();
    push_decimal(&mut tmp, n);
    let len = crate::text::chars_of(tmp.as_str()).len();
    let ghost base = out@;
    if len < width {
        let mut i: usize = 0;
        while i < width - len
            invariant
                len < width,
                len == decimal(n as nat).len(),
                i <= width - len,
                out@ == base + Seq::new(i as nat, |j: int| '0'),
            decreases width - len - i,
        {
            crate::text::push_char(out, '0');
            proof {
                assert(Seq::new(i as nat, |j: int| '0').push('0') =~= Seq::new((i + 1) as nat, |j: int| '0'));
            }
            i = i + 1;
        }
    }
    crate::text::push_str(out, tmp.as_str());
    proof {
        if len >= width {
            assert(zero_pad(decimal(n as nat), width as nat) == decimal(n as nat));
        } else {
            assert(base + Seq::new((width - len) as nat, |j: int| '0') + decimal(n as nat) =~= base + zero_pad(decimal(n as nat), width as nat));
        }
    }
}

/// The decimal rendering of a signed integer (`format!("{n}")`).
pub open spec fn int_text(n: int) -> Seq<char> {
    if n < 0 {
        seq!['-'] + decimal((-n) as nat)
    } else {
        decimal(n as nat)
    }
}

/// Appends the decimal rendering of `n` to `out`.
pub fn push_i32(out: &mut String, n: i32)
    ensures
        final(out)@ == old(out)@ + int_text(n as int),
{
    if n < 0 {
        crate::text::push_char(out, '-');
        let m: u64 = (0i64 - (n as i64)) as u64;
        let ghost mid = out@;
        push_decimal(out, m);
        assert(out@ =~= old(out)@ + int_text(n as int));
    } else {
        push_decimal(out, n as u64);
    }
}

} // verus!
