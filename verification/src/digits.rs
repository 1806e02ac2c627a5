//! Decimal and hexadecimal digit strings of unsigned integers.
use vstd::prelude::*;
use crate::text::string_from_chars;

verus! {

/// The character of a digit below sixteen, lowercase.
pub open spec fn digit_char(d: nat) -> char {
    if d == 0 {
        '0'
    } else if d == 1 {
        '1'
    } else if d == 2 {
        '2'
    } else if d == 3 {
        '3'
    } else if d == 4 {
        '4'
    } else if d == 5 {
        '5'
    } else if d == 6 {
        '6'
    } else if d == 7 {
        '7'
    } else if d == 8 {
        '8'
    } else if d == 9 {
        '9'
    } else if d == 10 {
        'a'
    } else if d == 11 {
        'b'
    } else if d == 12 {
        'c'
    } else if d == 13 {
        'd'
    } else if d == 14 {
        'e'
    } else {
        'f'
    }
}

/// The decimal digits of `n`, most significant first, without leading zeros.
pub open spec fn decimal(n: nat) -> Seq<char>
    decreases n,
{
    if n < 10 {
        seq![digit_char(n)]
    } else {
        decimal(n / 10).push(digit_char(n % 10))
    }
}

fn digit(d: u64) -> (r: char)
    requires
        d < 16,
    ensures
        r == digit_char(d as nat),
{
    if d == 0 {
        '0'
    } else if d == 1 {
        '1'
    } else if d == 2 {
        '2'
    } else if d == 3 {
        '3'
    } else if d == 4 {
        '4'
    } else if d == 5 {
        '5'
    } else if d == 6 {
        '6'
    } else if d == 7 {
        '7'
    } else if d == 8 {
        '8'
    } else if d == 9 {
        '9'
    } else if d == 10 {
        'a'
    } else if d == 11 {
        'b'
    } else if d == 12 {
        'c'
    } else if d == 13 {
        'd'
    } else if d == 14 {
        'e'
    } else {
        'f'
    }
}

fn decimal_chars(n: u64) -> (r: Vec<char>)
    ensures
        r@ == decimal(n as nat),
    decreases n,
{
    if n < 10 {
        let mut v: Vec<char> = Vec::new();
        v.push(digit(n));
        assert(v@ =~= seq![digit_char(n as nat)]);
        v
    } else {
        let mut v = decimal_chars(n / 10);
        v.push(digit(n % 10));
        v
    }
}

/// Writes `n` in decimal.
pub fn decimal_text(n: u64) -> (r: String)
    ensures
        r@ == decimal(n as nat),
{
    string_from_chars(decimal_chars(n))
}

/// The `count` lowest hexadecimal digits of `n`, most significant first.
pub open spec fn hex_digits(n: nat, count: nat) -> Seq<char>
    decreases count,
{
    if count == 0 {
        Seq::empty()
    } else {
        hex_digits(n / 16, (count - 1) as nat).push(digit_char(n % 16))
    }
}

fn hex_chars(n: u64, count: u64) -> (r: Vec<char>)
    requires
        count <= 16,
    ensures
        r@ == hex_digits(n as nat, count as nat),
    decreases count,
{
    if count == 0 {
        Vec::new()
    } else {
        let mut v = hex_chars(n / 16, count - 1);
        v.push(digit(n % 16));
        v
    }
}

/// A 64-bit value as sixteen lowercase hexadecimal digits, zero-padded.
pub fn hex16(n: u64) -> (r: String)
    ensures
        r@ == hex_digits(n as nat, 16),
{
    string_from_chars(hex_chars(n, 16))
}

/// `count` zeros.
pub open spec fn zeros(count: nat) -> Seq<char> {
    Seq::new(count, |i: int| '0')
}

/// The decimal digits of `n`, left-padded with zeros to at least `width`
/// digits, as `{:0width$}` writes an unsigned integer.
pub open spec fn padded_decimal(n: nat, width: nat) -> Seq<char> {
    let digits = decimal(n);
    if digits.len() >= width {
        digits
    } else {
        zeros((width - digits.len()) as nat) + digits
    }
}

pub fn padded_decimal_text(n: u64, width: usize) -> (r: String)
    ensures
        r@ == padded_decimal(n as nat, width as nat),
{
    let digits = decimal_chars(n);
    let mut out: Vec<char> = Vec::new();
    let len = digits.len();
    if len < width {
        let pad = width - len;
        let mut i: usize = 0;
        while i < pad
            invariant
                i <= pad,
                out@ == zeros(i as nat),
            decreases pad - i,
        {
            out.push('0');
            assert(out@ =~= zeros((i + 1) as nat));
            i = i + 1;
        }
    }
    let ghost prefix = out@;
    let mut j: usize = 0;
    while j < len
        invariant
            len == digits@.len(),
            j <= len,
            out@ == prefix + digits@.take(j as int),
        decreases len - j,
    {
        out.push(digits[j]);
        assert(out@ =~= prefix + digits@.take(j as int + 1));
        j = j + 1;
    }
    assert(digits@.take(len as int) =~= digits@);
    proof {
        if len >= width {
            assert(prefix =~= Seq::<char>::empty());
            assert(out@ =~= digits@);
        }
    }
    string_from_chars(out)
}

/// The number that a string of digits below sixteen writes in `base`, most
/// significant first: each digit `'0'..='9'` is worth 0..9 and `'a'..='f'`
/// 10..15.
pub open spec fn digit_value(c: char) -> int {
    if '0' <= c && c <= '9' {
        c as int - '0' as int
    } else {
        c as int - 'a' as int + 10
    }
}

pub open spec fn digits_value(s: Seq<char>, base: int) -> int
    decreases s.len(),
{
    if s.len() == 0 {
        0
    } else {
        digits_value(s.drop_last(), base) * base + digit_value(s.last())
    }
}

/// Digits 0..9 are written `'0'..='9'` and 10..15 `'a'..='f'`.
pub proof fn lemma_digit_chars(d: nat)
    requires
        d < 16,
    ensures
        d < 10 ==> digit_char(d) as int == '0' as int + d,
        d >= 10 ==> digit_char(d) as int == 'a' as int + d - 10,
        digit_value(digit_char(d)) == d,
{
}

/// The decimal digits of `n` write `n` in base ten, with no leading zero but
/// for `n` itself being zero.
pub proof fn lemma_decimal_writes_n(n: nat)
    ensures
        digits_value(decimal(n), 10) == n,
        decimal(n).len() >= 1,
        n > 0 ==> decimal(n)[0] != '0',
        forall|i: int| 0 <= i < decimal(n).len() ==> '0' <= #[trigger] decimal(n)[i] <= '9',
    decreases n,
{
    if n < 10 {
        lemma_digit_chars(n);
        assert(decimal(n).drop_last() =~= Seq::<char>::empty());
        assert(digits_value(decimal(n), 10) == digits_value(Seq::<char>::empty(), 10) * 10 + digit_value(
            digit_char(n),
        ));
    } else {
        lemma_decimal_writes_n(n / 10);
        lemma_digit_chars(n % 10);
        assert(decimal(n).drop_last() =~= decimal(n / 10));
        assert(decimal(n).last() == digit_char(n % 10));
        assert(digits_value(decimal(n), 10) == digits_value(decimal(n / 10), 10) * 10 + digit_value(
            digit_char(n % 10),
        ));
        assert((n / 10) * 10 + n % 10 == n);
        assert(decimal(n)[0] == decimal(n / 10)[0]);
        assert forall|i: int| 0 <= i < decimal(n).len() implies '0' <= #[trigger] decimal(n)[i] <= '9' by {
            if i < decimal(n / 10).len() {
                assert(decimal(n)[i] == decimal(n / 10)[i]);
            }
        }
    }
}

/// The `count` hexadecimal digits of `n` write `n` modulo 16^count.
pub proof fn lemma_hex_digits_write_n(n: nat, count: nat)
    ensures
        hex_digits(n, count).len() == count,
        digits_value(hex_digits(n, count), 16) == (n as int) % vstd::arithmetic::power::pow(16, count),
    decreases count,
{
    vstd::arithmetic::power::lemma_pow_positive(16, count);
    if count == 0 {
        vstd::arithmetic::power::lemma_pow0(16);
    } else {
        lemma_hex_digits_write_n(n / 16, (count - 1) as nat);
        lemma_digit_chars(n % 16);
        let h = hex_digits(n, count);
        assert(h.drop_last() =~= hex_digits(n / 16, (count - 1) as nat));
        let p = vstd::arithmetic::power::pow(16, (count - 1) as nat);
        vstd::arithmetic::power::lemma_pow_positive(16, (count - 1) as nat);
        vstd::arithmetic::power::lemma_pow_adds(16, 1, (count - 1) as nat);
        vstd::arithmetic::power::lemma_pow1(16);
        assert(vstd::arithmetic::power::pow(16, count) == 16 * p);
        // n % (16 p) == (n / 16 % p) * 16 + n % 16
        vstd::arithmetic::div_mod::lemma_mod_breakdown(n as int, 16, p);
        assert(16 * (((n / 16) as int) % p) == (((n / 16) as int) % p) * 16) by (nonlinear_arith);
    }
}

/// Zero padding writes the decimal digits of `n` at the end, preceded by as
/// many zeros as reach `width`, and never shortens them.
pub proof fn lemma_padded_decimal(n: nat, width: nat)
    ensures
        ({
            let p = padded_decimal(n, width);
            let d = decimal(n);
            &&& p.len() == if d.len() >= width { d.len() } else { width }
            &&& p.subrange(p.len() - d.len(), p.len() as int) == d
            &&& forall|i: int| 0 <= i < p.len() - d.len() ==> #[trigger] p[i] == '0'
        }),
{
    let p = padded_decimal(n, width);
    let d = decimal(n);
    if d.len() < width {
        assert(p.subrange(p.len() - d.len(), p.len() as int) =~= d);
    } else {
        assert(p.subrange(0, p.len() as int) =~= d);
    }
}

} // verus!
