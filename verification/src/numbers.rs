//! Decimal integers, whitespace trimming and comma lists as command-line
//! values spell them.
use vstd::prelude::*;

verus! {

pub open spec fn is_ascii_digit(c: char) -> bool {
    '0' <= c && c <= '9'
}

pub open spec fn all_digits(text: Seq<char>) -> bool {
    forall|i: int| 0 <= i < text.len() ==> is_ascii_digit(#[trigger] text[i])
}

/// The value of a string of decimal digits, most significant first.
pub open spec fn digits_value(text: Seq<char>) -> nat
    decreases text.len(),
{
    if text.len() == 0 {
        0
    } else {
        digits_value(text.drop_last()) * 10 + ((text.last() as u32 - '0' as u32) as nat)
    }
}

/// An unsigned integer as `str::parse` reads it: an optional `+`, then one or
/// more ASCII digits, with a value no larger than `max`.
pub open spec fn parse_unsigned(text: Seq<char>, max: nat) -> Option<nat> {
    let body = if text.len() > 0 && text[0] == '+' { text.drop_first() } else { text };
    if body.len() == 0 || !all_digits(body) || digits_value(body) > max {
        None
    } else {
        Some(digits_value(body))
    }
}

/// The characters that `char::is_whitespace` accepts (Unicode White_Space).
pub open spec fn is_white_space(c: char) -> bool {
    ('\u{9}' <= c && c <= '\u{d}') || c == ' ' || c == '\u{85}' || c == '\u{a0}' || c == '\u{1680}'
        || ('\u{2000}' <= c && c <= '\u{200a}') || c == '\u{2028}' || c == '\u{2029}' || c
        == '\u{202f}' || c == '\u{205f}' || c == '\u{3000}'
}

/// Number of leading white-space characters.
pub open spec fn leading_white(text: Seq<char>) -> nat
    decreases text.len(),
{
    if text.len() > 0 && is_white_space(text[0]) {
        1 + leading_white(text.drop_first())
    } else {
        0
    }
}

/// Number of trailing white-space characters.
pub open spec fn trailing_white(text: Seq<char>) -> nat
    decreases text.len(),
{
    if text.len() > 0 && is_white_space(text.last()) {
        1 + trailing_white(text.drop_last())
    } else {
        0
    }
}

/// `text` without leading and trailing white space, as `str::trim` gives it.
pub open spec fn trimmed(text: Seq<char>) -> Seq<char> {
    let start = leading_white(text);
    if start == text.len() {
        Seq::empty()
    } else {
        text.subrange(start as int, text.len() - trailing_white(text))
    }
}

/// The pieces of `text` between occurrences of `sep`, as `str::split(sep)`
/// yields them: one more piece than separators, empty pieces included.
pub open spec fn pieces_between(text: Seq<char>, sep: char) -> Seq<Seq<char>>
    decreases text.len(),
{
    if text.len() == 0 {
        seq![Seq::empty()]
    } else {
        let rest = pieces_between(text.drop_last(), sep);
        if text.last() == sep {
            rest.push(Seq::empty())
        } else {
            rest.update(rest.len() - 1, rest.last().push(text.last()))
        }
    }
}

/// The pieces of `text` between commas, as `str::split(",")` yields them.
pub open spec fn comma_pieces(text: Seq<char>) -> Seq<Seq<char>> {
    pieces_between(text, ',')
}

pub proof fn lemma_pieces_nonempty(text: Seq<char>, sep: char)
    ensures
        pieces_between(text, sep).len() >= 1,
    decreases text.len(),
{
    if text.len() > 0 {
        lemma_pieces_nonempty(text.drop_last(), sep);
    }
}

/// The trimmed pieces of a comma list.
pub open spec fn list_items(text: Seq<char>) -> Seq<Seq<char>> {
    comma_pieces(text).map_values(|piece: Seq<char>| trimmed(piece))
}

pub fn is_white(c: char) -> (r: bool)
    ensures
        r == is_white_space(c),
{
    ('\u{9}' <= c && c <= '\u{d}') || c == ' ' || c == '\u{85}' || c == '\u{a0}' || c == '\u{1680}'
        || ('\u{2000}' <= c && c <= '\u{200a}') || c == '\u{2028}' || c == '\u{2029}' || c
        == '\u{202f}' || c == '\u{205f}' || c == '\u{3000}'
}

proof fn lemma_leading_white_bound(text: Seq<char>)
    ensures
        leading_white(text) <= text.len(),
        forall|k: int| 0 <= k < leading_white(text) ==> is_white_space(#[trigger] text[k]),
        leading_white(text) < text.len() ==> !is_white_space(text[leading_white(text) as int]),
    decreases text.len(),
{
    if text.len() > 0 && is_white_space(text[0]) {
        lemma_leading_white_bound(text.drop_first());
        assert forall|k: int| 0 <= k < leading_white(text) implies is_white_space(#[trigger] text[k]) by {
            if k > 0 {
                assert(text[k] == text.drop_first()[k - 1]);
            }
        }
    }
}

proof fn lemma_trailing_white_bound(text: Seq<char>)
    ensures
        trailing_white(text) <= text.len(),
        forall|k: int| text.len() - trailing_white(text) <= k < text.len() ==> is_white_space(#[trigger] text[k]),
        trailing_white(text) < text.len() ==> !is_white_space(text[text.len() - trailing_white(text) - 1]),
    decreases text.len(),
{
    if text.len() > 0 && is_white_space(text.last()) {
        lemma_trailing_white_bound(text.drop_last());
        assert forall|k: int| text.len() - trailing_white(text) <= k < text.len() implies is_white_space(#[trigger] text[k]) by {
            if k < text.len() - 1 {
                assert(text[k] == text.drop_last()[k]);
            }
        }
    }
}

proof fn lemma_leading_white_exact(text: Seq<char>, n: nat)
    requires
        n <= text.len(),
        forall|k: int| 0 <= k < n ==> is_white_space(#[trigger] text[k]),
        n < text.len() ==> !is_white_space(text[n as int]),
    ensures
        leading_white(text) == n,
    decreases n,
{
    if n > 0 {
        assert forall|k: int| 0 <= k < n - 1 implies is_white_space(#[trigger] text.drop_first()[k]) by {
            assert(text.drop_first()[k] == text[k + 1]);
        }
        if n - 1 < text.drop_first().len() {
            assert(text.drop_first()[n - 1] == text[n as int]);
        }
        lemma_leading_white_exact(text.drop_first(), (n - 1) as nat);
    }
}

proof fn lemma_trailing_white_exact(text: Seq<char>, n: nat)
    requires
        n <= text.len(),
        forall|k: int| text.len() - n <= k < text.len() ==> is_white_space(#[trigger] text[k]),
        n < text.len() ==> !is_white_space(text[text.len() - n - 1]),
    ensures
        trailing_white(text) == n,
    decreases n,
{
    if n > 0 {
        let d = text.drop_last();
        assert forall|k: int| d.len() - (n - 1) <= k < d.len() implies is_white_space(#[trigger] d[k]) by {
            assert(d[k] == text[k]);
        }
        if n - 1 < d.len() {
            assert(d[d.len() - (n - 1) - 1] == text[text.len() - n - 1]);
        }
        lemma_trailing_white_exact(d, (n - 1) as nat);
    }
}

/// `text` without leading and trailing white space.
pub fn trim_chars(text: &Vec<char>) -> (r: Vec<char>)
    ensures
        r@ == trimmed(text@),
{
    let n = text.len();
    let mut start: usize = 0;
    while start < n && is_white(text[start])
        invariant
            n == text@.len(),
            start <= n,
            forall|k: int| 0 <= k < start ==> is_white_space(#[trigger] text@[k]),
        decreases n - start,
    {
        start = start + 1;
    }
    proof {
        lemma_leading_white_exact(text@, start as nat);
    }
    let mut out: Vec<char> = Vec::new();
    if start == n {
        assert(out@ =~= trimmed(text@));
        return out;
    }
    let mut end: usize = n;
    while end > start && is_white(text[end - 1])
        invariant
            n == text@.len(),
            start < n,
            !is_white_space(text@[start as int]),
            start <= end <= n,
            forall|k: int| end <= k < n ==> is_white_space(#[trigger] text@[k]),
        decreases end,
    {
        end = end - 1;
    }
    proof {
        lemma_trailing_white_exact(text@, (n - end) as nat);
    }
    let mut i: usize = start;
    while i < end
        invariant
            start <= i <= end <= n == text@.len(),
            out@ == text@.subrange(start as int, i as int),
        decreases end - i,
    {
        out.push(text[i]);
        i = i + 1;
        assert(out@ =~= text@.subrange(start as int, i as int));
    }
    out
}

/// The pieces of `text` between occurrences of `sep`.
pub fn split_on(text: &Vec<char>, sep: char) -> (r: Vec<Vec<char>>)
    ensures
        r@.len() == pieces_between(text@, sep).len(),
        forall|k: int| 0 <= k < r@.len() ==> (#[trigger] r@[k])@ == pieces_between(text@, sep)[k],
{
    let mut pieces: Vec<Vec<char>> = Vec::new();
    let mut current: Vec<char> = Vec::new();
    let mut i: usize = 0;
    while i < text.len()
        invariant
            i <= text@.len(),
            pieces@.len() + 1 == pieces_between(text@.take(i as int), sep).len(),
            forall|k: int| 0 <= k < pieces@.len() ==> (#[trigger] pieces@[k])@ == pieces_between(text@.take(i as int), sep)[k],
            current@ == pieces_between(text@.take(i as int), sep).last(),
        decreases text@.len() - i,
    {
        let ghost before = pieces_between(text@.take(i as int), sep);
        proof {
            lemma_pieces_nonempty(text@.take(i as int), sep);
            assert(text@.take(i as int + 1).drop_last() =~= text@.take(i as int));
            assert(text@.take(i as int + 1).last() == text@[i as int]);
        }
        if text[i] == sep {
            pieces.push(current);
            current = Vec::new();
            proof {
                assert(current@ =~= Seq::<char>::empty());
            }
        } else {
            current.push(text[i]);
        }
        i = i + 1;
    }
    assert(text@.take(i as int) =~= text@);
    proof {
        lemma_pieces_nonempty(text@, sep);
    }
    pieces.push(current);
    pieces
}

/// The pieces of `text` between commas.
pub fn split_commas(text: &Vec<char>) -> (r: Vec<Vec<char>>)
    ensures
        r@.len() == comma_pieces(text@).len(),
        forall|k: int| 0 <= k < r@.len() ==> (#[trigger] r@[k])@ == comma_pieces(text@)[k],
{
    split_on(text, ',')
}

proof fn lemma_digits_value_take_le(text: Seq<char>, k: int)
    requires
        0 <= k <= text.len(),
    ensures
        digits_value(text.take(k)) <= digits_value(text),
    decreases text.len(),
{
    if k < text.len() {
        assert(text.drop_last().take(k) =~= text.take(k));
        lemma_digits_value_take_le(text.drop_last(), k);
    } else {
        assert(text.take(k) =~= text);
    }
}

/// Reads an unsigned decimal of at most `max`, as `str::parse` would.
pub fn parse_decimal(text: &Vec<char>, max: u64) -> (r: Option<u64>)
    ensures
        match parse_unsigned(text@, max as nat) {
            Some(v) => r == Some(v as u64),
            None => r is None,
        },
{
    let n = text.len();
    let start: usize = if n > 0 && text[0] == '+' { 1 } else { 0 };
    let ghost body = if text@.len() > 0 && text@[0] == '+' { text@.drop_first() } else { text@ };
    assert(body =~= text@.subrange(start as int, n as int));
    if start == n {
        return None;
    }
    let mut value: u64 = 0;
    let mut i: usize = start;
    while i < n
        invariant
            start <= i <= n == text@.len(),
            start < n,
            body == text@.subrange(start as int, n as int),
            body == (if text@.len() > 0 && text@[0] == '+' { text@.drop_first() } else { text@ }),
            all_digits(text@.subrange(start as int, i as int)),
            value as nat == digits_value(text@.subrange(start as int, i as int)),
            value <= max,
        decreases n - i,
    {
        let c = text[i];
        let ghost prefix = text@.subrange(start as int, i as int + 1);
        assert(prefix.drop_last() =~= text@.subrange(start as int, i as int));
        assert(prefix =~= body.take(i - start + 1));
        if !('0' <= c && c <= '9') {
            assert(!is_ascii_digit(body[i - start]));
            return None;
        }
        let digit = (c as u32 - '0' as u32) as u64;
        assert(digits_value(prefix) == value * 10 + digit);
        if digit > max || value > (max - digit) / 10 {
            assert(value * 10 + digit > max) by (nonlinear_arith)
                requires
                    digit > max || value > (max - digit) / 10,
            ;
            proof {
                lemma_digits_value_take_le(body, i - start + 1);
            }
            return None;
        }
        assert(value * 10 + digit <= max) by (nonlinear_arith)
            requires
                digit <= max,
                value <= (max - digit) / 10,
        ;
        value = value * 10 + digit;
        i = i + 1;
        assert(all_digits(text@.subrange(start as int, i as int))) by {
            assert forall|k: int| 0 <= k < i - start implies is_ascii_digit(
                #[trigger] text@.subrange(start as int, i as int)[k],
            ) by {
                if k < i - 1 - start {
                    assert(text@.subrange(start as int, i as int)[k] == text@.subrange(
                        start as int,
                        i - 1,
                    )[k]);
                }
            }
        }
    }
    Some(value)
}

proof fn lemma_digit_values_agree(text: Seq<char>)
    requires
        all_digits(text),
    ensures
        digits_value(text) as int == crate::digits::digits_value(text, 10),
    decreases text.len(),
{
    if text.len() > 0 {
        assert(all_digits(text.drop_last())) by {
            assert forall|i: int| 0 <= i < text.drop_last().len() implies is_ascii_digit(
                #[trigger] text.drop_last()[i],
            ) by {
                assert(text.drop_last()[i] == text[i]);
            }
        }
        lemma_digit_values_agree(text.drop_last());
        assert(is_ascii_digit(text[text.len() - 1]));
    }
}

/// Reading back the decimal digits of any `n` up to `max` gives `n`, with or
/// without a leading `+`; a text holding anything but digits after an
/// optional `+` reads as nothing.
pub proof fn lemma_parse_unsigned_reads_decimal(n: nat, max: nat)
    ensures
        n <= max ==> parse_unsigned(crate::digits::decimal(n), max) == Some(n),
        n <= max ==> parse_unsigned(seq!['+'] + crate::digits::decimal(n), max) == Some(n),
        n > max ==> parse_unsigned(crate::digits::decimal(n), max) is None,
{
    let d = crate::digits::decimal(n);
    crate::digits::lemma_decimal_writes_n(n);
    assert(all_digits(d));
    lemma_digit_values_agree(d);
    assert(d[0] != '+');
    assert((seq!['+'] + d)[0] == '+');
    assert((seq!['+'] + d).drop_first() =~= d);
}

/// Only digits read as a number: a text whose body after an optional `+` is
/// empty or holds another character reads as nothing.
pub proof fn lemma_parse_unsigned_needs_digits(text: Seq<char>, max: nat)
    ensures
        ({
            let body = if text.len() > 0 && text[0] == '+' { text.drop_first() } else { text };
            (body.len() == 0 || exists|i: int| 0 <= i < body.len() && !is_ascii_digit(#[trigger] body[i]))
                ==> parse_unsigned(text, max) is None
        }),
{
}

} // verus!
