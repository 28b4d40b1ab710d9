//! Decimal digits: reading unsigned integers the way `str::parse` does,
//! and writing them the way `Display` does.
use vstd::prelude::*;

verus! {

pub open spec fn is_digit(c: char) -> bool {
    '0' <= c && c <= '9'
}

/// The value of a digit character (0 for any other character).
pub open spec fn digit_value(c: char) -> nat {
    if is_digit(c) {
        (c as int - '0' as int) as nat
    } else {
        0
    }
}

/// The character that writes the digit `d` (`d < 10`).
pub open spec fn digit_char(d: nat) -> char {
    if d == 0 {
        '0'
    } else if d == 1 {
        '1'
    } else if d == 2 {
        '2'
    } else if d == 3 {
        '3'
    } else if d == 4 {
        '4'
    } else if d == 5 {
        '5'
    } else if d == 6 {
        '6'
    } else if d == 7 {
        '7'
    } else if d == 8 {
        '8'
    } else {
        '9'
    }
}

pub open spec fn all_digits(s: Seq<char>) -> bool {
    forall|i: int| 0 <= i < s.len() ==> is_digit(#[trigger] s[i])
}

/// The number that a string of digits writes in base ten.
pub open spec fn digits_value(s: Seq<char>) -> nat
    decreases s.len(),
{
    if s.len() == 0 {
        0
    } else {
        digits_value(s.drop_last()) * 10 + digit_value(s.last())
    }
}

/// What `str::parse` gives for an unsigned integer type, before the range
/// check: an optional `+`, then one or more ASCII digits.
pub open spec fn parse_unsigned(s: Seq<char>) -> Option<nat> {
    let body = if s.len() > 0 && s[0] == '+' {
        s.drop_first()
    } else {
        s
    };
    if body.len() > 0 && all_digits(body) {
        Some(digits_value(body))
    } else {
        None
    }
}

/// The shortest base-ten writing of `n`, as `Display` prints it.
pub open spec fn decimal(n: nat) -> Seq<char>
    decreases n,
{
    if n < 10 {
        seq![digit_char(n)]
    } else {
        decimal(n / 10).push(digit_char(n % 10))
    }
}

/// `n` zero characters.
pub open spec fn zeros(n: nat) -> Seq<char> {
    Seq::new(n, |i: int| '0')
}

/// `s` padded on the left with zeros to at least `width` characters,
/// as the format `{:0width}` does for a number.
pub open spec fn pad_left_zeros(s: Seq<char>, width: nat) -> Seq<char> {
    if s.len() < width {
        zeros((width - s.len()) as nat) + s
    } else {
        s
    }
}

pub proof fn lemma_digit_char(d: nat)
    requires
        d < 10,
    ensures
        is_digit(digit_char(d)),
        digit_value(digit_char(d)) == d,
        digit_char(d) != '.',
        digit_char(d) != '+',
        digit_char(d) == '0' <==> d == 0,
{
}

pub proof fn lemma_digits_value_push(s: Seq<char>, c: char)
    ensures
        digits_value(s.push(c)) == digits_value(s) * 10 + digit_value(c),
{
    assert(s.push(c).drop_last() =~= s);
}

pub proof fn lemma_digits_value_prefix_mono(s: Seq<char>, i: int, j: int)
    requires
        0 <= i <= j <= s.len(),
    ensures
        digits_value(s.take(i)) <= digits_value(s.take(j)),
    decreases j - i,
{
    if i < j {
        lemma_digits_value_prefix_mono(s, i, j - 1);
        assert(s.take(j) =~= s.take(j - 1).push(s[j - 1]));
        lemma_digits_value_push(s.take(j - 1), s[j - 1]);
    }
}

/// Leading zeros do not change the value.
pub proof fn lemma_digits_value_leading_zeros(n: nat, s: Seq<char>)
    ensures
        digits_value(zeros(n) + s) == digits_value(s),
    decreases s.len(),
{
    if s.len() == 0 {
        lemma_digits_value_zeros(n);
        assert(zeros(n) + s =~= zeros(n));
    } else {
        let t = s.drop_last();
        lemma_digits_value_leading_zeros(n, t);
        assert(zeros(n) + s =~= (zeros(n) + t).push(s.last()));
        lemma_digits_value_push(zeros(n) + t, s.last());
    }
}

pub proof fn lemma_digits_value_zeros(n: nat)
    ensures
        digits_value(zeros(n)) == 0,
    decreases n,
{
    if n > 0 {
        lemma_digits_value_zeros((n - 1) as nat);
        assert(zeros(n) =~= zeros((n - 1) as nat).push('0'));
        lemma_digits_value_push(zeros((n - 1) as nat), '0');
    }
}

pub proof fn lemma_zeros_all_digits(n: nat)
    ensures
        all_digits(zeros(n)),
        zeros(n).len() == n,
{
}

/// The writing of `n` is all digits, starts with a digit that is not `+`,
/// and reads back as `n`.
pub proof fn lemma_decimal(n: nat)
    ensures
        decimal(n).len() >= 1,
        all_digits(decimal(n)),
        digits_value(decimal(n)) == n,
        decimal(n)[0] != '+',
        decimal(n).last() == digit_char(n % 10),
    decreases n,
{
    if n < 10 {
        lemma_digit_char(n);
        lemma_digits_value_push(Seq::<char>::empty(), digit_char(n));
        assert(Seq::<char>::empty().push(digit_char(n)) =~= seq![digit_char(n)]);
    } else {
        lemma_decimal(n / 10);
        lemma_digit_char(n % 10);
        lemma_digits_value_push(decimal(n / 10), digit_char(n % 10));
        assert((n / 10) * 10 + n % 10 == n);
    }
}

/// `10^k`.
pub open spec fn pow10(k: nat) -> nat
    decreases k,
{
    if k == 0 {
        1
    } else {
        10 * pow10((k - 1) as nat)
    }
}

/// A number below `10^k` is written with at most `k` digits.
pub proof fn lemma_decimal_len(n: nat, k: nat)
    requires
        k >= 1,
        n < pow10(k),
    ensures
        decimal(n).len() <= k,
    decreases k,
{
    if n >= 10 {
        if k == 1 {
            assert(pow10(1) == 10 * pow10(0));
        } else {
            assert(n / 10 < pow10((k - 1) as nat));
            lemma_decimal_len(n / 10, (k - 1) as nat);
        }
    }
}

/// The character that writes the digit `d`.
pub fn digit_to_char(d: u8) -> (c: char)
    requires
        d < 10,
    ensures
        c == digit_char(d as nat),
{
    if d == 0 {
        '0'
    } else if d == 1 {
        '1'
    } else if d == 2 {
        '2'
    } else if d == 3 {
        '3'
    } else if d == 4 {
        '4'
    } else if d == 5 {
        '5'
    } else if d == 6 {
        '6'
    } else if d == 7 {
        '7'
    } else if d == 8 {
        '8'
    } else {
        '9'
    }
}

pub fn is_ascii_digit(c: char) -> (b: bool)
    ensures
        b == is_digit(c),
{
    '0' <= c && c <= '9'
}

/// Reads `chars[start..end]` as `str::parse::<u128>` does: `Some` exactly
/// when the text is an optional `+` and one or more digits whose value fits.
pub fn parse_u128_range(chars: &Vec<char>, start: usize, end: usize) -> (r: Option<u128>)
    requires
        start <= end <= chars.len(),
    ensures
        ({
            let p = parse_unsigned(chars@.subrange(start as int, end as int));
            match r {
                Some(v) => p == Some(v as nat),
                None => p is None || p->0 > u128::MAX,
            }
        }),
{
    let ghost s = chars@.subrange(start as int, end as int);
    let mut i = start;
    if start < end && chars[start] == '+' {
        i = start + 1;
    }
    let ghost body = chars@.subrange(i as int, end as int);
    assert(body =~= (if s.len() > 0 && s[0] == '+' { s.drop_first() } else { s }));
    if i == end {
        return None;
    }
    let first = i;
    let mut acc: u128 = 0;
    while i < end
        invariant
            first <= i <= end <= chars.len(),
            body == chars@.subrange(first as int, end as int),
            s == chars@.subrange(start as int, end as int),
            body == (if s.len() > 0 && s[0] == '+' { s.drop_first() } else { s }),
            body.len() > 0,
            acc as nat == digits_value(body.take(i - first)),
            forall|k: int| 0 <= k < i - first ==> is_digit(#[trigger] body[k]),
        decreases end - i,
    {
        let c = chars[i];
        proof {
            assert(body[i - first] == c);
        }
        if !is_ascii_digit(c) {
            return None;
        }
        let d = (c as u32 - '0' as u32) as u128;
        proof {
            assert(body.take(i - first + 1) =~= body.take(i - first).push(c));
            lemma_digits_value_push(body.take(i - first), c);
        }
        if acc > (u128::MAX - d) / 10 {
            proof {
                assert(acc * 10 + d > u128::MAX) by (nonlinear_arith)
                    requires
                        acc > (u128::MAX - d) / 10,
                        d <= 9,
                ;
                assert(body.take(body.len() as int) =~= body);
                lemma_digits_value_prefix_mono(body, i - first + 1, body.len() as int);
            }
            return None;
        }
        acc = acc * 10 + d;
        i = i + 1;
    }
    proof {
        assert(body.take(body.len() as int) =~= body);
    }
    Some(acc)
}

/// Appends the decimal writing of `n` to `out`.
pub fn push_decimal(n: u128, out: &mut Vec<char>)
    ensures
        final(out)@ == old(out)@ + decimal(n as nat),
    decreases n,
{
    if n >= 10 {
        push_decimal(n / 10, out);
    }
    let d = (n % 10) as u8;
    out.push(digit_to_char(d));
    proof {
        assert(out@ =~= old(out)@ + decimal(n as nat));
    }
}

} // verus!
