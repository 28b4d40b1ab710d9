//! Token amounts: decimal text with up to nine fractional digits, held as
//! nano units (`ONE` nano units make one token).
use vstd::prelude::*;
use crate::digits::{
    all_digits, decimal, digits_value, is_digit, lemma_decimal, lemma_decimal_len,
    lemma_digits_value_leading_zeros, lemma_digits_value_zeros, pow10, lemma_zeros_all_digits,
    pad_left_zeros, parse_u128_range, parse_unsigned, push_decimal, zeros,
};
use crate::text::{
    chars_of, is_whitespace, lemma_utf8_len_digits, string_from_chars, trim, trim_bounds,
    utf8_len, utf8_len_up_to,
};

verus! {

/// Nano units in one token.
pub const ONE: u128 = 1_000_000_000;

/// Why a token amount does not parse.
#[derive(Debug, Clone, Copy, PartialEq, Eq, Structural)]
pub enum TokenError {
    /// Nothing but whitespace.
    Empty,
    /// The whole or the fractional part is not an unsigned integer.
    InvalidAmount,
    /// The fractional part takes more than nine bytes.
    TooManyDecimals,
    /// The amount does not fit in 128 bits of nano units.
    TooLarge,
}

/// `i` is the position of the first `.` in `s`.
pub open spec fn is_first_dot(s: Seq<char>, i: int) -> bool {
    &&& 0 <= i < s.len()
    &&& s[i] == '.'
    &&& forall|j: int| 0 <= j < i ==> s[j] != '.'
}

/// `s` split at its first `.` (`str::split_once('.')`); without a `.`,
/// the whole text and an empty fractional part.
pub open spec fn split_first_dot(s: Seq<char>) -> (Seq<char>, Seq<char>) {
    if exists|i: int| is_first_dot(s, i) {
        let i = choose|i: int| is_first_dot(s, i);
        (s.take(i), s.skip(i + 1))
    } else {
        (s, Seq::empty())
    }
}

/// The amount that a text writes, in nano units, or why it writes none.
/// The text is trimmed; it is split at its first `.`; the whole part is
/// read as an unsigned integer; the fractional part, at most nine bytes,
/// is padded on the right with zeros to nine bytes and read the same way.
pub open spec fn spec_parse_tokens(s: Seq<char>) -> Result<u128, TokenError> {
    let v = trim(s);
    let whole = split_first_dot(v).0;
    let frac = split_first_dot(v).1;
    let w = parse_unsigned(whole);
    if v.len() == 0 {
        Err(TokenError::Empty)
    } else if w is None || w->0 > u128::MAX {
        Err(TokenError::InvalidAmount)
    } else if utf8_len(frac) > 9 {
        Err(TokenError::TooManyDecimals)
    } else {
        let f = parse_unsigned(frac + zeros((9 - utf8_len(frac)) as nat));
        if f is None || f->0 > u128::MAX {
            Err(TokenError::InvalidAmount)
        } else if w->0 * ONE + f->0 > u128::MAX {
            Err(TokenError::TooLarge)
        } else {
            Ok((w->0 * ONE + f->0) as u128)
        }
    }
}

/// `s` without its trailing `0` characters.
pub open spec fn trim_trailing_zeros(s: Seq<char>) -> Seq<char>
    decreases s.len(),
{
    if s.len() > 0 && s.last() == '0' {
        trim_trailing_zeros(s.drop_last())
    } else {
        s
    }
}

/// How an amount of nano units is written: the whole tokens, then, where
/// there is a fraction, a `.` and the nine fractional digits without their
/// trailing zeros.
pub open spec fn spec_format_tokens(v: nat) -> Seq<char> {
    let whole = v / (ONE as nat);
    let frac = v % (ONE as nat);
    if frac == 0 {
        decimal(whole)
    } else {
        decimal(whole) + seq!['.'] + trim_trailing_zeros(pad_left_zeros(decimal(frac), 9))
    }
}

proof fn lemma_first_dot_unique(s: Seq<char>, i: int, j: int)
    requires
        is_first_dot(s, i),
        is_first_dot(s, j),
    ensures
        i == j,
{
}

/// Reads a token amount (see `spec_parse_tokens`) as a number of nano units.
pub fn parse_tokens_to_nano(value: &str) -> (r: Result<u128, TokenError>)
    ensures
        r == spec_parse_tokens(value@),
{
    let chars = chars_of(value);
    let (lo, hi) = trim_bounds(&chars);
    let ghost v = chars@.subrange(lo as int, hi as int);
    if lo == hi {
        return Err(TokenError::Empty);
    }
    let mut d = lo;
    while d < hi && chars[d] != '.'
        invariant
            lo <= d <= hi <= chars.len(),
            forall|k: int| lo <= k < d ==> chars@[k] != '.',
        decreases hi - d,
    {
        d = d + 1;
    }
    let frac_start = if d < hi {
        d + 1
    } else {
        hi
    };
    proof {
        if d < hi {
            assert(is_first_dot(v, d - lo));
            assert forall|i: int| is_first_dot(v, i) implies i == d - lo by {
                lemma_first_dot_unique(v, i, d - lo);
            }
            assert(v.take(d - lo) =~= chars@.subrange(lo as int, d as int));
            assert(v.skip(d - lo + 1) =~= chars@.subrange(frac_start as int, hi as int));
        } else {
            assert(!exists|i: int| is_first_dot(v, i));
            assert(v =~= chars@.subrange(lo as int, d as int));
            assert(Seq::<char>::empty() =~= chars@.subrange(frac_start as int, hi as int));
        }
    }
    let whole = match parse_u128_range(&chars, lo, d) {
        None => {
            return Err(TokenError::InvalidAmount);
        },
        Some(w) => w,
    };
    let frac_bytes = match utf8_len_up_to(&chars, frac_start, hi, 9) {
        None => {
            return Err(TokenError::TooManyDecimals);
        },
        Some(n) => n,
    };
    let ghost frac = chars@.subrange(frac_start as int, hi as int);
    let mut padded: Vec<char> = Vec::new();
    let mut k = frac_start;
    while k < hi
        invariant
            frac_start <= k <= hi <= chars.len(),
            frac == chars@.subrange(frac_start as int, hi as int),
            padded@ == frac.take(k - frac_start),
        decreases hi - k,
    {
        padded.push(chars[k]);
        proof {
            assert(frac.take(k - frac_start + 1) =~= frac.take(k - frac_start).push(chars@[k as int]));
        }
        k = k + 1;
    }
    proof {
        assert(frac.take(k - frac_start) =~= frac);
    }
    let mut z: usize = 0;
    while z < 9 - frac_bytes
        invariant
            frac_bytes <= 9,
            z <= 9 - frac_bytes,
            padded@ == frac + zeros(z as nat),
        decreases 9 - frac_bytes - z,
    {
        padded.push('0');
        z = z + 1;
        proof {
            assert(padded@ =~= frac + zeros(z as nat));
        }
    }
    proof {
        assert(padded@.subrange(0, padded.len() as int) =~= padded@);
    }
    let f = match parse_u128_range(&padded, 0, padded.len()) {
        None => {
            return Err(TokenError::InvalidAmount);
        },
        Some(f) => f,
    };
    match whole.checked_mul(ONE) {
        None => Err(TokenError::TooLarge),
        Some(m) => match m.checked_add(f) {
            None => Err(TokenError::TooLarge),
            Some(total) => Ok(total),
        },
    }
}

pub proof fn lemma_trim_trailing_zeros(s: Seq<char>)
    ensures
        trim_trailing_zeros(s).len() <= s.len(),
        trim_trailing_zeros(s) == s.take(trim_trailing_zeros(s).len() as int),
        s == trim_trailing_zeros(s) + zeros((s.len() - trim_trailing_zeros(s).len()) as nat),
        trim_trailing_zeros(s).len() > 0 ==> trim_trailing_zeros(s).last() != '0',
    decreases s.len(),
{
    let t = trim_trailing_zeros(s);
    if s.len() > 0 && s.last() == '0' {
        let u = s.drop_last();
        lemma_trim_trailing_zeros(u);
        assert(t == trim_trailing_zeros(u));
        assert(t =~= s.take(t.len() as int));
        let n = (u.len() - t.len()) as nat;
        assert(u == t + zeros(n));
        assert(zeros(n + 1) =~= zeros(n).push('0'));
        assert(s =~= u.push('0'));
        assert(s =~= t + zeros((s.len() - t.len()) as nat));
    } else {
        assert(s =~= s.take(s.len() as int));
        assert(s =~= s + zeros(0));
    }
}

/// Writes an amount of nano units as token text (see `spec_format_tokens`).
pub fn format_tokens(value: u128) -> (s: String)
    ensures
        s@ == spec_format_tokens(value as nat),
{
    let whole = value / ONE;
    let frac = value % ONE;
    let mut out: Vec<char> = Vec::new();
    push_decimal(whole, &mut out);
    proof {
        assert(out@ =~= decimal(whole as nat));
    }
    if frac != 0 {
        out.push('.');
        let mut digits: Vec<char> = Vec::new();
        push_decimal(frac, &mut digits);
        proof {
            assert(digits@ =~= decimal(frac as nat));
            assert(pow10(9) == 1_000_000_000) by {
                reveal_with_fuel(pow10, 10);
            }
            lemma_decimal_len(frac as nat, 9);
        }
        let mut padded: Vec<char> = Vec::new();
        while padded.len() + digits.len() < 9
            invariant
                digits.len() <= 9,
                digits@ == decimal(frac as nat),
                padded.len() + digits.len() <= 9,
                padded@ == zeros(padded.len() as nat),
            decreases 9 - padded.len(),
        {
            padded.push('0');
            proof {
                assert(padded@ =~= zeros(padded.len() as nat));
            }
        }
        let ghost pz = padded@;
        let mut i: usize = 0;
        while i < digits.len()
            invariant
                i <= digits.len(),
                padded@ == pz + digits@.take(i as int),
                pz == zeros(pz.len() as nat),
                digits.len() <= 9,
                pz.len() + digits.len() == 9 || (pz.len() == 0 && digits.len() >= 9),
            decreases digits.len() - i,
        {
            padded.push(digits[i]);
            proof {
                assert(digits@.take(i + 1) =~= digits@.take(i as int).push(digits@[i as int]));
            }
            i = i + 1;
        }
        proof {
            assert(digits@.take(i as int) =~= digits@);
            assert(padded@ =~= pad_left_zeros(decimal(frac as nat), 9));
        }
        let ghost p = padded@;
        proof {
            assert(p.take(p.len() as int) =~= p);
        }
        let mut end = padded.len();
        while end > 0 && padded[end - 1] == '0'
            invariant
                end <= padded.len(),
                p == padded@,
                trim_trailing_zeros(p) == trim_trailing_zeros(p.take(end as int)),
            decreases end,
        {
            proof {
                assert(p.take(end as int).drop_last() =~= p.take(end - 1));
            }
            end = end - 1;
        }
        proof {
            if end > 0 {
                assert(p.take(end as int).last() == p[end - 1]);
            }
            assert(trim_trailing_zeros(p.take(end as int)) == p.take(end as int));
        }
        let ghost before = out@;
        let mut j: usize = 0;
        while j < end
            invariant
                j <= end <= padded.len(),
                p == padded@,
                out@ == before + p.take(j as int),
            decreases end - j,
        {
            out.push(padded[j]);
            proof {
                assert(p.take(j + 1) =~= p.take(j as int).push(p[j as int]));
            }
            j = j + 1;
        }
        proof {
            assert(out@ =~= decimal(whole as nat) + seq!['.'] + trim_trailing_zeros(p));
        }
    }
    string_from_chars(&out)
}

proof fn lemma_trim_identity(s: Seq<char>)
    requires
        s.len() > 0,
        !is_whitespace(s[0]),
        !is_whitespace(s.last()),
    ensures
        trim(s) == s,
{
}

proof fn lemma_digit_not_whitespace(c: char)
    requires
        is_digit(c),
    ensures
        !is_whitespace(c),
        c != '.',
        c != '+',
{
}

proof fn lemma_parse_digits(s: Seq<char>)
    requires
        s.len() > 0,
        all_digits(s),
    ensures
        parse_unsigned(s) == Some(digits_value(s)),
{
    assert(is_digit(s[0]));
}

/// Reading back the written form of an amount gives the amount again.
pub proof fn format_then_parse_roundtrip(v: u128)
    ensures
        spec_parse_tokens(spec_format_tokens(v as nat)) == Ok::<u128, TokenError>(v),
{
    let one = ONE as nat;
    let w = (v as nat) / one;
    let f = (v as nat) % one;
    let s = spec_format_tokens(v as nat);
    let dw = decimal(w);
    lemma_decimal(w);
    assert(w * one + f == v as nat) by (nonlinear_arith)
        requires
            w == (v as nat) / one,
            f == (v as nat) % one,
            one > 0,
    ;
    if f == 0 {
        assert(s == dw);
        lemma_digit_not_whitespace(dw[0]);
        lemma_digit_not_whitespace(dw.last());
        lemma_trim_identity(s);
        assert forall|i: int| !is_first_dot(s, i) by {
            if 0 <= i < s.len() {
                lemma_digit_not_whitespace(s[i]);
            }
        }
        assert(split_first_dot(s) == (s, Seq::<char>::empty()));
        lemma_parse_digits(dw);
        lemma_zeros_all_digits(9);
        lemma_digits_value_zeros(9);
        assert(Seq::<char>::empty() + zeros(9) =~= zeros(9));
        lemma_parse_digits(zeros(9));
    } else {
        let df = decimal(f);
        lemma_decimal(f);
        assert(pow10(9) == 1_000_000_000) by {
            reveal_with_fuel(pow10, 10);
        }
        lemma_decimal_len(f, 9);
        let p = pad_left_zeros(df, 9);
        assert(p.len() == 9);
        lemma_zeros_all_digits((9 - df.len()) as nat);
        assert(all_digits(p)) by {
            if df.len() < 9 {
                assert forall|i: int| 0 <= i < p.len() implies is_digit(#[trigger] p[i]) by {
                    if i < 9 - df.len() {
                        assert(p[i] == zeros((9 - df.len()) as nat)[i]);
                    } else {
                        assert(p[i] == df[i - (9 - df.len())]);
                    }
                }
            }
        }
        assert(digits_value(p) == f) by {
            if df.len() < 9 {
                lemma_digits_value_leading_zeros((9 - df.len()) as nat, df);
            }
        }
        let t = trim_trailing_zeros(p);
        lemma_trim_trailing_zeros(p);
        assert(t.len() > 0) by {
            if t.len() == 0 {
                assert(p =~= Seq::<char>::empty() + zeros(9));
                lemma_digits_value_zeros(9);
            }
        }
        assert(all_digits(t)) by {
            assert forall|i: int| 0 <= i < t.len() implies is_digit(#[trigger] t[i]) by {
                assert(t[i] == p[i]);
            }
        }
        assert(s == dw + seq!['.'] + t);
        assert(s[0] == dw[0]);
        assert(s.last() == t.last());
        lemma_digit_not_whitespace(dw[0]);
        lemma_digit_not_whitespace(t.last());
        lemma_trim_identity(s);
        let k = dw.len() as int;
        assert(is_first_dot(s, k)) by {
            assert forall|j: int| 0 <= j < k implies s[j] != '.' by {
                assert(s[j] == dw[j]);
                lemma_digit_not_whitespace(dw[j]);
            }
        }
        assert forall|i: int| is_first_dot(s, i) implies i == k by {
            lemma_first_dot_unique(s, i, k);
        }
        assert(s.take(k) =~= dw);
        assert(s.skip(k + 1) =~= t);
        assert(split_first_dot(s) == (dw, t));
        lemma_parse_digits(dw);
        lemma_utf8_len_digits(t);
        assert(t + zeros((9 - t.len()) as nat) =~= p);
        lemma_parse_digits(p);
    }
}

} // verus!
