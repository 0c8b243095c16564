//! Base-10 text for `u32` values: parsing untrusted input and printing numbers.

use vstd::prelude::*;

verus! {

/// The value of an ASCII digit.
pub open spec fn digit_value(c: char) -> nat {
    (c as u32 - '0' as u32) as nat
}

pub open spec fn is_digit(c: char) -> bool {
    '0' <= c && c <= '9'
}

pub open spec fn all_digits(s: Seq<char>) -> bool {
    forall|i: int| 0 <= i < s.len() ==> is_digit(#[trigger] s[i])
}

/// The number that a string of digits denotes, most significant digit first.
pub open spec fn digits_value(s: Seq<char>) -> nat
    decreases s.len(),
{
    if s.len() == 0 {
        0
    } else {
        digits_value(s.drop_last()) * 10 + digit_value(s.last())
    }
}

/// The digits after an optional leading `+`.
pub open spec fn unsigned_body(s: Seq<char>) -> Seq<char> {
    if s.len() > 0 && s[0] == '+' {
        s.drop_first()
    } else {
        s
    }
}

/// What reading `s` as an unsigned 32-bit decimal gives: an optional `+`, then
/// one or more digits whose value fits in `u32`. Anything else (empty text, a
/// sign alone, a `-`, spaces, other characters, overflow) is rejected.
pub open spec fn parse_u32_spec(s: Seq<char>) -> Option<u32> {
    let body = unsigned_body(s);
    if body.len() > 0 && all_digits(body) && digits_value(body) <= u32::MAX {
        Some(digits_value(body) as u32)
    } else {
        None
    }
}

pub open spec fn digit_char(d: nat) -> char {
    (d + '0' as nat) as char
}

/// The shortest decimal text of `n`, without sign or leading zeros.
pub open spec fn decimal_of(n: nat) -> Seq<char>
    decreases n,
{
    if n < 10 {
        seq![digit_char(n)]
    } else {
        decimal_of(n / 10).push(digit_char(n % 10))
    }
}

/// A digits string keeps a value no larger than the whole when cut short.
proof fn lemma_prefix_value_le(s: Seq<char>, k: int)
    requires
        0 <= k <= s.len(),
    ensures
        digits_value(s.take(k)) <= digits_value(s),
    decreases s.len() - k,
{
    if k < s.len() {
        lemma_prefix_value_le(s, k + 1);
        assert(s.take(k + 1).drop_last() =~= s.take(k));
    } else {
        assert(s.take(k) =~= s);
    }
}

proof fn lemma_decimal_of_digits(n: nat)
    ensures
        decimal_of(n).len() > 0,
        all_digits(decimal_of(n)),
        digits_value(decimal_of(n)) == n,
        decimal_of(n)[0] != '+',
    decreases n,
{
    let s = decimal_of(n);
    let d = n % 10;
    assert(digit_value(digit_char(d)) == d && is_digit(digit_char(d)));
    if n >= 10 {
        lemma_decimal_of_digits(n / 10);
        assert(s.drop_last() =~= decimal_of(n / 10));
        assert((n / 10) * 10 + n % 10 == n) by (nonlinear_arith);
        assert(s.last() == digit_char(d));
        assert(digits_value(s) == digits_value(s.drop_last()) * 10 + digit_value(s.last()));
    } else {
        assert(s.drop_last() =~= Seq::<char>::empty());
        assert(digits_value(s) == digits_value(s.drop_last()) * 10 + digit_value(s.last()));
        assert(d == n);
    }
}

/// Printing a number and reading it back gives the number.
pub proof fn lemma_parse_decimal_round_trip(n: u32)
    ensures
        parse_u32_spec(decimal_of(n as nat)) == Some(n),
{
    lemma_decimal_of_digits(n as nat);
}

/// Reads `s` as an unsigned 32-bit decimal number.
pub fn parse_u32(s: &str) -> (r: Option<u32>)
    ensures
        r == parse_u32_spec(s@),
{
    let len = s.unicode_len();
    let mut i: usize = 0;
    if len > 0 && s.get_char(0) == '+' {
        i = 1;
    }
    let ghost body = unsigned_body(s@);
    assert(body =~= s@.subrange(i as int, len as int));
    if i == len {
        return None;
    }
    let start = i;
    let mut acc: u32 = 0;
    while i < len
        invariant
            start <= i <= len,
            len == s@.len(),
            body == unsigned_body(s@),
            body =~= s@.subrange(start as int, len as int),
            all_digits(body.take(i - start)),
            acc as nat == digits_value(body.take(i - start)),
        decreases len - i,
    {
        let c = s.get_char(i);
        let ghost k = (i - start) as int;
        if c < '0' || c > '9' {
            assert(!is_digit(body[k]));
            assert(!all_digits(body));
            return None;
        }
        let d: u32 = (c as u32) - ('0' as u32);
        assert(body.take(k + 1).drop_last() =~= body.take(k));
        assert(body.take(k + 1).last() == c);
        if acc > 429496729 || (acc == 429496729 && d > 5) {
            proof {
                assert(acc * 10 + d > u32::MAX) by (nonlinear_arith)
                    requires
                        acc > 429496729 || (acc == 429496729 && d > 5),
                ;
                lemma_prefix_value_le(body, k + 1);
            }
            return None;
        }
        acc = acc * 10 + d;
        i = i + 1;
        assert(all_digits(body.take(i - start))) by {
            assert forall|j: int| 0 <= j < i - start implies is_digit(#[trigger] body.take(i - start)[j]) by {
                if j < k {
                    assert(body.take(k)[j] == body.take(i - start)[j]);
                }
            }
        }
    }
    assert(body.take(len - start) =~= body);
    Some(acc)
}

/// The one-character text of a digit.
fn digit_text(d: u32) -> (r: &'static str)
    requires
        d < 10,
    ensures
        r@ == seq![digit_char(d as nat)],
{
    proof {
        reveal_strlit("0");
        reveal_strlit("1");
        reveal_strlit("2");
        reveal_strlit("3");
        reveal_strlit("4");
        reveal_strlit("5");
        reveal_strlit("6");
        reveal_strlit("7");
        reveal_strlit("8");
        reveal_strlit("9");
    }
    let r = match d {
        0 => "0",
        1 => "1",
        2 => "2",
        3 => "3",
        4 => "4",
        5 => "5",
        6 => "6",
        7 => "7",
        8 => "8",
        _ => "9",
    };
    assert(r@ =~= seq![digit_char(d as nat)]);
    r
}

/// The decimal text of `n`.
pub fn decimal_string(n: u32) -> (r: String)
    ensures
        r@ == decimal_of(n as nat),
    decreases n,
{
    if n < 10 {
        String::from_str(digit_text(n))
    } else {
        let mut r = decimal_string(n / 10);
        r.append(digit_text(n % 10));
        assert(r@ =~= decimal_of(n as nat));
        r
    }
}

} // verus!
