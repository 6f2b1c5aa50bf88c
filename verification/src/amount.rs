//! Amounts in satoshis as decimal text: reading them and writing them.

use vstd::prelude::*;

verus! {

/// Whether `c` is one of the ten ASCII decimal digits.
pub open spec fn is_digit(c: char) -> bool {
    '0' <= c <= '9'
}

/// The number that the decimal digit `c` stands for.
pub open spec fn digit_value(c: char) -> nat
    recommends
        is_digit(c),
{
    (c as nat - '0' as nat) as nat
}

/// Whether every character of `s` is a decimal digit.
pub open spec fn all_digits(s: Seq<char>) -> bool {
    forall|i: int| 0 <= i < s.len() ==> is_digit(#[trigger] s[i])
}

/// The number that a sequence of decimal digits denotes, most significant
/// digit first. The empty sequence denotes zero.
pub open spec fn digits_value(s: Seq<char>) -> nat
    decreases s.len(),
{
    if s.len() == 0 {
        0
    } else {
        digits_value(s.drop_last()) * 10 + digit_value(s.last())
    }
}

/// `s` without a single leading plus sign, if it has one.
pub open spec fn unsigned_part(s: Seq<char>) -> Seq<char> {
    if s.len() > 0 && s[0] == '+' {
        s.drop_first()
    } else {
        s
    }
}

/// The amount that the text `s` denotes, if it denotes one.
///
/// An amount is written as an optional plus sign followed by one or more
/// decimal digits whose value fits in 64 bits. Everything else, including
/// the empty text, a lone sign, a minus sign, blanks and digits outside
/// ASCII, is not an amount.
pub open spec fn amount_of(s: Seq<char>) -> Option<u64> {
    let digits = unsigned_part(s);
    if digits.len() > 0 && all_digits(digits) && digits_value(digits) <= u64::MAX {
        Some(digits_value(digits) as u64)
    } else {
        None
    }
}

/// Appending one digit multiplies the value by ten and adds the digit.
proof fn lemma_value_push(s: Seq<char>, c: char)
    ensures
        digits_value(s.push(c)) == digits_value(s) * 10 + digit_value(c),
{
    assert(s.push(c).drop_last() =~= s);
}

/// The value of a digit sequence is at least the value of each of its
/// prefixes.
proof fn lemma_value_prefix(s: Seq<char>, k: int)
    requires
        0 <= k <= s.len(),
    ensures
        digits_value(s.take(k)) <= digits_value(s),
    decreases s.len() - k,
{
    if k == s.len() {
        assert(s.take(k) =~= s);
    } else {
        lemma_value_prefix(s, k + 1);
        assert(s.take(k + 1).drop_last() =~= s.take(k));
    }
}

/// Reads an amount from its decimal text.
pub fn parse_amount(s: &str) -> (r: Option<u64>)
    ensures
        r == amount_of(s@),
{
    if !s.is_ascii() {
        proof {
            let i = choose|i: int| 0 <= i < s@.len() && !('\0' <= #[trigger] s@[i] <= '\u{7f}');
            let digits = unsigned_part(s@);
            if digits.len() == s@.len() {
                assert(!is_digit(digits[i]));
            } else {
                assert(i > 0);
                assert(!is_digit(digits[i - 1]));
            }
        }
        return None;
    }
    let bytes = s.as_bytes();
    let n: usize = bytes.len();
    proof {
        vstd::string::is_ascii_spec_bytes(s);
    }
    assert(n == s@.len());
    assert(forall|j: int| 0 <= j < n ==> #[trigger] bytes@[j] == s@[j] as u8);
    assert(forall|j: int| 0 <= j < s@.len() ==> '\0' <= #[trigger] s@[j] <= '\u{7f}');
    let start: usize = if n > 0 && bytes[0] == 43u8 {
        1
    } else {
        0
    };
    let ghost digits = unsigned_part(s@);
    assert(start == 1 <==> (s@.len() > 0 && s@[0] == '+'));
    assert(digits =~= s@.subrange(start as int, n as int));
    if start == n {
        return None;
    }
    let mut acc: u64 = 0;
    let mut i: usize = start;
    while i < n
        invariant
            n == s@.len(),
            n == bytes@.len(),
            forall|j: int| 0 <= j < n ==> '\0' <= #[trigger] s@[j] <= '\u{7f}',
            forall|j: int| 0 <= j < n ==> #[trigger] bytes@[j] == s@[j] as u8,
            start <= i <= n,
            digits == unsigned_part(s@),
            digits == s@.subrange(start as int, n as int),
            all_digits(digits.take(i - start)),
            acc == digits_value(digits.take(i - start)),
        decreases n - i,
    {
        let b: u8 = bytes[i];
        assert(digits[i - start] == s@[i as int]);
        if b < 48u8 || b > 57u8 {
            assert(!is_digit(digits[i - start]));
            return None;
        }
        let d: u64 = (b - 48u8) as u64;
        proof {
            let next = digits.take(i - start + 1);
            assert(next.drop_last() =~= digits.take(i - start));
            assert(next.last() == s@[i as int]);
            assert(digit_value(s@[i as int]) == d);
            assert(digits_value(next) == acc * 10 + d);
            assert forall|j: int| 0 <= j < next.len() implies is_digit(#[trigger] next[j]) by {
                if j < next.len() - 1 {
                    assert(next[j] == digits.take(i - start)[j]);
                }
            }
            lemma_value_prefix(digits, i - start + 1);
        }
        if acc > (u64::MAX - d) / 10 {
            assert(digits_value(digits) > u64::MAX);
            return None;
        }
        acc = acc * 10 + d;
        i = i + 1;
    }
    assert(digits.take(n - start) =~= digits);
    Some(acc)
}

/// The character that writes the digit `d`.
pub open spec fn digit_char(d: nat) -> char
    recommends
        d < 10,
{
    ((d + 48) as u8) as char
}

/// The decimal text of `n`: its digits, most significant first, without
/// sign or leading zeros. Zero is written as a single `0`.
pub open spec fn decimal(n: nat) -> Seq<char>
    decreases n,
{
    if n < 10 {
        seq![digit_char(n)]
    } else {
        decimal(n / 10).push(digit_char(n % 10))
    }
}

/// The one-character text of a single digit.
fn digit_text(d: u64) -> (r: &'static str)
    requires
        d < 10,
    ensures
        r@ == seq![digit_char(d as nat)],
{
    proof {
        reveal_strlit("0");
        reveal_strlit("1");
        reveal_strlit("2");
        reveal_strlit("3");
        reveal_strlit("4");
        reveal_strlit("5");
        reveal_strlit("6");
        reveal_strlit("7");
        reveal_strlit("8");
        reveal_strlit("9");
    }
    let r = if d == 0 {
        "0"
    } else if d == 1 {
        "1"
    } else if d == 2 {
        "2"
    } else if d == 3 {
        "3"
    } else if d == 4 {
        "4"
    } else if d == 5 {
        "5"
    } else if d == 6 {
        "6"
    } else if d == 7 {
        "7"
    } else if d == 8 {
        "8"
    } else {
        "9"
    };
    assert(r@ =~= seq![digit_char(d as nat)]);
    r
}

/// Writes `n` as decimal text.
pub fn decimal_text(n: u64) -> (r: String)
    ensures
        r@ == decimal(n as nat),
    decreases n,
{
    if n < 10 {
        digit_text(n).to_owned()
    } else {
        let r = decimal_text(n / 10).concat(digit_text(n % 10));
        assert(r@ =~= decimal(n as nat));
        r
    }
}

/// Decimal text consists of digits only, is never empty and denotes the
/// number it was written from.
pub proof fn lemma_decimal_denotes(n: nat)
    ensures
        decimal(n).len() > 0,
        all_digits(decimal(n)),
        digits_value(decimal(n)) == n,
    decreases n,
{
    if n < 10 {
        assert(decimal(n).drop_last() =~= Seq::<char>::empty());
        assert(digits_value(decimal(n).drop_last()) == 0);
    } else {
        lemma_decimal_denotes(n / 10);
        lemma_value_push(decimal(n / 10), digit_char(n % 10));
    }
}

/// Reading what was written gives the number back: the decimal text of
/// every 64-bit amount denotes that amount.
pub proof fn lemma_written_amount_reads_back(n: u64)
    ensures
        amount_of(decimal(n as nat)) == Some(n),
{
    lemma_decimal_denotes(n as nat);
    assert(is_digit(decimal(n as nat)[0]));
}

} // verus!
