//! Digits as text: decimal and base 16.
use vstd::prelude::*;
use vstd::string::StringExecFns;

verus! {

/// The character of a digit: `0` to `9`, then `a` to `f`.
pub open spec fn digit_char(d: nat) -> char {
    if d < 10 {
        (('0' as nat) + d) as char
    } else {
        (('a' as nat) + (d - 10)) as char
    }
}

/// The text of `n` in base 10, without leading zeros.
pub open spec fn decimal_text(n: nat) -> Seq<char>
    decreases n,
{
    if n < 10 {
        seq![digit_char(n)]
    } else {
        decimal_text(n / 10).push(digit_char(n % 10))
    }
}

/// The text of the last `len` digits of `n` in base 16.
pub open spec fn base16_text(n: nat, len: nat) -> Seq<char>
    decreases len,
{
    if len == 0 {
        seq![]
    } else {
        base16_text(n / 16, (len - 1) as nat).push(digit_char(n % 16))
    }
}

/// The text of a row of bytes in base 16, two digits each.
pub open spec fn bytes_text(bytes: Seq<u8>) -> Seq<char>
    decreases bytes.len(),
{
    if bytes.len() == 0 {
        seq![]
    } else {
        bytes_text(bytes.drop_last()) + base16_text(bytes.last() as nat, 2)
    }
}

/// The characters of some digits, the last digit first.
spec fn reversed_text(digits: Seq<u8>) -> Seq<char> {
    Seq::new(digits.len(), |i: int| digit_char(digits[digits.len() - 1 - i] as nat))
}

/// The text of one digit.
fn digit(d: u8) -> (text: &'static str)
    requires
        d < 16,
    ensures
        text@ == seq![digit_char(d as nat)],
{
    proof {
        reveal_strlit("0");
        reveal_strlit("1");
        reveal_strlit("2");
        reveal_strlit("3");
        reveal_strlit("4");
        reveal_strlit("5");
        reveal_strlit("6");
        reveal_strlit("7");
        reveal_strlit("8");
        reveal_strlit("9");
        reveal_strlit("a");
        reveal_strlit("b");
        reveal_strlit("c");
        reveal_strlit("d");
        reveal_strlit("e");
        reveal_strlit("f");
    }
    match d {
        0 => "0",
        1 => "1",
        2 => "2",
        3 => "3",
        4 => "4",
        5 => "5",
        6 => "6",
        7 => "7",
        8 => "8",
        9 => "9",
        10 => "a",
        11 => "b",
        12 => "c",
        13 => "d",
        14 => "e",
        _ => "f",
    }
}

/// Writes `n` in base 10.
pub fn decimal(n: u128) -> (text: String)
    ensures
        text@ == decimal_text(n as nat),
    decreases n,
{
    if n < 10 {
        let mut text = String::new();
        text.append(digit(n as u8));
        assert(text@ =~= decimal_text(n as nat));
        text
    } else {
        let mut text = decimal(n / 10);
        text.append(digit((n % 10) as u8));
        assert(text@ =~= decimal_text(n as nat));
        text
    }
}

/// Writes the last `len` digits of `n` in base 16, leading zeros kept.
#[verifier::loop_isolation(false)]
pub fn base16(n: u128, len: usize) -> (text: String)
    ensures
        text@ == base16_text(n as nat, len as nat),
        text@.len() == len,
        forall|i: int|
            0 <= i < len ==> #[trigger] text@[i] == "0123456789abcdef"@[(n as int
                / vstd::arithmetic::power::pow(16, (len - 1 - i) as nat)) % 16],
{
    // The digits, the last one first.
    let mut digits: Vec<u8> = Vec::new();
    let mut rest: u128 = n;
    assert(base16_text(n as nat, len as nat) =~= base16_text(rest as nat, len as nat)
        + reversed_text(digits@));
    while digits.len() < len
        invariant
            digits@.len() <= len,
            forall|i: int| 0 <= i < digits@.len() ==> #[trigger] digits@[i] < 16,
            base16_text(n as nat, len as nat) == base16_text(
                rest as nat,
                (len - digits@.len()) as nat,
            ) + reversed_text(digits@),
        decreases len - digits@.len(),
    {
        let ghost before = digits@;
        let ghost left = (len - digits@.len()) as nat;
        let d: u8 = (rest % 16) as u8;
        digits.push(d);
        assert(base16_text(rest as nat, left) + reversed_text(before) =~= base16_text(
            rest as nat / 16,
            (left - 1) as nat,
        ) + reversed_text(before.push(d)));
        rest = rest / 16;
    }
    assert(base16_text(n as nat, len as nat) =~= reversed_text(digits@));
    let mut text = String::new();
    let mut i: usize = len;
    assert(text@ =~= reversed_text(digits@).take(0));
    while i > 0
        invariant
            i <= len,
            text@ == reversed_text(digits@).take(len - i),
        decreases i,
    {
        i -= 1;
        text.append(digit(digits[i]));
        assert(text@ =~= reversed_text(digits@).take(len - i));
    }
    assert(text@ =~= reversed_text(digits@));
    proof {
        base16_text_holds_every_digit(n as nat, len as nat);
    }
    text
}

/// Writes a row of bytes in base 16, two digits each.
pub fn bytes_base16(bytes: &[u8]) -> (text: String)
    ensures
        text@ == bytes_text(bytes@),
        text@.len() == 2 * bytes@.len(),
        forall|i: int|
            #![trigger bytes@[i]]
            0 <= i < bytes@.len() ==> {
                &&& text@[2 * i] == "0123456789abcdef"@[bytes@[i] as int / 16]
                &&& text@[2 * i + 1] == "0123456789abcdef"@[bytes@[i] as int % 16]
            },
{
    let mut text = String::new();
    assert(text@ =~= bytes_text(bytes@.take(0)));
    for i in 0..bytes.len()
        invariant
            text@ == bytes_text(bytes@.take(i as int)),
    {
        let pair = base16(bytes[i] as u128, 2);
        text.append(pair.as_str());
        assert(bytes@.take(i + 1).drop_last() =~= bytes@.take(i as int));
    }
    assert(bytes@.take(bytes@.len() as int) =~= bytes@);
    proof {
        bytes_text_holds_every_byte(bytes@);
    }
    text
}

/// The characters of the digits, each at the place of its value.
pub proof fn digits_have_their_characters(d: nat)
    requires
        d < 16,
    ensures
        digit_char(d) == "0123456789abcdef"@[d as int],
{
    reveal_strlit("0123456789abcdef");
    assert(d == 0 || d == 1 || d == 2 || d == 3 || d == 4 || d == 5 || d == 6 || d == 7 || d == 8
        || d == 9 || d == 10 || d == 11 || d == 12 || d == 13 || d == 14 || d == 15);
}

/// A number in base 10 has each of its digits at the place of its weight, and none more: it
/// begins with zero only where it is a single digit.
pub proof fn decimal_text_holds_every_digit(n: nat)
    ensures
        decimal_text(n).len() >= 1,
        n < vstd::arithmetic::power::pow(10, decimal_text(n).len()),
        decimal_text(n).len() > 1 ==> n >= vstd::arithmetic::power::pow(
            10,
            (decimal_text(n).len() - 1) as nat,
        ),
        forall|i: int|
            0 <= i < decimal_text(n).len() ==> #[trigger] decimal_text(n)[i]
                == "0123456789abcdef"@[(n as int / vstd::arithmetic::power::pow(
                10,
                (decimal_text(n).len() - 1 - i) as nat,
            )) % 10],
    decreases n,
{
    let text = decimal_text(n);
    digits_have_their_characters(n % 10);
    vstd::arithmetic::power::lemma_pow0(10);
    vstd::arithmetic::power::lemma_pow1(10);
    if n >= 10 {
        let rest = decimal_text(n / 10);
        let count = rest.len();
        decimal_text_holds_every_digit(n / 10);
        vstd::arithmetic::power::lemma_pow_adds(10, 1, count);
        vstd::arithmetic::power::lemma_pow_adds(10, 1, (count - 1) as nat);
        assert forall|i: int| 0 <= i < text.len() implies #[trigger] text[i]
            == "0123456789abcdef"@[(n as int / vstd::arithmetic::power::pow(
            10,
            (text.len() - 1 - i) as nat,
        )) % 10] by {
            if i < count {
                let e = (count - 1 - i) as nat;
                assert(text[i] == rest[i]);
                vstd::arithmetic::power::lemma_pow_positive(10, e);
                vstd::arithmetic::power::lemma_pow_adds(10, 1, e);
                vstd::arithmetic::div_mod::lemma_div_denominator(
                    n as int,
                    10,
                    vstd::arithmetic::power::pow(10, e),
                );
            }
        }
    }
}

/// A number in base 16 has as many digits as were asked for, each at the place of its weight.
pub proof fn base16_text_holds_every_digit(n: nat, len: nat)
    ensures
        base16_text(n, len).len() == len,
        forall|i: int|
            0 <= i < len ==> #[trigger] base16_text(n, len)[i] == "0123456789abcdef"@[(n as int
                / vstd::arithmetic::power::pow(16, (len - 1 - i) as nat)) % 16],
    decreases len,
{
    if len > 0 {
        let text = base16_text(n, len);
        let count = (len - 1) as nat;
        let rest = base16_text(n / 16, count);
        base16_text_holds_every_digit(n / 16, count);
        digits_have_their_characters(n % 16);
        vstd::arithmetic::power::lemma_pow0(16);
        vstd::arithmetic::power::lemma_pow1(16);
        assert forall|i: int| 0 <= i < len implies #[trigger] text[i] == "0123456789abcdef"@[(
        n as int / vstd::arithmetic::power::pow(16, (len - 1 - i) as nat)) % 16] by {
            if i < count {
                let e = (count - 1 - i) as nat;
                assert(text[i] == rest[i]);
                vstd::arithmetic::power::lemma_pow_positive(16, e);
                vstd::arithmetic::power::lemma_pow_adds(16, 1, e);
                vstd::arithmetic::div_mod::lemma_div_denominator(
                    n as int,
                    16,
                    vstd::arithmetic::power::pow(16, e),
                );
            }
        }
    }
}

/// A row of bytes has two characters for each byte, in order: the digit of its upper half, then
/// that of its lower half.
pub proof fn bytes_text_holds_every_byte(bytes: Seq<u8>)
    ensures
        bytes_text(bytes).len() == 2 * bytes.len(),
        forall|i: int|
            #![trigger bytes[i]]
            0 <= i < bytes.len() ==> {
                &&& bytes_text(bytes)[2 * i] == "0123456789abcdef"@[bytes[i] as int / 16]
                &&& bytes_text(bytes)[2 * i + 1] == "0123456789abcdef"@[bytes[i] as int % 16]
            },
    decreases bytes.len(),
{
    if bytes.len() > 0 {
        let rest = bytes.drop_last();
        let pair = base16_text(bytes.last() as nat, 2);
        bytes_text_holds_every_byte(rest);
        base16_text_holds_every_digit(bytes.last() as nat, 2);
        vstd::arithmetic::power::lemma_pow0(16);
        vstd::arithmetic::power::lemma_pow1(16);
        assert(pair[0] == "0123456789abcdef"@[bytes.last() as int / 16]);
        assert(pair[1] == "0123456789abcdef"@[bytes.last() as int % 16]);
        assert forall|i: int|
            #![trigger bytes[i]]
            0 <= i < bytes.len() implies bytes_text(bytes)[2 * i]
            == "0123456789abcdef"@[bytes[i] as int / 16] && bytes_text(bytes)[2 * i + 1]
            == "0123456789abcdef"@[bytes[i] as int % 16] by {
            if i < rest.len() {
                assert(rest[i] == bytes[i]);
            }
        }
    }
}

/// Rows of bytes with the same text are the same.
pub proof fn bytes_text_identifies(a: Seq<u8>, b: Seq<u8>)
    requires
        bytes_text(a) == bytes_text(b),
    ensures
        a == b,
{
    bytes_text_holds_every_byte(a);
    bytes_text_holds_every_byte(b);
    assert forall|i: int| 0 <= i < a.len() implies a[i] == b[i] by {
        let (m, n) = (a[i] as nat, b[i] as nat);
        digits_have_their_characters(m / 16);
        digits_have_their_characters(m % 16);
        digits_have_their_characters(n / 16);
        digits_have_their_characters(n % 16);
        lemma_digit_char_distinct(m / 16, n / 16);
        lemma_digit_char_distinct(m % 16, n % 16);
    }
    assert(a =~= b);
}

/// Different digits have different characters.
proof fn lemma_digit_char_distinct(a: nat, b: nat)
    requires
        a < 16,
        b < 16,
        digit_char(a) == digit_char(b),
    ensures
        a == b,
{
}

/// Base 16 text has the length asked for, and numbers that fit in that many digits are told
/// apart by it.
pub proof fn base16_text_identifies(m: nat, n: nat, len: nat)
    requires
        m < vstd::arithmetic::power::pow(16, len),
        n < vstd::arithmetic::power::pow(16, len),
    ensures
        base16_text(m, len).len() == len,
        base16_text(m, len) == base16_text(n, len) ==> m == n,
    decreases len,
{
    if len == 0 {
        vstd::arithmetic::power::lemma_pow0(16);
    } else {
        let rest = (len - 1) as nat;
        vstd::arithmetic::power::lemma_pow_adds(16, 1, rest);
        vstd::arithmetic::power::lemma_pow1(16);
        assert(m / 16 < vstd::arithmetic::power::pow(16, rest));
        assert(n / 16 < vstd::arithmetic::power::pow(16, rest));
        base16_text_identifies(m / 16, n / 16, rest);
        if base16_text(m, len) == base16_text(n, len) {
            let a = base16_text(m / 16, rest);
            let b = base16_text(n / 16, rest);
            assert(a =~= base16_text(m, len).drop_last());
            base16_text_identifies(n / 16, m / 16, rest);
            assert(b =~= base16_text(n, len).drop_last());
            assert(base16_text(m, len).last() == digit_char(m % 16));
            assert(base16_text(n, len).last() == digit_char(n % 16));
            lemma_digit_char_distinct(m % 16, n % 16);
        }
    }
}

} // verus!
