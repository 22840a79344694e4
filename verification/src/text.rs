//! Small verified helpers on strings: equality, copying, and decimal
//! numerals.

use vstd::prelude::*;
use vstd::string::*;
use vstd::utf8::*;

verus! {

/// Two character sequences with the same UTF-8 encoding are the same sequence.
pub proof fn lemma_encoding_is_injective(a: Seq<char>, b: Seq<char>)
    requires
        encode_utf8(a) == encode_utf8(b),
    ensures
        a == b,
{
    encode_utf8_decode_utf8(a);
    encode_utf8_decode_utf8(b);
}

/// Whether `a` and `b` hold the same characters.
pub fn str_eq(a: &str, b: &str) -> (same: bool)
    ensures
        same == (a@ == b@),
{
    let x = a.as_bytes();
    let y = b.as_bytes();
    if x.len() != y.len() {
        return false;
    }
    let mut i: usize = 0;
    while i < x.len()
        invariant
            i <= x.len(),
            x.len() == y.len(),
            x@ == a.spec_bytes(),
            y@ == b.spec_bytes(),
            forall|j: int| 0 <= j < i ==> x@[j] == y@[j],
        decreases x.len() - i,
    {
        if x[i] != y[i] {
            return false;
        }
        i += 1;
    }
    proof {
        assert(x@ =~= y@);
        lemma_encoding_is_injective(a@, b@);
    }
    true
}

/// A fresh `String` with the characters of `s`.
pub fn copy_string(s: &String) -> (copy: String)
    ensures
        copy@ == s@,
{
    s.clone()
}

/// The texts of a list of strings.
pub open spec fn texts(strings: Seq<String>) -> Seq<Seq<char>> {
    Seq::new(strings.len(), |i: int| strings[i]@)
}

/// A fresh list with the same texts as `strings`.
pub fn copy_strings(strings: &Vec<String>) -> (copy: Vec<String>)
    ensures
        texts(copy@) == texts(strings@),
{
    let mut copy: Vec<String> = Vec::new();
    let mut i: usize = 0;
    while i < strings.len()
        invariant
            i <= strings.len(),
            copy@.len() == i,
            forall|j: int| 0 <= j < i ==> copy@[j]@ == strings@[j]@,
        decreases strings.len() - i,
    {
        copy.push(copy_string(&strings[i]));
        i += 1;
    }
    assert(texts(copy@) =~= texts(strings@));
    copy
}

/// The byte of the digit zero.
pub const ASCII_ZERO: u8 = 48;

/// The byte of the digit nine.
pub const ASCII_NINE: u8 = 57;

/// Whether `c` is one of the ten ASCII digits.
pub open spec fn is_digit(c: char) -> bool {
    '0' <= c <= '9'
}

/// What the digit `c` counts.
pub open spec fn digit_value(c: char) -> nat
    recommends
        is_digit(c),
{
    (c as u32 - '0' as u32) as nat
}

/// Whether every character of `s` is an ASCII digit.
pub open spec fn all_digits(s: Seq<char>) -> bool {
    forall|i: int| 0 <= i < s.len() ==> is_digit(#[trigger] s[i])
}

/// The number that the digits of `s` write in base ten; 0 for no digits.
pub open spec fn decimal_value(s: Seq<char>) -> nat
    recommends
        all_digits(s),
    decreases s.len(),
{
    if s.len() == 0 {
        0
    } else {
        decimal_value(s.drop_last()) * 10 + digit_value(s.last())
    }
}

/// Whether `s` is a numeral: at least one character, all of them digits.
pub open spec fn is_numeral(s: Seq<char>) -> bool {
    s.len() > 0 && all_digits(s)
}

/// The beginning of a numeral writes no larger a number than the whole.
pub proof fn lemma_prefix_value_bounded(s: Seq<char>, k: int)
    requires
        all_digits(s),
        0 <= k <= s.len(),
    ensures
        decimal_value(s.take(k)) <= decimal_value(s),
    decreases s.len() - k,
{
    if k == s.len() {
        assert(s.take(k) =~= s);
    } else {
        lemma_prefix_value_bounded(s, k + 1);
        assert(s.take(k + 1).drop_last() =~= s.take(k));
    }
}

/// Reads a numeral. The result is the number that `s` writes, if `s` is a
/// numeral and the number fits in 64 bits, and `None` otherwise.
pub fn decimal_of(s: &str) -> (number: Option<u64>)
    ensures
        number matches Some(n) ==> is_numeral(s@) && decimal_value(s@) == n,
        number is None ==> !(is_numeral(s@) && decimal_value(s@) <= u64::MAX),
{
    broadcast use is_ascii_spec_bytes;

    if !s.is_ascii() {
        return None;
    }
    let len = s.as_bytes().len();
    proof {
        is_ascii_spec_bytes(s);
        assert(s.spec_bytes().len() == s@.len());
    }
    if len == 0 {
        return None;
    }
    let mut value: u64 = 0;
    let mut i: usize = 0;
    while i < len
        invariant
            i <= len,
            len == s@.len(),
            is_ascii(s),
            all_digits(s@.take(i as int)),
            value == decimal_value(s@.take(i as int)),
        decreases len - i,
    {
        let b = s.get_ascii(i);
        if b < ASCII_ZERO || b > ASCII_NINE {
            assert(!is_digit(s@[i as int]));
            return None;
        }
        let digit: u64 = (b - ASCII_ZERO) as u64;
        proof {
            assert(s@.take(i + 1).drop_last() =~= s@.take(i as int));
            assert(s@.take(i + 1).last() == s@[i as int]);
            assert(is_digit(s@[i as int]));
            assert(digit_value(s@[i as int]) == digit);
            assert(all_digits(s@.take(i + 1))) by {
                assert forall|j: int| 0 <= j < i + 1 implies is_digit(
                    #[trigger] s@.take(i + 1)[j],
                ) by {
                    if j < i {
                        assert(s@.take(i as int)[j] == s@[j]);
                    }
                }
            }
        }
        let next = match value.checked_mul(10) {
            Some(tens) => tens.checked_add(digit),
            None => None,
        };
        match next {
            Some(n) => {
                value = n;
            },
            None => {
                proof {
                    if all_digits(s@) {
                        lemma_prefix_value_bounded(s@, i + 1);
                    }
                }
                return None;
            },
        }
        i += 1;
    }
    proof {
        assert(s@.take(len as int) =~= s@);
    }
    Some(value)
}

/// The digit that counts `d`.
pub open spec fn digit_char(d: nat) -> char
    recommends
        d < 10,
{
    if d == 0 {
        '0'
    } else if d == 1 {
        '1'
    } else if d == 2 {
        '2'
    } else if d == 3 {
        '3'
    } else if d == 4 {
        '4'
    } else if d == 5 {
        '5'
    } else if d == 6 {
        '6'
    } else if d == 7 {
        '7'
    } else if d == 8 {
        '8'
    } else {
        '9'
    }
}

/// The numeral of `n` in base ten, without leading zeros.
pub open spec fn decimal_text(n: nat) -> Seq<char>
    decreases n,
{
    if n < 10 {
        seq![digit_char(n)]
    } else {
        decimal_text(n / 10).push(digit_char(n % 10))
    }
}

/// Whether `s` is the numeral of some number as `decimal_text` writes it:
/// a numeral that starts with a zero only if it is the single digit zero.
pub open spec fn is_plain_numeral(s: Seq<char>) -> bool {
    is_numeral(s) && (s.len() == 1 || s[0] != '0')
}

/// A digit character counts what it was made from.
pub proof fn lemma_digit_char(d: nat)
    requires
        d < 10,
    ensures
        is_digit(digit_char(d)),
        digit_value(digit_char(d)) == d,
{
}

/// A digit is the character of what it counts.
pub proof fn lemma_digit_value(c: char)
    requires
        is_digit(c),
    ensures
        digit_value(c) < 10,
        digit_char(digit_value(c)) == c,
{
    let v = digit_value(c);
    assert(c as u32 == 48 + v);
    assert(digit_char(v) as u32 == 48 + v);
}

/// The numeral of a number is plain, and it writes that number. The
/// numeral of a positive number does not start with a zero.
pub proof fn lemma_decimal_text_value(n: nat)
    ensures
        is_plain_numeral(decimal_text(n)),
        decimal_value(decimal_text(n)) == n,
        n > 0 ==> decimal_text(n)[0] != '0',
    decreases n,
{
    if n < 10 {
        lemma_digit_char(n);
        let s = decimal_text(n);
        assert(s.drop_last() =~= Seq::<char>::empty());
        assert(decimal_value(s.drop_last()) == 0);
    } else {
        lemma_decimal_text_value(n / 10);
        lemma_digit_char(n % 10);
        let t = decimal_text(n / 10);
        let s = decimal_text(n);
        assert(s.drop_last() =~= t);
        assert(s[0] == t[0]);
        assert forall|i: int| 0 <= i < s.len() implies is_digit(#[trigger] s[i]) by {
            if i < t.len() {
                assert(s[i] == t[i]);
            }
        }
    }
}

/// A numeral that does not start with a zero writes a positive number.
pub proof fn lemma_leading_digit(s: Seq<char>)
    requires
        is_numeral(s),
        s[0] != '0',
    ensures
        decimal_value(s) > 0,
    decreases s.len(),
{
    if s.len() == 1 {
        assert(s.last() == s[0]);
        assert(is_digit(s[0]));
        assert(decimal_value(s.drop_last()) == 0);
    } else {
        let t = s.drop_last();
        assert(t[0] == s[0]);
        assert forall|i: int| 0 <= i < t.len() implies is_digit(#[trigger] t[i]) by {
            assert(t[i] == s[i]);
        }
        lemma_leading_digit(t);
    }
}

/// A plain numeral is the numeral of the number it writes.
pub proof fn lemma_plain_numeral_text(s: Seq<char>)
    requires
        is_plain_numeral(s),
    ensures
        decimal_text(decimal_value(s)) == s,
    decreases s.len(),
{
    let last = s.last();
    assert(is_digit(last));
    lemma_digit_value(last);
    let t = s.drop_last();
    if s.len() == 1 {
        assert(decimal_value(t) == 0);
        assert(decimal_text(decimal_value(s)) =~= s);
    } else {
        assert(t[0] == s[0]);
        assert forall|i: int| 0 <= i < t.len() implies is_digit(#[trigger] t[i]) by {
            assert(t[i] == s[i]);
        }
        lemma_leading_digit(t);
        lemma_plain_numeral_text(t);
        let v = decimal_value(s);
        assert(v == decimal_value(t) * 10 + digit_value(last));
        assert(v / 10 == decimal_value(t));
        assert(v % 10 == digit_value(last));
        assert(decimal_text(v) =~= s);
    }
}

/// Two numbers with the same numeral are the same number.
pub proof fn lemma_decimal_text_injective(a: nat, b: nat)
    requires
        decimal_text(a) == decimal_text(b),
    ensures
        a == b,
{
    lemma_decimal_text_value(a);
    lemma_decimal_text_value(b);
}

/// The one-character string of a digit.
fn digit_str(d: u64) -> (text: &'static str)
    requires
        d < 10,
    ensures
        text@ == seq![digit_char(d as nat)],
{
    proof {
        reveal_strlit("0");
        reveal_strlit("1");
        reveal_strlit("2");
        reveal_strlit("3");
        reveal_strlit("4");
        reveal_strlit("5");
        reveal_strlit("6");
        reveal_strlit("7");
        reveal_strlit("8");
        reveal_strlit("9");
    }
    let text = if d == 0 {
        "0"
    } else if d == 1 {
        "1"
    } else if d == 2 {
        "2"
    } else if d == 3 {
        "3"
    } else if d == 4 {
        "4"
    } else if d == 5 {
        "5"
    } else if d == 6 {
        "6"
    } else if d == 7 {
        "7"
    } else if d == 8 {
        "8"
    } else {
        "9"
    };
    assert(text@ =~= seq![digit_char(d as nat)]);
    text
}

/// Appends the numeral of `n` to `out`.
fn write_decimal(n: u64, out: &mut String)
    ensures
        final(out)@ == old(out)@ + decimal_text(n as nat),
    decreases n,
{
    if n >= 10 {
        write_decimal(n / 10, out);
    }
    out.append(digit_str(n % 10));
    proof {
        if n >= 10 {
            assert(decimal_text(n as nat) =~= decimal_text((n / 10) as nat) + seq![
                digit_char((n % 10) as nat),
            ]);
            assert(out@ =~= old(out)@ + decimal_text(n as nat));
        }
    }
}

/// The numeral of `n`.
pub fn decimal_string(n: u64) -> (text: String)
    ensures
        text@ == decimal_text(n as nat),
{
    let mut text = String::new();
    write_decimal(n, &mut text);
    assert(text@ =~= decimal_text(n as nat));
    text
}

/// Reads a plain numeral: the number that `s` writes, if `s` is the numeral
/// of a number that fits in 64 bits, and `None` for any other text.
pub fn plain_decimal_of(s: &str) -> (number: Option<u64>)
    ensures
        match number {
            Some(n) => s@ == decimal_text(n as nat),
            None => forall|n: nat| n <= u64::MAX ==> s@ != #[trigger] decimal_text(n),
        },
{
    match decimal_of(s) {
        Some(n) => {
            proof {
                is_ascii_spec_bytes(s);
            }
            let plain = s.as_bytes().len() == 1 || s.as_bytes()[0] != ASCII_ZERO;
            if plain {
                proof {
                    lemma_plain_numeral_text(s@);
                }
                Some(n)
            } else {
                assert forall|m: nat| m <= u64::MAX implies s@ != #[trigger] decimal_text(m) by {
                    lemma_decimal_text_value(m);
                }
                None
            }
        },
        None => {
            assert forall|m: nat| m <= u64::MAX implies s@ != #[trigger] decimal_text(m) by {
                lemma_decimal_text_value(m);
            }
            None
        },
    }
}

} // verus!
