//! Decimal numbers as text.
use vstd::prelude::*;
use vstd::string::*;

verus! {

/// Whether `c` is one of the ten ASCII digits.
pub open spec fn is_digit(c: char) -> bool {
    '0' <= c <= '9'
}

/// The number that an ASCII digit stands for.
pub open spec fn digit_value(c: char) -> nat {
    (c as int - '0' as int) as nat
}

/// Whether every character of `s` is an ASCII digit.
pub open spec fn all_digits(s: Seq<char>) -> bool {
    forall|i: int| 0 <= i < s.len() ==> is_digit(#[trigger] s[i])
}

/// The number that a sequence of digits stands for, most significant digit
/// first.
pub open spec fn digits_value(s: Seq<char>) -> nat
    decreases s.len(),
{
    if s.len() == 0 {
        0
    } else {
        digits_value(s.drop_last()) * 10 + digit_value(s.last())
    }
}

/// `s` without one leading plus sign.
pub open spec fn unsigned_part(s: Seq<char>) -> Seq<char> {
    if s.len() > 0 && s[0] == '+' {
        s.skip(1)
    } else {
        s
    }
}

/// The number that `s` writes in base ten: an optional plus sign and then one
/// or more digits, with nothing before, between or after them.
pub open spec fn decimal_value(s: Seq<char>) -> Option<nat> {
    let digits = unsigned_part(s);
    if digits.len() > 0 && all_digits(digits) {
        Some(digits_value(digits))
    } else {
        None
    }
}

/// The `u64` that `s` writes, if it writes a number that fits.
pub open spec fn parsed_u64(s: Seq<char>) -> Option<u64> {
    match decimal_value(s) {
        Some(n) => if n <= u64::MAX {
            Some(n as u64)
        } else {
            None
        },
        None => None,
    }
}

/// The `usize` that `s` writes, if it writes a number that fits.
pub open spec fn parsed_usize(s: Seq<char>) -> Option<usize> {
    match decimal_value(s) {
        Some(n) => if n <= usize::MAX {
            Some(n as usize)
        } else {
            None
        },
        None => None,
    }
}

/// The ASCII digit for a number below ten.
pub open spec fn digit_char(n: nat) -> char {
    ('0' as int + n) as char
}

/// The shortest decimal text of `n`.
pub open spec fn decimal_text(n: nat) -> Seq<char>
    decreases n,
{
    if n < 10 {
        seq![digit_char(n)]
    } else {
        decimal_text(n / 10).push(digit_char(n % 10))
    }
}

/// The value of a prefix of digits is at most the value of all of them.
proof fn lemma_prefix_value(s: Seq<char>, k: int)
    requires
        0 <= k <= s.len(),
    ensures
        digits_value(s.take(k)) <= digits_value(s),
    decreases s.len() - k,
{
    if k < s.len() {
        lemma_prefix_value(s, k + 1);
        assert(s.take(k + 1).drop_last() =~= s.take(k));
    } else {
        assert(s.take(k) =~= s);
    }
}

/// A text with a character outside ASCII writes no number.
proof fn lemma_non_ascii_is_no_number(s: Seq<char>)
    requires
        !vstd::utf8::is_ascii_chars(s),
    ensures
        decimal_value(s) is None,
{
    let i = choose|i: int| 0 <= i < s.len() && !('\0' <= #[trigger] s[i] <= '\u{7f}');
    assert(!is_digit(s[i]));
    if s[0] == '+' {
        assert(unsigned_part(s)[i - 1] == s[i]);
    } else {
        assert(unsigned_part(s)[i] == s[i]);
    }
}

/// Reads a decimal number that has to fit in a `u64`.
///
/// The outcome is that of the standard library's `value.parse::<u64>().ok()`.
pub fn parse_u64(value: &str) -> (parsed: Option<u64>)
    ensures
        parsed == parsed_u64(value@),
{
    if !value.is_ascii() {
        proof {
            lemma_non_ascii_is_no_number(value@);
        }
        return None;
    }
    let bytes = value.as_bytes();
    let ghost text = value@;
    proof {
        vstd::utf8::is_ascii_chars_encode_utf8(text);
    }
    let start: usize = if bytes.len() > 0 && bytes[0] == 43 {
        1
    } else {
        0
    };
    let ghost digits = unsigned_part(text);
    assert(digits =~= text.skip(start as int));
    if start == bytes.len() {
        return None;
    }
    let mut at: usize = start;
    while at < bytes.len()
        invariant
            start <= at <= bytes.len(),
            start <= 1,
            bytes@.len() == text.len(),
            digits == text.skip(start as int),
            forall|i: int| 0 <= i < text.len() ==> (#[trigger] text[i]) as u8 == bytes@[i],
            vstd::utf8::is_ascii_chars(text),
            forall|i: int| 0 <= i < at - start ==> is_digit(#[trigger] digits[i]),
            digits == unsigned_part(text),
            text == value@,
        decreases bytes.len() - at,
    {
        let byte: u8 = bytes[at];
        assert(digits[at - start] == text[at as int]);
        if byte < 48 || byte > 57 {
            assert(!is_digit(digits[at - start]));
            return None;
        }
        assert(is_digit(digits[at - start]));
        at = at + 1;
    }
    assert(all_digits(digits));
    let mut total: u64 = 0;
    at = start;
    assert(digits.take(0) =~= Seq::<char>::empty());
    while at < bytes.len()
        invariant
            start <= at <= bytes.len(),
            start <= 1,
            bytes@.len() == text.len(),
            digits == text.skip(start as int),
            forall|i: int| 0 <= i < text.len() ==> (#[trigger] text[i]) as u8 == bytes@[i],
            vstd::utf8::is_ascii_chars(text),
            all_digits(digits),
            digits.len() > 0,
            digits == unsigned_part(text),
            text == value@,
            total == digits_value(digits.take(at - start)),
        decreases bytes.len() - at,
    {
        let byte: u8 = bytes[at];
        proof {
            let k = at - start;
            assert(digits[k] == text[at as int]);
            assert(is_digit(digits[k]));
            assert(digits.take(k + 1).drop_last() =~= digits.take(k));
            assert(digits_value(digits.take(k + 1)) == digits_value(digits.take(k)) * 10
                + digit_value(digits[k]));
            lemma_prefix_value(digits, k + 1);
        }
        let digit: u64 = (byte - 48) as u64;
        let shifted: u64 = match total.checked_mul(10) {
            Some(shifted) => shifted,
            None => { return None; },
        };
        total = match shifted.checked_add(digit) {
            Some(sum) => sum,
            None => { return None; },
        };
        at = at + 1;
    }
    assert(digits.take(at - start) =~= digits);
    Some(total)
}

/// Reads a decimal number that has to fit in a `usize`.
///
/// The outcome is that of the standard library's `value.parse::<usize>().ok()`.
pub fn parse_usize(value: &str) -> (parsed: Option<usize>)
    ensures
        parsed == parsed_usize(value@),
{
    match parse_u64(value) {
        Some(n) => if n <= usize::MAX as u64 {
            Some(n as usize)
        } else {
            None
        },
        None => None,
    }
}

/// The text of one digit.
fn digit_text(digit: u64) -> (text: &'static str)
    requires
        digit < 10,
    ensures
        text@ == seq![digit_char(digit as nat)],
{
    proof {
        reveal_strlit("0");
        reveal_strlit("1");
        reveal_strlit("2");
        reveal_strlit("3");
        reveal_strlit("4");
        reveal_strlit("5");
        reveal_strlit("6");
        reveal_strlit("7");
        reveal_strlit("8");
        reveal_strlit("9");
    }
    match digit {
        0 => "0",
        1 => "1",
        2 => "2",
        3 => "3",
        4 => "4",
        5 => "5",
        6 => "6",
        7 => "7",
        8 => "8",
        _ => "9",
    }
}

/// Appends the shortest decimal text of `n` to `out`.
pub fn push_decimal(out: &mut String, n: u64)
    ensures
        final(out)@ == old(out)@ + decimal_text(n as nat),
    decreases n,
{
    if n < 10 {
        out.append(digit_text(n));
    } else {
        push_decimal(out, n / 10);
        out.append(digit_text(n % 10));
    }
}

/// Reading back a number that was written in decimal gives that number.
pub proof fn decimal_round_trip(n: nat)
    ensures
        all_digits(decimal_text(n)),
        decimal_text(n).len() > 0,
        digits_value(decimal_text(n)) == n,
        decimal_value(decimal_text(n)) == Some(n),
    decreases n,
{
    let text = decimal_text(n);
    if n < 10 {
        assert(text.drop_last() =~= Seq::<char>::empty());
        assert(digits_value(text.drop_last()) == 0);
    } else {
        decimal_round_trip(n / 10);
        assert(text.drop_last() =~= decimal_text(n / 10));
    }
    assert(unsigned_part(text) == text) by {
        assert(is_digit(text[0]));
    }
}

/// A text writes a number exactly if it consists of one or more of the ten
/// digits, with at most one plus sign before them and nothing else.
pub proof fn numbers_are_written_in_digits(s: Seq<char>)
    ensures
        decimal_value(s) is Some <==> {
            let from = if s.len() > 0 && s[0] == '+' {
                1int
            } else {
                0int
            };
            from < s.len() && forall|i: int| from <= i < s.len() ==> '0' <= #[trigger] s[i] <= '9'
        },
{
    let from = if s.len() > 0 && s[0] == '+' {
        1int
    } else {
        0int
    };
    let digits = unsigned_part(s);
    assert(digits =~= s.skip(from));
    assert forall|i: int| from <= i < s.len() implies (#[trigger] s[i]) == digits[i - from] by {}
    if all_digits(digits) {
        assert forall|i: int| from <= i < s.len() implies '0' <= #[trigger] s[i] <= '9' by {
            assert(is_digit(digits[i - from]));
        }
    }
    if forall|i: int| from <= i < s.len() ==> '0' <= #[trigger] s[i] <= '9' {
        assert forall|i: int| 0 <= i < digits.len() implies is_digit(#[trigger] digits[i]) by {
            assert(digits[i] == s[i + from]);
        }
    }
}

/// A digit alone writes its own value, with or without a plus sign. A digit
/// behind a number makes ten times that number and the value of the digit.
pub proof fn each_digit_counts_tenfold(s: Seq<char>, c: char)
    requires
        '0' <= c <= '9',
    ensures
        decimal_value(seq![c]) == Some((c as int - '0' as int) as nat),
        decimal_value(seq!['+', c]) == Some((c as int - '0' as int) as nat),
        decimal_value(s) is Some ==> decimal_value(s.push(c)) == Some(
            (decimal_value(s)->0 * 10 + (c as int - '0' as int)) as nat,
        ),
{
    let one = seq![c];
    assert(unsigned_part(one) =~= one);
    assert(one.drop_last() =~= Seq::<char>::empty());
    assert(one.last() == c);
    assert(digits_value(one.drop_last()) == 0);
    assert(all_digits(one));
    assert(unsigned_part(seq!['+', c]) =~= one);
    if decimal_value(s) is Some {
        let digits = unsigned_part(s);
        let longer = unsigned_part(s.push(c));
        assert(longer =~= digits.push(c));
        assert(longer.drop_last() =~= digits);
        assert forall|i: int| 0 <= i < longer.len() implies is_digit(#[trigger] longer[i]) by {
            if i < digits.len() {
                assert(longer[i] == digits[i]);
            }
        }
    }
}

/// A number is read exactly if the text writes it and it fits.
pub proof fn numbers_are_read_where_they_fit(s: Seq<char>, short: u64, size: usize)
    ensures
        parsed_u64(s) == Some(short) <==> decimal_value(s) == Some(short as nat),
        parsed_usize(s) == Some(size) <==> decimal_value(s) == Some(size as nat),
        parsed_u64(s) is None <==> decimal_value(s) is None || decimal_value(s)->0 > u64::MAX,
        parsed_usize(s) is None <==> decimal_value(s) is None || decimal_value(s)->0 > usize::MAX,
{
}

/// A number is written in digits alone, and with no zero in front.
pub proof fn numbers_are_written_shortest(n: nat)
    ensures
        decimal_text(n).len() > 0,
        forall|i: int|
            0 <= i < decimal_text(n).len() ==> '0' <= #[trigger] decimal_text(n)[i] <= '9',
        decimal_text(n)[0] == '0' ==> n == 0 && decimal_text(n).len() == 1,
    decreases n,
{
    if n >= 10 {
        numbers_are_written_shortest(n / 10);
        let front = decimal_text(n / 10);
        assert(decimal_text(n)[0] == front[0]);
        assert forall|i: int| 0 <= i < decimal_text(n).len() implies '0'
            <= #[trigger] decimal_text(n)[i] <= '9' by {
            if i < front.len() {
                assert(decimal_text(n)[i] == front[i]);
            }
        }
    }
}

} // verus!
