//! Text helpers that the resource addresses are built from.
use vstd::prelude::*;
use vstd::string::*;

verus! {

/// The character that stands for a decimal digit.
pub open spec fn digit_char(digit: int) -> char
    recommends
        0 <= digit < 10,
{
    "0123456789"@[digit]
}

/// The decimal digits of a natural number, most significant first, without
/// leading zeros.
pub open spec fn decimal_of_nat(n: nat) -> Seq<char>
    decreases n,
{
    if n < 10 {
        seq![digit_char(n as int)]
    } else {
        decimal_of_nat(n / 10).push(digit_char((n % 10) as int))
    }
}

/// The decimal text of an integer: a minus sign for a negative number, then
/// the digits of its magnitude.
pub open spec fn decimal(n: int) -> Seq<char> {
    if n < 0 {
        seq!['-'] + decimal_of_nat((-n) as nat)
    } else {
        decimal_of_nat(n as nat)
    }
}

/// The digits that remain to be written in front of what is already there.
spec fn digits_ahead(rest: nat) -> Seq<char> {
    if rest == 0 {
        Seq::empty()
    } else {
        decimal_of_nat(rest)
    }
}

proof fn lemma_digits_ahead(n: nat)
    ensures
        decimal_of_nat(n) == digits_ahead(n / 10).push(digit_char((n % 10) as int)),
{
    if n < 10 {
        assert(n / 10 == 0);
        assert(n % 10 == n);
        assert(decimal_of_nat(n) =~= Seq::<char>::empty().push(digit_char(n as int)));
    }
}

/// The one-character text of a decimal digit.
fn digit_text(digit: u64) -> (text: &'static str)
    requires
        digit < 10,
    ensures
        text@ == seq![digit_char(digit as int)],
{
    let digits = "0123456789";
    proof {
        reveal_strlit("0123456789");
    }
    let text = digits.substring_ascii(digit as usize, digit as usize + 1);
    assert(text@ =~= seq![digit_char(digit as int)]);
    text
}

/// Writes a natural number in decimal.
pub fn decimal_text_of_u64(n: u64) -> (text: String)
    ensures
        text@ == decimal_of_nat(n as nat),
{
    let mut text = String::from_str(digit_text(n % 10));
    let mut rest = n / 10;
    proof {
        lemma_digits_ahead(n as nat);
        assert(decimal_of_nat(n as nat) =~= digits_ahead(rest as nat) + text@);
    }
    while rest > 0
        invariant
            decimal_of_nat(n as nat) == digits_ahead(rest as nat) + text@,
        decreases rest,
    {
        let head = String::from_str(digit_text(rest % 10));
        proof {
            lemma_digits_ahead(rest as nat);
            assert(digits_ahead(rest as nat) + text@ =~= digits_ahead((rest / 10) as nat) + (head@
                + text@));
        }
        text = head.concat(text.as_str());
        rest = rest / 10;
    }
    assert(digits_ahead(0) + text@ =~= text@);
    text
}

/// Writes an integer in decimal, as `{}` formats it.
pub fn decimal_text(n: i64) -> (text: String)
    ensures
        text@ == decimal(n as int),
{
    if n < 0 {
        let magnitude: u64 = (-(n + 1)) as u64 + 1;
        let digits = decimal_text_of_u64(magnitude);
        let text = String::from_str("-").concat(digits.as_str());
        proof {
            reveal_strlit("-");
            assert("-"@ =~= seq!['-']);
        }
        text
    } else {
        decimal_text_of_u64(n as u64)
    }
}

/// The test that every character but one passes.
pub open spec fn is_not(unwanted: char) -> spec_fn(char) -> bool {
    |c: char| c != unwanted
}

/// A text without the occurrences of one character.
pub open spec fn without_char(text: Seq<char>, unwanted: char) -> Seq<char> {
    text.filter(is_not(unwanted))
}

/// Removes every occurrence of one character from a text.
pub fn remove_char(text: &str, unwanted: char) -> (kept: String)
    ensures
        kept@ == without_char(text@, unwanted),
{
    let length = text.unicode_len();
    let mut kept = String::new();
    let mut at: usize = 0;
    proof {
        assert(text@.take(0) =~= Seq::<char>::empty());
        assert(without_char(Seq::<char>::empty(), unwanted) =~= Seq::<char>::empty()) by {
            reveal(Seq::filter);
        }
    }
    while at < length
        invariant
            length == text@.len(),
            at <= length,
            kept@ == without_char(text@.take(at as int), unwanted),
        decreases length - at,
    {
        let c = text.get_char(at);
        proof {
            Seq::lemma_filter_push(text@.take(at as int), c, is_not(unwanted));
            assert(text@.take(at as int).push(c) =~= text@.take(at as int + 1));
        }
        if c != unwanted {
            let piece = text.substring_char(at, at + 1);
            assert(piece@ =~= seq![c]);
            assert(kept@ + piece@ =~= kept@.push(c));
            kept.append(piece);
        }
        at = at + 1;
    }
    assert(text@.take(length as int) =~= text@);
    kept
}

/// The texts of a list, with a separator between each two neighbours.
pub open spec fn joined(parts: Seq<Seq<char>>, separator: Seq<char>) -> Seq<char>
    decreases parts.len(),
{
    if parts.len() == 0 {
        Seq::empty()
    } else if parts.len() == 1 {
        parts[0]
    } else {
        joined(parts.drop_last(), separator) + separator + parts.last()
    }
}

/// The texts that a list of string slices holds.
pub open spec fn texts_of(parts: Seq<&str>) -> Seq<Seq<char>> {
    parts.map_values(|part: &str| part@)
}

/// Joins string slices with a separator between each two neighbours.
pub fn join(parts: &Vec<&str>, separator: &str) -> (text: String)
    ensures
        text@ == joined(texts_of(parts@), separator@),
{
    let ghost texts = texts_of(parts@);
    let mut text = String::new();
    let mut at: usize = 0;
    proof {
        assert(texts.take(0) =~= Seq::<Seq<char>>::empty());
    }
    while at < parts.len()
        invariant
            at <= parts.len(),
            texts == texts_of(parts@),
            text@ == joined(texts.take(at as int), separator@),
        decreases parts.len() - at,
    {
        proof {
            let longer = texts.take(at as int + 1);
            assert(longer.drop_last() =~= texts.take(at as int));
            assert(longer.last() == parts@[at as int]@);
            if at == 0 {
                assert(Seq::<char>::empty() + parts@[0]@ =~= parts@[0]@);
            }
        }
        if at > 0 {
            text.append(separator);
        }
        text.append(parts[at]);
        at = at + 1;
    }
    assert(texts.take(parts.len() as int) =~= texts);
    text
}

/// Whether a character is one of the ten decimal digits.
pub open spec fn is_digit(c: char) -> bool {
    '0' <= c <= '9'
}

/// Whether a text holds decimal digits and nothing else.
pub open spec fn all_digits(digits: Seq<char>) -> bool {
    forall|i: int| 0 <= i < digits.len() ==> is_digit(#[trigger] digits[i])
}

/// The number that a text of decimal digits stands for.
pub open spec fn digits_value(digits: Seq<char>) -> nat
    decreases digits.len(),
{
    if digits.len() == 0 {
        0
    } else {
        digits_value(digits.drop_last()) * 10 + (digits.last() as nat - '0' as nat) as nat
    }
}

/// Whether a text is a 32-bit signed integer in decimal: an optional sign,
/// then at least one digit and only digits, standing for a number between
/// -2147483648 and 2147483647.
pub open spec fn is_i32_literal(text: Seq<char>) -> bool {
    let negative = text.len() > 0 && text[0] == '-';
    let signed = text.len() > 0 && (text[0] == '-' || text[0] == '+');
    let digits = if signed {
        text.skip(1)
    } else {
        text
    };
    let limit: nat = if negative {
        2147483648
    } else {
        2147483647
    };
    digits.len() > 0 && all_digits(digits) && digits_value(digits) <= limit
}

/// Among texts of digits, a text stands for no less than any text it starts with.
proof fn lemma_digits_value_grows(digits: Seq<char>, count: int)
    requires
        all_digits(digits),
        0 <= count <= digits.len(),
    ensures
        digits_value(digits.take(count)) <= digits_value(digits),
    decreases digits.len() - count,
{
    if count == digits.len() {
        assert(digits.take(count) =~= digits);
    } else {
        lemma_digits_value_grows(digits, count + 1);
        let longer = digits.take(count + 1);
        assert(longer.drop_last() =~= digits.take(count));
        assert(is_digit(digits[count]));
        assert(longer.last() == digits[count]);
    }
}

/// Tells whether a text is a 32-bit signed integer in decimal.
pub fn is_i32_text(text: &str) -> (valid: bool)
    ensures
        valid == is_i32_literal(text@),
{
    let length = text.unicode_len();
    if length == 0 {
        return false;
    }
    let first = text.get_char(0);
    let negative = first == '-';
    let start: usize = if first == '-' || first == '+' {
        1
    } else {
        0
    };
    let limit: u64 = if negative {
        2147483648
    } else {
        2147483647
    };
    let ghost digits = text@.skip(start as int);
    let mut value: u64 = 0;
    let mut at: usize = start;
    proof {
        assert(digits.take(0) =~= Seq::<char>::empty());
    }
    while at < length
        invariant
            length == text@.len(),
            length > 0,
            start <= at <= length,
            start == (if text@[0] == '-' || text@[0] == '+' {
                1int
            } else {
                0int
            }),
            limit == (if text@[0] == '-' {
                2147483648int
            } else {
                2147483647int
            }),
            digits == text@.skip(start as int),
            all_digits(digits.take(at - start)),
            value == digits_value(digits.take(at - start)),
            value <= limit,
        decreases length - at,
    {
        let c = text.get_char(at);
        let ghost seen = digits.take(at - start + 1);
        proof {
            assert(seen.drop_last() =~= digits.take(at - start));
            assert(seen.last() == c);
        }
        if c < '0' || c > '9' {
            assert(!is_digit(digits[at - start]));
            assert(text@.skip(0) =~= text@);
            return false;
        }
        let digit = (c as u32 - '0' as u32) as u64;
        value = value * 10 + digit;
        assert(value == digits_value(seen));
        if value > limit {
            proof {
                if all_digits(digits) {
                    lemma_digits_value_grows(digits, at - start + 1);
                    assert(digits_value(digits) > limit);
                }
                assert(text@.skip(0) =~= text@);
            }
            return false;
        }
        at = at + 1;
    }
    assert(digits.take(length - start) =~= digits);
    assert(text@.skip(0) =~= text@);
    start < length
}

} // verus!
