use vstd::prelude::*;

verus! {

/// Whether `c` is one of the ten ASCII decimal digits.
pub open spec fn is_digit(c: char) -> bool {
    '0' <= c && c <= '9'
}

/// The number that a decimal digit stands for.
pub open spec fn digit_value(c: char) -> int {
    c as int - '0' as int
}

/// Whether every character of `s` is a decimal digit.
pub open spec fn all_digits(s: Seq<char>) -> bool {
    forall|i: int| 0 <= i < s.len() ==> is_digit(#[trigger] s[i])
}

/// The number written by a run of decimal digits, most significant first.
pub open spec fn digits_value(s: Seq<char>) -> int
    decreases s.len(),
{
    if s.len() == 0 {
        0
    } else {
        10 * digits_value(s.drop_last()) + digit_value(s.last())
    }
}

/// The integer that `s` denotes: an optional `+` or `-` followed by at least
/// one decimal digit and nothing else. Any other text denotes no integer.
pub open spec fn decimal_int(s: Seq<char>) -> Option<int> {
    let signed = s.len() > 0 && (s[0] == '+' || s[0] == '-');
    let digits = if signed { s.subrange(1, s.len() as int) } else { s };
    if digits.len() > 0 && all_digits(digits) {
        if signed && s[0] == '-' {
            Some(-digits_value(digits))
        } else {
            Some(digits_value(digits))
        }
    } else {
        None
    }
}

/// The 32-bit integer that `s` denotes, if it denotes one that fits.
pub open spec fn decimal_i32(s: Seq<char>) -> Option<i32> {
    match decimal_int(s) {
        Some(v) => if i32::MIN <= v <= i32::MAX { Some(v as i32) } else { None },
        None => None,
    }
}

/// Extending a run of digits by one digit multiplies its value by ten and adds the digit.
proof fn lemma_digits_extend(s: Seq<char>, from: int, to: int)
    requires
        0 <= from <= to < s.len(),
    ensures
        digits_value(s.subrange(from, to + 1)) == 10 * digits_value(s.subrange(from, to))
            + digit_value(s[to]),
{
    assert(s.subrange(from, to + 1).drop_last() =~= s.subrange(from, to));
}

/// The characters of a string slice, in order.
pub fn chars_of(s: &str) -> (chars: Vec<char>)
    ensures
        chars@ == s@,
{
    let mut chars: Vec<char> = Vec::new();
    for c in it: s.chars()
        invariant
            chars@ == it.seq().take(it.index() as int),
            it.seq() == s@,
    {
        chars.push(c);
    }
    chars
}

/// Reads the characters `chars[from..to]` as a signed decimal 32-bit integer.
pub fn parse_i32_chars(chars: &Vec<char>, from: usize, to: usize) -> (parsed: Option<i32>)
    requires
        from <= to <= chars.len(),
    ensures
        parsed == decimal_i32(chars@.subrange(from as int, to as int)),
{
    let ghost field = chars@.subrange(from as int, to as int);
    if from == to {
        return None;
    }
    let first = chars[from];
    assert(field[0] == first);
    let negative = first == '-';
    let start: usize = if first == '-' || first == '+' { from + 1 } else { from };
    let ghost digits = chars@.subrange(start as int, to as int);
    assert(digits =~= if start > from { field.subrange(1, field.len() as int) } else { field });
    if start == to {
        return None;
    }
    let mut magnitude: i64 = 0;
    let mut too_large = false;
    let mut i: usize = start;
    while i < to
        invariant
            from <= start <= i <= to <= chars.len(),
            field == chars@.subrange(from as int, to as int),
            digits == chars@.subrange(start as int, to as int),
            digits == if start > from { field.subrange(1, field.len() as int) } else { field },
            start > from <==> field[0] == '-' || field[0] == '+',
            all_digits(chars@.subrange(start as int, i as int)),
            !too_large ==> 0 <= magnitude <= 0x8000_0000 && magnitude == digits_value(
                chars@.subrange(start as int, i as int),
            ),
            too_large ==> digits_value(chars@.subrange(start as int, i as int)) > 0x8000_0000,
        decreases to - i,
    {
        let c = chars[i];
        if !(c >= '0' && c <= '9') {
            assert(digits[i - start] == c);
            return None;
        }
        proof {
            lemma_digits_extend(chars@, start as int, i as int);
            assert forall|k: int| 0 <= k < i + 1 - start implies is_digit(
                #[trigger] chars@.subrange(start as int, i + 1)[k],
            ) by {
                if k < i - start {
                    assert(chars@.subrange(start as int, i as int)[k] == chars@[start + k]);
                }
            }
        }
        if !too_large {
            magnitude = magnitude * 10 + (c as u32 - '0' as u32) as i64;
            if magnitude > 0x8000_0000 {
                too_large = true;
            }
        }
        i += 1;
    }
    assert(chars@.subrange(start as int, i as int) == digits);
    if too_large {
        None
    } else if negative {
        Some((-magnitude) as i32)
    } else if magnitude <= 0x7fff_ffff {
        Some(magnitude as i32)
    } else {
        None
    }
}

/// Reads a string slice as a signed decimal 32-bit integer.
pub fn parse_i32(s: &str) -> (parsed: Option<i32>)
    ensures
        parsed == decimal_i32(s@),
{
    let chars = chars_of(s);
    assert(chars@.subrange(0, chars@.len() as int) =~= s@);
    parse_i32_chars(&chars, 0, chars.len())
}

} // verus!
