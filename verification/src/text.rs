//! Text as sequences of characters: trimming, ASCII case and decimal numerals.

use vstd::prelude::*;

verus! {

/// The characters with the Unicode property White_Space.
pub open spec fn whitespace(c: char) -> bool {
    let n = c as u32;
    ||| 0x9 <= n <= 0xD
    ||| n == 0x20
    ||| n == 0x85
    ||| n == 0xA0
    ||| n == 0x1680
    ||| 0x2000 <= n <= 0x200A
    ||| 0x2028 <= n <= 0x2029
    ||| n == 0x202F
    ||| n == 0x205F
    ||| n == 0x3000
}

/// `s` without the whitespace that it starts with.
pub open spec fn strip_front(s: Seq<char>) -> Seq<char>
    decreases s.len(),
{
    if s.len() > 0 && whitespace(s.first()) {
        strip_front(s.drop_first())
    } else {
        s
    }
}

/// `s` without the whitespace that it ends with.
pub open spec fn strip_back(s: Seq<char>) -> Seq<char>
    decreases s.len(),
{
    if s.len() > 0 && whitespace(s.last()) {
        strip_back(s.drop_last())
    } else {
        s
    }
}

/// `s` without whitespace at either end.
pub open spec fn trimmed(s: Seq<char>) -> Seq<char> {
    strip_back(strip_front(s))
}

/// `s` without the run of `c` that it ends with.
pub open spec fn without_trailing(s: Seq<char>, c: char) -> Seq<char>
    decreases s.len(),
{
    if s.len() > 0 && s.last() == c {
        without_trailing(s.drop_last(), c)
    } else {
        s
    }
}

pub open spec fn upper_char(c: char) -> char {
    if 'a' <= c <= 'z' {
        (c as u8 - 32) as u8 as char
    } else {
        c
    }
}

pub open spec fn lower_char(c: char) -> char {
    if 'A' <= c <= 'Z' {
        (c as u8 + 32) as u8 as char
    } else {
        c
    }
}

/// `s` with each ASCII letter in upper case and every other character kept.
pub open spec fn uppercase(s: Seq<char>) -> Seq<char> {
    Seq::new(s.len(), |i: int| upper_char(s[i]))
}

/// `s` with each ASCII letter in lower case and every other character kept.
pub open spec fn lowercase(s: Seq<char>) -> Seq<char> {
    Seq::new(s.len(), |i: int| lower_char(s[i]))
}

/// The decimal digit for `d`, for `d` below ten.
pub open spec fn digit(d: nat) -> char {
    (48 + d) as u8 as char
}

/// The decimal numeral for `n`, without leading zeros.
pub open spec fn decimal(n: nat) -> Seq<char>
    decreases n,
{
    if n < 10 {
        seq![digit(n)]
    } else {
        decimal(n / 10).push(digit(n % 10))
    }
}

/// Appends one character.
///
/// Trusted: `std::string::String::push` leaves the text as it was with the
/// character added at its end.
pub assume_specification[ String::push ](text: &mut String, c: char)
    ensures
        final(text)@ == old(text)@.push(c),
;

pub fn is_whitespace(c: char) -> (b: bool)
    ensures
        b == whitespace(c),
{
    let n: u32 = c as u32;
    (0x9 <= n && n <= 0xD) || n == 0x20 || n == 0x85 || n == 0xA0 || n == 0x1680 || (0x2000 <= n
        && n <= 0x200A) || n == 0x2028 || n == 0x2029 || n == 0x202F || n == 0x205F || n == 0x3000
}

/// The characters of `text`, in order.
pub(crate) fn chars(text: &str) -> (list: Vec<char>)
    ensures
        list@ == text@,
{
    let mut list: Vec<char> = Vec::new();
    for c in it: text.chars()
        invariant
            it.seq() == text@,
            list@ == text@.take(it.index() as int),
    {
        list.push(c);
    }
    list
}

/// Removes whitespace from both ends.
pub fn trim<'a>(text: &'a str) -> (r: &'a str)
    ensures
        r@ == trimmed(text@),
{
    let list = chars(text);
    let len: usize = list.len();
    let mut from: usize = 0;
    assert(text@.skip(0) == text@);
    while from < len && is_whitespace(list[from])
        invariant
            from <= len == list.len(),
            list@ == text@,
            strip_front(text@.skip(from as int)) == strip_front(text@),
        decreases len - from,
    {
        assert(text@.skip(from as int).drop_first() == text@.skip(from + 1));
        from += 1;
    }
    let ghost tail = text@.skip(from as int);
    assert(strip_front(text@) == tail);
    let mut to: usize = len;
    assert(text@.subrange(from as int, to as int) == tail);
    while from < to && is_whitespace(list[to - 1])
        invariant
            from <= to <= len == list.len(),
            list@ == text@,
            strip_back(text@.subrange(from as int, to as int)) == strip_back(tail),
        decreases to,
    {
        assert(text@.subrange(from as int, to as int).drop_last() == text@.subrange(
            from as int,
            to - 1,
        ));
        to -= 1;
    }
    text.substring_char(from, to)
}

/// Removes every `c` from the end.
pub fn trim_end_matches<'a>(text: &'a str, c: char) -> (r: &'a str)
    ensures
        r@ == without_trailing(text@, c),
{
    let list = chars(text);
    let mut to: usize = list.len();
    assert(text@.take(to as int) == text@);
    while 0 < to && list[to - 1] == c
        invariant
            to <= list.len(),
            list@ == text@,
            without_trailing(text@.take(to as int), c) == without_trailing(text@, c),
        decreases to,
    {
        assert(text@.take(to as int).drop_last() == text@.take(to - 1));
        to -= 1;
    }
    assert(text@.subrange(0, to as int) == text@.take(to as int));
    text.substring_char(0, to)
}

/// Puts ASCII letters in upper case.
pub fn to_ascii_uppercase(text: &str) -> (r: String)
    ensures
        r@ == uppercase(text@),
{
    let mut r = String::new();
    for c in it: text.chars()
        invariant
            it.seq() == text@,
            r@ == uppercase(text@).take(it.index() as int),
    {
        let shifted: char = if 'a' <= c && c <= 'z' {
            (c as u8 - 32) as char
        } else {
            c
        };
        r.push(shifted);
    }
    r
}

/// Puts ASCII letters in lower case.
pub fn to_ascii_lowercase(text: &str) -> (r: String)
    ensures
        r@ == lowercase(text@),
{
    let mut r = String::new();
    for c in it: text.chars()
        invariant
            it.seq() == text@,
            r@ == lowercase(text@).take(it.index() as int),
    {
        let shifted: char = if 'A' <= c && c <= 'Z' {
            (c as u8 + 32) as char
        } else {
            c
        };
        r.push(shifted);
    }
    r
}

/// Writes `n` as a decimal numeral.
pub fn decimal_numeral(n: u16) -> (r: String)
    ensures
        r@ == decimal(n as nat),
    decreases n,
{
    let mut r = if n < 10 {
        String::new()
    } else {
        decimal_numeral(n / 10)
    };
    let d: u8 = (n % 10) as u8;
    r.push((48 + d) as char);
    assert(r@ == decimal(n as nat));
    r
}

/// Joins three pieces of text.
pub fn join(first: &str, second: &str, third: &str) -> (r: String)
    ensures
        r@ == first@ + second@ + third@,
{
    let mut r = first.to_owned();
    r.append(second);
    r.append(third);
    r
}

} // verus!
