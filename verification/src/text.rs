//! Small tools for text: comparing it, taking it apart at a separator and
//! putting it together again, and decimal numerals.

use vstd::prelude::*;

verus! {

/// Whether two texts hold the same characters.
pub fn same_text(left: &str, right: &str) -> (same: bool)
    ensures
        same == (left@ == right@),
{
    left.to_owned() == right.to_owned()
}

/// The characters of `text`, in their order.
pub fn chars_of(text: &str) -> (chars: Vec<char>)
    ensures
        chars@ == text@,
{
    let mut chars: Vec<char> = Vec::new();
    for c in it: text.chars()
        invariant
            it.seq() == text@,
            chars@ == it.seq().take(it.index() as int),
    {
        chars.push(c);
        assert(it.seq().take(it.index() + 1) =~= it.seq().take(it.index() as int).push(c));
    }
    assert(chars@ =~= text@);
    chars
}

/// The parts of `text` between its separators, from left to right. A text
/// with n separators has n + 1 parts, and a part may be empty.
pub open spec fn split(text: Seq<char>, separator: char) -> Seq<Seq<char>>
    decreases text.len(),
{
    if text.len() == 0 {
        seq![Seq::<char>::empty()]
    } else {
        let before = split(text.drop_last(), separator);
        if text.last() == separator {
            before.push(Seq::<char>::empty())
        } else {
            before.drop_last().push(before.last().push(text.last()))
        }
    }
}

/// The parts put together with `separator` between each two of them.
pub open spec fn join(parts: Seq<Seq<char>>, separator: Seq<char>) -> Seq<char>
    decreases parts.len(),
{
    if parts.len() == 0 {
        Seq::<char>::empty()
    } else if parts.len() == 1 {
        parts[0]
    } else {
        join(parts.drop_last(), separator) + separator + parts.last()
    }
}

/// `split` never gives an empty list of parts.
pub proof fn lemma_split_has_parts(text: Seq<char>, separator: char)
    ensures
        split(text, separator).len() >= 1,
    decreases text.len(),
{
    if text.len() > 0 {
        lemma_split_has_parts(text.drop_last(), separator);
    }
}

/// Taking a text apart and putting it together again gives the text back, and
/// no part holds the separator.
pub proof fn law_split_joins_back(text: Seq<char>, separator: char)
    ensures
        join(split(text, separator), seq![separator]) == text,
        forall|i: int, j: int|
            0 <= i < split(text, separator).len() && 0 <= j < split(text, separator)[i].len()
                ==> split(text, separator)[i][j] != separator,
    decreases text.len(),
{
    let parts = split(text, separator);
    let by = seq![separator];
    if text.len() == 0 {
        assert(join(parts, by) =~= text);
    } else {
        let shorter = text.drop_last();
        let before = split(shorter, separator);
        law_split_joins_back(shorter, separator);
        lemma_split_has_parts(shorter, separator);
        if text.last() == separator {
            assert(parts.drop_last() =~= before);
            assert(join(parts, by) =~= shorter + by);
            assert(shorter + by =~= text);
        } else {
            let grown = before.last().push(text.last());
            assert(parts.last() == grown);
            if before.len() == 1 {
                assert(join(before, by) == before[0]);
                assert(join(parts, by) == grown);
                assert(grown =~= text);
            } else {
                assert(parts.drop_last() =~= before.drop_last());
                assert(join(before, by) == join(before.drop_last(), by) + by + before.last());
                assert(join(parts, by) == join(before.drop_last(), by) + by + grown);
                assert(join(parts, by) =~= join(before, by).push(text.last()));
                assert(shorter.push(text.last()) =~= text);
            }
        }
    }
}

/// What a list of texts holds, text by text.
pub open spec fn texts_of(parts: Seq<Vec<char>>) -> Seq<Seq<char>> {
    Seq::new(parts.len(), |i: int| parts[i]@)
}

/// The parts of `text` between its separators.
pub fn split_at(text: &Vec<char>, separator: char) -> (parts: Vec<Vec<char>>)
    ensures
        texts_of(parts@) == split(text@, separator),
{
    let mut parts: Vec<Vec<char>> = Vec::new();
    let mut part: Vec<char> = Vec::new();
    let mut i: usize = 0;
    while i < text.len()
        invariant
            i <= text.len(),
            texts_of(parts@).push(part@) == split(text@.take(i as int), separator),
        decreases text.len() - i,
    {
        let c = text[i];
        proof {
            let seen = text@.take(i as int);
            let next = text@.take(i + 1);
            assert(next.drop_last() =~= seen);
            assert(next.last() == c);
            let before = texts_of(parts@).push(part@);
            assert(before.drop_last() =~= texts_of(parts@));
            assert(before.last() == part@);
        }
        if c == separator {
            let ghost done = texts_of(parts@);
            parts.push(part);
            part = Vec::new();
            assert(texts_of(parts@) =~= done.push(parts@[parts.len() - 1]@));
        } else {
            part.push(c);
        }
        i += 1;
    }
    let ghost done = texts_of(parts@);
    assert(text@.take(i as int) =~= text@);
    parts.push(part);
    assert(texts_of(parts@) =~= done.push(parts@[parts.len() - 1]@));
    parts
}

/// The ten digits.
pub open spec fn digit_glyph(digit: nat) -> char {
    seq!['0', '1', '2', '3', '4', '5', '6', '7', '8', '9'][digit as int]
}

/// Whether `c` is one of the ten digits.
pub open spec fn is_digit(c: char) -> bool {
    '0' as u32 <= c as u32 <= '9' as u32
}

/// What a digit counts for, and zero for any other character.
pub open spec fn digit_value(c: char) -> nat {
    if is_digit(c) {
        (c as u32 - '0' as u32) as nat
    } else {
        0
    }
}

/// The decimal numeral of `n`, without leading zeros.
pub open spec fn decimal(n: nat) -> Seq<char>
    decreases n,
{
    if n < 10 {
        seq![digit_glyph(n)]
    } else {
        decimal(n / 10).push(digit_glyph(n % 10))
    }
}

/// The number that a run of digits stands for, read as a decimal numeral.
pub open spec fn digits_value(digits: Seq<char>) -> nat
    decreases digits.len(),
{
    if digits.len() == 0 {
        0
    } else {
        digits_value(digits.drop_last()) * 10 + digit_value(digits.last())
    }
}

/// Whether `text` is a run of digits.
pub open spec fn all_digits(text: Seq<char>) -> bool {
    forall|i: int| 0 <= i < text.len() ==> is_digit(#[trigger] text[i])
}

/// `text` without the plus sign that may lead it.
pub open spec fn unsigned_part(text: Seq<char>) -> Seq<char> {
    if text.len() > 0 && text[0] == '+' {
        text.skip(1)
    } else {
        text
    }
}

/// The number that `text` stands for, if it is a numeral of a number up to
/// `max`: an optional plus sign and then one or more digits, of which the
/// leading ones may be zeros, and nothing else.
pub open spec fn numeral(text: Seq<char>, max: nat) -> Option<nat> {
    let digits = unsigned_part(text);
    if digits.len() > 0 && all_digits(digits) && digits_value(digits) <= max {
        Some(digits_value(digits))
    } else {
        None
    }
}

/// A run of digits stands for no less than any run that it begins with.
pub proof fn lemma_digits_value_grows(digits: Seq<char>, k: int)
    requires
        0 <= k <= digits.len(),
    ensures
        digits_value(digits.take(k)) <= digits_value(digits),
    decreases digits.len() - k,
{
    if k == digits.len() {
        assert(digits.take(k) =~= digits);
    } else {
        lemma_digits_value_grows(digits, k + 1);
        assert(digits.take(k + 1).drop_last() =~= digits.take(k));
    }
}

/// The digit `d` as text of one character.
fn digit_text(d: u64) -> (text: &'static str)
    requires
        d < 10,
    ensures
        text@ == seq![digit_glyph(d as nat)],
{
    proof {
        reveal_strlit("0");
        reveal_strlit("1");
        reveal_strlit("2");
        reveal_strlit("3");
        reveal_strlit("4");
        reveal_strlit("5");
        reveal_strlit("6");
        reveal_strlit("7");
        reveal_strlit("8");
        reveal_strlit("9");
    }
    let text = if d == 0 {
        "0"
    } else if d == 1 {
        "1"
    } else if d == 2 {
        "2"
    } else if d == 3 {
        "3"
    } else if d == 4 {
        "4"
    } else if d == 5 {
        "5"
    } else if d == 6 {
        "6"
    } else if d == 7 {
        "7"
    } else if d == 8 {
        "8"
    } else {
        "9"
    };
    assert(text@ =~= seq![digit_glyph(d as nat)]);
    text
}

/// Appends the decimal numeral of `n` to `out`.
pub fn push_decimal(out: &mut String, n: u64)
    ensures
        final(out)@ == old(out)@ + decimal(n as nat),
    decreases n,
{
    if n >= 10 {
        push_decimal(out, n / 10);
    }
    out.append(digit_text(n % 10));
    assert(out@ =~= old(out)@ + decimal(n as nat));
}

/// The number that `text` stands for, if it is a numeral of a number up to
/// `max`.
pub fn parse_numeral(text: &Vec<char>, max: u64) -> (value: Option<u64>)
    ensures
        value matches Some(v) ==> numeral(text@, max as nat) == Some(v as nat),
        value is None ==> numeral(text@, max as nat) is None,
{
    let start: usize = if text.len() > 0 && text[0] == '+' {
        1
    } else {
        0
    };
    let ghost digits = unsigned_part(text@);
    assert(digits =~= text@.skip(start as int));
    if start == text.len() {
        return None;
    }
    let mut value: u64 = 0;
    let mut i: usize = start;
    while i < text.len()
        invariant
            start <= i <= text.len(),
            digits == unsigned_part(text@),
            digits == text@.skip(start as int),
            value <= max,
            value == digits_value(digits.take(i - start)),
            all_digits(digits.take(i - start)),
        decreases text.len() - i,
    {
        let c = text[i];
        let code = c as u32;
        proof {
            assert(digits[i - start] == c);
            assert(digits.take(i - start + 1).drop_last() =~= digits.take(i - start));
            assert(digits.take(i - start + 1).last() == c);
        }
        if code < 48 || code > 57 {
            assert(!is_digit(c));
            return None;
        }
        assert(is_digit(c));
        let next = value as u128 * 10 + (code - 48) as u128;
        assert(next == digits_value(digits.take(i - start + 1)));
        if next > max as u128 {
            proof {
                lemma_digits_value_grows(digits, i - start + 1);
            }
            return None;
        }
        value = next as u64;
        i += 1;
    }
    assert(digits.take(i - start) =~= digits);
    Some(value)
}

} // verus!
