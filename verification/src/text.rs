//! Text operations on which configuration parsing and key building rest.
use vstd::prelude::*;

verus! {

/// Whether two texts hold the same characters.
pub fn same_text(left: &str, right: &str) -> (same: bool)
    ensures
        same == (left@ == right@),
{
    left.to_owned() == right.to_owned()
}

/// `head` followed by `tail`.
pub fn joined(head: &str, tail: &str) -> (text: String)
    ensures
        text@ == head@ + tail@,
{
    let mut text: String = head.to_owned();
    text.append(tail);
    text
}

/// Characters with the Unicode property `White_Space`.
pub open spec fn is_white_space(c: char) -> bool {
    ||| '\u{9}' <= c <= '\u{d}'
    ||| c == '\u{20}'
    ||| c == '\u{85}'
    ||| c == '\u{a0}'
    ||| c == '\u{1680}'
    ||| '\u{2000}' <= c <= '\u{200a}'
    ||| c == '\u{2028}'
    ||| c == '\u{2029}'
    ||| c == '\u{202f}'
    ||| c == '\u{205f}'
    ||| c == '\u{3000}'
}

/// `text` without its leading white space.
pub open spec fn trimmed_start(text: Seq<char>) -> Seq<char>
    decreases text.len(),
{
    if text.len() > 0 && is_white_space(text.first()) {
        trimmed_start(text.drop_first())
    } else {
        text
    }
}

/// `text` without its trailing white space.
pub open spec fn trimmed_end(text: Seq<char>) -> Seq<char>
    decreases text.len(),
{
    if text.len() > 0 && is_white_space(text.last()) {
        trimmed_end(text.drop_last())
    } else {
        text
    }
}

/// `text` without leading and trailing white space.
pub open spec fn trimmed(text: Seq<char>) -> Seq<char> {
    trimmed_end(trimmed_start(text))
}

/// Whether `text` holds nothing but white space.
pub open spec fn is_blank_text(text: Seq<char>) -> bool {
    forall|i: int| 0 <= i < text.len() ==> is_white_space(#[trigger] text[i])
}

/// Trimming leaves nothing of a text exactly when all of it is white space.
pub proof fn blank_text_trims_to_nothing(text: Seq<char>)
    ensures
        trimmed(text).len() == 0 <==> is_blank_text(text),
    decreases text.len(),
{
    if text.len() > 0 {
        if is_white_space(text.first()) {
            let rest = text.drop_first();
            blank_text_trims_to_nothing(rest);
            assert(trimmed(text) == trimmed(rest));
            if is_blank_text(rest) {
                assert forall|i: int| 0 <= i < text.len() implies is_white_space(
                    #[trigger] text[i],
                ) by {
                    if i > 0 {
                        assert(rest[i - 1] == text[i]);
                    }
                }
            }
            if is_blank_text(text) {
                assert forall|i: int| 0 <= i < rest.len() implies is_white_space(
                    #[trigger] rest[i],
                ) by {
                    assert(rest[i] == text[i + 1]);
                }
            }
        } else {
            assert(text.first() == text[0]);
            trimmed_end_keeps_inner(text);
        }
    }
}

/// A text whose first character is no white space keeps it when its end is trimmed.
proof fn trimmed_end_keeps_inner(text: Seq<char>)
    requires
        text.len() > 0,
        !is_white_space(text.first()),
    ensures
        trimmed_end(text).len() > 0,
        trimmed_end(text).first() == text.first(),
    decreases text.len(),
{
    if is_white_space(text.last()) {
        assert(text.len() > 1);
        assert(text.drop_last().first() == text.first());
        trimmed_end_keeps_inner(text.drop_last());
    }
}

/// [`str::trim`]: the text without its leading and trailing white space, white space being the
/// characters with the Unicode property `White_Space`.
#[verifier::external_body]
pub(crate) fn trim(text: &str) -> (inner: String)
    ensures
        inner@ == trimmed(text@),
{
    text.trim().to_owned()
}

/// Whether a text is empty or holds nothing but white space.
pub fn is_blank(text: &str) -> (blank: bool)
    ensures
        blank == is_blank_text(text@),
{
    proof {
        blank_text_trims_to_nothing(text@);
    }
    trim(text).as_str().unicode_len() == 0
}

/// The pieces of `text` between the occurrences of `separator`, from left to right.
pub open spec fn split_at_separator(text: Seq<char>, separator: char) -> Seq<Seq<char>>
    decreases text.len(),
{
    if text.len() == 0 {
        seq![Seq::<char>::empty()]
    } else {
        let before = split_at_separator(text.drop_last(), separator);
        if text.last() == separator {
            before.push(Seq::<char>::empty())
        } else {
            before.drop_last().push(before.last().push(text.last()))
        }
    }
}

/// Joining the pieces with the separator in between gives the text back.
pub open spec fn join_with_separator(pieces: Seq<Seq<char>>, separator: char) -> Seq<char>
    decreases pieces.len(),
{
    if pieces.len() == 0 {
        Seq::empty()
    } else if pieces.len() == 1 {
        pieces[0]
    } else {
        join_with_separator(pieces.drop_last(), separator).push(separator) + pieces.last()
    }
}

/// Splitting loses nothing and leaves no separator in a piece: the pieces joined by the
/// separator are the text.
pub proof fn split_then_join(text: Seq<char>, separator: char)
    ensures
        split_at_separator(text, separator).len() >= 1,
        join_with_separator(split_at_separator(text, separator), separator) == text,
        forall|i: int|
            0 <= i < split_at_separator(text, separator).len()
                ==> !(#[trigger] split_at_separator(text, separator)[i]).contains(separator),
    decreases text.len(),
{
    let pieces = split_at_separator(text, separator);
    if text.len() == 0 {
        assert(pieces == seq![Seq::<char>::empty()]);
        assert(join_with_separator(pieces, separator) =~= text);
    } else {
        let before = split_at_separator(text.drop_last(), separator);
        split_then_join(text.drop_last(), separator);
        assert(text =~= text.drop_last().push(text.last()));
        if text.last() == separator {
            assert(pieces.drop_last() =~= before);
            assert(join_with_separator(pieces, separator) =~= text);
        } else {
            let last = before.last().push(text.last());
            assert(pieces.drop_last() =~= before.drop_last());
            assert forall|k: int| 0 <= k < last.len() implies last[k] != separator by {
                if k < before.last().len() {
                    assert(!before[before.len() - 1].contains(separator));
                    assert(before.last()[k] == last[k]);
                }
            }
            assert(!last.contains(separator));
            if before.len() == 1 {
                assert(join_with_separator(pieces, separator) =~= text);
            } else {
                assert(join_with_separator(pieces, separator) =~= text);
            }
        }
    }
}

/// Splits a text at every occurrence of a separator.
pub fn split(text: &str, separator: char) -> (pieces: Vec<String>)
    ensures
        pieces@.map_values(|piece: String| piece@) == split_at_separator(text@, separator),
{
    let length: usize = text.unicode_len();
    let mut pieces: Vec<String> = Vec::new();
    let mut start: usize = 0;
    let mut index: usize = 0;
    proof {
        assert(text@.take(0) =~= Seq::<char>::empty());
        assert(text@.subrange(0, 0) =~= Seq::<char>::empty());
    }
    while index < length
        invariant
            length == text@.len(),
            start <= index <= length,
            pieces@.map_values(|piece: String| piece@).push(text@.subrange(start as int, index as int))
                == split_at_separator(text@.take(index as int), separator),
        decreases length - index,
    {
        let c: char = text.get_char(index);
        let ghost done = pieces@.map_values(|piece: String| piece@);
        let ghost current = text@.subrange(start as int, index as int);
        proof {
            assert(text@.take(index + 1).drop_last() =~= text@.take(index as int));
            assert(text@.take(index + 1).last() == c);
        }
        if c == separator {
            pieces.push(text.substring_char(start, index).to_owned());
            proof {
                assert(pieces@.map_values(|piece: String| piece@) =~= done.push(current));
                assert(text@.subrange(index + 1, index + 1) =~= Seq::<char>::empty());
            }
            start = index + 1;
        } else {
            proof {
                assert(done.push(current).drop_last() =~= done);
                assert(text@.subrange(start as int, index + 1) =~= current.push(c));
            }
        }
        index = index + 1;
    }
    let ghost done = pieces@.map_values(|piece: String| piece@);
    pieces.push(text.substring_char(start, length).to_owned());
    proof {
        assert(text@.take(length as int) =~= text@);
        assert(pieces@.map_values(|piece: String| piece@) =~= done.push(
            text@.subrange(start as int, length as int),
        ));
    }
    pieces
}

/// Value of an ASCII decimal digit.
pub open spec fn digit_value(c: char) -> int {
    c as int - '0' as int
}

/// Whether every character is an ASCII decimal digit.
pub open spec fn all_digits(text: Seq<char>) -> bool {
    forall|i: int| 0 <= i < text.len() ==> '0' <= #[trigger] text[i] <= '9'
}

/// The number that a row of decimal digits writes.
pub open spec fn decimal_value(digits: Seq<char>) -> int
    decreases digits.len(),
{
    if digits.len() == 0 {
        0
    } else {
        10 * decimal_value(digits.drop_last()) + digit_value(digits.last())
    }
}

/// `text` without one leading plus sign.
pub open spec fn without_plus(text: Seq<char>) -> Seq<char> {
    if text.len() > 0 && text.first() == '+' {
        text.drop_first()
    } else {
        text
    }
}

/// The `u64` that a text writes in decimal: an optional plus sign and at least one digit, with a
/// value that fits.
pub open spec fn parsed_u64(text: Seq<char>) -> Option<u64> {
    let digits = without_plus(text);
    if digits.len() > 0 && all_digits(digits) && decimal_value(digits) <= u64::MAX {
        Some(decimal_value(digits) as u64)
    } else {
        None
    }
}

proof fn decimal_value_grows(digits: Seq<char>, count: int)
    requires
        all_digits(digits),
        0 <= count <= digits.len(),
    ensures
        0 <= decimal_value(digits.take(count)) <= decimal_value(digits),
    decreases digits.len(),
{
    if count == digits.len() {
        assert(digits.take(count) =~= digits);
        if digits.len() > 0 {
            decimal_value_grows(digits.drop_last(), digits.len() - 1);
            assert(digits.drop_last().take(digits.len() - 1) =~= digits.drop_last());
        }
    } else {
        decimal_value_grows(digits.drop_last(), count);
        assert(digits.drop_last().take(count) =~= digits.take(count));
    }
}

/// Reads a `u64` in decimal.
pub fn parse_u64(text: &str) -> (number: Option<u64>)
    ensures
        number == parsed_u64(text@),
{
    let length: usize = text.unicode_len();
    let mut index: usize = 0;
    if length > 0 && text.get_char(0) == '+' {
        index = 1;
    }
    let ghost digits = without_plus(text@);
    let ghost offset = index as int;
    if index == length {
        return None;
    }
    let mut value: u64 = 0;
    proof {
        assert(digits.take(0) =~= Seq::<char>::empty());
    }
    while index < length
        invariant
            length == text@.len(),
            0 <= offset <= index <= length,
            digits == without_plus(text@),
            digits.len() == length - offset > 0,
            forall|i: int| 0 <= i < digits.len() ==> #[trigger] digits[i] == text@[i + offset],
            all_digits(digits.take(index - offset)),
            value == decimal_value(digits.take(index - offset)),
        decreases length - index,
    {
        let c: char = text.get_char(index);
        let ghost read = index - offset;
        proof {
            assert(digits[read] == c);
            assert(digits.take(read + 1).drop_last() =~= digits.take(read));
            assert(digits.take(read + 1).last() == c);
        }
        if !('0' <= c && c <= '9') {
            return None;
        }
        let digit: u64 = c as u64 - '0' as u64;
        proof {
            assert forall|i: int| 0 <= i < read + 1 implies '0' <= #[trigger] digits.take(
                read + 1,
            )[i] <= '9' by {
                if i < read {
                    assert(digits.take(read)[i] == digits.take(read + 1)[i]);
                }
            }
            assert(decimal_value(digits.take(read + 1)) == 10 * value + digit);
        }
        if value > (u64::MAX - digit) / 10 {
            proof {
                if all_digits(digits) {
                    decimal_value_grows(digits, read + 1);
                }
            }
            return None;
        }
        value = 10 * value + digit;
        index = index + 1;
    }
    proof {
        assert(digits.take(length - offset) =~= digits);
    }
    Some(value)
}

/// Trimming takes white space off both ends and nothing else: the text is the trimmed text with
/// white space around it, and the trimmed text neither begins nor ends with white space.
pub proof fn trimming_takes_white_space_off(text: Seq<char>)
    ensures
        exists|before: Seq<char>, after: Seq<char>|
            is_blank_text(before) && is_blank_text(after) && text == #[trigger] (before + trimmed(
                text,
            ) + after),
        trimmed(text).len() > 0 ==> !is_white_space(trimmed(text).first()) && !is_white_space(
            trimmed(text).last(),
        ),
{
    let inner = trimmed_start(text);
    start_is_taken_off(text);
    end_is_taken_off(inner);
    let before = text.take(text.len() - inner.len());
    let after = inner.skip(trimmed(text).len() as int);
    assert(text =~= before + trimmed(text) + after);
    assert(is_blank_text(before));
    assert(is_blank_text(after));
    if trimmed(text).len() > 0 {
        assert(trimmed(text).first() == inner.first());
    }
}

proof fn start_is_taken_off(text: Seq<char>)
    ensures
        trimmed_start(text).len() <= text.len(),
        trimmed_start(text) == text.skip(text.len() - trimmed_start(text).len()),
        is_blank_text(text.take(text.len() - trimmed_start(text).len())),
        trimmed_start(text).len() > 0 ==> !is_white_space(trimmed_start(text).first()),
    decreases text.len(),
{
    let rest = trimmed_start(text);
    if text.len() > 0 && is_white_space(text.first()) {
        start_is_taken_off(text.drop_first());
        assert(text.drop_first().skip(text.len() - 1 - rest.len()) =~= text.skip(
            text.len() - rest.len(),
        ));
        let off = text.take(text.len() - rest.len());
        let less = text.drop_first().take(text.len() - 1 - rest.len());
        assert forall|i: int| 0 <= i < off.len() implies is_white_space(#[trigger] off[i]) by {
            if i > 0 {
                assert(less[i - 1] == off[i]);
            }
        }
    } else {
        assert(text.skip(0) =~= text);
    }
}

proof fn end_is_taken_off(text: Seq<char>)
    ensures
        trimmed_end(text).len() <= text.len(),
        trimmed_end(text) == text.take(trimmed_end(text).len() as int),
        is_blank_text(text.skip(trimmed_end(text).len() as int)),
        trimmed_end(text).len() > 0 ==> !is_white_space(trimmed_end(text).last()),
    decreases text.len(),
{
    let rest = trimmed_end(text);
    if text.len() > 0 && is_white_space(text.last()) {
        end_is_taken_off(text.drop_last());
        assert(text.drop_last().take(rest.len() as int) =~= text.take(rest.len() as int));
        let off = text.skip(rest.len() as int);
        let less = text.drop_last().skip(rest.len() as int);
        assert forall|i: int| 0 <= i < off.len() implies is_white_space(#[trigger] off[i]) by {
            if i < off.len() - 1 {
                assert(less[i] == off[i]);
            }
        }
    } else {
        assert(text.take(text.len() as int) =~= text);
    }
}

/// Numbers are read digit by digit: a digit alone is its own value, and a digit behind a number
/// that can be read makes ten times that number and the digit, as far as it fits into 64 bits.
pub proof fn numbers_grow_by_digits(text: Seq<char>, digit: char)
    requires
        '0' <= digit <= '9',
    ensures
        parsed_u64(seq![digit]) == Some((digit as u64 - 48) as u64),
        parsed_u64(text) matches Some(number) ==> parsed_u64(text.push(digit)) == if number * 10 + (
        digit as u64 - 48) <= 0xffff_ffff_ffff_ffff {
            Some((number * 10 + (digit as u64 - 48)) as u64)
        } else {
            None
        },
{
    let one = seq![digit];
    assert(without_plus(one) == one);
    assert(one.drop_last() =~= Seq::<char>::empty());
    assert(decimal_value(one.drop_last()) == 0);
    assert(all_digits(one));
    if parsed_u64(text) is Some {
        let digits = without_plus(text);
        let longer = text.push(digit);
        assert(without_plus(longer) =~= digits.push(digit));
        assert(without_plus(longer).drop_last() =~= digits);
        assert(all_digits(without_plus(longer)));
        decimal_value_grows(digits, digits.len() as int);
        assert(without_plus(longer).last() == digit);
        assert(decimal_value(without_plus(longer)) == 10 * decimal_value(digits) + (digit as int
            - 48));
    }
}

/// What is no row of digits, with or without one plus sign before it, is no number: a text that
/// can be read is not empty, and all its characters but a leading plus sign are digits. A leading
/// plus sign does not matter.
pub proof fn only_digits_are_numbers(text: Seq<char>)
    ensures
        parsed_u64(text) is Some ==> text.len() > 0 && forall|i: int|
            #![trigger text[i]]
            0 <= i < text.len() ==> '0' <= text[i] <= '9' || (i == 0 && text[i] == '+'
                && text.len() > 1),
        text.len() > 0 && '0' <= text[0] <= '9' ==> parsed_u64(seq!['+'] + text) == parsed_u64(
            text,
        ),
{
    let digits = without_plus(text);
    if parsed_u64(text) is Some {
        assert forall|i: int| #![trigger text[i]] 0 <= i < text.len() implies '0' <= text[i] <= '9'
            || (i == 0 && text[i] == '+' && text.len() > 1) by {
            if text.first() == '+' {
                if i > 0 {
                    assert(digits[i - 1] == text[i]);
                }
            } else {
                assert(digits[i] == text[i]);
            }
        }
    }
    if text.len() > 0 && '0' <= text[0] <= '9' {
        assert(without_plus(seq!['+'] + text) =~= text);
        assert(without_plus(text) == text);
    }
}

/// White space is what stands at 25 code points: five controls, the next line, and the spaces and
/// separators of Unicode.
pub proof fn white_space_has_its_code_points(c: char)
    ensures
        is_white_space(c) <==> 9 <= c as int <= 13 || c as int == 32 || c as int == 133 || c as int
            == 160 || c as int == 5760 || 8192 <= c as int <= 8202 || c as int == 8232 || c as int
            == 8233 || c as int == 8239 || c as int == 8287 || c as int == 12288,
{
}

} // verus!
