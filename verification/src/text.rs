//! Text as a sequence of characters: prefixes, single characters, numerals.

use vstd::arithmetic::power::{lemma_pow0, lemma_pow1, lemma_pow_adds, pow};
use vstd::prelude::*;
use vstd::string::*;

verus! {

/// The text of an optional string.
pub open spec fn text_of(value: Option<String>) -> Option<Seq<char>> {
    match value {
        Some(text) => Some(text@),
        None => None,
    }
}

/// The text of an optional string slice.
pub open spec fn slice_text(value: Option<&str>) -> Option<Seq<char>> {
    match value {
        Some(text) => Some(text@),
        None => None,
    }
}

/// What follows `prefix` in `text`, if `text` begins with it.
pub open spec fn stripped(text: Seq<char>, prefix: Seq<char>) -> Option<Seq<char>> {
    if prefix.is_prefix_of(text) {
        Some(text.skip(prefix.len() as int))
    } else {
        None
    }
}

/// Where `wanted` first stands in `text`, or the length of `text` if it stands nowhere.
pub open spec fn first_index(text: Seq<char>, wanted: char) -> int
    decreases text.len(),
{
    if text.len() == 0 || text[0] == wanted {
        0
    } else {
        1 + first_index(text.skip(1), wanted)
    }
}

/// The part of `text` before the first `end`, or all of it if there is none.
pub open spec fn before_char(text: Seq<char>, end: char) -> Seq<char> {
    text.take(first_index(text, end))
}

/// `text` with the first `from` replaced by `to`.
pub open spec fn replaced_once(text: Seq<char>, from: char, to: Seq<char>) -> Seq<char> {
    let index = first_index(text, from);
    if index < text.len() {
        text.take(index) + to + text.skip(index + 1)
    } else {
        text
    }
}

/// The parts of `text` between the `separator`s.
pub open spec fn split_on(text: Seq<char>, separator: char) -> Seq<Seq<char>>
    decreases text.len(),
{
    let index = first_index(text, separator);
    if 0 <= index < text.len() {
        seq![text.take(index)] + split_on(text.skip(index + 1), separator)
    } else {
        seq![text]
    }
}

/// No character before the first `wanted` is `wanted`.
pub proof fn lemma_first_index(text: Seq<char>, wanted: char)
    ensures
        0 <= first_index(text, wanted) <= text.len(),
        forall|i: int| 0 <= i < first_index(text, wanted) ==> text[i] != wanted,
        first_index(text, wanted) < text.len() ==> text[first_index(text, wanted)] == wanted,
    decreases text.len(),
{
    if text.len() > 0 && text[0] != wanted {
        let rest = text.skip(1);
        lemma_first_index(rest, wanted);
        assert forall|i: int| 0 <= i < first_index(text, wanted) implies text[i] != wanted by {
            if i > 0 {
                assert(rest[i - 1] == text[i]);
            }
        }
    }
}

/// Where a text without `wanted` is followed by it, it is found there.
pub proof fn lemma_first_index_behind(head: Seq<char>, tail: Seq<char>, wanted: char)
    requires
        !head.contains(wanted),
        tail.len() == 0 || tail[0] == wanted,
    ensures
        first_index(head + tail, wanted) == head.len(),
{
    let text = head + tail;
    lemma_first_index(text, wanted);
    let index = first_index(text, wanted);
    if index < head.len() {
        assert(text[index] == head[index]);
    }
    if index > head.len() {
        assert(text[head.len() as int] == tail[0]);
    }
}

/// A part without the separator, in front of a separator, is the first part.
pub proof fn lemma_split_on(head: Seq<char>, tail: Seq<char>, separator: char)
    requires
        !head.contains(separator),
    ensures
        split_on(head, separator) == seq![head],
        split_on(head + seq![separator] + tail, separator) == seq![head] + split_on(tail, separator),
{
    lemma_first_index_behind(head, Seq::empty(), separator);
    assert(head + Seq::empty() =~= head);
    let text = head + seq![separator] + tail;
    assert(text =~= head + (seq![separator] + tail));
    lemma_first_index_behind(head, seq![separator] + tail, separator);
    assert(text.take(head.len() as int) =~= head);
    assert(text.skip(head.len() as int + 1) =~= tail);
}

/// Whatever stands in front of a separator, the last part is that of what stands behind.
pub proof fn lemma_split_last(head: Seq<char>, tail: Seq<char>, separator: char)
    ensures
        split_on(head + seq![separator] + tail, separator).last() == split_on(tail, separator).last(),
    decreases head.len(),
{
    let text = head + seq![separator] + tail;
    let index = first_index(text, separator);
    lemma_first_index(text, separator);
    if index > head.len() {
        assert(text[head.len() as int] == separator);
    }
    let rest = text.skip(index + 1);
    if index == head.len() {
        assert(rest =~= tail);
    } else {
        assert(rest =~= head.skip(index + 1) + seq![separator] + tail);
        lemma_split_last(head.skip(index + 1), tail, separator);
    }
    assert(split_on(rest, separator).len() > 0);
}

/// A text put together from two that lack a character lacks it.
pub proof fn lemma_concat_lacks(left: Seq<char>, right: Seq<char>, c: char)
    requires
        !left.contains(c),
        !right.contains(c),
    ensures
        !(left + right).contains(c),
{
    let text = left + right;
    if text.contains(c) {
        let i = choose|i: int| 0 <= i < text.len() && text[i] == c;
        if i < left.len() {
            assert(left[i] == c);
        } else {
            assert(right[i - left.len()] == c);
        }
    }
}

/// Whether two texts hold the same characters.
pub fn same_text(left: &str, right: &str) -> (same: bool)
    ensures
        same == (left@ == right@),
{
    left.to_owned() == right.to_owned()
}

/// What follows `prefix` in `text`, if `text` begins with it.
pub fn strip_prefix<'a>(text: &'a str, prefix: &str) -> (rest: Option<&'a str>)
    ensures
        slice_text(rest) == stripped(text@, prefix@),
{
    let length: usize = text.unicode_len();
    let skipped: usize = prefix.unicode_len();
    if length < skipped {
        return None;
    }
    if same_text(text.substring_char(0, skipped), prefix) {
        Some(text.substring_char(skipped, length))
    } else {
        None
    }
}

/// Where `wanted` first stands in `text`, counted in characters, or the number of
/// characters if it stands nowhere.
pub fn find_char(text: &str, wanted: char) -> (index: usize)
    ensures
        index == first_index(text@, wanted),
        index <= text@.len(),
{
    let length: usize = text.unicode_len();
    let mut index: usize = 0;
    proof {
        lemma_first_index(text@, wanted);
    }
    for c in it: text.chars()
        invariant
            length == text@.len(),
            it.seq() == text@,
            index == it.index(),
            index <= first_index(text@, wanted) <= length,
            forall|i: int| 0 <= i < first_index(text@, wanted) ==> text@[i] != wanted,
            first_index(text@, wanted) < length ==> text@[first_index(text@, wanted)] == wanted,
    {
        if c == wanted {
            return index;
        }
        index = index + 1;
    }
    index
}

/// The part of `text` before the first `end`, or all of it if there is none.
pub fn cut_before<'a>(text: &'a str, end: char) -> (head: &'a str)
    ensures
        head@ == before_char(text@, end),
{
    text.substring_char(0, find_char(text, end))
}

/// `text` with the first `from` replaced by `to`.
pub fn replace_once(text: &str, from: char, to: &str) -> (replaced: String)
    ensures
        replaced@ == replaced_once(text@, from, to@),
{
    let length: usize = text.unicode_len();
    let index: usize = find_char(text, from);
    if index < length {
        let mut replaced = text.substring_char(0, index).to_owned();
        replaced.append(to);
        replaced.append(text.substring_char(index + 1, length));
        replaced
    } else {
        text.to_owned()
    }
}

/// The numeral of a decimal digit.
pub open spec fn digit_char(digit: nat) -> char {
    (48 + digit) as char
}

/// Whether a character is a decimal digit.
pub open spec fn is_digit(c: char) -> bool {
    '0' <= c <= '9'
}

/// The number as it is written in base ten, without leading zeros.
pub open spec fn decimal(number: nat) -> Seq<char>
    decreases number,
{
    if number < 10 {
        seq![digit_char(number)]
    } else {
        decimal(number / 10).push(digit_char(number % 10))
    }
}

/// The number that a row of digits stands for.
pub open spec fn digits_value(digits: Seq<char>) -> nat
    decreases digits.len(),
{
    if digits.len() == 0 {
        0
    } else {
        digits_value(digits.drop_last()) * 10 + (digits.last() as nat - 48) as nat
    }
}

/// The digits of a numeral: all of it but for a leading plus sign.
pub open spec fn numeral_digits(text: Seq<char>) -> Seq<char> {
    if text.len() > 0 && text[0] == '+' {
        text.skip(1)
    } else {
        text
    }
}

/// The number that a numeral gives: digits, at least one, behind an optional
/// plus sign, not above `limit`.
pub open spec fn numeral_value(text: Seq<char>, limit: nat) -> Option<nat> {
    let digits = numeral_digits(text);
    if digits.len() > 0 && (forall|i: int| 0 <= i < digits.len() ==> is_digit(#[trigger] digits[i]))
        && digits_value(digits) <= limit {
        Some(digits_value(digits))
    } else {
        None
    }
}

/// The numeral of one digit.
fn digit_text(digit: u64) -> (text: &'static str)
    requires
        digit < 10,
    ensures
        text@ == seq![digit_char(digit as nat)],
{
    proof {
        reveal_strlit("0");
        reveal_strlit("1");
        reveal_strlit("2");
        reveal_strlit("3");
        reveal_strlit("4");
        reveal_strlit("5");
        reveal_strlit("6");
        reveal_strlit("7");
        reveal_strlit("8");
        reveal_strlit("9");
    }
    let text = match digit {
        0 => "0",
        1 => "1",
        2 => "2",
        3 => "3",
        4 => "4",
        5 => "5",
        6 => "6",
        7 => "7",
        8 => "8",
        _ => "9",
    };
    assert(text@ =~= seq![digit_char(digit as nat)]);
    text
}

/// The number in base ten.
pub fn decimal_text(number: u64) -> (text: String)
    ensures
        text@ == decimal(number as nat),
    decreases number,
{
    if number < 10 {
        digit_text(number).to_owned()
    } else {
        let mut text = decimal_text(number / 10);
        text.append(digit_text(number % 10));
        assert(text@ =~= decimal((number / 10) as nat).push(digit_char((number % 10) as nat)));
        text
    }
}

/// A longer row of digits stands for no smaller a number.
proof fn lemma_digits_value_grows(digits: Seq<char>, count: int)
    requires
        0 <= count <= digits.len(),
    ensures
        digits_value(digits.take(count)) <= digits_value(digits),
    decreases digits.len() - count,
{
    if count == digits.len() {
        assert(digits.take(count) =~= digits);
    } else {
        lemma_digits_value_grows(digits, count + 1);
        assert(digits.take(count + 1).drop_last() =~= digits.take(count));
    }
}

/// Reads a numeral: digits, at least one, behind an optional plus sign.
pub fn parse_numeral(text: &str, limit: u64) -> (number: Option<u64>)
    ensures
        match number {
            Some(number) => numeral_value(text@, limit as nat) == Some(number as nat),
            None => numeral_value(text@, limit as nat) is None,
        },
{
    let length: usize = text.unicode_len();
    let signed: bool = length > 0 && text.get_char(0) == '+';
    let digits = if signed {
        text.substring_char(1, length)
    } else {
        text
    };
    assert(digits@ =~= numeral_digits(text@));
    if digits.is_empty() {
        return None;
    }
    let mut value: u64 = 0;
    for c in it: digits.chars()
        invariant
            digits@ == numeral_digits(text@),
            it.seq() == digits@,
            value <= limit,
            value == digits_value(digits@.take(it.index())),
            forall|i: int| 0 <= i < it.index() ==> is_digit(#[trigger] digits@[i]),
    {
        let ghost done = it.index();
        assert(digits@[done] == c);
        assert(digits@.take(done + 1).drop_last() =~= digits@.take(done));
        assert(digits@.take(done + 1).last() == c);
        if c < '0' || c > '9' {
            assert(!is_digit(digits@[done]));
            return None;
        }
        let digit: u64 = c as u64 - 48;
        proof {
            lemma_digits_value_grows(digits@, done + 1);
        }
        if value > limit / 10 || digit > limit - value * 10 {
            return None;
        }
        value = value * 10 + digit;
    }
    assert(digits@.take(digits@.len() as int) =~= digits@);
    Some(value)
}

/// Digits stand for themselves, and no other character does.
pub proof fn lemma_decimal_digits(number: nat)
    ensures
        decimal(number).len() > 0,
        forall|i: int| 0 <= i < decimal(number).len() ==> is_digit(#[trigger] decimal(number)[i]),
        digits_value(decimal(number)) == number,
    decreases number,
{
    if number < 10 {
        assert(decimal(number).drop_last() =~= Seq::<char>::empty());
        assert(digits_value(decimal(number).drop_last()) == 0);
    } else {
        lemma_decimal_digits(number / 10);
        assert(decimal(number).drop_last() =~= decimal(number / 10));
    }
}

/// Reading a number that was written in base ten gives it back.
pub proof fn law_numeral_round_trip(number: nat, limit: nat)
    requires
        number <= limit,
    ensures
        numeral_value(decimal(number), limit) == Some(number),
{
    lemma_decimal_digits(number);
    assert(is_digit(decimal(number)[0]));
    assert(numeral_digits(decimal(number)) == decimal(number));
}

/// Two numbers that are written alike are equal.
pub proof fn law_decimal_injective(left: nat, right: nat)
    requires
        decimal(left) == decimal(right),
    ensures
        left == right,
{
    lemma_decimal_digits(left);
    lemma_decimal_digits(right);
}

/// An optional text is there where its string is, and is the whole of it.
pub proof fn law_optional_text_is_whole(text: String, slice: &str)
    ensures
        text_of(Some(text)) == Some(text@),
        text_of(None) is None,
        slice_text(Some(slice)) == Some(slice@),
        slice_text(None) is None,
{
}

/// Stripping a prefix undoes putting it in front.
pub proof fn law_stripping_undoes_prepending(prefix: Seq<char>, rest: Seq<char>)
    ensures
        stripped(prefix + rest, prefix) == Some(rest),
{
    assert((prefix + rest).skip(prefix.len() as int) =~= rest);
}

/// What is stripped off and what is left make up the text; nothing is left only where the
/// text is the prefix with something behind it in no way.
pub proof fn law_stripped_parts_make_up_the_text(text: Seq<char>, prefix: Seq<char>)
    ensures
        stripped(text, prefix) matches Some(rest) ==> text == prefix + rest,
        stripped(text, prefix) is None ==> forall|rest: Seq<char>| text != #[trigger] (prefix + rest),
{
    if prefix.is_prefix_of(text) {
        assert(text =~= prefix + text.skip(prefix.len() as int));
    } else {
        assert forall|rest: Seq<char>| text != #[trigger] (prefix + rest) by {
            if text == prefix + rest {
                assert(prefix =~= text.subrange(0, prefix.len() as int));
            }
        }
    }
}

/// What stands before the first `end` is the whole of it, whatever stands behind, and a
/// text without `end` is left as it is.
pub proof fn law_text_before_a_character(head: Seq<char>, tail: Seq<char>, end: char)
    requires
        !head.contains(end),
    ensures
        before_char(head, end) == head,
        before_char(head + seq![end] + tail, end) == head,
{
    lemma_first_index_behind(head, Seq::empty(), end);
    assert(head + Seq::empty() =~= head);
    assert(head.take(head.len() as int) =~= head);
    let text = head + (seq![end] + tail);
    lemma_first_index_behind(head, seq![end] + tail, end);
    assert(head + seq![end] + tail =~= text);
    assert(text.take(head.len() as int) =~= head);
}

/// The first `from` gives way to `to`, with everything around it left in place, and a text
/// without `from` is left as it is.
pub proof fn law_one_character_is_replaced(head: Seq<char>, tail: Seq<char>, from: char, to: Seq<char>)
    requires
        !head.contains(from),
    ensures
        replaced_once(head, from, to) == head,
        replaced_once(head + seq![from] + tail, from, to) == head + to + tail,
{
    lemma_first_index_behind(head, Seq::empty(), from);
    assert(head + Seq::empty() =~= head);
    let text = head + (seq![from] + tail);
    lemma_first_index_behind(head, seq![from] + tail, from);
    assert(head + seq![from] + tail =~= text);
    assert(text.take(head.len() as int) =~= head);
    assert(text.skip(head.len() as int + 1) =~= tail);
}

/// The ten digits stand for the numbers below ten, and no other character is one.
pub proof fn law_digits(c: char)
    ensures
        is_digit(c) <==> seq!['0', '1', '2', '3', '4', '5', '6', '7', '8', '9'].contains(c),
        digits_value(seq!['0']) == 0,
        digits_value(seq!['1']) == 1,
        digits_value(seq!['2']) == 2,
        digits_value(seq!['3']) == 3,
        digits_value(seq!['4']) == 4,
        digits_value(seq!['5']) == 5,
        digits_value(seq!['6']) == 6,
        digits_value(seq!['7']) == 7,
        digits_value(seq!['8']) == 8,
        digits_value(seq!['9']) == 9,
{
    let digits = seq!['0', '1', '2', '3', '4', '5', '6', '7', '8', '9'];
    assert(digits[0] == '0' && digits[1] == '1' && digits[2] == '2' && digits[3] == '3' && digits[4] == '4'
        && digits[5] == '5' && digits[6] == '6' && digits[7] == '7' && digits[8] == '8' && digits[9] == '9');
    assert(is_digit(c) ==> digits[c as int - 48] == c);
    assert forall|d: char| is_digit(d) implies digits_value(#[trigger] seq![d]) == d as nat - 48 by {
        assert(seq![d].drop_last() =~= Seq::<char>::empty());
        assert(digits_value(seq![d].drop_last()) == 0);
    }
    assert(is_digit('0') && is_digit('1') && is_digit('2') && is_digit('3') && is_digit('4'));
    assert(is_digit('5') && is_digit('6') && is_digit('7') && is_digit('8') && is_digit('9'));
}

/// A row of digits counts ten times as much for every digit that follows it.
pub proof fn law_digits_count_by_their_place(left: Seq<char>, right: Seq<char>)
    ensures
        digits_value(left + right) == digits_value(left) * pow(10, right.len()) + digits_value(right),
    decreases right.len(),
{
    if right.len() == 0 {
        assert(left + right =~= left);
        lemma_pow0(10);
    } else {
        let rest = right.drop_last();
        assert((left + right).drop_last() =~= left + rest);
        assert((left + right).last() == right.last());
        law_digits_count_by_their_place(left, rest);
        lemma_pow1(10);
        lemma_pow_adds(10, rest.len(), 1);
        let value = digits_value(left) as int;
        let power = pow(10, rest.len());
        assert((value * power) * 10 == value * (power * 10)) by (nonlinear_arith);
    }
}

/// A number is written without leading zeros.
pub proof fn law_decimal_has_no_leading_zero(number: nat)
    ensures
        number > 0 ==> decimal(number)[0] != '0',
        number == 0 ==> decimal(number) == seq!['0'],
    decreases number,
{
    lemma_decimal_digits(number / 10);
    if number >= 10 {
        law_decimal_has_no_leading_zero(number / 10);
        assert(decimal(number)[0] == decimal(number / 10)[0]);
    } else {
        assert(decimal(number) =~= seq![digit_char(number)]);
    }
}

/// Every row of digits is read, however long and with whatever zeros in front, and a plus
/// sign in front makes no difference, as long as the number is within the limit.
pub proof fn law_every_row_of_digits_is_read(digits: Seq<char>, limit: nat)
    requires
        digits.len() > 0,
        forall|i: int| 0 <= i < digits.len() ==> '0' <= #[trigger] digits[i] <= '9',
    ensures
        digits_value(digits) <= limit ==> numeral_value(digits, limit) == Some(digits_value(digits)),
        digits_value(digits) <= limit ==> numeral_value(seq!['+'] + digits, limit) == Some(digits_value(digits)),
        digits_value(digits) > limit ==> numeral_value(digits, limit) is None,
        digits_value(digits) > limit ==> numeral_value(seq!['+'] + digits, limit) is None,
{
    assert(digits[0] != '+');
    assert((seq!['+'] + digits).skip(1) =~= digits);
    assert forall|i: int| 0 <= i < digits.len() implies is_digit(#[trigger] digits[i]) by {}
}

/// Nothing but digits, with or without a plus sign in front, is read as a number.
pub proof fn law_only_digits_are_read(text: Seq<char>, limit: nat)
    requires
        numeral_value(text, limit) is Some,
    ensures
        exists|digits: Seq<char>|
            #![trigger digits_value(digits)]
            (text == digits || text == seq!['+'] + digits) && digits.len() > 0 && (forall|i: int|
                0 <= i < digits.len() ==> '0' <= #[trigger] digits[i] <= '9') && numeral_value(text, limit) == Some(
                digits_value(digits),
            ) && digits_value(digits) <= limit,
{
    let digits = numeral_digits(text);
    assert(text =~= digits || text =~= seq!['+'] + digits);
    assert forall|i: int| 0 <= i < digits.len() implies '0' <= #[trigger] digits[i] <= '9' by {
        assert(is_digit(digits[i]));
    }
    assert(digits_value(digits) <= limit);
}

} // verus!
