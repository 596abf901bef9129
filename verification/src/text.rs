//! Decimal numbers and pieces of text that the messages of the library are built of.
use vstd::prelude::*;

verus! {

/// One decimal digit as text.
pub open spec fn digit_text(digit: int) -> Seq<char> {
    if digit == 0 {
        "0"@
    } else if digit == 1 {
        "1"@
    } else if digit == 2 {
        "2"@
    } else if digit == 3 {
        "3"@
    } else if digit == 4 {
        "4"@
    } else if digit == 5 {
        "5"@
    } else if digit == 6 {
        "6"@
    } else if digit == 7 {
        "7"@
    } else if digit == 8 {
        "8"@
    } else {
        "9"@
    }
}

/// `number` written in decimal, without leading zeros.
pub open spec fn decimal(number: nat) -> Seq<char>
    decreases number,
{
    if number < 10 {
        digit_text(number as int)
    } else {
        decimal(number / 10) + digit_text((number % 10) as int)
    }
}

/// `number` written in decimal, with a minus sign in front of a negative number.
pub open spec fn signed_decimal(number: int) -> Seq<char> {
    if number < 0 {
        "-"@ + decimal((-number) as nat)
    } else {
        decimal(number as nat)
    }
}

/// The text behind an optional string.
pub open spec fn text_of(text: Option<String>) -> Option<Seq<char>> {
    match text {
        Some(text) => Some(text@),
        None => None,
    }
}

fn digit_str(digit: u128) -> (text: &'static str)
    requires
        digit < 10,
    ensures
        text@ == digit_text(digit as int),
{
    match digit {
        0 => "0",
        1 => "1",
        2 => "2",
        3 => "3",
        4 => "4",
        5 => "5",
        6 => "6",
        7 => "7",
        8 => "8",
        _ => "9",
    }
}

/// Appends `number` in decimal.
pub fn push_decimal(out: &mut String, number: u128)
    ensures
        final(out)@ == old(out)@ + decimal(number as nat),
    decreases number,
{
    if number < 10 {
        out.append(digit_str(number));
    } else {
        push_decimal(out, number / 10);
        out.append(digit_str(number % 10));
        assert(out@ =~= old(out)@ + decimal(number as nat));
    }
}

/// Appends `number` in decimal, with its sign where it is negative.
pub fn push_signed_decimal(out: &mut String, number: i32)
    ensures
        final(out)@ == old(out)@ + signed_decimal(number as int),
{
    if number < 0 {
        out.append("-");
        let magnitude: i64 = -(number as i64);
        push_decimal(out, magnitude as u128);
        assert(out@ =~= old(out)@ + signed_decimal(number as int));
    } else {
        push_decimal(out, number as u128);
    }
}

/// Whether two optional strings hold the same text.
pub fn same_text(left: &Option<String>, right: &Option<String>) -> (same: bool)
    ensures
        same == (text_of(*left) == text_of(*right)),
{
    match (left, right) {
        (Some(left), Some(right)) => *left == *right,
        (None, None) => true,
        _ => false,
    }
}

/// A copy of an optional string.
pub fn clone_text(text: &Option<String>) -> (copy: Option<String>)
    ensures
        copy == *text,
{
    match text {
        Some(text) => Some(text.clone()),
        None => None,
    }
}

/// The number that a text of decimal digits stands for.
pub open spec fn number_read(text: Seq<char>) -> int
    decreases text.len(),
{
    if text.len() == 0 {
        0
    } else {
        10 * number_read(text.drop_last()) + (text.last() as int - '0' as int)
    }
}

proof fn lemma_digit_text(digit: int)
    requires
        0 <= digit < 10,
    ensures
        digit_text(digit).len() == 1,
        digit_text(digit)[0] as int == '0' as int + digit,
{
    reveal_strlit("0");
    reveal_strlit("1");
    reveal_strlit("2");
    reveal_strlit("3");
    reveal_strlit("4");
    reveal_strlit("5");
    reveal_strlit("6");
    reveal_strlit("7");
    reveal_strlit("8");
    reveal_strlit("9");
}

/// A number that was written in decimal can be read back; nothing but digits is
/// written, and no zero in front of other digits.
pub proof fn written_numbers_can_be_read(number: nat)
    ensures
        number_read(decimal(number)) == number,
        decimal(number).len() > 0,
        decimal(number)[0] == '0' <==> number == 0,
        forall|i: int| 0 <= i < decimal(number).len() ==> '0' <= #[trigger] decimal(number)[i] <= '9',
    decreases number,
{
    let last = (number % 10) as int;
    lemma_digit_text(last);
    let text = decimal(number);
    if number < 10 {
        assert(text.drop_last() =~= Seq::<char>::empty());
        assert(number_read(text.drop_last()) == 0);
    } else {
        let front = decimal(number / 10);
        written_numbers_can_be_read(number / 10);
        assert(text.drop_last() =~= front);
        assert(text.last() == digit_text(last)[0]);
        assert forall|i: int| 0 <= i < text.len() implies '0' <= #[trigger] text[i] <= '9' by {
            if i < front.len() {
                assert(text[i] == front[i]);
            }
        }
        assert(text[0] == front[0]);
    }
}

/// A negative number is written as its opposite with a minus sign in front, and
/// only a negative number has one.
pub proof fn a_minus_sign_marks_negative_numbers(number: int)
    ensures
        signed_decimal(number).len() > 0,
        signed_decimal(number)[0] == '-' <==> number < 0,
        number < 0 ==> number_read(signed_decimal(number).skip(1)) == -number,
        number >= 0 ==> number_read(signed_decimal(number)) == number,
{
    reveal_strlit("-");
    if number < 0 {
        written_numbers_can_be_read((-number) as nat);
        assert(signed_decimal(number).skip(1) =~= decimal((-number) as nat));
    } else {
        written_numbers_can_be_read(number as nat);
        assert('0' <= decimal(number as nat)[0]);
    }
}

/// Optional texts are the same exactly if both are missing, or both are there and read
/// alike; a copy reads like what it is a copy of.
pub proof fn texts_are_the_same_if_they_read_alike(
    left: &Option<String>,
    right: &Option<String>,
    same: bool,
    copy: Option<String>,
)
    requires
        call_ensures(same_text, (left, right), same),
        call_ensures(clone_text, (left,), copy),
    ensures
        same <==> (*left is None && *right is None) || (*left is Some && *right is Some
            && left->Some_0@ == right->Some_0@),
        copy is Some <==> *left is Some,
        *left is Some ==> copy->Some_0@ == left->Some_0@,
{
}

/// What is appended follows what was there, and is the number: it can be read back.
pub proof fn an_appended_number_can_be_read(
    out: &mut String,
    number: u128,
    signed_out: &mut String,
    signed_number: i32,
)
    requires
        call_ensures(push_decimal, (out, number), ()),
        call_ensures(push_signed_decimal, (signed_out, signed_number), ()),
    ensures
        final(out)@.take(old(out)@.len() as int) == old(out)@,
        number_read(final(out)@.skip(old(out)@.len() as int)) == number,
        final(signed_out)@.take(old(signed_out)@.len() as int) == old(signed_out)@,
        signed_number >= 0 ==> number_read(
            final(signed_out)@.skip(old(signed_out)@.len() as int),
        ) == signed_number,
        signed_number < 0 ==> final(signed_out)@[old(signed_out)@.len() as int] == '-'
            && number_read(final(signed_out)@.skip(old(signed_out)@.len() as int + 1))
            == -signed_number,
{
    let start = old(out)@.len() as int;
    let signed_start = old(signed_out)@.len() as int;
    written_numbers_can_be_read(number as nat);
    a_minus_sign_marks_negative_numbers(signed_number as int);
    assert(final(out)@.take(start) =~= old(out)@);
    assert(final(out)@.skip(start) =~= decimal(number as nat));
    let text = signed_decimal(signed_number as int);
    assert(final(signed_out)@.take(signed_start) =~= old(signed_out)@);
    assert(final(signed_out)@.skip(signed_start) =~= text);
    assert(final(signed_out)@.skip(signed_start + 1) =~= text.skip(1));
}

} // verus!
