//! Strings and numbers as text.

use vstd::prelude::*;

verus! {

/// The characters of an optional string.
pub open spec fn optional_view(text: Option<String>) -> Option<Seq<char>> {
    match text {
        Some(inner) => Some(inner@),
        None => None,
    }
}

/// The character of a decimal digit.
pub open spec fn digit_char(digit: nat) -> char
    recommends
        digit < 10,
{
    seq!['0', '1', '2', '3', '4', '5', '6', '7', '8', '9'][digit as int]
}

/// A number in decimal, without leading zeros.
pub open spec fn decimal(number: nat) -> Seq<char>
    decreases number,
{
    if number < 10 {
        seq![digit_char(number)]
    } else {
        decimal(number / 10).push(digit_char(number % 10))
    }
}

/// Text of one decimal digit.
fn digit_str(digit: u64) -> (text: &'static str)
    requires
        digit < 10,
    ensures
        text@ == seq![digit_char(digit as nat)],
{
    proof {
        reveal_strlit("0");
        reveal_strlit("1");
        reveal_strlit("2");
        reveal_strlit("3");
        reveal_strlit("4");
        reveal_strlit("5");
        reveal_strlit("6");
        reveal_strlit("7");
        reveal_strlit("8");
        reveal_strlit("9");
    }
    match digit {
        0 => "0",
        1 => "1",
        2 => "2",
        3 => "3",
        4 => "4",
        5 => "5",
        6 => "6",
        7 => "7",
        8 => "8",
        _ => "9",
    }
}

/// Append a number in decimal.
pub fn push_decimal(out: &mut String, number: u64)
    ensures
        final(out)@ == old(out)@ + decimal(number as nat),
    decreases number,
{
    if number >= 10 {
        push_decimal(out, number / 10);
    }
    out.append(digit_str(number % 10));
}

/// Whether two texts can be told apart by what they begin with: neither is the
/// beginning of the other, unless they are the same.
pub open spec fn told_apart(first: Seq<char>, second: Seq<char>) -> bool {
    first.is_prefix_of(second) || second.is_prefix_of(first) ==> first == second
}

/// Texts that differ somewhere within both can be told apart.
pub(crate) proof fn lemma_told_apart_at(first: Seq<char>, second: Seq<char>, at: int)
    requires
        0 <= at < first.len(),
        at < second.len(),
        first[at] != second[at],
    ensures
        told_apart(first, second),
{
    if first.is_prefix_of(second) {
        assert(first[at] == second.subrange(0, first.len() as int)[at]);
    }
    if second.is_prefix_of(first) {
        assert(second[at] == first.subrange(0, second.len() as int)[at]);
    }
}

/// If two texts that can be told apart are followed by something, and the whole is
/// the same, then so are both parts.
pub(crate) proof fn lemma_same_parts(
    first: Seq<char>,
    first_rest: Seq<char>,
    second: Seq<char>,
    second_rest: Seq<char>,
)
    requires
        told_apart(first, second),
        first + first_rest == second + second_rest,
    ensures
        first == second,
        first_rest == second_rest,
{
    let whole = first + first_rest;
    assert(whole.subrange(0, first.len() as int) =~= first);
    assert(whole.subrange(0, second.len() as int) =~= second);
    if first.len() <= second.len() {
        assert(second.subrange(0, first.len() as int) =~= first);
    } else {
        assert(first.subrange(0, second.len() as int) =~= second);
    }
    assert(whole.subrange(first.len() as int, whole.len() as int) =~= first_rest);
    assert(whole.subrange(second.len() as int, whole.len() as int) =~= second_rest);
}

/// It does not matter which two of three texts are joined first.
pub(crate) proof fn lemma_regroup(first: Seq<char>, second: Seq<char>, third: Seq<char>)
    ensures
        (first + second) + third == first + (second + third),
{
    assert((first + second) + third =~= first + (second + third));
}

/// The same text in front leaves what can be told apart as it is.
pub(crate) proof fn lemma_told_apart_behind(lead: Seq<char>, first: Seq<char>, second: Seq<char>)
    requires
        told_apart(first, second),
    ensures
        told_apart(lead + first, lead + second),
{
    let left = lead + first;
    let right = lead + second;
    if left.is_prefix_of(right) {
        assert(first =~= second.subrange(0, first.len() as int)) by {
            assert forall|i: int| 0 <= i < first.len() implies first[i] == second[i] by {
                assert(left[lead.len() + i] == right.subrange(0, left.len() as int)[lead.len() + i]);
            }
        }
    }
    if right.is_prefix_of(left) {
        assert(second =~= first.subrange(0, second.len() as int)) by {
            assert forall|i: int| 0 <= i < second.len() implies second[i] == first[i] by {
                assert(right[lead.len() + i] == left.subrange(0, right.len() as int)[lead.len()
                    + i]);
            }
        }
    }
}

/// The same text behind them leaves texts that can be told apart as they are.
pub(crate) proof fn lemma_told_apart_before(first: Seq<char>, second: Seq<char>, end: Seq<char>)
    requires
        told_apart(first, second),
    ensures
        told_apart(first + end, second + end),
{
    if first != second {
        if first.len() <= second.len() {
            let at = choose|at: int| 0 <= at < first.len() && first[at] != second[at];
            if forall|i: int| 0 <= i < first.len() ==> first[i] == second[i] {
                assert(first =~= second.subrange(0, first.len() as int));
            }
            lemma_told_apart_at(first + end, second + end, at);
        } else {
            let at = choose|at: int| 0 <= at < second.len() && first[at] != second[at];
            if forall|i: int| 0 <= i < second.len() ==> first[i] == second[i] {
                assert(second =~= first.subrange(0, second.len() as int));
            }
            lemma_told_apart_at(first + end, second + end, at);
        }
    }
}

/// A number in decimal is made of digits.
proof fn lemma_decimal_digits(number: nat)
    ensures
        decimal(number).len() > 0,
        forall|i: int| 0 <= i < decimal(number).len() ==> '0' <= #[trigger] decimal(number)[i] <= '9',
    decreases number,
{
    if number >= 10 {
        lemma_decimal_digits(number / 10);
    }
}

/// Different numbers are different in decimal.
pub proof fn law_decimal_is_faithful(first: nat, second: nat)
    requires
        decimal(first) == decimal(second),
    ensures
        first == second,
    decreases first,
{
    lemma_decimal_digits(first / 10);
    lemma_decimal_digits(second / 10);
    assert(decimal(first).last() == digit_char(first % 10));
    assert(decimal(second).last() == digit_char(second % 10));
    if first >= 10 && second >= 10 {
        assert(decimal(first).drop_last() =~= decimal(first / 10));
        assert(decimal(second).drop_last() =~= decimal(second / 10));
        law_decimal_is_faithful(first / 10, second / 10);
    }
}

/// Different numbers in decimal can be told apart once something other than a
/// digit follows.
pub(crate) proof fn lemma_decimals_told_apart(first: nat, second: nat, end: Seq<char>)
    requires
        end.len() > 0,
        end[0] < '0' || end[0] > '9',
    ensures
        told_apart(decimal(first) + end, decimal(second) + end),
        decimal(first) + end == decimal(second) + end ==> first == second,
{
    let left = decimal(first);
    let right = decimal(second);
    lemma_decimal_digits(first);
    lemma_decimal_digits(second);
    if left.len() < right.len() {
        assert((left + end)[left.len() as int] == end[0]);
        assert((right + end)[left.len() as int] == right[left.len() as int]);
        lemma_told_apart_at(left + end, right + end, left.len() as int);
    } else if right.len() < left.len() {
        assert((right + end)[right.len() as int] == end[0]);
        assert((left + end)[right.len() as int] == left[right.len() as int]);
        lemma_told_apart_at(left + end, right + end, right.len() as int);
    } else if left == right {
        law_decimal_is_faithful(first, second);
    } else {
        let at = choose|at: int| 0 <= at < left.len() && left[at] != right[at];
        if forall|i: int| 0 <= i < left.len() ==> left[i] == right[i] {
            assert(left =~= right);
        }
        lemma_told_apart_at(left + end, right + end, at);
        assert((left + end)[at] != (right + end)[at]);
    }
}

/// An optional string is seen as what it is: with its characters, or as none.
pub proof fn law_optional_view_keeps_the_text(text: String)
    ensures
        optional_view(Some(text)) == Some(text@),
        optional_view(None) is None,
{
}

/// The number that a text of decimal digits stands for.
pub open spec fn read_decimal(digits: Seq<char>) -> int
    decreases digits.len(),
{
    if digits.len() == 0 {
        0
    } else {
        read_decimal(digits.drop_last()) * 10 + (digits.last() as int - '0' as int)
    }
}

/// A number in decimal is made of digits, does not begin with a zero unless it is a
/// single digit, and reads back as the number.
pub proof fn law_decimal_reads_back(number: nat)
    ensures
        decimal(number).len() > 0,
        forall|i: int| 0 <= i < decimal(number).len() ==> '0' <= #[trigger] decimal(number)[i] <= '9',
        decimal(number).len() > 1 ==> decimal(number)[0] != '0',
        read_decimal(decimal(number)) == number,
    decreases number,
{
    lemma_decimal_digits(number);
    reveal_with_fuel(read_decimal, 2);
    if number < 10 {
        assert(decimal(number).drop_last() =~= Seq::<char>::empty());
        assert(digit_char(number) as int - '0' as int == number);
    } else {
        law_decimal_reads_back(number / 10);
        assert(decimal(number).drop_last() =~= decimal(number / 10));
        assert(digit_char(number % 10) as int - '0' as int == number % 10);
        if number / 10 < 10 {
            assert(decimal(number)[0] == digit_char(number / 10));
        }
    }
}

} // verus!
