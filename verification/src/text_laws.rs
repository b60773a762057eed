//! What the functions on texts give, whatever they are given.

use crate::text::{
    decimal, decimal_text, digit, fields, fields_join_back, is_white_space, joined,
    signed_decimal_text, split_at_commas, trimmed, views,
};
use vstd::prelude::*;
use vstd::string::*;

verus! {

/// The number that a text of decimal digits stands for.
pub open spec fn number(text: Seq<char>) -> int
    decreases text.len(),
{
    if text.len() == 0 {
        0
    } else {
        number(text.drop_last()) * 10 + (text.last() as int - '0' as int)
    }
}

/// Whether a text is a number as it is usually written: decimal digits, at least one,
/// and the first of several is not a zero.
pub open spec fn is_numeral(text: Seq<char>) -> bool {
    &&& text.len() > 0
    &&& forall|i: int| 0 <= i < text.len() ==> '0' <= #[trigger] text[i] <= '9'
    &&& text.len() > 1 ==> text[0] != '0'
}

/// The decimal form of a number is a numeral that stands for it.
pub proof fn a_decimal_stands_for_its_number(n: nat)
    ensures
        is_numeral(decimal(n)),
        number(decimal(n)) == n,
        n > 0 ==> decimal(n)[0] != '0',
    decreases n,
{
    let last = digit(n % 10);
    assert('0' <= last <= '9' && last as int - '0' as int == n % 10);
    if n < 10 {
        assert(decimal(n) =~= seq![last]);
        assert(decimal(n).drop_last() =~= Seq::empty());
        assert(number(decimal(n).drop_last()) == 0);
    } else {
        let front = decimal(n / 10);
        a_decimal_stands_for_its_number(n / 10);
        assert(decimal(n).drop_last() =~= front);
    }
}

/// A number is written as the numeral that stands for it.
pub proof fn a_written_number_reads_as_itself(n: u128, written: String)
    requires
        call_ensures(decimal_text, (n,), written),
    ensures
        is_numeral(written@),
        number(written@) == n,
{
    a_decimal_stands_for_its_number(n as nat);
}

/// A signed number is written as the numeral of its magnitude, behind a minus sign if
/// and only if it is negative.
pub proof fn a_written_signed_number_reads_as_itself(n: i32, written: String)
    requires
        call_ensures(signed_decimal_text, (n,), written),
    ensures
        n >= 0 ==> is_numeral(written@) && number(written@) == n,
        n < 0 ==> written@.len() > 0 && written@[0] == '-' && is_numeral(written@.skip(1))
            && number(written@.skip(1)) == -n,
{
    if n < 0 {
        a_decimal_stands_for_its_number((-n) as nat);
        assert(written@.skip(1) =~= decimal((-n) as nat));
    } else {
        a_decimal_stands_for_its_number(n as nat);
    }
}

/// The number of commas in a text.
pub open spec fn commas(text: Seq<char>) -> nat
    decreases text.len(),
{
    if text.len() == 0 {
        0
    } else {
        commas(text.drop_last()) + if text.last() == ',' {
            1nat
        } else {
            0nat
        }
    }
}

/// A text has one field more than it has commas.
pub proof fn field_count_is_that_of_commas(text: Seq<char>)
    ensures
        fields(text).len() == commas(text) + 1,
    decreases text.len(),
{
    if text.len() > 0 {
        field_count_is_that_of_commas(text.drop_last());
        fields_join_back(text.drop_last());
    }
}

/// Splitting a text gives one part more than it has commas, no part with a comma in it,
/// and the parts with a comma between each and the next are the text.
pub proof fn split_parts_make_up_the_text(text: &str, parts: Vec<String>)
    requires
        call_ensures(split_at_commas, (text,), parts),
    ensures
        parts@.len() == commas(text@) + 1,
        forall|i: int| 0 <= i < parts@.len() ==> !(#[trigger] parts@[i])@.contains(','),
        joined(Seq::new(parts@.len(), |i: int| parts@[i]@)) == text@,
{
    field_count_is_that_of_commas(text@);
    fields_join_back(text@);
    assert(Seq::new(parts@.len(), |i: int| parts@[i]@) =~= views(parts@));
    assert(views(parts@) == fields(text@));
    assert forall|i: int| 0 <= i < parts@.len() implies !(#[trigger] parts@[i])@.contains(',') by {
        assert(views(parts@)[i] == parts@[i]@);
    }
}

/// Texts that are joined have a comma between each and the next, and nothing else is
/// put in.
pub proof fn joining_puts_in_commas(first: Seq<char>, parts: Seq<Seq<char>>)
    requires
        parts.len() > 0,
    ensures
        joined(seq![first]) == first,
        joined(seq![first] + parts) == first + seq![','] + joined(parts),
    decreases parts.len(),
{
    let whole = seq![first] + parts;
    if parts.len() == 1 {
        assert(whole.drop_last() =~= seq![first]);
        assert(joined(seq![first]) == first);
        assert(whole.last() == parts[0]);
        assert(joined(whole) =~= first + seq![','] + joined(parts));
    } else {
        let front = parts.drop_last();
        joining_puts_in_commas(first, front);
        assert(whole.drop_last() =~= seq![first] + front);
        assert(whole.last() == parts.last());
        assert(joined(whole) =~= first + seq![','] + joined(parts));
    }
}

/// Trimming takes white space off both ends and nothing else: what it leaves is a
/// piece of the text, all around it is white space, and it neither begins nor ends
/// with white space.
pub proof fn trimming_takes_off_white_space_only(text: Seq<char>) -> (ends: (int, int))
    ensures
        0 <= ends.0 <= ends.1 <= text.len(),
        trimmed(text) == text.subrange(ends.0, ends.1),
        forall|i: int|
            0 <= i < text.len() && (i < ends.0 || i >= ends.1) ==> is_white_space(
                #[trigger] text[i],
            ),
        ends.0 < ends.1 ==> !is_white_space(text[ends.0]) && !is_white_space(text[ends.1 - 1]),
    decreases text.len(),
{
    if text.len() > 0 && is_white_space(text[0]) {
        let rest = text.drop_first();
        let inner = trimming_takes_off_white_space_only(rest);
        assert(rest.subrange(inner.0, inner.1) =~= text.subrange(inner.0 + 1, inner.1 + 1));
        assert forall|i: int|
            0 <= i < text.len() && (i < inner.0 + 1 || i >= inner.1 + 1) implies is_white_space(
            #[trigger] text[i],
        ) by {
            if i > 0 {
                assert(rest[i - 1] == text[i]);
            }
        }
        (inner.0 + 1, inner.1 + 1)
    } else if text.len() > 0 && is_white_space(text.last()) {
        let rest = text.drop_last();
        let inner = trimming_takes_off_white_space_only(rest);
        assert(rest.subrange(inner.0, inner.1) =~= text.subrange(inner.0, inner.1));
        assert forall|i: int|
            0 <= i < text.len() && (i < inner.0 || i >= inner.1) implies is_white_space(
            #[trigger] text[i],
        ) by {
            if i < text.len() - 1 {
                assert(rest[i] == text[i]);
            }
        }
        inner
    } else {
        assert(text.subrange(0, text.len() as int) =~= text);
        (0, text.len() as int)
    }
}

} // verus!
