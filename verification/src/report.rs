//! How values are printed where something did not come out as expected.

use crate::text::{decimal, decimal_text, signed_decimal, signed_decimal_text, views};
use vstd::prelude::*;
use vstd::string::*;

verus! {

/// A text as it is printed for debugging: in quotes, with escapes.
pub uninterp spec fn text_debug(text: Seq<char>) -> Seq<char>;

/// `Debug` of std's `str`, through std's `format!`: what it writes depends on the
/// text alone. Which characters it escapes is not stated.
#[verifier::external_body]
pub(crate) fn debug_text(text: &str) -> (r: String)
    ensures
        r@ == text_debug(text@),
{
    format!("{:?}", text)
}

/// The elements of a list of texts as they are printed, without the brackets.
pub open spec fn elements_debug(list: Seq<Seq<char>>) -> Seq<char>
    decreases list.len(),
{
    if list.len() == 0 {
        ""@
    } else if list.len() == 1 {
        text_debug(list[0])
    } else {
        elements_debug(list.drop_last()) + ", "@ + text_debug(list.last())
    }
}

/// A list of texts as it is printed.
pub open spec fn list_debug(list: Seq<Seq<char>>) -> Seq<char> {
    "["@ + elements_debug(list) + "]"@
}

/// An optional text as it is printed.
pub open spec fn option_debug(text: Option<Seq<char>>) -> Seq<char> {
    match text {
        Some(text) => "Some("@ + text_debug(text) + ")"@,
        None => "None"@,
    }
}

/// An optional number as it is printed.
pub open spec fn code_debug(code: Option<i32>) -> Seq<char> {
    match code {
        Some(code) => "Some("@ + signed_decimal(code as int) + ")"@,
        None => "None"@,
    }
}

/// What is said where two values had to be equal: the message, and both values as
/// they are printed.
pub open spec fn unequal(message: Seq<char>, left: Seq<char>, right: Seq<char>) -> Seq<char> {
    "assertion `left == right` failed: "@ + message + "\n  left: "@ + left + "\n right: "@ + right
}

/// What is said where an action failed: what was expected of it, and its error.
pub open spec fn unmet(expectation: Seq<char>, error: Seq<char>) -> Seq<char> {
    expectation + ": "@ + error
}

/// What is said where a value had to be there.
pub const NOTHING_THERE: &'static str = "called `Option::unwrap()` on a `None` value";

/// What is expected of an action of which nothing else is said.
pub const NO_ERROR: &'static str = "called `Result::unwrap()` on an `Err` value";

/// Prints a list of texts.
pub(crate) fn list_text(list: &Vec<String>) -> (r: String)
    ensures
        r@ == list_debug(views(list@)),
{
    let ghost all = views(list@);
    let mut elements = "".to_owned();
    let mut i: usize = 0;
    proof {
        assert(all.take(0) =~= Seq::empty());
    }
    while i < list.len()
        invariant
            i <= list@.len(),
            all == views(list@),
            elements@ == elements_debug(all.take(i as int)),
        decreases list@.len() - i,
    {
        let ghost before = all.take(i as int);
        let ghost longer = all.take(i + 1);
        let printed = debug_text(list[i].as_str());
        proof {
            assert(longer.drop_last() =~= before);
            assert(longer.last() == list@[i as int]@);
            assert(i == 0 ==> longer[0] == list@[0]@);
        }
        if i == 0 {
            elements = printed;
        } else {
            elements.append(", ");
            elements.append(printed.as_str());
        }
        i = i + 1;
    }
    proof {
        assert(all.take(i as int) =~= all);
    }
    let mut out = "[".to_owned();
    out.append(elements.as_str());
    out.append("]");
    out
}

/// Prints an optional text.
pub(crate) fn option_text(text: &Option<String>) -> (r: String)
    ensures
        r@ == option_debug(
            match text {
                Some(text) => Some(text@),
                None => None,
            },
        ),
{
    match text {
        Some(text) => {
            let mut out = "Some(".to_owned();
            out.append(debug_text(text.as_str()).as_str());
            out.append(")");
            out
        },
        None => "None".to_owned(),
    }
}

/// Prints an optional number.
pub(crate) fn code_text(code: Option<i32>) -> (r: String)
    ensures
        r@ == code_debug(code),
{
    match code {
        Some(code) => {
            let mut out = "Some(".to_owned();
            out.append(signed_decimal_text(code).as_str());
            out.append(")");
            out
        },
        None => "None".to_owned(),
    }
}

/// Writes what is said where two values had to be equal.
pub(crate) fn unequal_text(message: &str, left: &str, right: &str) -> (r: String)
    ensures
        r@ == unequal(message@, left@, right@),
{
    let mut out = "assertion `left == right` failed: ".to_owned();
    out.append(message);
    out.append("\n  left: ");
    out.append(left);
    out.append("\n right: ");
    out.append(right);
    out
}

/// Writes what is said where two numbers had to be equal.
pub(crate) fn unequal_numbers_text(message: &str, left: u128, right: u128) -> (r: String)
    ensures
        r@ == unequal(message@, decimal(left as nat), decimal(right as nat)),
{
    unequal_text(message, decimal_text(left).as_str(), decimal_text(right).as_str())
}

/// Writes what is said where two texts had to be equal.
pub(crate) fn unequal_texts_text(message: &str, left: &str, right: &str) -> (r: String)
    ensures
        r@ == unequal(message@, text_debug(left@), text_debug(right@)),
{
    unequal_text(message, debug_text(left).as_str(), debug_text(right).as_str())
}

/// Writes what is said where an action failed.
pub(crate) fn unmet_text(expectation: &str, error: &str) -> (r: String)
    ensures
        r@ == unmet(expectation@, error@),
{
    let mut out = expectation.to_owned();
    out.append(": ");
    out.append(error);
    out
}

} // verus!
