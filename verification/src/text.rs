//! Text as sequences of characters: decimal numbers, trimming, and fields
//! separated by commas.

use vstd::prelude::*;
use vstd::string::*;

verus! {

/// The views of a list of strings.
pub open spec fn views(list: Seq<String>) -> Seq<Seq<char>> {
    Seq::new(list.len(), |i: int| list[i]@)
}

/// The view of an optional string.
pub open spec fn option_view(text: Option<String>) -> Option<Seq<char>> {
    match text {
        Some(s) => Some(s@),
        None => None,
    }
}

/// The decimal digit of a number below ten.
pub open spec fn digit(n: nat) -> char {
    seq!['0', '1', '2', '3', '4', '5', '6', '7', '8', '9'][n as int]
}

/// A natural number in decimal, without leading zeros.
pub open spec fn decimal(n: nat) -> Seq<char>
    decreases n,
{
    if n < 10 {
        seq![digit(n)]
    } else {
        decimal(n / 10).push(digit(n % 10))
    }
}

/// An integer in decimal, with a minus sign in front of a negative one.
pub open spec fn signed_decimal(n: int) -> Seq<char> {
    if n < 0 {
        seq!['-'] + decimal((-n) as nat)
    } else {
        decimal(n as nat)
    }
}

fn digit_text(n: u128) -> (r: &'static str)
    requires
        n < 10,
    ensures
        r@ == seq![digit(n as nat)],
{
    proof {
        reveal_strlit("0");
        reveal_strlit("1");
        reveal_strlit("2");
        reveal_strlit("3");
        reveal_strlit("4");
        reveal_strlit("5");
        reveal_strlit("6");
        reveal_strlit("7");
        reveal_strlit("8");
        reveal_strlit("9");
    }
    if n == 0 {
        "0"
    } else if n == 1 {
        "1"
    } else if n == 2 {
        "2"
    } else if n == 3 {
        "3"
    } else if n == 4 {
        "4"
    } else if n == 5 {
        "5"
    } else if n == 6 {
        "6"
    } else if n == 7 {
        "7"
    } else if n == 8 {
        "8"
    } else {
        "9"
    }
}

/// Writes a natural number in decimal.
pub fn decimal_text(n: u128) -> (r: String)
    ensures
        r@ == decimal(n as nat),
    decreases n,
{
    if n < 10 {
        digit_text(n).to_owned()
    } else {
        let mut out = decimal_text(n / 10);
        out.append(digit_text(n % 10));
        proof {
            assert(out@ =~= decimal(n as nat));
        }
        out
    }
}

/// Writes a signed number in decimal.
pub fn signed_decimal_text(n: i32) -> (r: String)
    ensures
        r@ == signed_decimal(n as int),
{
    if n < 0 {
        let magnitude: i64 = -(n as i64);
        let digits = decimal_text(magnitude as u128);
        let mut out = "-".to_owned();
        out.append(digits.as_str());
        proof {
            reveal_strlit("-");
            assert(out@ =~= signed_decimal(n as int));
        }
        out
    } else {
        decimal_text(n as u128)
    }
}

/// Whether a character has the Unicode property White_Space.
pub open spec fn is_white_space(c: char) -> bool {
    let u = c as int;
    ||| 0x9 <= u <= 0xd
    ||| u == 0x20
    ||| u == 0x85
    ||| u == 0xa0
    ||| u == 0x1680
    ||| 0x2000 <= u <= 0x200a
    ||| u == 0x2028
    ||| u == 0x2029
    ||| u == 0x202f
    ||| u == 0x205f
    ||| u == 0x3000
}

/// A text without the white space it starts and ends with.
pub open spec fn trimmed(s: Seq<char>) -> Seq<char>
    decreases s.len(),
{
    if s.len() > 0 && is_white_space(s[0]) {
        trimmed(s.drop_first())
    } else if s.len() > 0 && is_white_space(s.last()) {
        trimmed(s.drop_last())
    } else {
        s
    }
}

/// Whether every character of a text is white space.
pub open spec fn all_white_space(s: Seq<char>) -> bool {
    forall|i: int| 0 <= i < s.len() ==> is_white_space(#[trigger] s[i])
}

proof fn lemma_trimmed_front(white: Seq<char>, s: Seq<char>)
    requires
        all_white_space(white),
    ensures
        trimmed(white + s) == trimmed(s),
    decreases white.len(),
{
    if white.len() == 0 {
        assert(white + s =~= s);
    } else {
        let rest = white.drop_first();
        assert forall|i: int| 0 <= i < rest.len() implies is_white_space(#[trigger] rest[i]) by {
            assert(rest[i] == white[i + 1]);
        }
        lemma_trimmed_front(rest, s);
        assert((white + s)[0] == white[0]);
        assert((white + s).drop_first() =~= rest + s);
    }
}

proof fn lemma_trimmed_back(s: Seq<char>, white: Seq<char>)
    requires
        all_white_space(white),
    ensures
        trimmed(s + white) == trimmed(s),
    decreases s.len() + white.len(),
{
    let whole = s + white;
    if white.len() == 0 {
        assert(whole =~= s);
    } else if s.len() == 0 {
        lemma_trimmed_front(white, s);
        assert(whole =~= white + s);
    } else if is_white_space(s[0]) {
        lemma_trimmed_back(s.drop_first(), white);
        assert(whole[0] == s[0]);
        assert(whole.drop_first() =~= s.drop_first() + white);
    } else {
        let rest = white.drop_last();
        assert forall|i: int| 0 <= i < rest.len() implies is_white_space(#[trigger] rest[i]) by {
            assert(rest[i] == white[i]);
        }
        lemma_trimmed_back(s, rest);
        assert(whole[0] == s[0]);
        assert(whole.last() == white[white.len() - 1]);
        assert(whole.drop_last() =~= s + rest);
    }
}

/// White space around a text makes no difference to what trimming leaves.
pub proof fn surrounding_white_space_is_trimmed(
    before: Seq<char>,
    s: Seq<char>,
    after: Seq<char>,
)
    requires
        all_white_space(before),
        all_white_space(after),
    ensures
        trimmed(before + s + after) == trimmed(s),
{
    lemma_trimmed_back(before + s, after);
    lemma_trimmed_front(before, s);
}

/// A text without white space is what trimming leaves of it.
pub proof fn text_without_white_space_stays(s: Seq<char>)
    requires
        forall|i: int| 0 <= i < s.len() ==> !is_white_space(#[trigger] s[i]),
    ensures
        trimmed(s) == s,
{
}

/// `str::trim` of std: the text without the characters of the Unicode property
/// White_Space at its start and at its end.
pub assume_specification[ str::trim ](s: &str) -> (r: &str)
    ensures
        r@ == trimmed(s@),
;

/// The fields of a text between its commas. A text without a comma is one field.
pub open spec fn fields(s: Seq<char>) -> Seq<Seq<char>>
    decreases s.len(),
{
    if s.len() == 0 {
        seq![Seq::empty()]
    } else {
        let before = fields(s.drop_last());
        if s.last() == ',' {
            before.push(Seq::empty())
        } else {
            before.drop_last().push(before.last().push(s.last()))
        }
    }
}

/// A list of texts joined by commas.
pub open spec fn joined(parts: Seq<Seq<char>>) -> Seq<char>
    decreases parts.len(),
{
    if parts.len() == 0 {
        Seq::empty()
    } else if parts.len() == 1 {
        parts[0]
    } else {
        joined(parts.drop_last()) + seq![','] + parts.last()
    }
}

/// Whether no text of a list holds a comma.
pub open spec fn comma_free(parts: Seq<Seq<char>>) -> bool {
    forall|i: int| 0 <= i < parts.len() ==> !(#[trigger] parts[i]).contains(',')
}

proof fn lemma_fields_nonempty(s: Seq<char>)
    ensures
        fields(s).len() >= 1,
    decreases s.len(),
{
    if s.len() > 0 {
        lemma_fields_nonempty(s.drop_last());
    }
}

proof fn lemma_fields_extend(s: Seq<char>, tail: Seq<char>)
    requires
        !tail.contains(','),
    ensures
        fields(s + tail) == fields(s).drop_last().push(fields(s).last() + tail),
    decreases tail.len(),
{
    lemma_fields_nonempty(s);
    if tail.len() == 0 {
        assert(s + tail =~= s);
        assert(fields(s).last() + tail =~= fields(s).last());
        assert(fields(s) =~= fields(s).drop_last().push(fields(s).last()));
    } else {
        let shorter = tail.drop_last();
        assert forall|i: int| 0 <= i < shorter.len() implies shorter[i] != ',' by {
            assert(shorter[i] == tail[i]);
        }
        lemma_fields_extend(s, shorter);
        assert((s + tail).drop_last() =~= s + shorter);
        assert((s + tail).last() == tail.last());
        assert(tail.contains(tail.last()));
        let before = fields(s + shorter);
        assert(before.drop_last() =~= fields(s).drop_last());
        assert(before.last().push(tail.last()) =~= fields(s).last() + tail);
    }
}

/// The fields of a text, joined by commas, are the text, and none holds a comma.
pub proof fn fields_join_back(s: Seq<char>)
    ensures
        joined(fields(s)) == s,
        comma_free(fields(s)),
        fields(s).len() >= 1,
    decreases s.len(),
{
    if s.len() == 0 {
        assert(joined(fields(s)) =~= s);
    } else {
        let front = s.drop_last();
        fields_join_back(front);
        let before = fields(front);
        let after = fields(s);
        if s.last() == ',' {
            assert(after.drop_last() =~= before);
            assert(joined(after) =~= front + seq![','] + Seq::empty());
            assert(joined(after) =~= s);
        } else {
            assert(after.drop_last() =~= before.drop_last());
            assert(before.last() == before[before.len() - 1]);
            assert(after.last() == before.last().push(s.last()));
            assert(joined(after) =~= joined(before).push(s.last()));
            assert(joined(after) =~= s);
            assert forall|i: int| 0 <= i < after.len() implies !(#[trigger] after[i]).contains(',') by {
                if i < before.len() - 1 {
                    assert(after[i] == before[i]);
                } else {
                    let last = before.last();
                    assert forall|k: int| 0 <= k < after[i].len() implies after[i][k] != ',' by {
                        if k < last.len() {
                            assert(last[k] == after[i][k]);
                            assert(last.contains(last[k]));
                        }
                    }
                }
            }
        }
    }
}

/// Texts without commas, joined by commas, have themselves as fields: splitting
/// undoes joining on every list but the empty one.
pub proof fn fields_of_joined(parts: Seq<Seq<char>>)
    requires
        parts.len() >= 1,
        comma_free(parts),
    ensures
        fields(joined(parts)) == parts,
    decreases parts.len(),
{
    let last = parts.last();
    assert(last == parts[parts.len() - 1]);
    if parts.len() == 1 {
        lemma_fields_extend(Seq::empty(), last);
        assert(Seq::<char>::empty() + last =~= last);
        assert(fields(Seq::<char>::empty()).drop_last() =~= Seq::empty());
        assert(fields(joined(parts)) =~= parts);
    } else {
        let front = parts.drop_last();
        assert forall|i: int| 0 <= i < front.len() implies !(#[trigger] front[i]).contains(',') by {
            assert(front[i] == parts[i]);
        }
        fields_of_joined(front);
        let opened = joined(front) + seq![','];
        assert(opened.drop_last() =~= joined(front));
        lemma_fields_extend(opened, last);
        assert(fields(opened) == front.push(Seq::empty()));
        assert(fields(opened).drop_last() =~= front);
        assert(Seq::<char>::empty() + last =~= last);
        assert(fields(joined(parts)) =~= parts);
    }
}

/// Splits a text at its commas.
pub fn split_at_commas(s: &str) -> (r: Vec<String>)
    ensures
        views(r@) == fields(s@),
{
    let len: usize = s.unicode_len();
    let mut parts: Vec<String> = Vec::new();
    let mut start: usize = 0;
    let mut i: usize = 0;
    proof {
        assert(s@.take(0) =~= Seq::empty());
        assert(views(parts@).push(s@.subrange(0, 0)) =~= fields(s@.take(0)));
    }
    while i < len
        invariant
            start <= i <= len,
            len == s@.len(),
            views(parts@).push(s@.subrange(start as int, i as int)) == fields(s@.take(i as int)),
        decreases len - i,
    {
        let ghost before = views(parts@);
        let ghost field = s@.subrange(start as int, i as int);
        let c: char = s.get_char(i);
        proof {
            assert(s@.take(i + 1).drop_last() =~= s@.take(i as int));
            assert(before.push(field).drop_last() =~= before);
        }
        if c == ',' {
            let part = s.substring_char(start, i).to_owned();
            parts.push(part);
            start = i + 1;
            proof {
                assert(views(parts@) =~= before.push(field));
                assert(s@.subrange(start as int, i + 1) =~= Seq::empty());
            }
        } else {
            proof {
                assert(s@.subrange(start as int, i + 1) =~= field.push(c));
            }
        }
        i = i + 1;
    }
    let ghost before = views(parts@);
    let last = s.substring_char(start, len).to_owned();
    parts.push(last);
    proof {
        assert(s@.take(len as int) =~= s@);
        assert(views(parts@) =~= before.push(s@.subrange(start as int, len as int)));
    }
    parts
}

} // verus!
