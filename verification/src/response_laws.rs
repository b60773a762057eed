//! What is found out about the pool's answers, and what is said of them.

use crate::report::{code_debug, list_debug, option_debug, text_debug, unequal, unmet};
use crate::response::{
    assert_halted_at_signing, halt_complaint_text, response_code, response_hash_count,
    response_status, seed_complaint_text, seed_deposit, went_through_proof_and_simulation,
    HaltCheck, PoolExecuteResult,
};
use crate::text::{decimal, option_view, signed_decimal, views};
use vstd::prelude::*;
use vstd::string::*;

verus! {

/// Whether a text is among texts.
pub open spec fn has_stage(stages: Seq<String>, wanted: Seq<char>) -> bool {
    exists|i: int| 0 <= i < stages.len() && (#[trigger] stages[i])@ == wanted
}

/// A flow counts as halted at the signing boundary exactly where the answer says
/// that it failed, with the code -4 and without a transaction, and a stage is that
/// of signing. What is found missing is the first of these, in this order.
pub proof fn a_flow_is_halted_exactly_at_signing(
    response: &PoolExecuteResult,
    stages: &Vec<String>,
    judged: Result<(), HaltCheck>,
)
    requires
        call_ensures(assert_halted_at_signing, (response, stages), judged),
    ensures
        judged is Ok <==> response.status@ == "failed"@ && response.code == Some(-4i32)
            && response.hashes@.len() == 0 && has_stage(stages@, "sign"@),
        judged matches Err(HaltCheck::Status) <==> response.status@ != "failed"@,
        judged matches Err(HaltCheck::Code) <==> response.status@ == "failed"@ && response.code
            != Some(-4i32),
        judged matches Err(HaltCheck::Hashes) <==> response.status@ == "failed"@ && response.code
            == Some(-4i32) && response.hashes@.len() > 0,
        judged matches Err(HaltCheck::Stage) <==> response.status@ == "failed"@ && response.code
            == Some(-4i32) && response.hashes@.len() == 0 && !has_stage(stages@, "sign"@),
{
    let list = views(stages@);
    assert(list.len() == stages@.len());
    assert forall|i: int| 0 <= i < stages@.len() implies list[i] == (#[trigger] stages@[i])@ by {}
}

/// Whether a flow is halted depends on nothing else that the answer holds: neither on
/// its message nor on stages beside that of signing. More stages make no halted flow
/// fail.
pub proof fn other_stages_do_not_matter(
    response: &PoolExecuteResult,
    other: &PoolExecuteResult,
    stages: &Vec<String>,
    more: &Vec<String>,
    judged: Result<(), HaltCheck>,
    again: Result<(), HaltCheck>,
)
    requires
        call_ensures(assert_halted_at_signing, (response, stages), judged),
        call_ensures(assert_halted_at_signing, (other, more), again),
        other.status@ == response.status@,
        other.code == response.code,
        other.hashes@.len() == response.hashes@.len(),
        forall|i: int| 0 <= i < stages@.len() ==> has_stage(more@, (#[trigger] stages@[i])@),
    ensures
        judged is Ok ==> again is Ok,
{
    a_flow_is_halted_exactly_at_signing(response, stages, judged);
    a_flow_is_halted_exactly_at_signing(other, more, again);
}

/// A flow went through proof and simulation before signing exactly where the stages of
/// proof, simulation and signing stand in this order, with whatever between them.
pub proof fn proof_and_simulation_come_before_signing(stages: &Vec<String>, judged: bool)
    requires
        call_ensures(went_through_proof_and_simulation, (stages,), judged),
    ensures
        judged <==> exists|i: int, j: int, k: int|
            0 <= i < j < k < stages@.len() && (#[trigger] stages@[i])@ == "prove"@ && (
            #[trigger] stages@[j])@ == "simulate"@ && (#[trigger] stages@[k])@ == "sign"@,
{
    let list = views(stages@);
    assert forall|i: int| 0 <= i < stages@.len() implies list[i] == (#[trigger] stages@[i])@ by {}
    if judged {
        let (i, j, k) = choose|i: int, j: int, k: int|
            0 <= i < j < k < list.len() && #[trigger] list[i] == "prove"@ && #[trigger] list[j]
                == "simulate"@ && #[trigger] list[k] == "sign"@;
        assert(stages@[i]@ == "prove"@ && stages@[j]@ == "simulate"@ && stages@[k]@ == "sign"@);
    }
    if exists|i: int, j: int, k: int|
        0 <= i < j < k < stages@.len() && (#[trigger] stages@[i])@ == "prove"@ && (
        #[trigger] stages@[j])@ == "simulate"@ && (#[trigger] stages@[k])@ == "sign"@ {
        let (i, j, k) = choose|i: int, j: int, k: int|
            0 <= i < j < k < stages@.len() && (#[trigger] stages@[i])@ == "prove"@ && (
            #[trigger] stages@[j])@ == "simulate"@ && (#[trigger] stages@[k])@ == "sign"@;
        assert(list[i] == "prove"@ && list[j] == "simulate"@ && list[k] == "sign"@);
    }
}

/// What is read of an answer is what it holds.
pub proof fn answers_are_read_as_they_are(
    response: &PoolExecuteResult,
    status: String,
    count: usize,
    code: Option<i32>,
)
    requires
        call_ensures(response_status, (response,), status),
        call_ensures(response_hash_count, (response,), count),
        call_ensures(response_code, (response,), code),
    ensures
        status@ == response.status@,
        count == response.hashes@.len(),
        code == response.code,
        response@.status == response.status@,
        response@.hashes.len() == response.hashes@.len(),
        forall|i: int|
            0 <= i < response.hashes@.len() ==> response@.hashes[i] == (
            #[trigger] response.hashes@[i])@,
        response@.code == response.code,
        response.message is None <==> response@.message is None,
        response.message matches Some(text) ==> response@.message == Some(text@),
{
}

/// A setup deposit is confirmed exactly where the answer's status is "ok", whatever
/// else it holds, and the number of its transactions is that of the hashes.
pub proof fn a_seed_is_confirmed_by_its_status(
    response: &PoolExecuteResult,
    judged: Result<usize, ()>,
)
    requires
        call_ensures(seed_deposit, (response,), judged),
    ensures
        judged is Ok <==> response.status@ == "ok"@,
        judged matches Ok(count) ==> count == response.hashes@.len(),
{
}

/// What is said of a setup deposit that was not confirmed names its status and its
/// message, and holds the status against "ok".
pub proof fn a_seed_complaint_names_status_and_message(
    response: &PoolExecuteResult,
    said: String,
)
    requires
        call_ensures(seed_complaint_text, (response,), said),
    ensures
        said@ == "assertion `left == right` failed: "@
            + "seed deposit must confirm on chain, got status="@ + response.status@ + " message="@
            + (match response.message {
            Some(text) => "Some("@ + text_debug(text@) + ")"@,
            None => "None"@,
        }) + "\n  left: "@ + text_debug(response.status@) + "\n right: "@ + text_debug("ok"@),
{
    assert(said@ =~= "assertion `left == right` failed: "@
        + "seed deposit must confirm on chain, got status="@ + response.status@ + " message="@
        + option_debug(option_view(response.message)) + "\n  left: "@ + text_debug(
        response.status@,
    ) + "\n right: "@ + text_debug("ok"@));
}

/// What is said of a flow that was not halted as expected names the flow, and what was
/// found beside what was expected.
pub proof fn a_halt_complaint_names_what_was_found(
    check: HaltCheck,
    flow: &str,
    response: &PoolExecuteResult,
    stages: &Vec<String>,
    said: String,
)
    requires
        call_ensures(halt_complaint_text, (check, flow, response, stages), said),
    ensures
        ({
            let message = match response.message {
                Some(text) => text@,
                None => Seq::empty(),
            };
            let printed = list_debug(Seq::new(stages@.len(), |i: int| stages@[i]@));
            match check {
                HaltCheck::Status => said@ == "assertion `left == right` failed: "@ + flow@
                    + ": expected status=failed, got "@ + response.status@ + " (message: "@
                    + message + "; stages: "@ + printed + ")"@ + "\n  left: "@ + text_debug(
                    response.status@,
                ) + "\n right: "@ + text_debug("failed"@),
                HaltCheck::Code => said@ == "assertion `left == right` failed: "@ + flow@
                    + ": expected the SEP-0043 code -4 sentinel (message: "@ + message
                    + "; stages: "@ + printed + ")"@ + "\n  left: "@ + (match response.code {
                    Some(code) => "Some("@ + signed_decimal(code as int) + ")"@,
                    None => "None"@,
                }) + "\n right: "@ + "Some("@ + signed_decimal(-4) + ")"@,
                HaltCheck::Hashes => said@ == "assertion `left == right` failed: "@ + flow@
                    + ": nothing may be submitted when halting at the signing boundary"@
                    + "\n  left: "@ + decimal(response.hashes@.len()) + "\n right: "@ + decimal(0),
                HaltCheck::Stage => said@ == flow@
                    + ": must have reached the 'sign' stage (stages: "@ + printed + ")"@,
            }
        }),
{
    let message = match response.message {
        Some(text) => text@,
        None => ""@,
    };
    reveal_strlit("");
    assert(""@ =~= Seq::empty());
    let printed = list_debug(views(stages@));
    assert(views(stages@) =~= Seq::new(stages@.len(), |i: int| stages@[i]@));
    match check {
        HaltCheck::Status => {
            assert(said@ =~= "assertion `left == right` failed: "@ + flow@
                + ": expected status=failed, got "@ + response.status@ + " (message: "@ + message
                + "; stages: "@ + printed + ")"@ + "\n  left: "@ + text_debug(response.status@)
                + "\n right: "@ + text_debug("failed"@));
        },
        HaltCheck::Code => {
            assert(said@ =~= "assertion `left == right` failed: "@ + flow@
                + ": expected the SEP-0043 code -4 sentinel (message: "@ + message + "; stages: "@
                + printed + ")"@ + "\n  left: "@ + code_debug(response.code) + "\n right: "@
                + "Some("@ + signed_decimal(-4) + ")"@);
        },
        HaltCheck::Hashes => {
            assert(said@ =~= "assertion `left == right` failed: "@ + flow@
                + ": nothing may be submitted when halting at the signing boundary"@
                + "\n  left: "@ + decimal(response.hashes@.len()) + "\n right: "@ + decimal(0));
        },
        HaltCheck::Stage => {},
    }
}

/// A list of texts is printed in brackets, each text as it is printed alone, with a
/// comma and a space between each and the next.
pub proof fn lists_are_printed_text_by_text(list: Seq<Seq<char>>, text: Seq<char>)
    ensures
        list_debug(Seq::empty()) == "[]"@,
        list_debug(seq![text]) == "["@ + text_debug(text) + "]"@,
        list.len() > 0 ==> list_debug(list.push(text)) == list_debug(list).drop_last() + ", "@
            + text_debug(text) + "]"@,
{
    reveal_strlit("[");
    reveal_strlit("]");
    reveal_strlit("[]");
    reveal_strlit("");
    assert(list_debug(Seq::empty()) =~= "[]"@);
    assert(list_debug(seq![text]) =~= "["@ + text_debug(text) + "]"@);
    if list.len() > 0 {
        assert(list.push(text).drop_last() =~= list);
        assert(list_debug(list.push(text)) =~= list_debug(list).drop_last() + ", "@ + text_debug(
            text,
        ) + "]"@);
    }
}

/// What is said of two values that had to be equal ends with both of them, the one that
/// was found first; what is said of a failed action ends with its error.
pub proof fn complaints_end_with_the_values(
    message: Seq<char>,
    left: Seq<char>,
    right: Seq<char>,
    text: Seq<char>,
    code: i32,
)
    ensures
        unequal(message, left, right) == "assertion `left == right` failed: "@ + message
            + "\n  left: "@ + left + "\n right: "@ + right,
        unmet(message, left) == message + ": "@ + left,
        option_debug(None) == "None"@,
        option_debug(Some(text)) == "Some("@ + text_debug(text) + ")"@,
        code_debug(None) == "None"@,
        code_debug(Some(code)) == "Some("@ + signed_decimal(code as int) + ")"@,
{
}

} // verus!
