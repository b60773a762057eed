//! What the pool answers to a transaction, and what the tests expect of it.

use crate::report::{
    code_debug, code_text, list_debug, list_text, option_debug, option_text, text_debug, unequal,
    unequal_numbers_text, unequal_text, unequal_texts_text,
};
use crate::text::{decimal, option_view, views};
use vstd::prelude::*;
use vstd::string::*;

verus! {

/// SEP-0043 code of a user's refusal to sign.
pub const USER_REJECTED: i32 = -4;

/// The pool's answer to a deposit, transfer or withdrawal.
#[derive(Debug, PartialEq, Eq)]
pub struct PoolExecuteResult {
    pub status: String,
    /// Hashes of the transactions that were confirmed.
    pub hashes: Vec<String>,
    /// SEP-0043 error code, where there is one.
    pub code: Option<i32>,
    pub message: Option<String>,
}

/// An answer with its texts as sequences of characters.
pub ghost struct ResponseView {
    pub status: Seq<char>,
    pub hashes: Seq<Seq<char>>,
    pub code: Option<i32>,
    pub message: Option<Seq<char>>,
}

impl View for PoolExecuteResult {
    type V = ResponseView;

    open spec fn view(&self) -> ResponseView {
        ResponseView {
            status: self.status@,
            hashes: views(self.hashes@),
            code: self.code,
            message: option_view(self.message),
        }
    }
}

/// The status of an answer.
pub fn response_status(response: &PoolExecuteResult) -> (r: String)
    ensures
        r@ == response@.status,
        r@ == response.status@,
{
    response.status.clone()
}

/// The number of confirmed transactions in an answer.
pub fn response_hash_count(response: &PoolExecuteResult) -> (r: usize)
    ensures
        r == response@.hashes.len(),
        r == response.hashes@.len(),
{
    response.hashes.len()
}

/// The SEP-0043 error code of an answer.
pub fn response_code(response: &PoolExecuteResult) -> (r: Option<i32>)
    ensures
        r == response@.code,
        r == response.code,
{
    response.code
}

/// Whether a list of stages holds the signing stage.
pub open spec fn reached_signing(stages: Seq<Seq<char>>) -> bool {
    exists|i: int| 0 <= i < stages.len() && #[trigger] stages[i] == "sign"@
}

/// Whether a list of stages holds proof, simulation and signing, in this order.
pub open spec fn proved_simulated_signed(stages: Seq<Seq<char>>) -> bool {
    exists|i: int, j: int, k: int|
        0 <= i < j < k < stages.len() && #[trigger] stages[i] == "prove"@ && #[trigger] stages[j]
            == "simulate"@ && #[trigger] stages[k] == "sign"@
}

/// A thing that is expected of a flow that is halted at the signing boundary.
#[derive(Clone, Copy, Debug, PartialEq, Eq)]
pub enum HaltCheck {
    /// The answer says that it failed.
    Status,
    /// It has the code of a user's refusal.
    Code,
    /// No transaction was submitted.
    Hashes,
    /// The signing stage was reached.
    Stage,
}

/// The first expectation, in the order of [`HaltCheck`], that a flow did not meet.
pub open spec fn halt_violation(
    response: ResponseView,
    stages: Seq<Seq<char>>,
) -> Option<HaltCheck> {
    if response.status != "failed"@ {
        Some(HaltCheck::Status)
    } else if response.code != Some(USER_REJECTED) {
        Some(HaltCheck::Code)
    } else if response.hashes.len() != 0 {
        Some(HaltCheck::Hashes)
    } else if !reached_signing(stages) {
        Some(HaltCheck::Stage)
    } else {
        None
    }
}

/// The first stage from `from` on that is `wanted`, or the length of the list.
fn find_stage(stages: &Vec<String>, from: usize, wanted: &str) -> (r: usize)
    requires
        from <= stages@.len(),
    ensures
        from <= r <= stages@.len(),
        r < stages@.len() ==> views(stages@)[r as int] == wanted@,
        forall|k: int| from <= k < r ==> #[trigger] views(stages@)[k] != wanted@,
{
    let text = wanted.to_owned();
    let mut i: usize = from;
    while i < stages.len()
        invariant
            from <= i <= stages@.len(),
            text@ == wanted@,
            forall|k: int| from <= k < i ==> #[trigger] views(stages@)[k] != wanted@,
        decreases stages@.len() - i,
    {
        if stages[i] == text {
            return i;
        }
        i = i + 1;
    }
    i
}

fn has_sign_stage(stages: &Vec<String>) -> (r: bool)
    ensures
        r == reached_signing(views(stages@)),
{
    let at: usize = find_stage(stages, 0, "sign");
    at < stages.len()
}

/// Whether a flow went through proof and simulation before it came to signing.
pub fn went_through_proof_and_simulation(stages: &Vec<String>) -> (r: bool)
    ensures
        r == proved_simulated_signed(views(stages@)),
{
    let count: usize = stages.len();
    let ghost list = views(stages@);
    let prove: usize = find_stage(stages, 0, "prove");
    if prove >= count {
        return false;
    }
    let simulate: usize = find_stage(stages, prove + 1, "simulate");
    if simulate >= count {
        return false;
    }
    let sign: usize = find_stage(stages, simulate + 1, "sign");
    if sign >= count {
        return false;
    }
    proof {
        assert(list[prove as int] == "prove"@ && list[simulate as int] == "simulate"@
            && list[sign as int] == "sign"@);
    }
    true
}

/// Checks that an answer and the stages seen are those of a flow that was halted
/// at the signing boundary: it failed with the code of a user's refusal, submitted
/// nothing, and came as far as signing.
pub fn assert_halted_at_signing(
    response: &PoolExecuteResult,
    stages: &Vec<String>,
) -> (r: Result<(), HaltCheck>)
    ensures
        match r {
            Ok(()) => halt_violation(response@, views(stages@)) is None,
            Err(check) => halt_violation(response@, views(stages@)) == Some(check),
        },
        r is Ok <==> response.status@ == "failed"@ && response.code == Some(-4i32)
            && response.hashes@.len() == 0 && (exists|i: int|
            0 <= i < stages@.len() && (#[trigger] stages@[i])@ == "sign"@),
{
    proof {
        let list = views(stages@);
        assert forall|i: int| 0 <= i < stages@.len() implies list[i] == (#[trigger] stages@[i])@ by {}
        if reached_signing(list) {
            let k = choose|k: int| 0 <= k < list.len() && #[trigger] list[k] == "sign"@;
            assert(stages@[k]@ == "sign"@);
        }
        if exists|i: int| 0 <= i < stages@.len() && (#[trigger] stages@[i])@ == "sign"@ {
            let k = choose|k: int| 0 <= k < stages@.len() && (#[trigger] stages@[k])@ == "sign"@;
            assert(list[k] == "sign"@);
        }
    }
    if response_status(response) != "failed".to_owned() {
        return Err(HaltCheck::Status);
    }
    match response_code(response) {
        Some(code) => {
            if code != USER_REJECTED {
                return Err(HaltCheck::Code);
            }
        },
        None => {
            return Err(HaltCheck::Code);
        },
    }
    if response_hash_count(response) != 0 {
        return Err(HaltCheck::Hashes);
    }
    if !has_sign_stage(stages) {
        return Err(HaltCheck::Stage);
    }
    Ok(())
}

/// What is said of a flow that did not meet an expectation. Where two values had to
/// be equal, both are printed.
pub open spec fn halt_complaint(
    check: HaltCheck,
    flow: Seq<char>,
    response: ResponseView,
    stages: Seq<Seq<char>>,
) -> Seq<char> {
    let message = match response.message {
        Some(text) => text,
        None => ""@,
    };
    match check {
        HaltCheck::Status => unequal(
            flow + ": expected status=failed, got "@ + response.status + " (message: "@ + message
                + "; stages: "@ + list_debug(stages) + ")"@,
            text_debug(response.status),
            text_debug("failed"@),
        ),
        HaltCheck::Code => unequal(
            flow + ": expected the SEP-0043 code -4 sentinel (message: "@ + message + "; stages: "@
                + list_debug(stages) + ")"@,
            code_debug(response.code),
            code_debug(Some(USER_REJECTED)),
        ),
        HaltCheck::Hashes => unequal(
            flow + ": nothing may be submitted when halting at the signing boundary"@,
            decimal(response.hashes.len()),
            decimal(0),
        ),
        HaltCheck::Stage => flow + ": must have reached the 'sign' stage (stages: "@ + list_debug(
            stages,
        ) + ")"@,
    }
}

/// Writes what is said of a flow that did not meet an expectation.
pub fn halt_complaint_text(
    check: HaltCheck,
    flow: &str,
    response: &PoolExecuteResult,
    stages: &Vec<String>,
) -> (r: String)
    ensures
        r@ == halt_complaint(check, flow@, response@, views(stages@)),
{
    let message = match &response.message {
        Some(text) => text.clone(),
        None => "".to_owned(),
    };
    let printed = list_text(stages);
    let mut out = flow.to_owned();
    match check {
        HaltCheck::Status => {
            out.append(": expected status=failed, got ");
            out.append(response.status.as_str());
            out.append(" (message: ");
            out.append(message.as_str());
            out.append("; stages: ");
            out.append(printed.as_str());
            out.append(")");
            unequal_texts_text(out.as_str(), response.status.as_str(), "failed")
        },
        HaltCheck::Code => {
            out.append(": expected the SEP-0043 code -4 sentinel (message: ");
            out.append(message.as_str());
            out.append("; stages: ");
            out.append(printed.as_str());
            out.append(")");
            let found = code_text(response_code(response));
            let wanted = code_text(Some(USER_REJECTED));
            unequal_text(out.as_str(), found.as_str(), wanted.as_str())
        },
        HaltCheck::Hashes => {
            out.append(": nothing may be submitted when halting at the signing boundary");
            unequal_numbers_text(out.as_str(), response_hash_count(response) as u128, 0)
        },
        HaltCheck::Stage => {
            out.append(": must have reached the 'sign' stage (stages: ");
            out.append(printed.as_str());
            out.append(")");
            out
        },
    }
}

/// Checks that a setup deposit was confirmed, and gives the number of its
/// transactions.
pub fn seed_deposit(response: &PoolExecuteResult) -> (r: Result<usize, ()>)
    ensures
        match r {
            Ok(count) => response@.status == "ok"@ && count == response@.hashes.len(),
            Err(()) => response@.status != "ok"@,
        },
{
    if response_status(response) == "ok".to_owned() {
        Ok(response_hash_count(response))
    } else {
        Err(())
    }
}

/// What is said of a setup deposit that was not confirmed.
pub open spec fn seed_complaint(response: ResponseView) -> Seq<char> {
    unequal(
        "seed deposit must confirm on chain, got status="@ + response.status + " message="@
            + option_debug(response.message),
        text_debug(response.status),
        text_debug("ok"@),
    )
}

/// Writes what is said of a setup deposit that was not confirmed.
pub fn seed_complaint_text(response: &PoolExecuteResult) -> (r: String)
    ensures
        r@ == seed_complaint(response@),
{
    let mut out = "seed deposit must confirm on chain, got status=".to_owned();
    out.append(response.status.as_str());
    out.append(" message=");
    out.append(option_text(&response.message).as_str());
    unequal_texts_text(out.as_str(), response.status.as_str(), "ok")
}

} // verus!
