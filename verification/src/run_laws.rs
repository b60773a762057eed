//! What [`Run::next`] makes of each outcome of each step.

use crate::report::{list_debug, text_debug};
use crate::response::{HaltCheck, PoolExecuteResult};
use crate::response_laws::has_stage;
use crate::scenario::{Action, BalanceCheck, Event, Failure, Problem, Run, Step};
use crate::text::{decimal, option_view, views};
use vstd::prelude::*;
use vstd::string::*;

verus! {

/// Whether the step that is to be done in a run is this one.
pub open spec fn is_at(run: Run, step: Step) -> bool {
    run@.at < run@.steps.len() && run@.steps[run@.at as int] == step
}

/// A new run is at the first of its steps, and has nothing to remember.
pub proof fn a_new_run_is_at_its_first_step(
    steps: Vec<Step>,
    run: Run,
    current: Option<Step>,
)
    requires
        call_ensures(Run::new, (steps,), run),
        call_ensures(Run::current, (&run,), current),
    ensures
        run@.steps == steps@,
        run@.at == 0,
        run@.balance is None,
        run@.response is None,
        steps@.len() == 0 ==> current is None,
        steps@.len() > 0 ==> current == Some(steps@[0]),
{
}

/// A run says which step is to be done as long as there is one.
pub proof fn a_run_says_its_step(run: Run, current: Option<Step>)
    requires
        call_ensures(Run::current, (&run,), current),
    ensures
        current is None <==> run@.at >= run@.steps.len(),
        current matches Some(step) ==> is_at(run, step),
{
}

/// A step that went well takes the run to the next step, and one that did not leaves
/// the run as it was. What is remembered changes in two ways only: a balance that is
/// read before a flow is the balance that is remembered, and a flow's answer the answer.
pub proof fn a_run_goes_on_or_stays(
    run: &mut Run,
    event: Event,
    judged: Result<(), Failure>,
    step: Step,
)
    requires
        call_ensures(Run::next, (run, event), judged),
        is_at(*old(run), step),
    ensures
        final(run)@.steps == old(run)@.steps,
        judged is Ok ==> final(run)@.at == old(run)@.at + 1,
        judged is Err ==> final(run)@ == old(run)@,
        judged is Ok ==> (match (step.action, event) {
            (
                Action::ReadBalance { check: BalanceCheck::Remember },
                Event::Balance(balance),
            ) => final(run)@.balance == Some(balance),
            (
                Action::ReadBalance { check: BalanceCheck::AtLeast(_) },
                Event::Balance(balance),
            ) => final(run)@.balance == Some(balance),
            _ => final(run)@.balance == old(run)@.balance,
        }),
        judged is Ok ==> (match (step.action, event) {
            (Action::Deposit { .. }, Event::Response(response)) => final(run)@.response == Some(
                response@,
            ),
            (Action::Transfer { .. }, Event::Response(response)) => final(run)@.response == Some(
                response@,
            ),
            (Action::Withdraw { .. }, Event::Response(response)) => final(run)@.response == Some(
                response@,
            ),
            _ => final(run)@.response == old(run)@.response,
        }),
{
}

/// Nothing that is reported of a run without a step left, is well.
pub proof fn a_run_without_a_step_left_takes_nothing(
    run: &mut Run,
    event: Event,
    judged: Result<(), Failure>,
)
    requires
        call_ensures(Run::next, (run, event), judged),
        old(run)@.at >= old(run)@.steps.len(),
    ensures
        judged matches Err(failure) && failure.problem == Problem::Unexpected && failure.message@
            == "unexpected event"@,
        final(run)@ == old(run)@,
{
}

/// An action that failed fails the test, whichever it is, with what was expected of it
/// and its error.
pub proof fn a_failed_action_fails_the_test(
    run: &mut Run,
    event: Event,
    judged: Result<(), Failure>,
    step: Step,
    error: String,
)
    requires
        call_ensures(Run::next, (run, event), judged),
        is_at(*old(run), step),
        event == Event::Failed(error),
    ensures
        judged matches Err(failure) && failure.problem == Problem::Call && failure.message@
            == step.expectation@ + ": "@ + error@,
{
}

/// A setup deposit whose answer has the status "ok" is well, whatever its hashes, code
/// and message are, and one with another status is not.
pub proof fn a_seed_goes_by_its_status(
    run: &mut Run,
    event: Event,
    judged: Result<(), Failure>,
    step: Step,
    response: PoolExecuteResult,
)
    requires
        call_ensures(Run::next, (run, event), judged),
        is_at(*old(run), step),
        step.action is SeedDeposit,
        event == Event::Response(response),
    ensures
        judged is Ok <==> response.status@ == "ok"@,
        judged matches Err(failure) ==> failure.problem == Problem::SeedRejected
            && failure.message@ == "assertion `left == right` failed: "@
            + "seed deposit must confirm on chain, got status="@ + response.status@ + " message="@
            + (match response.message {
            Some(text) => "Some("@ + text_debug(text@) + ")"@,
            None => "None"@,
        }) + "\n  left: "@ + text_debug(response.status@) + "\n right: "@ + text_debug("ok"@),
{
    if let Err(failure) = judged {
        assert(failure.message@ =~= "assertion `left == right` failed: "@
            + "seed deposit must confirm on chain, got status="@ + response.status@ + " message="@
            + crate::report::option_debug(option_view(response.message)) + "\n  left: "@
            + text_debug(response.status@) + "\n right: "@ + text_debug("ok"@));
    }
}

/// The answer to a flow under test is well whatever it is: it is judged with the stages.
pub proof fn the_answer_to_a_flow_is_taken(
    run: &mut Run,
    event: Event,
    judged: Result<(), Failure>,
    step: Step,
    response: PoolExecuteResult,
)
    requires
        call_ensures(Run::next, (run, event), judged),
        is_at(*old(run), step),
        step.action is Deposit || step.action is Transfer || step.action is Withdraw,
        event == Event::Response(response),
    ensures
        judged is Ok,
        final(run)@.response == Some(response@),
        response@.status == response.status@,
        response@.code == response.code,
        response@.hashes.len() == response.hashes@.len(),
{
}

/// The stages of a flow are well exactly where the flow's answer is that it failed, with
/// the code -4 and without a transaction, and the stages of proof, simulation and signing
/// stand in this order.
pub proof fn stages_are_judged_with_the_answer(
    run: &mut Run,
    event: Event,
    judged: Result<(), Failure>,
    step: Step,
    stages: Vec<String>,
)
    requires
        call_ensures(Run::next, (run, event), judged),
        is_at(*old(run), step),
        step.action is CollectStages,
        event == Event::Stages(stages),
        old(run)@.response is Some,
    ensures
        ({
            let answer = old(run)@.response->0;
            let halted = answer.status == "failed"@ && answer.code == Some(-4i32)
                && answer.hashes.len() == 0;
            let in_order = exists|i: int, j: int, k: int|
                0 <= i < j < k < stages@.len() && (#[trigger] stages@[i])@ == "prove"@ && (
                #[trigger] stages@[j])@ == "simulate"@ && (#[trigger] stages@[k])@ == "sign"@;
            &&& judged is Ok <==> halted && in_order
            &&& judged matches Err(failure) ==> failure.problem == (if answer.status
                != "failed"@ {
                Problem::Halt(HaltCheck::Status)
            } else if answer.code != Some(-4i32) {
                Problem::Halt(HaltCheck::Code)
            } else if answer.hashes.len() != 0 {
                Problem::Halt(HaltCheck::Hashes)
            } else if !has_stage(stages@, "sign"@) {
                Problem::Halt(HaltCheck::Stage)
            } else {
                Problem::StagesMissing
            })
        }),
{
    let list = views(stages@);
    assert(list.len() == stages@.len());
    assert forall|i: int| 0 <= i < stages@.len() implies list[i] == (#[trigger] stages@[i])@ by {}
    if crate::response::proved_simulated_signed(list) {
        let (i, j, k) = choose|i: int, j: int, k: int|
            0 <= i < j < k < list.len() && #[trigger] list[i] == "prove"@ && #[trigger] list[j]
                == "simulate"@ && #[trigger] list[k] == "sign"@;
        assert(stages@[i]@ == "prove"@ && stages@[j]@ == "simulate"@ && stages@[k]@ == "sign"@);
    }
    if exists|i: int, j: int, k: int|
        0 <= i < j < k < stages@.len() && (#[trigger] stages@[i])@ == "prove"@ && (
        #[trigger] stages@[j])@ == "simulate"@ && (#[trigger] stages@[k])@ == "sign"@ {
        let (i, j, k) = choose|i: int, j: int, k: int|
            0 <= i < j < k < stages@.len() && (#[trigger] stages@[i])@ == "prove"@ && (
            #[trigger] stages@[j])@ == "simulate"@ && (#[trigger] stages@[k])@ == "sign"@;
        assert(list[i] == "prove"@ && list[j] == "simulate"@ && list[k] == "sign"@);
    }
    if crate::response::reached_signing(list) {
        let k = choose|k: int| 0 <= k < list.len() && #[trigger] list[k] == "sign"@;
        assert(stages@[k]@ == "sign"@);
    }
    if has_stage(stages@, "sign"@) {
        let k = choose|k: int| 0 <= k < stages@.len() && (#[trigger] stages@[k])@ == "sign"@;
        assert(list[k] == "sign"@);
    }
}

/// What is said of stages that are not well names the flow, the answer's message and the
/// stages, and what was found beside what was expected.
pub proof fn what_is_said_of_stages(
    run: &mut Run,
    event: Event,
    judged: Result<(), Failure>,
    step: Step,
    flow: &'static str,
    stages: Vec<String>,
)
    requires
        call_ensures(Run::next, (run, event), judged),
        is_at(*old(run), step),
        step.action == (Action::CollectStages { flow }),
        event == Event::Stages(stages),
        old(run)@.response is Some,
    ensures
        ({
            let answer = old(run)@.response->0;
            let message = match answer.message {
                Some(text) => text,
                None => ""@,
            };
            let printed = list_debug(Seq::new(stages@.len(), |i: int| stages@[i]@));
            judged matches Err(failure) ==> match failure.problem {
                Problem::Halt(HaltCheck::Status) => failure.message@
                    == "assertion `left == right` failed: "@ + (flow@
                    + ": expected status=failed, got "@ + answer.status + " (message: "@ + message
                    + "; stages: "@ + printed + ")"@) + "\n  left: "@ + text_debug(answer.status)
                    + "\n right: "@ + text_debug("failed"@),
                Problem::Halt(HaltCheck::Code) => failure.message@
                    == "assertion `left == right` failed: "@ + (flow@
                    + ": expected the SEP-0043 code -4 sentinel (message: "@ + message
                    + "; stages: "@ + printed + ")"@) + "\n  left: "@ + (match answer.code {
                    Some(code) => "Some("@ + crate::text::signed_decimal(code as int) + ")"@,
                    None => "None"@,
                }) + "\n right: "@ + ("Some("@ + crate::text::signed_decimal(-4) + ")"@),
                Problem::Halt(HaltCheck::Hashes) => failure.message@
                    == "assertion `left == right` failed: "@ + (flow@
                    + ": nothing may be submitted when halting at the signing boundary"@)
                    + "\n  left: "@ + decimal(answer.hashes.len()) + "\n right: "@ + decimal(0),
                Problem::Halt(HaltCheck::Stage) => failure.message@ == flow@
                    + ": must have reached the 'sign' stage (stages: "@ + printed + ")"@,
                _ => failure.message@ == flow@
                    + ": must have gone through prove and simulate before sign (stages: "@
                    + printed + ")"@,
            }
        }),
{
    assert(views(stages@) =~= Seq::new(stages@.len(), |i: int| stages@[i]@));
}

/// A balance that is only read is well whatever it is.
pub proof fn a_balance_that_is_only_read_is_well(
    run: &mut Run,
    event: Event,
    judged: Result<(), Failure>,
    step: Step,
    balance: u128,
)
    requires
        call_ensures(Run::next, (run, event), judged),
        is_at(*old(run), step),
        step.action == (Action::ReadBalance { check: BalanceCheck::Remember }),
        event == Event::Balance(balance),
    ensures
        judged is Ok,
        final(run)@.balance == Some(balance),
{
}

/// A balance that has to cover an amount is well exactly where it is no less.
pub proof fn a_balance_must_cover_the_amount(
    run: &mut Run,
    event: Event,
    judged: Result<(), Failure>,
    step: Step,
    least: u128,
    balance: u128,
)
    requires
        call_ensures(Run::next, (run, event), judged),
        is_at(*old(run), step),
        step.action == (Action::ReadBalance { check: BalanceCheck::AtLeast(least) }),
        event == Event::Balance(balance),
    ensures
        judged is Ok <==> balance >= least,
        judged is Ok ==> final(run)@.balance == Some(balance),
        judged matches Err(failure) ==> failure.problem == Problem::BalanceTooLow
            && failure.message@ == "seeding must leave at least "@ + decimal(least as nat)
            + " stroops spendable, have "@ + decimal(balance as nat),
{
}

/// A balance that must not have changed is well exactly where it is the one that is
/// remembered.
pub proof fn a_balance_must_not_have_moved(
    run: &mut Run,
    event: Event,
    judged: Result<(), Failure>,
    step: Step,
    said: &'static str,
    before: u128,
    balance: u128,
)
    requires
        call_ensures(Run::next, (run, event), judged),
        is_at(*old(run), step),
        step.action == (Action::ReadBalance { check: BalanceCheck::Unchanged(said) }),
        old(run)@.balance == Some(before),
        event == Event::Balance(balance),
    ensures
        judged is Ok <==> balance == before,
        judged matches Err(failure) ==> failure.problem == Problem::BalanceMoved
            && failure.message@ == "assertion `left == right` failed: "@ + said@ + "\n  left: "@
            + decimal(balance as nat) + "\n right: "@ + decimal(before as nat),
{
}

/// A balance that has to have grown by an amount is well exactly where it is the one that
/// is remembered and that amount, or the largest that there is where that is less.
pub proof fn a_balance_must_have_grown_by_the_amount(
    run: &mut Run,
    event: Event,
    judged: Result<(), Failure>,
    step: Step,
    amount: u128,
    before: u128,
    balance: u128,
)
    requires
        call_ensures(Run::next, (run, event), judged),
        is_at(*old(run), step),
        step.action == (Action::ReadBalance { check: BalanceCheck::GrownBy(amount) }),
        old(run)@.balance == Some(before),
        event == Event::Balance(balance),
    ensures
        before + amount <= u128::MAX ==> (judged is Ok <==> balance - before == amount),
        before + amount > u128::MAX ==> (judged is Ok <==> balance == u128::MAX),
        judged matches Err(failure) ==> failure.problem == Problem::BalanceNotGrown
            && failure.message@ == "assertion `left == right` failed: "@
            + "balance must grow by the deposited amount"@ + "\n  left: "@ + decimal(
            balance as nat,
        ) + "\n right: "@ + decimal(
            (if before + amount <= u128::MAX {
                before + amount
            } else {
                u128::MAX as int
            }) as nat,
        ),
{
}

/// A balance is held against a remembered one only where there is one.
pub proof fn a_balance_needs_one_to_be_held_against(
    run: &mut Run,
    event: Event,
    judged: Result<(), Failure>,
    step: Step,
    check: BalanceCheck,
)
    requires
        call_ensures(Run::next, (run, event), judged),
        is_at(*old(run), step),
        step.action == (Action::ReadBalance { check }),
        check is Unchanged || check is GrownBy,
        old(run)@.balance is None,
        event is Balance,
    ensures
        judged matches Err(failure) && failure.problem == Problem::Unexpected,
{
}

/// A session is bound to its account exactly where the address that it has is the one
/// that is configured.
pub proof fn an_address_must_be_the_configured_one(
    run: &mut Run,
    event: Event,
    judged: Result<(), Failure>,
    step: Step,
    expected: Option<&'static str>,
    address: String,
)
    requires
        call_ensures(Run::next, (run, event), judged),
        is_at(*old(run), step),
        step.action == (Action::ReadUserAddress { expected }),
        event == Event::Address(address),
    ensures
        judged is Ok <==> (expected matches Some(own) && own@ == address@),
        judged matches Err(failure) ==> failure.problem == Problem::WrongAddress
            && failure.message@ == match expected {
            Some(own) => "assertion `left == right` failed: "@
                + "session must bind to the configured test account"@ + "\n  left: "@ + text_debug(
                address@,
            ) + "\n right: "@ + text_debug(own@),
            None => "called `Option::unwrap()` on a `None` value"@,
        },
{
}

/// The stub signer has to be defined.
pub proof fn a_stub_signer_must_be_defined(
    run: &mut Run,
    event: Event,
    judged: Result<(), Failure>,
    step: Step,
    defined: bool,
)
    requires
        call_ensures(Run::next, (run, event), judged),
        is_at(*old(run), step),
        step.action is BuildStubSigner,
        event == Event::Defined(defined),
    ensures
        judged is Ok <==> defined,
        judged matches Err(failure) ==> failure.problem == Problem::UndefinedSigner
            && failure.message@ == "assertion failed: !stub_signer().is_undefined()"@,
{
}

/// Whether an action hands nothing over when it succeeds.
pub open spec fn hands_nothing_over(action: Action) -> bool {
    ||| action is OpenStorage
    ||| action is BuildClient
    ||| action is ReadContractConfig
    ||| action is Sync
    ||| action is OpenAccount
    ||| action is OpenPool
    ||| action is ReadNotes
    ||| action is OpenSeedAccount
    ||| action is OpenSeedPool
    ||| action is StartCapture
    ||| action is StopBackgroundSync
}

/// An action that hands nothing over is well when it is done.
pub proof fn an_action_that_is_done_is_well(
    run: &mut Run,
    event: Event,
    judged: Result<(), Failure>,
    step: Step,
)
    requires
        call_ensures(Run::next, (run, event), judged),
        is_at(*old(run), step),
        hands_nothing_over(step.action),
        event == Event::Done,
    ensures
        judged is Ok,
{
}

/// Nothing but what an action hands over can be well: an event of any other kind, short
/// of a failure, is unexpected.
pub proof fn an_event_of_another_kind_is_unexpected(
    run: &mut Run,
    event: Event,
    judged: Result<(), Failure>,
    step: Step,
)
    requires
        call_ensures(Run::next, (run, event), judged),
        is_at(*old(run), step),
        !(event is Failed),
        match step.action {
            Action::BuildStubSigner => !(event is Defined),
            Action::ReadUserAddress { .. } => !(event is Address),
            Action::ReadBalance { .. } => !(event is Balance),
            Action::SeedDeposit { .. } => !(event is Response),
            Action::Deposit { .. } => !(event is Response),
            Action::Transfer { .. } => !(event is Response),
            Action::Withdraw { .. } => !(event is Response),
            Action::CollectStages { .. } => !(event is Stages) || old(run)@.response is None,
            _ => !(event is Done),
        },
    ensures
        judged matches Err(failure) && failure.problem == Problem::Unexpected && failure.message@
            == "unexpected event"@,
{
}

} // verus!
