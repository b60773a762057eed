//! What the end-to-end tests establish when they pass.

use crate::environment::{Environment, TestAccount, FLOW_AMOUNT_STROOPS, SEED_DEPOSIT_STROOPS};
use crate::response::{proved_simulated_signed, reached_signing, USER_REJECTED};
use crate::scenario::{
    fresh, past, problem, saturating_sum, steps_of, Action, Event, EventView, RunView, Scenario,
    Step,
};
use crate::signer::SignerMode;
use vstd::prelude::*;

verus! {

/// A run after events, or none where one of them was a problem.
pub open spec fn run_after(steps: Seq<Step>, events: Seq<EventView>) -> Option<RunView>
    decreases events.len(),
{
    if events.len() == 0 {
        Some(fresh(steps))
    } else {
        match run_after(steps, events.drop_last()) {
            Some(run) => if problem(run, events.last()) is None {
                Some(past(run, events.last()))
            } else {
                None
            },
            None => None,
        }
    }
}

/// Whether a test passes with these events: none was a problem, and no step is
/// left.
pub open spec fn passes(steps: Seq<Step>, events: Seq<EventView>) -> bool {
    run_after(steps, events) matches Some(run) && run.at == steps.len()
}

/// Whether a test halts a flow at the signing boundary.
pub open spec fn halts_a_flow(scenario: Scenario) -> bool {
    ||| scenario == Scenario::DepositHaltsAtSigning
    ||| scenario == Scenario::TransferHaltsAtSigning
    ||| scenario == Scenario::WithdrawHaltsAtSigning
}

/// Where the flow under test stands among the steps of a test that halts one.
pub open spec fn flow_step(scenario: Scenario) -> int {
    if scenario == Scenario::DepositHaltsAtSigning {
        7
    } else {
        11
    }
}

/// The account whose flow a test halts.
pub open spec fn flow_account(scenario: Scenario, env: Environment) -> TestAccount {
    match scenario {
        Scenario::DepositHaltsAtSigning => env.account_b,
        Scenario::TransferHaltsAtSigning => env.account_c,
        Scenario::WithdrawHaltsAtSigning => env.account_d,
        _ => env.account_a,
    }
}

/// The flow whose stages a test collects.
pub open spec fn flow_name(scenario: Scenario) -> Seq<char> {
    match scenario {
        Scenario::DepositHaltsAtSigning => "deposit"@,
        Scenario::TransferHaltsAtSigning => "transfer"@,
        _ => "withdraw"@,
    }
}

proof fn lemma_run_prefix(steps: Seq<Step>, events: Seq<EventView>, k: int)
    requires
        run_after(steps, events) is Some,
        0 <= k <= events.len(),
    ensures
        run_after(steps, events.take(k)) matches Some(run) && run.at == k && run.steps == steps,
        k > 0 ==> (run_after(steps, events.take(k - 1)) matches Some(before) && problem(
            before,
            events[k - 1],
        ) is None && run_after(steps, events.take(k)) == Some(past(before, events[k - 1]))),
    decreases events.len() - k, k,
{
    if k == events.len() {
        assert(events.take(k) =~= events);
    } else {
        lemma_run_prefix(steps, events, k + 1);
    }
    lemma_run_position(steps, events.take(k));
    if k > 0 {
        assert(events.take(k).drop_last() =~= events.take(k - 1));
        assert(events.take(k).last() == events[k - 1]);
    }
}

proof fn lemma_run_position(steps: Seq<Step>, events: Seq<EventView>)
    ensures
        run_after(steps, events) matches Some(run) ==> run.at == events.len() && run.steps == steps,
    decreases events.len(),
{
    if events.len() > 0 {
        lemma_run_position(steps, events.drop_last());
    }
}

/// A test that halts a flow and passes has shown this: the pool answered that it
/// failed, with the code of a user's refusal and without a transaction; the flow
/// went through proof and simulation before it reached signing; and the balance
/// after the flow is the balance before it.
pub proof fn a_halted_flow_moves_nothing(
    scenario: Scenario,
    env: Environment,
    events: Seq<EventView>,
)
    requires
        halts_a_flow(scenario),
        steps_of(scenario, env) matches Some(steps) && passes(steps, events),
    ensures
        ({
            let flow = flow_step(scenario);
            &&& events[flow] matches EventView::Response(response) && response.status
                == "failed"@ && response.code == Some(USER_REJECTED) && response.hashes.len() == 0
            &&& events[flow + 1] matches EventView::Stages(stages) && reached_signing(stages)
                && proved_simulated_signed(stages)
            &&& events[flow - 2] is Balance
            &&& events[flow + 2] == events[flow - 2]
        }),
{
    let steps = steps_of(scenario, env)->0;
    let flow = flow_step(scenario);
    lemma_run_position(steps, events);
    lemma_run_prefix(steps, events, flow - 1);
    lemma_run_prefix(steps, events, flow);
    lemma_run_prefix(steps, events, flow + 1);
    lemma_run_prefix(steps, events, flow + 2);
    lemma_run_prefix(steps, events, flow + 3);
}

/// A transfer or withdrawal is only tried with enough to spend: the setup deposit
/// was confirmed, and the balance covers the amount of the flow.
pub proof fn a_spending_flow_has_enough(
    scenario: Scenario,
    env: Environment,
    events: Seq<EventView>,
)
    requires
        scenario == Scenario::TransferHaltsAtSigning || scenario
            == Scenario::WithdrawHaltsAtSigning,
        steps_of(scenario, env) matches Some(steps) && passes(steps, events),
    ensures
        events[5] matches EventView::Response(response) && response.status == "ok"@,
        events[9] matches EventView::Balance(balance) && balance >= FLOW_AMOUNT_STROOPS,
{
    let steps = steps_of(scenario, env)->0;
    lemma_run_position(steps, events);
    lemma_run_prefix(steps, events, 6);
    lemma_run_prefix(steps, events, 10);
}

/// A seeding test that passes has shown that the deposit was confirmed and that
/// the balance grew by what was deposited.
pub proof fn a_seed_deposit_grows_the_balance(env: Environment, events: Seq<EventView>)
    requires
        steps_of(Scenario::SeedDepositCreatesSpendableNotes, env) matches Some(steps) && passes(
            steps,
            events,
        ),
    ensures
        events[8] matches EventView::Response(response) && response.status == "ok"@,
        events[5] matches EventView::Balance(before) && events[10] matches EventView::Balance(
            after,
        ) && after == saturating_sum(before, SEED_DEPOSIT_STROOPS),
{
    let steps = steps_of(Scenario::SeedDepositCreatesSpendableNotes, env)->0;
    lemma_run_position(steps, events);
    lemma_run_prefix(steps, events, 6);
    lemma_run_prefix(steps, events, 7);
    lemma_run_prefix(steps, events, 8);
    lemma_run_prefix(steps, events, 9);
    lemma_run_prefix(steps, events, 10);
    lemma_run_prefix(steps, events, 11);
}

/// A session test that passes has shown that the session is bound to the
/// configured account.
pub proof fn a_session_is_bound_to_its_account(env: Environment, events: Seq<EventView>)
    requires
        steps_of(Scenario::SessionAccountSetupAndSync, env) matches Some(steps) && passes(
            steps,
            events,
        ),
    ensures
        env.account_a.address matches Some(own) && events[3] == EventView::Address(own@),
{
    let steps = steps_of(Scenario::SessionAccountSetupAndSync, env)->0;
    lemma_run_position(steps, events);
    lemma_run_prefix(steps, events, 4);
}

/// A test passes on no fewer and no more events than it has steps, and no event
/// of a test that passes is a failure.
pub proof fn a_passing_test_has_no_failure(steps: Seq<Step>, events: Seq<EventView>, i: int)
    requires
        passes(steps, events),
        0 <= i < events.len(),
    ensures
        events.len() == steps.len(),
        !(events[i] is Failed),
{
    lemma_run_position(steps, events);
    lemma_run_prefix(steps, events, i + 1);
    lemma_run_prefix(steps, events, i);
}

/// Every test opens the storage, then builds the client, and stops the client's
/// background sync at its end and not before.
pub proof fn every_test_stops_background_sync(scenario: Scenario, env: Environment, i: int)
    requires
        steps_of(scenario, env) matches Some(steps) && 0 <= i < steps.len(),
    ensures
        ({
            let steps = steps_of(scenario, env)->0;
            &&& steps[0].action == Action::OpenStorage
            &&& steps[1].action == Action::BuildClient
            &&& steps[i].action == Action::StopBackgroundSync <==> i == steps.len() - 1
        }),
{
}

/// A flow under test is never signed. A test that halts a flow opens the session
/// under test with the sentinel signer, on the account that is its own
/// ([`flow_account`]), and signs for nothing but a setup deposit of that account.
pub proof fn a_flow_under_test_is_never_signed(scenario: Scenario, env: Environment, i: int)
    requires
        halts_a_flow(scenario),
        steps_of(scenario, env) matches Some(steps) && 0 <= i < steps.len(),
    ensures
        match steps_of(scenario, env)->0[i].action {
            Action::OpenAccount { account, mode } => account == flow_account(scenario, env) && mode
                == SignerMode::Sentinel,
            Action::OpenSeedAccount { account, mode } => {
                &&& scenario != Scenario::DepositHaltsAtSigning
                &&& account == flow_account(scenario, env)
                &&& mode == SignerMode::Signing(account)
                &&& i < flow_step(scenario)
            },
            _ => true,
        },
{
}

/// The stages that a test judges are those of its own flow: recording starts right
/// before the flow, and ends right after it, under the flow's name.
pub proof fn stages_are_those_of_the_flow(scenario: Scenario, env: Environment)
    requires
        halts_a_flow(scenario),
        steps_of(scenario, env) is Some,
    ensures
        ({
            let steps = steps_of(scenario, env)->0;
            let flow = flow_step(scenario);
            &&& steps[flow - 1].action matches Action::StartCapture { flow: started } && started@
                == flow_name(scenario)
            &&& match scenario {
                Scenario::DepositHaltsAtSigning => steps[flow].action is Deposit,
                Scenario::TransferHaltsAtSigning => steps[flow].action is Transfer,
                _ => steps[flow].action is Withdraw,
            }
            &&& steps[flow + 1].action matches Action::CollectStages { flow: ended } && ended@
                == flow_name(scenario)
        }),
{
}

/// A run takes one event after the other.
proof fn lemma_run_next(steps: Seq<Step>, events: Seq<EventView>, k: int)
    requires
        0 <= k < events.len(),
    ensures
        run_after(steps, events.take(k + 1)) == match run_after(steps, events.take(k)) {
            Some(run) => if problem(run, events[k]) is None {
                Some(past(run, events[k]))
            } else {
                None
            },
            None => None,
        },
{
    assert(events.take(k + 1).drop_last() =~= events.take(k));
    assert(events.take(k + 1).last() == events[k]);
}

/// The smoke test passes exactly where every action is done and the stub signer is defined.
pub proof fn what_the_smoke_test_asks(env: Environment, events: Seq<EventView>)
    ensures
        passes(steps_of(Scenario::SmokeClientConstruction, env)->0, events) <==> {
            &&& events.len() == 5
            &&& events[0] == EventView::Done
            &&& events[1] == EventView::Done
            &&& events[2] == EventView::Done
            &&& events[3] == EventView::Defined(true)
            &&& events[4] == EventView::Done
        },
{
    let steps = steps_of(Scenario::SmokeClientConstruction, env)->0;
    lemma_run_position(steps, events);
    if events.len() == 5 {
        assert(events.take(0) =~= Seq::empty());
        assert(events.take(5) =~= events);
        lemma_run_next(steps, events, 0);
        lemma_run_next(steps, events, 1);
        lemma_run_next(steps, events, 2);
        lemma_run_next(steps, events, 3);
        lemma_run_next(steps, events, 4);
    }
}

/// The seeding test passes exactly where every action is done, the deposit's status is
/// "ok", and the second balance is the first and a million stroops, or the largest that
/// there is where that is less.
pub proof fn what_the_seeding_test_asks(env: Environment, events: Seq<EventView>)
    ensures
        passes(steps_of(Scenario::SeedDepositCreatesSpendableNotes, env)->0, events) <==> {
            &&& events.len() == 12
            &&& events[0] == EventView::Done
            &&& events[1] == EventView::Done
            &&& events[2] == EventView::Done
            &&& events[3] == EventView::Done
            &&& events[4] == EventView::Done
            &&& events[6] == EventView::Done
            &&& events[7] == EventView::Done
            &&& events[9] == EventView::Done
            &&& events[11] == EventView::Done
            &&& events[8] matches EventView::Response(answer) && answer.status == "ok"@
            &&& events[5] matches EventView::Balance(before) && (events[10] matches EventView::Balance(
                after,
            ) && if before + 1_000_000 <= u128::MAX {
                after == before + 1_000_000
            } else {
                after == u128::MAX
            })
        },
{
    let steps = steps_of(Scenario::SeedDepositCreatesSpendableNotes, env)->0;
    lemma_run_position(steps, events);
    if events.len() == 12 {
        assert(events.take(0) =~= Seq::empty());
        assert(events.take(12) =~= events);
        lemma_run_next(steps, events, 0);
        lemma_run_next(steps, events, 1);
        lemma_run_next(steps, events, 2);
        lemma_run_next(steps, events, 3);
        lemma_run_next(steps, events, 4);
        lemma_run_next(steps, events, 5);
        lemma_run_next(steps, events, 6);
        lemma_run_next(steps, events, 7);
        lemma_run_next(steps, events, 8);
        lemma_run_next(steps, events, 9);
        lemma_run_next(steps, events, 10);
        lemma_run_next(steps, events, 11);
    }
}

/// The depositing test passes exactly where every action is done, the deposit is answered
/// as one that was halted, the stages of proof, simulation and signing stand in this order,
/// and both balances are the same.
pub proof fn what_the_depositing_test_asks(env: Environment, events: Seq<EventView>)
    ensures
        passes(steps_of(Scenario::DepositHaltsAtSigning, env)->0, events) <==> {
            &&& events.len() == 11
            &&& events[0] == EventView::Done
            &&& events[1] == EventView::Done
            &&& events[2] == EventView::Done
            &&& events[3] == EventView::Done
            &&& events[4] == EventView::Done
            &&& events[6] == EventView::Done
            &&& events[10] == EventView::Done
            &&& events[7] matches EventView::Response(answer) && answer.status == "failed"@
                && answer.code == Some(-4i32) && answer.hashes.len() == 0
            &&& events[8] matches EventView::Stages(stages) && (exists|i: int, j: int, k: int|
                0 <= i < j < k < stages.len() && #[trigger] stages[i] == "prove"@
                    && #[trigger] stages[j] == "simulate"@ && #[trigger] stages[k] == "sign"@)
            &&& events[5] is Balance
            &&& events[9] == events[5]
        },
{
    let steps = steps_of(Scenario::DepositHaltsAtSigning, env)->0;
    lemma_run_position(steps, events);
    if events.len() == 11 {
        assert(events.take(0) =~= Seq::empty());
        assert(events.take(11) =~= events);
        lemma_run_next(steps, events, 0);
        lemma_run_next(steps, events, 1);
        lemma_run_next(steps, events, 2);
        lemma_run_next(steps, events, 3);
        lemma_run_next(steps, events, 4);
        lemma_run_next(steps, events, 5);
        lemma_run_next(steps, events, 6);
        lemma_run_next(steps, events, 7);
        lemma_run_next(steps, events, 8);
        lemma_run_next(steps, events, 9);
        lemma_run_next(steps, events, 10);
    }
}

/// The transferring test, of a recipient that is configured, passes exactly where every
/// action is done, the setup deposit's status is "ok", the balance covers half a million
/// stroops, the transfer is answered as one that was halted, the stages of proof, simulation
/// and signing stand in this order, and both balances are the same.
pub proof fn what_the_transferring_test_asks(env: Environment, events: Seq<EventView>)
    requires
        env.account_a.address is Some,
    ensures
        passes(steps_of(Scenario::TransferHaltsAtSigning, env)->0, events) <==> {
            &&& events.len() == 15
            &&& events[0] == EventView::Done
            &&& events[1] == EventView::Done
            &&& events[2] == EventView::Done
            &&& events[3] == EventView::Done
            &&& events[4] == EventView::Done
            &&& events[6] == EventView::Done
            &&& events[7] == EventView::Done
            &&& events[8] == EventView::Done
            &&& events[10] == EventView::Done
            &&& events[14] == EventView::Done
            &&& events[5] matches EventView::Response(answer) && answer.status == "ok"@
            &&& events[9] matches EventView::Balance(before) && before >= 500_000
            &&& events[11] matches EventView::Response(answer) && answer.status == "failed"@
                && answer.code == Some(-4i32) && answer.hashes.len() == 0
            &&& events[12] matches EventView::Stages(stages) && (exists|i: int, j: int, k: int|
                0 <= i < j < k < stages.len() && #[trigger] stages[i] == "prove"@
                    && #[trigger] stages[j] == "simulate"@ && #[trigger] stages[k] == "sign"@)
            &&& events[13] == events[9]
        },
{
    let steps = steps_of(Scenario::TransferHaltsAtSigning, env)->0;
    lemma_run_position(steps, events);
    if events.len() == 15 {
        assert(events.take(0) =~= Seq::empty());
        assert(events.take(15) =~= events);
        lemma_run_next(steps, events, 0);
        lemma_run_next(steps, events, 1);
        lemma_run_next(steps, events, 2);
        lemma_run_next(steps, events, 3);
        lemma_run_next(steps, events, 4);
        lemma_run_next(steps, events, 5);
        lemma_run_next(steps, events, 6);
        lemma_run_next(steps, events, 7);
        lemma_run_next(steps, events, 8);
        lemma_run_next(steps, events, 9);
        lemma_run_next(steps, events, 10);
        lemma_run_next(steps, events, 11);
        lemma_run_next(steps, events, 12);
        lemma_run_next(steps, events, 13);
        lemma_run_next(steps, events, 14);
    }
}

/// The withdrawing test passes exactly where every action is done, the setup deposit's
/// status is "ok", the balance covers half a million stroops, the withdrawal is answered as
/// one that was halted, the stages of proof, simulation and signing stand in this order, and
/// both balances are the same.
pub proof fn what_the_withdrawing_test_asks(env: Environment, events: Seq<EventView>)
    ensures
        passes(steps_of(Scenario::WithdrawHaltsAtSigning, env)->0, events) <==> {
            &&& events.len() == 15
            &&& events[0] == EventView::Done
            &&& events[1] == EventView::Done
            &&& events[2] == EventView::Done
            &&& events[3] == EventView::Done
            &&& events[4] == EventView::Done
            &&& events[6] == EventView::Done
            &&& events[7] == EventView::Done
            &&& events[8] == EventView::Done
            &&& events[10] == EventView::Done
            &&& events[14] == EventView::Done
            &&& events[5] matches EventView::Response(answer) && answer.status == "ok"@
            &&& events[9] matches EventView::Balance(before) && before >= 500_000
            &&& events[11] matches EventView::Response(answer) && answer.status == "failed"@
                && answer.code == Some(-4i32) && answer.hashes.len() == 0
            &&& events[12] matches EventView::Stages(stages) && (exists|i: int, j: int, k: int|
                0 <= i < j < k < stages.len() && #[trigger] stages[i] == "prove"@
                    && #[trigger] stages[j] == "simulate"@ && #[trigger] stages[k] == "sign"@)
            &&& events[13] == events[9]
        },
{
    let steps = steps_of(Scenario::WithdrawHaltsAtSigning, env)->0;
    lemma_run_position(steps, events);
    if events.len() == 15 {
        assert(events.take(0) =~= Seq::empty());
        assert(events.take(15) =~= events);
        lemma_run_next(steps, events, 0);
        lemma_run_next(steps, events, 1);
        lemma_run_next(steps, events, 2);
        lemma_run_next(steps, events, 3);
        lemma_run_next(steps, events, 4);
        lemma_run_next(steps, events, 5);
        lemma_run_next(steps, events, 6);
        lemma_run_next(steps, events, 7);
        lemma_run_next(steps, events, 8);
        lemma_run_next(steps, events, 9);
        lemma_run_next(steps, events, 10);
        lemma_run_next(steps, events, 11);
        lemma_run_next(steps, events, 12);
        lemma_run_next(steps, events, 13);
        lemma_run_next(steps, events, 14);
    }
}

/// The session test passes exactly where every action is done, the session has the address
/// that is configured, and a balance, whatever it is, is read.
pub proof fn what_the_session_test_asks(env: Environment, events: Seq<EventView>)
    ensures
        passes(steps_of(Scenario::SessionAccountSetupAndSync, env)->0, events) <==> {
            &&& events.len() == 9
            &&& events[0] == EventView::Done
            &&& events[1] == EventView::Done
            &&& events[2] == EventView::Done
            &&& events[4] == EventView::Done
            &&& events[5] == EventView::Done
            &&& events[7] == EventView::Done
            &&& events[8] == EventView::Done
            &&& env.account_a.address matches Some(own) && events[3] == EventView::Address(own@)
            &&& events[6] is Balance
        },
{
    let steps = steps_of(Scenario::SessionAccountSetupAndSync, env)->0;
    lemma_run_position(steps, events);
    if events.len() == 9 {
        assert(events.take(0) =~= Seq::empty());
        assert(events.take(9) =~= events);
        lemma_run_next(steps, events, 0);
        lemma_run_next(steps, events, 1);
        lemma_run_next(steps, events, 2);
        lemma_run_next(steps, events, 3);
        lemma_run_next(steps, events, 4);
        lemma_run_next(steps, events, 5);
        lemma_run_next(steps, events, 6);
        lemma_run_next(steps, events, 7);
        lemma_run_next(steps, events, 8);
    }
}

/// What a run sees of an event is what the event holds.
pub proof fn events_are_seen_as_they_are(event: Event)
    ensures
        match event {
            Event::Done => event@ == EventView::Done,
            Event::Defined(defined) => event@ == EventView::Defined(defined),
            Event::Address(address) => event@ == EventView::Address(address@),
            Event::Balance(balance) => event@ == EventView::Balance(balance),
            Event::Failed(error) => event@ == EventView::Failed(error@),
            Event::Response(response) => {
                &&& event@ matches EventView::Response(answer)
                &&& answer.status == response.status@
                &&& answer.code == response.code
                &&& answer.hashes.len() == response.hashes@.len()
                &&& answer.message is Some <==> response.message is Some
                &&& response.message matches Some(text) ==> answer.message == Some(text@)
            },
            Event::Stages(stages) => {
                &&& event@ matches EventView::Stages(seen)
                &&& seen.len() == stages@.len()
                &&& forall|i: int| 0 <= i < seen.len() ==> #[trigger] seen[i] == stages@[i]@
            },
        },
{
}

} // verus!
