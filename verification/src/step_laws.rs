//! What the end-to-end tests do, step by step, and on what with which amounts.

use crate::environment::{Environment, FLOW_AMOUNT_STROOPS, SEED_DEPOSIT_STROOPS};
use crate::scenario::{
    e2e_deposit_halts_at_signing, e2e_seed_deposit_creates_spendable_notes,
    e2e_session_account_setup_and_sync, e2e_smoke_client_construction,
    e2e_transfer_halts_at_signing, e2e_withdraw_halts_at_signing, script, steps_of, Action,
    BalanceCheck, Scenario, Step,
};
use crate::signer::SignerMode;
use vstd::prelude::*;
use vstd::string::*;

verus! {

/// The amounts that are moved: a setup deposit is of a million stroops, and a transfer or
/// withdrawal of half of that, so that one deposit is enough for one flow.
pub proof fn a_seed_covers_a_flow()
    ensures
        SEED_DEPOSIT_STROOPS == 1_000_000,
        2 * FLOW_AMOUNT_STROOPS == SEED_DEPOSIT_STROOPS,
{
}

/// The withdrawing test moves the amount that it has made sure of: it seeds account D,
/// signing with D's own secret, syncs, opens D with the signer that halts flows, reads a
/// balance that has to cover the flow's amount, and withdraws just that amount while the
/// stages of withdrawing are recorded; then the balance has to be the same.
pub proof fn a_withdrawal_is_of_the_amount_that_is_covered(env: &Environment, steps: Vec<Step>)
    requires
        call_ensures(e2e_withdraw_halts_at_signing, (env,), steps),
    ensures
        steps@.len() == 15,
        steps@[0].action == Action::OpenStorage,
        steps@[1].action == Action::BuildClient,
        steps@[2].action == Action::Sync,
        steps@[3].action == (Action::OpenSeedAccount {
            account: env.account_d,
            mode: SignerMode::Signing(env.account_d),
        }),
        steps@[4].action == Action::OpenSeedPool,
        steps@[5].action == (Action::SeedDeposit { amount: SEED_DEPOSIT_STROOPS }),
        steps@[6].action == Action::Sync,
        steps@[7].action == (Action::OpenAccount {
            account: env.account_d,
            mode: SignerMode::Sentinel,
        }),
        steps@[8].action == Action::OpenPool,
        steps@[9].action matches Action::ReadBalance { check: BalanceCheck::AtLeast(covered) }
            && steps@[11].action == (Action::Withdraw { amount: covered }) && covered
            == FLOW_AMOUNT_STROOPS,
        steps@[10].action == (Action::StartCapture { flow: "withdraw" }),
        steps@[12].action == (Action::CollectStages { flow: "withdraw" }),
        steps@[13].action matches Action::ReadBalance { check: BalanceCheck::Unchanged(said) }
            && said@ == "a withdraw halted at signing must not move funds"@,
        steps@[14].action == Action::StopBackgroundSync,
{
}

/// The transferring test moves the amount that it has made sure of: it seeds account C,
/// signing with C's own secret, syncs, opens C with the signer that halts flows, reads a
/// balance that has to cover the flow's amount, and transfers just that amount to account
/// A while the stages of transferring are recorded; then the balance has to be the same.
/// It needs the address of account A, and nothing else.
pub proof fn a_transfer_is_of_the_amount_that_is_covered(
    env: &Environment,
    made: Result<Vec<Step>, &'static str>,
)
    requires
        call_ensures(e2e_transfer_halts_at_signing, (env,), made),
    ensures
        made is Ok <==> env.account_a.address is Some,
        made matches Err(said) ==> said@ == "E2E_ACCOUNT_A_ADDRESS must be compiled in"@,
        made matches Ok(steps) ==> {
            &&& steps@.len() == 15
            &&& steps@[0].action == Action::OpenStorage
            &&& steps@[1].action == Action::BuildClient
            &&& steps@[2].action == Action::Sync
            &&& steps@[3].action == (Action::OpenSeedAccount {
                account: env.account_c,
                mode: SignerMode::Signing(env.account_c),
            })
            &&& steps@[4].action == Action::OpenSeedPool
            &&& steps@[5].action == (Action::SeedDeposit { amount: SEED_DEPOSIT_STROOPS })
            &&& steps@[6].action == Action::Sync
            &&& steps@[7].action == (Action::OpenAccount {
                account: env.account_c,
                mode: SignerMode::Sentinel,
            })
            &&& steps@[8].action == Action::OpenPool
            &&& steps@[9].action matches Action::ReadBalance {
                check: BalanceCheck::AtLeast(covered),
            } && covered == FLOW_AMOUNT_STROOPS && (steps@[11].action matches Action::Transfer {
                recipient,
                amount,
            } && amount == covered && env.account_a.address == Some(recipient))
            &&& steps@[10].action == (Action::StartCapture { flow: "transfer" })
            &&& steps@[12].action == (Action::CollectStages { flow: "transfer" })
            &&& steps@[13].action matches Action::ReadBalance {
                check: BalanceCheck::Unchanged(said),
            } && said@ == "a transfer halted at signing must not move funds"@
            &&& steps@[14].action == Action::StopBackgroundSync
        },
{
}

/// The depositing test deposits what a setup deposit does, from account B with the signer
/// that halts flows, while the stages of depositing are recorded; the balance that is read
/// before has to be the balance after.
pub proof fn a_deposit_under_test_is_of_the_seed_amount(env: &Environment, steps: Vec<Step>)
    requires
        call_ensures(e2e_deposit_halts_at_signing, (env,), steps),
    ensures
        steps@.len() == 11,
        steps@[0].action == Action::OpenStorage,
        steps@[1].action == Action::BuildClient,
        steps@[2].action == Action::Sync,
        steps@[3].action == (Action::OpenAccount {
            account: env.account_b,
            mode: SignerMode::Sentinel,
        }),
        steps@[4].action == Action::OpenPool,
        steps@[5].action == (Action::ReadBalance { check: BalanceCheck::Remember }),
        steps@[6].action == (Action::StartCapture { flow: "deposit" }),
        steps@[7].action == (Action::Deposit { amount: SEED_DEPOSIT_STROOPS }),
        steps@[8].action == (Action::CollectStages { flow: "deposit" }),
        steps@[9].action matches Action::ReadBalance { check: BalanceCheck::Unchanged(said) }
            && said@ == "a flow halted at signing must not change the pool balance"@,
        steps@[10].action == Action::StopBackgroundSync,
{
}

/// The seeding test expects the balance of account A to grow by what it deposits, from A
/// and signed with A's own secret, between the two balances that it reads.
pub proof fn a_seed_grows_the_balance_by_its_amount(env: &Environment, steps: Vec<Step>)
    requires
        call_ensures(e2e_seed_deposit_creates_spendable_notes, (env,), steps),
    ensures
        steps@.len() == 12,
        steps@[0].action == Action::OpenStorage,
        steps@[1].action == Action::BuildClient,
        steps@[2].action == Action::Sync,
        steps@[3].action == (Action::OpenAccount {
            account: env.account_a,
            mode: SignerMode::Signing(env.account_a),
        }),
        steps@[4].action == Action::OpenPool,
        steps@[5].action == (Action::ReadBalance { check: BalanceCheck::Remember }),
        steps@[6].action == (Action::OpenSeedAccount {
            account: env.account_a,
            mode: SignerMode::Signing(env.account_a),
        }),
        steps@[7].action == Action::OpenSeedPool,
        steps@[8].action matches Action::SeedDeposit { amount } && amount == SEED_DEPOSIT_STROOPS
            && steps@[10].action == (Action::ReadBalance { check: BalanceCheck::GrownBy(amount) }),
        steps@[9].action == Action::Sync,
        steps@[11].action == Action::StopBackgroundSync,
{
}

/// The session test opens account A with the signer that halts flows, and expects the
/// session to have A's own address; then it syncs and reads the pool's balance and notes.
pub proof fn a_session_is_expected_to_have_its_own_address(env: &Environment, steps: Vec<Step>)
    requires
        call_ensures(e2e_session_account_setup_and_sync, (env,), steps),
    ensures
        steps@.len() == 9,
        steps@[0].action == Action::OpenStorage,
        steps@[1].action == Action::BuildClient,
        steps@[2].action matches Action::OpenAccount { account, mode } && account == env.account_a
            && mode == SignerMode::Sentinel && steps@[3].action == (Action::ReadUserAddress {
            expected: account.address,
        }),
        steps@[4].action == Action::Sync,
        steps@[5].action == Action::OpenPool,
        steps@[6].action == (Action::ReadBalance { check: BalanceCheck::Remember }),
        steps@[7].action == Action::ReadNotes,
        steps@[8].action == Action::StopBackgroundSync,
{
}

/// The smoke test opens the storage, builds the client, reads its configuration, and
/// builds the stub signer.
pub proof fn a_smoke_test_builds_client_and_signer(steps: Vec<Step>)
    requires
        call_ensures(e2e_smoke_client_construction, (), steps),
    ensures
        steps@.len() == 5,
        steps@[0].action == Action::OpenStorage,
        steps@[1].action == Action::BuildClient,
        steps@[2].action == Action::ReadContractConfig,
        steps@[3].action == Action::BuildStubSigner,
        steps@[4].action == Action::StopBackgroundSync,
{
}

/// The script of a test is what the test's own function makes.
pub proof fn a_script_is_that_of_its_test(
    env: &Environment,
    scripts: Seq<Result<Vec<Step>, &'static str>>,
    smoke: Vec<Step>,
    seed: Vec<Step>,
    deposit: Vec<Step>,
    transfer: Result<Vec<Step>, &'static str>,
    withdraw: Vec<Step>,
    session: Vec<Step>,
)
    requires
        scripts.len() == 6,
        call_ensures(script, (Scenario::SmokeClientConstruction, env), scripts[0]),
        call_ensures(script, (Scenario::SeedDepositCreatesSpendableNotes, env), scripts[1]),
        call_ensures(script, (Scenario::DepositHaltsAtSigning, env), scripts[2]),
        call_ensures(script, (Scenario::TransferHaltsAtSigning, env), scripts[3]),
        call_ensures(script, (Scenario::WithdrawHaltsAtSigning, env), scripts[4]),
        call_ensures(script, (Scenario::SessionAccountSetupAndSync, env), scripts[5]),
        call_ensures(e2e_smoke_client_construction, (), smoke),
        call_ensures(e2e_seed_deposit_creates_spendable_notes, (env,), seed),
        call_ensures(e2e_deposit_halts_at_signing, (env,), deposit),
        call_ensures(e2e_transfer_halts_at_signing, (env,), transfer),
        call_ensures(e2e_withdraw_halts_at_signing, (env,), withdraw),
        call_ensures(e2e_session_account_setup_and_sync, (env,), session),
    ensures
        scripts[0] matches Ok(steps) && steps@ == smoke@,
        scripts[1] matches Ok(steps) && steps@ == seed@,
        scripts[2] matches Ok(steps) && steps@ == deposit@,
        scripts[3] is Ok <==> transfer is Ok,
        scripts[3] matches Ok(steps) ==> (transfer matches Ok(own) && steps@ == own@),
        scripts[3] matches Err(said) ==> (transfer matches Err(own) && said@ == own@),
        scripts[4] matches Ok(steps) && steps@ == withdraw@,
        scripts[5] matches Ok(steps) && steps@ == session@,
{
}

/// What the steps of a test are is what its script gives.
pub proof fn a_test_has_the_steps_of_its_script(
    scenario: Scenario,
    env: &Environment,
    made: Result<Vec<Step>, &'static str>,
)
    requires
        call_ensures(script, (scenario, env), made),
    ensures
        steps_of(scenario, *env) is Some <==> made is Ok,
        made is Err <==> scenario == Scenario::TransferHaltsAtSigning && env.account_a.address
            is None,
        made matches Ok(steps) ==> steps_of(scenario, *env) == Some(steps@),
        made matches Err(said) ==> said@ == "E2E_ACCOUNT_A_ADDRESS must be compiled in"@,
{
}

/// Each step says what was expected of it: of an action, whichever test it is in, the
/// same; of a sync, what it is for; and of a balance, when it is read.
pub proof fn every_step_says_what_was_expected_of_it(
    scenario: Scenario,
    env: &Environment,
    made: Result<Vec<Step>, &'static str>,
    i: int,
)
    requires
        call_ensures(script, (scenario, env), made),
        made matches Ok(steps) && 0 <= i < steps@.len(),
    ensures
        ({
            let step = made->Ok_0@[i];
            let said = step.expectation@;
            match step.action {
                Action::OpenStorage => said == "storage worker must start and answer its ping"@,
                Action::BuildClient => said == "client construction must succeed"@,
                Action::OpenAccount { .. } => said == "account session must open"@,
                Action::OpenSeedAccount { .. } => said == "account session must open"@,
                Action::OpenPool => said == "pool session must open"@,
                Action::OpenSeedPool => said == "pool session must open"@,
                Action::SeedDeposit { .. } => said
                    == "seed deposit must not error at the JS boundary"@,
                Action::StartCapture { .. } => said
                    == "installing the progress listener must succeed"@,
                Action::CollectStages { .. } => said == "reading captured stages must succeed"@,
                Action::Deposit { .. } => said
                    == "deposit must resolve at the JS boundary, not throw"@,
                Action::Transfer { .. } => said
                    == "transfer must resolve at the JS boundary, not throw"@,
                Action::Withdraw { .. } => said
                    == "withdraw must resolve at the JS boundary, not throw"@,
                Action::ReadNotes => said == "pool notes read must succeed"@,
                Action::ReadBalance { check } => said == (if scenario
                    == Scenario::SessionAccountSetupAndSync {
                    "pool balance read must succeed"@
                } else if check is Unchanged || check is GrownBy {
                    "balance read after"@
                } else {
                    "balance read before"@
                }),
                Action::Sync => said == (match scenario {
                    Scenario::DepositHaltsAtSigning => "sync must succeed"@,
                    Scenario::SessionAccountSetupAndSync => "sync to chain tip must succeed"@,
                    Scenario::SeedDepositCreatesSpendableNotes => if i == 2 {
                        "initial sync must succeed"@
                    } else {
                        "sync after deposit must succeed"@
                    },
                    _ => if i == 2 {
                        "initial sync must succeed"@
                    } else {
                        "sync after seeding must succeed"@
                    },
                }),
                _ => true,
            }
        }),
{
}

} // verus!
