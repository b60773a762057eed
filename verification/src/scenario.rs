//! The end-to-end tests as scripts, and how a run of one is judged.
//!
//! A test is a list of [`Step`]s. The host performs the current step's action in
//! the browser and reports what came of it; [`Run::next`] decides whether the test
//! goes on.

use crate::environment::{
    Environment, TestAccount, FLOW_AMOUNT_STROOPS, SEED_DEPOSIT_STROOPS,
};
use crate::response::{
    assert_halted_at_signing, halt_complaint, halt_complaint_text, halt_violation,
    proved_simulated_signed, seed_complaint, seed_complaint_text, seed_deposit,
    went_through_proof_and_simulation, HaltCheck, PoolExecuteResult, ResponseView,
};
use crate::report::{
    list_debug, list_text, text_debug, unequal, unequal_numbers_text, unequal_texts_text, unmet,
    unmet_text, NOTHING_THERE,
};
use crate::signer::SignerMode;
use crate::text::{decimal, decimal_text, views};
use vstd::prelude::*;
use vstd::string::*;

verus! {

/// What is expected of a balance that is read.
#[derive(Clone, Copy, Debug, PartialEq, Eq)]
pub enum BalanceCheck {
    /// Nothing; the balance is remembered.
    Remember,
    /// It is at least this much; it is remembered.
    AtLeast(u128),
    /// It is the balance that was remembered; what to say if not.
    Unchanged(&'static str),
    /// It is the balance that was remembered plus this much.
    GrownBy(u128),
}

/// What the host does in a step.
#[derive(Clone, Copy, Debug, PartialEq, Eq)]
pub enum Action {
    OpenStorage,
    BuildClient,
    ReadContractConfig,
    /// Build the stub signer and see whether it is defined.
    BuildStubSigner,
    Sync,
    OpenAccount { account: TestAccount, mode: SignerMode },
    OpenPool,
    /// Read the address that the session is bound to.
    ReadUserAddress { expected: Option<&'static str> },
    ReadBalance { check: BalanceCheck },
    ReadNotes,
    /// Open the account for a setup deposit, beside the session under test.
    OpenSeedAccount { account: TestAccount, mode: SignerMode },
    /// Open the pool for a setup deposit.
    OpenSeedPool,
    /// Make a setup deposit, so that there are notes to spend.
    SeedDeposit { amount: u128 },
    StartCapture { flow: &'static str },
    Deposit { amount: u128 },
    Transfer { recipient: &'static str, amount: u128 },
    Withdraw { amount: u128 },
    CollectStages { flow: &'static str },
    StopBackgroundSync,
}

/// A step of a test: an action, and what is said when it fails.
#[derive(Clone, Copy, Debug, PartialEq, Eq)]
pub struct Step {
    pub action: Action,
    pub expectation: &'static str,
}

/// The end-to-end tests.
#[derive(Clone, Copy, Debug, PartialEq, Eq)]
pub enum Scenario {
    /// Both workers start and answer, and the client constructs.
    SmokeClientConstruction,
    /// A deposit that is signed and submitted leaves spendable notes.
    SeedDepositCreatesSpendableNotes,
    /// A deposit goes through proof and simulation and then halts at signing.
    DepositHaltsAtSigning,
    /// A transfer spends seeded notes through proof and simulation, then halts at
    /// signing.
    TransferHaltsAtSigning,
    /// A withdrawal spends seeded notes through proof and simulation, then halts at
    /// signing.
    WithdrawHaltsAtSigning,
    /// Key derivation, sync and a read of the pool's state.
    SessionAccountSetupAndSync,
}

/// A step with the action's own expectation.
pub open spec fn plain(action: Action) -> Step {
    Step {
        action,
        expectation: match action {
            Action::OpenStorage => "storage worker must start and answer its ping",
            Action::BuildClient => "client construction must succeed",
            Action::OpenAccount { .. } | Action::OpenSeedAccount { .. } => {
                "account session must open"
            },
            Action::OpenPool | Action::OpenSeedPool => "pool session must open",
            Action::SeedDeposit { .. } => "seed deposit must not error at the JS boundary",
            Action::StartCapture { .. } => "installing the progress listener must succeed",
            Action::Deposit { .. } => "deposit must resolve at the JS boundary, not throw",
            Action::Transfer { .. } => "transfer must resolve at the JS boundary, not throw",
            Action::Withdraw { .. } => "withdraw must resolve at the JS boundary, not throw",
            Action::CollectStages { .. } => "reading captured stages must succeed",
            Action::ReadNotes => "pool notes read must succeed",
            Action::ReadBalance { check } => match check {
                BalanceCheck::Unchanged(_) | BalanceCheck::GrownBy(_) => "balance read after",
                _ => "balance read before",
            },
            _ => "",
        },
    }
}

/// A sync, with what is said when it fails.
pub open spec fn sync_step(expectation: &'static str) -> Step {
    Step { action: Action::Sync, expectation }
}

/// The steps of [`Scenario::SmokeClientConstruction`].
pub open spec fn smoke_steps() -> Seq<Step> {
    seq![
        plain(Action::OpenStorage),
        plain(Action::BuildClient),
        plain(Action::ReadContractConfig),
        plain(Action::BuildStubSigner),
        plain(Action::StopBackgroundSync),
    ]
}

/// The steps of [`Scenario::SeedDepositCreatesSpendableNotes`].
pub open spec fn seed_steps(env: Environment) -> Seq<Step> {
    seq![
        plain(Action::OpenStorage),
        plain(Action::BuildClient),
        sync_step("initial sync must succeed"),
        plain(
            Action::OpenAccount {
                account: env.account_a,
                mode: SignerMode::Signing(env.account_a),
            },
        ),
        plain(Action::OpenPool),
        plain(Action::ReadBalance { check: BalanceCheck::Remember }),
        plain(
            Action::OpenSeedAccount {
                account: env.account_a,
                mode: SignerMode::Signing(env.account_a),
            },
        ),
        plain(Action::OpenSeedPool),
        plain(Action::SeedDeposit { amount: SEED_DEPOSIT_STROOPS }),
        sync_step("sync after deposit must succeed"),
        plain(Action::ReadBalance { check: BalanceCheck::GrownBy(SEED_DEPOSIT_STROOPS) }),
        plain(Action::StopBackgroundSync),
    ]
}

/// The steps of [`Scenario::DepositHaltsAtSigning`].
pub open spec fn deposit_steps(env: Environment) -> Seq<Step> {
    seq![
        plain(Action::OpenStorage),
        plain(Action::BuildClient),
        sync_step("sync must succeed"),
        plain(Action::OpenAccount { account: env.account_b, mode: SignerMode::Sentinel }),
        plain(Action::OpenPool),
        plain(Action::ReadBalance { check: BalanceCheck::Remember }),
        plain(Action::StartCapture { flow: "deposit" }),
        plain(Action::Deposit { amount: SEED_DEPOSIT_STROOPS }),
        plain(Action::CollectStages { flow: "deposit" }),
        plain(
            Action::ReadBalance {
                check: BalanceCheck::Unchanged(
                    "a flow halted at signing must not change the pool balance",
                ),
            },
        ),
        plain(Action::StopBackgroundSync),
    ]
}

/// The steps of a test that spends seeded notes of `account` in a flow. Only the
/// setup deposit is really signed.
pub open spec fn spending_steps(
    account: TestAccount,
    flow: &'static str,
    action: Action,
    complaint: &'static str,
) -> Seq<Step> {
    seq![
        plain(Action::OpenStorage),
        plain(Action::BuildClient),
        sync_step("initial sync must succeed"),
        plain(Action::OpenSeedAccount { account, mode: SignerMode::Signing(account) }),
        plain(Action::OpenSeedPool),
        plain(Action::SeedDeposit { amount: SEED_DEPOSIT_STROOPS }),
        sync_step("sync after seeding must succeed"),
        plain(Action::OpenAccount { account, mode: SignerMode::Sentinel }),
        plain(Action::OpenPool),
        plain(Action::ReadBalance { check: BalanceCheck::AtLeast(FLOW_AMOUNT_STROOPS) }),
        plain(Action::StartCapture { flow }),
        plain(action),
        plain(Action::CollectStages { flow }),
        plain(Action::ReadBalance { check: BalanceCheck::Unchanged(complaint) }),
        plain(Action::StopBackgroundSync),
    ]
}

/// The steps of [`Scenario::SessionAccountSetupAndSync`].
pub open spec fn session_steps(env: Environment) -> Seq<Step> {
    seq![
        plain(Action::OpenStorage),
        plain(Action::BuildClient),
        plain(Action::OpenAccount { account: env.account_a, mode: SignerMode::Sentinel }),
        plain(Action::ReadUserAddress { expected: env.account_a.address }),
        sync_step("sync to chain tip must succeed"),
        plain(Action::OpenPool),
        Step {
            action: Action::ReadBalance { check: BalanceCheck::Remember },
            expectation: "pool balance read must succeed",
        },
        plain(Action::ReadNotes),
        plain(Action::StopBackgroundSync),
    ]
}

/// The steps of a test, or none where the recipient that it needs is not
/// configured.
pub open spec fn steps_of(scenario: Scenario, env: Environment) -> Option<Seq<Step>> {
    match scenario {
        Scenario::SmokeClientConstruction => Some(smoke_steps()),
        Scenario::SeedDepositCreatesSpendableNotes => Some(seed_steps(env)),
        Scenario::DepositHaltsAtSigning => Some(deposit_steps(env)),
        Scenario::TransferHaltsAtSigning => match env.account_a.address {
            Some(recipient) => Some(
                spending_steps(
                    env.account_c,
                    "transfer",
                    Action::Transfer { recipient, amount: FLOW_AMOUNT_STROOPS },
                    "a transfer halted at signing must not move funds",
                ),
            ),
            None => None,
        },
        Scenario::WithdrawHaltsAtSigning => Some(
            spending_steps(
                env.account_d,
                "withdraw",
                Action::Withdraw { amount: FLOW_AMOUNT_STROOPS },
                "a withdraw halted at signing must not move funds",
            ),
        ),
        Scenario::SessionAccountSetupAndSync => Some(session_steps(env)),
    }
}

/// A step with the action's own expectation.
fn step(action: Action) -> (r: Step)
    ensures
        r == plain(action),
{
    let expectation = match action {
        Action::OpenStorage => "storage worker must start and answer its ping",
        Action::BuildClient => "client construction must succeed",
        Action::OpenAccount { .. } | Action::OpenSeedAccount { .. } => {
            "account session must open"
        },
        Action::OpenPool | Action::OpenSeedPool => "pool session must open",
        Action::SeedDeposit { .. } => "seed deposit must not error at the JS boundary",
        Action::StartCapture { .. } => "installing the progress listener must succeed",
        Action::Deposit { .. } => "deposit must resolve at the JS boundary, not throw",
        Action::Transfer { .. } => "transfer must resolve at the JS boundary, not throw",
        Action::Withdraw { .. } => "withdraw must resolve at the JS boundary, not throw",
        Action::CollectStages { .. } => "reading captured stages must succeed",
        Action::ReadNotes => "pool notes read must succeed",
        Action::ReadBalance { check } => match check {
            BalanceCheck::Unchanged(_) | BalanceCheck::GrownBy(_) => "balance read after",
            _ => "balance read before",
        },
        _ => "",
    };
    Step { action, expectation }
}

/// Both workers must start and answer, and the client must construct.
pub fn e2e_smoke_client_construction() -> (r: Vec<Step>)
    ensures
        r@ == smoke_steps(),
{
    let steps: Vec<Step> = vec![
        step(Action::OpenStorage),
        step(Action::BuildClient),
        step(Action::ReadContractConfig),
        step(Action::BuildStubSigner),
        step(Action::StopBackgroundSync),
    ];
    proof {
        assert(steps@ =~= smoke_steps());
    }
    steps
}

/// A deposit that is signed and submitted must leave spendable notes behind.
pub fn e2e_seed_deposit_creates_spendable_notes(env: &Environment) -> (r: Vec<Step>)
    ensures
        r@ == seed_steps(*env),
{
    let steps: Vec<Step> = vec![
        step(Action::OpenStorage),
        step(Action::BuildClient),
        Step { action: Action::Sync, expectation: "initial sync must succeed" },
        step(
            Action::OpenAccount {
                account: env.account_a,
                mode: SignerMode::Signing(env.account_a),
            },
        ),
        step(Action::OpenPool),
        step(Action::ReadBalance { check: BalanceCheck::Remember }),
        step(
            Action::OpenSeedAccount {
                account: env.account_a,
                mode: SignerMode::Signing(env.account_a),
            },
        ),
        step(Action::OpenSeedPool),
        step(Action::SeedDeposit { amount: SEED_DEPOSIT_STROOPS }),
        Step { action: Action::Sync, expectation: "sync after deposit must succeed" },
        step(Action::ReadBalance { check: BalanceCheck::GrownBy(SEED_DEPOSIT_STROOPS) }),
        step(Action::StopBackgroundSync),
    ];
    proof {
        assert(steps@ =~= seed_steps(*env));
    }
    steps
}

/// A deposit must reach proof and simulation and then halt at signing.
pub fn e2e_deposit_halts_at_signing(env: &Environment) -> (r: Vec<Step>)
    ensures
        r@ == deposit_steps(*env),
{
    let steps: Vec<Step> = vec![
        step(Action::OpenStorage),
        step(Action::BuildClient),
        Step { action: Action::Sync, expectation: "sync must succeed" },
        step(Action::OpenAccount { account: env.account_b, mode: SignerMode::Sentinel }),
        step(Action::OpenPool),
        step(Action::ReadBalance { check: BalanceCheck::Remember }),
        step(Action::StartCapture { flow: "deposit" }),
        step(Action::Deposit { amount: SEED_DEPOSIT_STROOPS }),
        step(Action::CollectStages { flow: "deposit" }),
        step(
            Action::ReadBalance {
                check: BalanceCheck::Unchanged(
                    "a flow halted at signing must not change the pool balance",
                ),
            },
        ),
        step(Action::StopBackgroundSync),
    ];
    proof {
        assert(steps@ =~= deposit_steps(*env));
    }
    steps
}

fn spend_seeded_notes(
    account: TestAccount,
    flow: &'static str,
    action: Action,
    complaint: &'static str,
) -> (r: Vec<Step>)
    ensures
        r@ == spending_steps(account, flow, action, complaint),
{
    let steps: Vec<Step> = vec![
        step(Action::OpenStorage),
        step(Action::BuildClient),
        Step { action: Action::Sync, expectation: "initial sync must succeed" },
        step(Action::OpenSeedAccount { account, mode: SignerMode::Signing(account) }),
        step(Action::OpenSeedPool),
        step(Action::SeedDeposit { amount: SEED_DEPOSIT_STROOPS }),
        Step { action: Action::Sync, expectation: "sync after seeding must succeed" },
        step(Action::OpenAccount { account, mode: SignerMode::Sentinel }),
        step(Action::OpenPool),
        step(Action::ReadBalance { check: BalanceCheck::AtLeast(FLOW_AMOUNT_STROOPS) }),
        step(Action::StartCapture { flow }),
        step(action),
        step(Action::CollectStages { flow }),
        step(Action::ReadBalance { check: BalanceCheck::Unchanged(complaint) }),
        step(Action::StopBackgroundSync),
    ];
    proof {
        assert(steps@ =~= spending_steps(account, flow, action, complaint));
    }
    steps
}

/// A transfer must spend seeded notes through proof and simulation, then halt at
/// signing. It goes to account A, whose address must be configured.
pub fn e2e_transfer_halts_at_signing(env: &Environment) -> (r: Result<Vec<Step>, &'static str>)
    ensures
        match r {
            Ok(steps) => Some(steps@) == steps_of(Scenario::TransferHaltsAtSigning, *env),
            Err(message) => env.account_a.address is None && message@
                == "E2E_ACCOUNT_A_ADDRESS must be compiled in"@,
        },
{
    match env.account_a.address {
        Some(recipient) => Ok(
            spend_seeded_notes(
                env.account_c,
                "transfer",
                Action::Transfer { recipient, amount: FLOW_AMOUNT_STROOPS },
                "a transfer halted at signing must not move funds",
            ),
        ),
        None => Err("E2E_ACCOUNT_A_ADDRESS must be compiled in"),
    }
}

/// A withdrawal must spend seeded notes through proof and simulation, then halt at
/// signing.
pub fn e2e_withdraw_halts_at_signing(env: &Environment) -> (r: Vec<Step>)
    ensures
        Some(r@) == steps_of(Scenario::WithdrawHaltsAtSigning, *env),
{
    spend_seeded_notes(
        env.account_d,
        "withdraw",
        Action::Withdraw { amount: FLOW_AMOUNT_STROOPS },
        "a withdraw halted at signing must not move funds",
    )
}

/// A full session: key derivation from the stub blob, sync, and a read of the
/// pool's state.
pub fn e2e_session_account_setup_and_sync(env: &Environment) -> (r: Vec<Step>)
    ensures
        r@ == session_steps(*env),
{
    let steps: Vec<Step> = vec![
        step(Action::OpenStorage),
        step(Action::BuildClient),
        step(Action::OpenAccount { account: env.account_a, mode: SignerMode::Sentinel }),
        step(Action::ReadUserAddress { expected: env.account_a.address }),
        Step { action: Action::Sync, expectation: "sync to chain tip must succeed" },
        step(Action::OpenPool),
        Step {
            action: Action::ReadBalance { check: BalanceCheck::Remember },
            expectation: "pool balance read must succeed",
        },
        step(Action::ReadNotes),
        step(Action::StopBackgroundSync),
    ];
    proof {
        assert(steps@ =~= session_steps(*env));
    }
    steps
}

/// The steps of a test, or what is missing for it.
pub fn script(scenario: Scenario, env: &Environment) -> (r: Result<Vec<Step>, &'static str>)
    ensures
        match r {
            Ok(steps) => Some(steps@) == steps_of(scenario, *env),
            Err(message) => steps_of(scenario, *env) is None && message@
                == "E2E_ACCOUNT_A_ADDRESS must be compiled in"@,
        },
{
    match scenario {
        Scenario::SmokeClientConstruction => Ok(e2e_smoke_client_construction()),
        Scenario::SeedDepositCreatesSpendableNotes => Ok(
            e2e_seed_deposit_creates_spendable_notes(env),
        ),
        Scenario::DepositHaltsAtSigning => Ok(e2e_deposit_halts_at_signing(env)),
        Scenario::TransferHaltsAtSigning => e2e_transfer_halts_at_signing(env),
        Scenario::WithdrawHaltsAtSigning => Ok(e2e_withdraw_halts_at_signing(env)),
        Scenario::SessionAccountSetupAndSync => Ok(e2e_session_account_setup_and_sync(env)),
    }
}

/// What the host reports of a step.
#[derive(Debug, PartialEq, Eq)]
pub enum Event {
    /// The action succeeded and there is nothing to hand over.
    Done,
    /// Whether the signer that was built is defined.
    Defined(bool),
    /// The address that the session is bound to.
    Address(String),
    /// The pool's balance, in stroops.
    Balance(u128),
    /// The pool's answer to a transaction.
    Response(PoolExecuteResult),
    /// The stages seen, in order.
    Stages(Vec<String>),
    /// The action failed with this error, as it is printed.
    Failed(String),
}

/// An event with its texts as sequences of characters.
pub ghost enum EventView {
    Done,
    Defined(bool),
    Address(Seq<char>),
    Balance(u128),
    Response(ResponseView),
    Stages(Seq<Seq<char>>),
    Failed(Seq<char>),
}

impl View for Event {
    type V = EventView;

    open spec fn view(&self) -> EventView {
        match self {
            Event::Done => EventView::Done,
            Event::Defined(defined) => EventView::Defined(*defined),
            Event::Address(address) => EventView::Address(address@),
            Event::Balance(balance) => EventView::Balance(*balance),
            Event::Response(response) => EventView::Response(response@),
            Event::Stages(stages) => EventView::Stages(views(stages@)),
            Event::Failed(error) => EventView::Failed(error@),
        }
    }
}

/// What is wrong with a step's outcome.
#[derive(Clone, Copy, Debug, PartialEq, Eq)]
pub enum Problem {
    /// The action failed.
    Call,
    /// The stub signer is undefined.
    UndefinedSigner,
    /// The session is bound to another address, or none is configured.
    WrongAddress,
    /// The setup deposit was not confirmed.
    SeedRejected,
    /// The flow was not halted at the signing boundary as expected.
    Halt(HaltCheck),
    /// The flow came to signing without proof and simulation before it.
    StagesMissing,
    /// The balance is too low for the flow.
    BalanceTooLow,
    /// The balance changed although the flow was halted.
    BalanceMoved,
    /// The balance did not grow by what was deposited.
    BalanceNotGrown,
    /// The event is none that the step can have, or no step is left.
    Unexpected,
}

/// A step that went wrong: the problem, and what to say of it.
#[derive(Debug, PartialEq, Eq)]
pub struct Failure {
    pub problem: Problem,
    pub message: String,
}

/// A run of a test.
pub struct Run {
    steps: Vec<Step>,
    at: usize,
    balance: Option<u128>,
    response: Option<PoolExecuteResult>,
}

/// A run as values: the steps, how many are done, the balance that is remembered,
/// and the pool's last answer in the flow under test.
pub ghost struct RunView {
    pub steps: Seq<Step>,
    pub at: nat,
    pub balance: Option<u128>,
    pub response: Option<ResponseView>,
}

impl View for Run {
    type V = RunView;

    closed spec fn view(&self) -> RunView {
        RunView {
            steps: self.steps@,
            at: self.at as nat,
            balance: self.balance,
            response: match self.response {
                Some(response) => Some(response@),
                None => None,
            },
        }
    }
}

/// A run that has done no step.
pub open spec fn fresh(steps: Seq<Step>) -> RunView {
    RunView { steps, at: 0, balance: None, response: None }
}

/// A sum, or the largest number there is where the sum is larger.
pub open spec fn saturating_sum(a: u128, b: u128) -> int {
    if a + b > u128::MAX {
        u128::MAX as int
    } else {
        a + b
    }
}

/// What is wrong with a balance, given the one that is remembered.
pub open spec fn balance_problem(
    check: BalanceCheck,
    remembered: Option<u128>,
    balance: u128,
) -> Option<Problem> {
    match check {
        BalanceCheck::Remember => None,
        BalanceCheck::AtLeast(least) => if balance >= least {
            None
        } else {
            Some(Problem::BalanceTooLow)
        },
        BalanceCheck::Unchanged(_) => match remembered {
            Some(before) => if balance == before {
                None
            } else {
                Some(Problem::BalanceMoved)
            },
            None => Some(Problem::Unexpected),
        },
        BalanceCheck::GrownBy(amount) => match remembered {
            Some(before) => if balance == saturating_sum(before, amount) {
                None
            } else {
                Some(Problem::BalanceNotGrown)
            },
            None => Some(Problem::Unexpected),
        },
    }
}

/// What is wrong with the outcome of a run's current step.
pub open spec fn problem(run: RunView, event: EventView) -> Option<Problem> {
    if run.at >= run.steps.len() {
        Some(Problem::Unexpected)
    } else {
        match (run.steps[run.at as int].action, event) {
            (_, EventView::Failed(_)) => Some(Problem::Call),
            (Action::BuildStubSigner, EventView::Defined(defined)) => if defined {
                None
            } else {
                Some(Problem::UndefinedSigner)
            },
            (Action::ReadUserAddress { expected }, EventView::Address(address)) => {
                if expected matches Some(own) && own@ == address {
                    None
                } else {
                    Some(Problem::WrongAddress)
                }
            },
            (Action::ReadBalance { check }, EventView::Balance(balance)) => balance_problem(
                check,
                run.balance,
                balance,
            ),
            (Action::SeedDeposit { .. }, EventView::Response(response)) => {
                if response.status == "ok"@ {
                    None
                } else {
                    Some(Problem::SeedRejected)
                }
            },
            (
                Action::Deposit { .. } | Action::Transfer { .. } | Action::Withdraw { .. },
                EventView::Response(_),
            ) => None,
            (Action::CollectStages { .. }, EventView::Stages(stages)) => match run.response {
                Some(response) => match halt_violation(response, stages) {
                    Some(check) => Some(Problem::Halt(check)),
                    None => if proved_simulated_signed(stages) {
                        None
                    } else {
                        Some(Problem::StagesMissing)
                    },
                },
                None => Some(Problem::Unexpected),
            },
            (
                Action::OpenStorage
                | Action::BuildClient
                | Action::ReadContractConfig
                | Action::Sync
                | Action::OpenAccount { .. }
                | Action::OpenPool
                | Action::OpenSeedAccount { .. }
                | Action::OpenSeedPool
                | Action::ReadNotes
                | Action::StartCapture { .. }
                | Action::StopBackgroundSync,
                EventView::Done,
            ) => None,
            _ => Some(Problem::Unexpected),
        }
    }
}

/// A run past its current step.
pub open spec fn past(run: RunView, event: EventView) -> RunView {
    let action = run.steps[run.at as int].action;
    RunView {
        at: run.at + 1,
        balance: match (action, event) {
            (
                Action::ReadBalance { check: BalanceCheck::Remember | BalanceCheck::AtLeast(_) },
                EventView::Balance(balance),
            ) => Some(balance),
            _ => run.balance,
        },
        response: match (action, event) {
            (
                Action::Deposit { .. } | Action::Transfer { .. } | Action::Withdraw { .. },
                EventView::Response(response),
            ) => Some(response),
            _ => run.response,
        },
        ..run
    }
}

/// What is said of a problem. Where two values had to be equal, both are printed.
pub open spec fn complaint(problem: Problem, run: RunView, event: EventView) -> Seq<char> {
    let step = run.steps[run.at as int];
    match problem {
        Problem::Call => unmet(step.expectation@, event->Failed_0),
        Problem::UndefinedSigner => "assertion failed: !stub_signer().is_undefined()"@,
        Problem::WrongAddress => match step.action->expected {
            Some(own) => unequal(
                "session must bind to the configured test account"@,
                text_debug(event->Address_0),
                text_debug(own@),
            ),
            None => NOTHING_THERE@,
        },
        Problem::SeedRejected => seed_complaint(event->Response_0),
        Problem::Halt(check) => halt_complaint(
            check,
            step.action->CollectStages_flow@,
            run.response->0,
            event->Stages_0,
        ),
        Problem::StagesMissing => step.action->CollectStages_flow@
            + ": must have gone through prove and simulate before sign (stages: "@ + list_debug(
            event->Stages_0,
        ) + ")"@,
        Problem::BalanceTooLow => "seeding must leave at least "@ + decimal(
            step.action->check->AtLeast_0 as nat,
        ) + " stroops spendable, have "@ + decimal(event->Balance_0 as nat),
        Problem::BalanceMoved => unequal(
            step.action->check->Unchanged_0@,
            decimal(event->Balance_0 as nat),
            decimal(run.balance->0 as nat),
        ),
        Problem::BalanceNotGrown => unequal(
            "balance must grow by the deposited amount"@,
            decimal(event->Balance_0 as nat),
            decimal(saturating_sum(run.balance->0, step.action->check->GrownBy_0) as nat),
        ),
        Problem::Unexpected => "unexpected event"@,
    }
}

fn too_low_text(least: u128, balance: u128) -> (r: String)
    ensures
        r@ == "seeding must leave at least "@ + decimal(least as nat)
            + " stroops spendable, have "@ + decimal(balance as nat),
{
    let wanted = decimal_text(least);
    let found = decimal_text(balance);
    let mut out = "seeding must leave at least ".to_owned();
    out.append(wanted.as_str());
    out.append(" stroops spendable, have ");
    out.append(found.as_str());
    out
}

fn stages_missing_text(flow: &str, stages: &Vec<String>) -> (r: String)
    ensures
        r@ == flow@ + ": must have gone through prove and simulate before sign (stages: "@
            + list_debug(views(stages@)) + ")"@,
{
    let printed = list_text(stages);
    let mut out = flow.to_owned();
    out.append(": must have gone through prove and simulate before sign (stages: ");
    out.append(printed.as_str());
    out.append(")");
    out
}

fn unexpected() -> (r: Failure)
    ensures
        r.problem == Problem::Unexpected,
        r.message@ == "unexpected event"@,
{
    Failure { problem: Problem::Unexpected, message: "unexpected event".to_owned() }
}

impl Run {
    /// A run of a test's steps.
    pub fn new(steps: Vec<Step>) -> (r: Self)
        ensures
            r@ == fresh(steps@),
    {
        Run { steps, at: 0, balance: None, response: None }
    }

    /// The step that is to be done now, or none when the test has passed.
    pub fn current(&self) -> (r: Option<Step>)
        ensures
            r == if self@.at < self@.steps.len() {
                Some(self@.steps[self@.at as int])
            } else {
                None
            },
    {
        if self.at < self.steps.len() {
            Some(self.steps[self.at])
        } else {
            None
        }
    }

    /// Judges the outcome of the current step: takes the run past it, or says what
    /// is wrong and leaves the run where it is.
    pub fn next(&mut self, event: Event) -> (r: Result<(), Failure>)
        ensures
            match problem(old(self)@, event@) {
                None => r is Ok && final(self)@ == past(old(self)@, event@),
                Some(found) => {
                    &&& r matches Err(failure)
                    &&& failure.problem == found
                    &&& failure.message@ == complaint(found, old(self)@, event@)
                    &&& final(self)@ == old(self)@
                },
            },
    {
        if self.at >= self.steps.len() {
            return Err(unexpected());
        }
        let current = self.steps[self.at];
        match (current.action, event) {
            (_, Event::Failed(error)) => {
                let message = unmet_text(current.expectation, error.as_str());
                return Err(Failure { problem: Problem::Call, message });
            },
            (Action::BuildStubSigner, Event::Defined(defined)) => {
                if !defined {
                    return Err(
                        Failure {
                            problem: Problem::UndefinedSigner,
                            message: "assertion failed: !stub_signer().is_undefined()".to_owned(),
                        },
                    );
                }
            },
            (Action::ReadUserAddress { expected }, Event::Address(address)) => match expected {
                Some(own) => {
                    if own.to_owned() != address {
                        return Err(
                            Failure {
                                problem: Problem::WrongAddress,
                                message: unequal_texts_text(
                                    "session must bind to the configured test account",
                                    address.as_str(),
                                    own,
                                ),
                            },
                        );
                    }
                },
                None => {
                    return Err(
                        Failure {
                            problem: Problem::WrongAddress,
                            message: NOTHING_THERE.to_owned(),
                        },
                    );
                },
            },
            (Action::ReadBalance { check }, Event::Balance(balance)) => match check {
                BalanceCheck::Remember => {
                    self.balance = Some(balance);
                },
                BalanceCheck::AtLeast(least) => {
                    if balance < least {
                        return Err(
                            Failure {
                                problem: Problem::BalanceTooLow,
                                message: too_low_text(least, balance),
                            },
                        );
                    }
                    self.balance = Some(balance);
                },
                BalanceCheck::Unchanged(said) => match self.balance {
                    Some(before) => {
                        if balance != before {
                            return Err(
                                Failure {
                                    problem: Problem::BalanceMoved,
                                    message: unequal_numbers_text(said, balance, before),
                                },
                            );
                        }
                    },
                    None => {
                        return Err(unexpected());
                    },
                },
                BalanceCheck::GrownBy(amount) => match self.balance {
                    Some(before) => {
                        let grown: u128 = before.saturating_add(amount);
                        if balance != grown {
                            return Err(
                                Failure {
                                    problem: Problem::BalanceNotGrown,
                                    message: unequal_numbers_text(
                                        "balance must grow by the deposited amount",
                                        balance,
                                        grown,
                                    ),
                                },
                            );
                        }
                    },
                    None => {
                        return Err(unexpected());
                    },
                },
            },
            (Action::SeedDeposit { .. }, Event::Response(response)) => {
                if seed_deposit(&response).is_err() {
                    return Err(
                        Failure {
                            problem: Problem::SeedRejected,
                            message: seed_complaint_text(&response),
                        },
                    );
                }
            },
            (Action::Deposit { .. }, Event::Response(response))
            | (Action::Transfer { .. }, Event::Response(response))
            | (Action::Withdraw { .. }, Event::Response(response)) => {
                self.response = Some(response);
            },
            (Action::CollectStages { flow }, Event::Stages(stages)) => match &self.response {
                Some(response) => match assert_halted_at_signing(response, &stages) {
                    Ok(()) => {
                        if !went_through_proof_and_simulation(&stages) {
                            return Err(
                                Failure {
                                    problem: Problem::StagesMissing,
                                    message: stages_missing_text(flow, &stages),
                                },
                            );
                        }
                    },
                    Err(check) => {
                        return Err(
                            Failure {
                                problem: Problem::Halt(check),
                                message: halt_complaint_text(check, flow, response, &stages),
                            },
                        );
                    },
                },
                None => {
                    return Err(unexpected());
                },
            },
            (Action::OpenStorage, Event::Done)
            | (Action::BuildClient, Event::Done)
            | (Action::ReadContractConfig, Event::Done)
            | (Action::Sync, Event::Done)
            | (Action::OpenAccount { .. }, Event::Done)
            | (Action::OpenPool, Event::Done)
            | (Action::OpenSeedAccount { .. }, Event::Done)
            | (Action::OpenSeedPool, Event::Done)
            | (Action::ReadNotes, Event::Done)
            | (Action::StartCapture { .. }, Event::Done)
            | (Action::StopBackgroundSync, Event::Done) => {},
            _ => {
                return Err(unexpected());
            },
        }
        self.at = self.at + 1;
        Ok(())
    }
}

} // verus!
