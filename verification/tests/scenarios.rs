use private_payments_harness::environment::{Environment, Variables};
use private_payments_harness::response::{
    assert_halted_at_signing, halt_complaint_text, response_code, response_hash_count,
    response_status, seed_complaint_text, seed_deposit, HaltCheck, PoolExecuteResult,
};
use private_payments_harness::scenario::{
    script, Action, BalanceCheck, Event, Failure, Problem, Run, Scenario,
};
use private_payments_harness::signer::SignerMode;

const ALL: [Scenario; 6] = [
    Scenario::SmokeClientConstruction,
    Scenario::SeedDepositCreatesSpendableNotes,
    Scenario::DepositHaltsAtSigning,
    Scenario::TransferHaltsAtSigning,
    Scenario::WithdrawHaltsAtSigning,
    Scenario::SessionAccountSetupAndSync,
];

const HALTING: [Scenario; 3] = [
    Scenario::DepositHaltsAtSigning,
    Scenario::TransferHaltsAtSigning,
    Scenario::WithdrawHaltsAtSigning,
];

fn environment() -> Environment {
    Environment::from_variables(Variables {
        static_origin: None,
        rpc_url: None,
        bootnode_url: None,
        pool_contract: None,
        account_a_address: Some("GA"),
        account_a_secret: Some("SA"),
        account_b_address: Some("GB"),
        account_b_secret: Some("SB"),
        account_c_address: Some("GC"),
        account_c_secret: Some("SC"),
        account_d_address: Some("GD"),
        account_d_secret: Some("SD"),
    })
}

fn strings(list: &[&str]) -> Vec<String> {
    list.iter().map(|s| s.to_string()).collect()
}

fn halted() -> PoolExecuteResult {
    PoolExecuteResult {
        status: "failed".to_string(),
        hashes: Vec::new(),
        code: Some(-4),
        message: Some("rejected".to_string()),
    }
}

fn confirmed() -> PoolExecuteResult {
    PoolExecuteResult {
        status: "ok".to_string(),
        hashes: strings(&["h1", "h2"]),
        code: None,
        message: None,
    }
}

/// What a browser in which all is well reports.
fn good(action: Action, seeded: &mut bool) -> Event {
    match action {
        Action::BuildStubSigner => Event::Defined(true),
        Action::ReadUserAddress { .. } => Event::Address("GA".to_string()),
        Action::ReadBalance { check } => Event::Balance(match (check, *seeded) {
            (BalanceCheck::GrownBy(_), _) => 1_000_007,
            (_, true) => 1_000_000,
            (_, false) => 7,
        }),
        Action::SeedDeposit { .. } => {
            *seeded = true;
            Event::Response(confirmed())
        }
        Action::Deposit { .. } | Action::Transfer { .. } | Action::Withdraw { .. } => {
            Event::Response(halted())
        }
        Action::CollectStages { .. } => Event::Stages(strings(&["prove", "simulate", "sign"])),
        _ => Event::Done,
    }
}

/// Runs a test, reporting `bad` where it gives an event, and else what is well.
fn play(
    scenario: Scenario,
    bad: impl Fn(Action) -> Option<Event>,
) -> Result<usize, Failure> {
    let mut run = Run::new(script(scenario, &environment()).unwrap());
    let mut seeded = false;
    let mut done = 0;
    while let Some(step) = run.current() {
        let event = bad(step.action).unwrap_or_else(|| good(step.action, &mut seeded));
        run.next(event)?;
        done += 1;
    }
    Ok(done)
}

fn failure(problem: Problem, message: &str) -> Failure {
    Failure { problem, message: message.to_string() }
}

#[test]
fn all_tests_pass_when_all_is_well() {
    let counts: Vec<usize> =
        ALL.iter().map(|scenario| play(*scenario, |_| None).unwrap()).collect();
    assert_eq!(counts, vec![5, 12, 11, 15, 15, 9]);
}

#[test]
fn the_transfer_needs_a_recipient() {
    let mut env = environment();
    env.account_a.address = None;
    assert_eq!(
        script(Scenario::TransferHaltsAtSigning, &env),
        Err("E2E_ACCOUNT_A_ADDRESS must be compiled in")
    );
    assert!(script(Scenario::WithdrawHaltsAtSigning, &env).is_ok());
    let steps = script(Scenario::TransferHaltsAtSigning, &environment()).unwrap();
    assert_eq!(steps[11].action, Action::Transfer { recipient: "GA", amount: 500_000 });
}

#[test]
fn background_sync_is_stopped_last() {
    for scenario in ALL {
        let steps = script(scenario, &environment()).unwrap();
        assert_eq!(steps[0].action, Action::OpenStorage);
        assert_eq!(steps[1].action, Action::BuildClient);
        let stops: Vec<usize> = (0..steps.len())
            .filter(|i| steps[*i].action == Action::StopBackgroundSync)
            .collect();
        assert_eq!(stops, vec![steps.len() - 1]);
    }
}

#[test]
fn flows_under_test_use_the_sentinel_on_their_own_accounts() {
    let mut labels = Vec::new();
    for scenario in HALTING {
        for step in script(scenario, &environment()).unwrap() {
            match step.action {
                Action::OpenAccount { account, mode } => {
                    assert_eq!(mode, SignerMode::Sentinel);
                    labels.push(account.label);
                }
                Action::OpenSeedAccount { account, mode } => {
                    assert_eq!(mode, SignerMode::Signing(account));
                }
                _ => {}
            }
        }
    }
    assert_eq!(labels, vec!["B", "C", "D"]);
}

#[test]
fn stages_are_captured_around_the_flow() {
    for (scenario, flow, at) in [
        (Scenario::DepositHaltsAtSigning, "deposit", 7),
        (Scenario::TransferHaltsAtSigning, "transfer", 11),
        (Scenario::WithdrawHaltsAtSigning, "withdraw", 11),
    ] {
        let steps = script(scenario, &environment()).unwrap();
        assert_eq!(steps[at - 1].action, Action::StartCapture { flow });
        assert_eq!(steps[at + 1].action, Action::CollectStages { flow });
        assert_eq!(
            steps[at].expectation,
            format!("{flow} must resolve at the JS boundary, not throw")
        );
    }
}

#[test]
fn syncs_say_what_they_are_for() {
    let said: Vec<Vec<&str>> = ALL
        .iter()
        .map(|scenario| {
            script(*scenario, &environment())
                .unwrap()
                .iter()
                .filter(|step| step.action == Action::Sync)
                .map(|step| step.expectation)
                .collect()
        })
        .collect();
    assert_eq!(
        said,
        vec![
            vec![],
            vec!["initial sync must succeed", "sync after deposit must succeed"],
            vec!["sync must succeed"],
            vec!["initial sync must succeed", "sync after seeding must succeed"],
            vec!["initial sync must succeed", "sync after seeding must succeed"],
            vec!["sync to chain tip must succeed"],
        ]
    );
}

#[test]
fn a_failed_call_breaks_its_expectation() {
    for (action_name, expected) in [
        ("OpenStorage", "storage worker must start and answer its ping: boom"),
        ("BuildClient", "client construction must succeed: boom"),
        ("OpenAccount", "account session must open: boom"),
        ("OpenPool", "pool session must open: boom"),
        ("StartCapture", "installing the progress listener must succeed: boom"),
        ("Deposit", "deposit must resolve at the JS boundary, not throw: boom"),
        ("CollectStages", "reading captured stages must succeed: boom"),
    ] {
        let result = play(Scenario::DepositHaltsAtSigning, |action| {
            if format!("{action:?}").starts_with(action_name) {
                Some(Event::Failed("boom".to_string()))
            } else {
                None
            }
        });
        assert_eq!(result, Err(failure(Problem::Call, expected)));
    }
    let seeding = play(Scenario::SeedDepositCreatesSpendableNotes, |action| match action {
        Action::SeedDeposit { .. } => Some(Event::Failed("boom".to_string())),
        _ => None,
    });
    assert_eq!(
        seeding,
        Err(failure(Problem::Call, "seed deposit must not error at the JS boundary: boom"))
    );
}

#[test]
fn balance_reads_say_when() {
    let steps = script(Scenario::DepositHaltsAtSigning, &environment()).unwrap();
    assert_eq!(steps[5].expectation, "balance read before");
    assert_eq!(steps[9].expectation, "balance read after");
    let steps = script(Scenario::SessionAccountSetupAndSync, &environment()).unwrap();
    assert_eq!(steps[6].expectation, "pool balance read must succeed");
    assert_eq!(steps[7].expectation, "pool notes read must succeed");
}

#[test]
fn an_undefined_signer_is_a_failure() {
    let result = play(Scenario::SmokeClientConstruction, |action| match action {
        Action::BuildStubSigner => Some(Event::Defined(false)),
        _ => None,
    });
    assert_eq!(
        result,
        Err(failure(
            Problem::UndefinedSigner,
            "assertion failed: !stub_signer().is_undefined()"
        ))
    );
}

#[test]
fn a_session_of_another_account_is_a_failure() {
    let result = play(Scenario::SessionAccountSetupAndSync, |action| match action {
        Action::ReadUserAddress { expected } => {
            assert_eq!(expected, Some("GA"));
            Some(Event::Address("GB".to_string()))
        }
        _ => None,
    });
    assert_eq!(
        result,
        Err(failure(
            Problem::WrongAddress,
            "assertion `left == right` failed: session must bind to the configured test account\n  left: \"GB\"\n right: \"GA\""
        ))
    );
}

#[test]
fn a_session_needs_a_configured_address() {
    let mut env = environment();
    env.account_a.address = None;
    let mut run = Run::new(script(Scenario::SessionAccountSetupAndSync, &env).unwrap());
    for _ in 0..3 {
        run.next(Event::Done).unwrap();
    }
    assert_eq!(
        run.next(Event::Address("GA".to_string())),
        Err(failure(Problem::WrongAddress, "called `Option::unwrap()` on a `None` value"))
    );
}

#[test]
fn a_seed_deposit_must_confirm() {
    let result = play(Scenario::WithdrawHaltsAtSigning, |action| match action {
        Action::SeedDeposit { amount } => {
            assert_eq!(amount, 1_000_000);
            Some(Event::Response(halted()))
        }
        _ => None,
    });
    assert_eq!(
        result,
        Err(failure(
            Problem::SeedRejected,
            "assertion `left == right` failed: seed deposit must confirm on chain, got status=failed message=Some(\"rejected\")\n  left: \"failed\"\n right: \"ok\""
        ))
    );
}

#[test]
fn the_balance_must_cover_the_flow() {
    for (balance, enough) in [(499_999u128, false), (500_000, true)] {
        let result = play(Scenario::TransferHaltsAtSigning, |action| match action {
            Action::ReadBalance { .. } => Some(Event::Balance(balance)),
            _ => None,
        });
        if enough {
            assert_eq!(result, Ok(15));
        } else {
            assert_eq!(
                result,
                Err(failure(
                    Problem::BalanceTooLow,
                    "seeding must leave at least 500000 stroops spendable, have 499999"
                ))
            );
        }
    }
}

#[test]
fn a_halted_flow_must_not_move_funds() {
    for (scenario, said, before) in [
        (
            Scenario::DepositHaltsAtSigning,
            "a flow halted at signing must not change the pool balance",
            "7",
        ),
        (
            Scenario::TransferHaltsAtSigning,
            "a transfer halted at signing must not move funds",
            "1000000",
        ),
        (
            Scenario::WithdrawHaltsAtSigning,
            "a withdraw halted at signing must not move funds",
            "1000000",
        ),
    ] {
        let result = play(scenario, |action| match action {
            Action::ReadBalance { check: BalanceCheck::Unchanged(_) } => {
                Some(Event::Balance(8))
            }
            _ => None,
        });
        let said =
            format!("assertion `left == right` failed: {said}\n  left: 8\n right: {before}");
        assert_eq!(result, Err(failure(Problem::BalanceMoved, &said)));
    }
}

#[test]
fn the_balance_must_grow_by_the_deposit() {
    for (before, after, passes) in [
        (0u128, 1_000_000u128, true),
        (5, 1_000_005, true),
        (5, 1_000_004, false),
        (u128::MAX - 1, u128::MAX, true),
    ] {
        let result = play(Scenario::SeedDepositCreatesSpendableNotes, |action| match action {
            Action::ReadBalance { check: BalanceCheck::Remember } => {
                Some(Event::Balance(before))
            }
            Action::ReadBalance { .. } => Some(Event::Balance(after)),
            _ => None,
        });
        if passes {
            assert_eq!(result, Ok(12));
        } else {
            assert_eq!(
                result,
                Err(failure(
                    Problem::BalanceNotGrown,
                    "assertion `left == right` failed: balance must grow by the deposited amount\n  left: 1000004\n right: 1000005"
                ))
            );
        }
    }
}

#[test]
fn a_flow_that_is_not_halted_is_a_failure() {
    let result = play(Scenario::DepositHaltsAtSigning, |action| match action {
        Action::Deposit { .. } => Some(Event::Response(confirmed())),
        Action::CollectStages { .. } => {
            Some(Event::Stages(strings(&["prove", "sign\n"])))
        }
        _ => None,
    });
    assert_eq!(
        result,
        Err(failure(
            Problem::Halt(HaltCheck::Status),
            "assertion `left == right` failed: deposit: expected status=failed, got ok (message: ; stages: [\"prove\", \"sign\\n\"])\n  left: \"ok\"\n right: \"failed\""
        ))
    );
}

#[test]
fn a_flow_must_prove_and_simulate_before_it_signs() {
    for (scenario, flow) in [
        (Scenario::DepositHaltsAtSigning, "deposit"),
        (Scenario::TransferHaltsAtSigning, "transfer"),
        (Scenario::WithdrawHaltsAtSigning, "withdraw"),
    ] {
        for (stages, passes) in [
            (vec!["sign"], false),
            (vec!["prove", "sign"], false),
            (vec!["simulate", "sign"], false),
            (vec!["simulate", "prove", "sign"], false),
            (vec!["sign", "prove", "simulate"], false),
            (vec!["prove,simulate", "sign"], false),
            (vec!["prove", "simulate", "sign"], true),
            (vec!["sync", "simulate", "prove", "sign", "simulate", "x", "sign"], true),
        ] {
            let result = play(scenario, |action| match action {
                Action::CollectStages { .. } => Some(Event::Stages(strings(&stages))),
                _ => None,
            });
            if passes {
                assert!(result.is_ok());
            } else {
                let said = format!(
                    "{flow}: must have gone through prove and simulate before sign (stages: {stages:?})"
                );
                assert_eq!(result, Err(failure(Problem::StagesMissing, &said)));
            }
        }
    }
}

#[test]
fn events_out_of_place_are_refused() {
    let mut run = Run::new(script(Scenario::SmokeClientConstruction, &environment()).unwrap());
    assert_eq!(
        run.next(Event::Balance(1)),
        Err(failure(Problem::Unexpected, "unexpected event"))
    );
    assert_eq!(run.current().map(|step| step.action), Some(Action::OpenStorage));
    let mut empty = Run::new(Vec::new());
    assert_eq!(empty.current(), None);
    assert_eq!(
        empty.next(Event::Done),
        Err(failure(Problem::Unexpected, "unexpected event"))
    );
}

#[test]
fn a_halt_is_checked_in_order() {
    let stages = strings(&["prove", "sign"]);
    assert_eq!(assert_halted_at_signing(&halted(), &stages), Ok(()));
    let none = Vec::new();
    let mut response = confirmed();
    assert_eq!(assert_halted_at_signing(&response, &none), Err(HaltCheck::Status));
    response.status = "failed".to_string();
    assert_eq!(assert_halted_at_signing(&response, &none), Err(HaltCheck::Code));
    response.code = Some(4);
    assert_eq!(assert_halted_at_signing(&response, &none), Err(HaltCheck::Code));
    response.code = Some(-4);
    assert_eq!(assert_halted_at_signing(&response, &none), Err(HaltCheck::Hashes));
    response.hashes = Vec::new();
    assert_eq!(assert_halted_at_signing(&response, &none), Err(HaltCheck::Stage));
    assert_eq!(
        assert_halted_at_signing(&response, &strings(&["signed", "Sign"])),
        Err(HaltCheck::Stage)
    );
}

#[test]
fn halt_complaints_are_complete() {
    let mut response = halted();
    response.hashes = strings(&["h1", "h2"]);
    let said = |check, stages: &[&str]| {
        halt_complaint_text(check, "transfer", &response, &strings(stages))
    };
    assert_eq!(
        said(HaltCheck::Status, &[]),
        "assertion `left == right` failed: transfer: expected status=failed, got failed (message: rejected; stages: [])\n  left: \"failed\"\n right: \"failed\""
    );
    assert_eq!(
        said(HaltCheck::Code, &["a"]),
        "assertion `left == right` failed: transfer: expected the SEP-0043 code -4 sentinel (message: rejected; stages: [\"a\"])\n  left: Some(-4)\n right: Some(-4)"
    );
    assert_eq!(
        said(HaltCheck::Hashes, &[]),
        "assertion `left == right` failed: transfer: nothing may be submitted when halting at the signing boundary\n  left: 2\n right: 0"
    );
    assert_eq!(
        said(HaltCheck::Stage, &["a", "b\"", "\u{2026}"]),
        "transfer: must have reached the 'sign' stage (stages: [\"a\", \"b\\\"\", \"\u{2026}\"])"
    );
    response.code = None;
    assert_eq!(
        halt_complaint_text(HaltCheck::Code, "deposit", &response, &Vec::new()),
        "assertion `left == right` failed: deposit: expected the SEP-0043 code -4 sentinel (message: rejected; stages: [])\n  left: None\n right: Some(-4)"
    );
}

#[test]
fn texts_are_printed_as_std_does() {
    for stages in [
        vec![],
        vec![""],
        vec!["'", "\"", "\\", "\t\r\n\0"],
        vec!["\u{7f}\u{200b}\u{301}", "\u{e9}\u{1f600}"],
    ] {
        let said =
            halt_complaint_text(HaltCheck::Stage, "f", &halted(), &strings(&stages));
        assert_eq!(said, format!("f: must have reached the 'sign' stage (stages: {stages:?})"));
    }
    for message in [None, Some("x \"y\"\n".to_string())] {
        let mut response = halted();
        response.status = "st\"".to_string();
        response.message = message.clone();
        let expected = format!(
            "assertion `left == right` failed: seed deposit must confirm on chain, got status=st\" message={message:?}\n  left: {:?}\n right: {:?}",
            "st\"", "ok"
        );
        assert_eq!(seed_complaint_text(&response), expected);
    }
}

#[test]
fn answers_are_read() {
    let response = confirmed();
    assert_eq!(response_status(&response), "ok");
    assert_eq!(response_hash_count(&response), 2);
    assert_eq!(response_code(&response), None);
    assert_eq!(response_code(&halted()), Some(-4));
    assert_eq!(seed_deposit(&response), Ok(2));
    assert_eq!(seed_deposit(&halted()), Err(()));
}
