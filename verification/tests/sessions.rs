use private_payments_harness::encoding::DecodeError;
use private_payments_harness::environment::{
    Environment, Property, TestAccount, Variables, FLOW_AMOUNT_STROOPS, PROVER_WORKER,
    SEED_DEPOSIT_STROOPS,
};
use private_payments_harness::scripts::blob_worker_url;
use private_payments_harness::signer::{
    install_real_signing, open_account, open_account_with, signer_with_mode, stub_signer, Handler,
    SetupError, SetupProblem, SignerMode, STUB_SIGNATURE_B64,
};
use private_payments_harness::signing::{
    read_auth_preimage, sign_auth_entry, sign_transaction, stub_signature, write_signature,
    AuthOutcome, AuthStage, SigningError, StageOutcome, TransactionStage,
};
use private_payments_harness::storage::{
    open_test_storage, PageStorage, StorageAction, StorageEvent, StoragePhase,
};

const PASSPHRASE: &str = "Test SDF Network ; September 2015";

fn unset() -> Variables {
    Variables {
        static_origin: None,
        rpc_url: None,
        bootnode_url: None,
        pool_contract: None,
        account_a_address: None,
        account_a_secret: None,
        account_b_address: None,
        account_b_secret: None,
        account_c_address: None,
        account_c_secret: None,
        account_d_address: None,
        account_d_secret: None,
    }
}

fn full() -> TestAccount {
    TestAccount { label: "C", address: Some("GC"), secret: Some("SC") }
}

fn bare() -> TestAccount {
    TestAccount { label: "D", address: None, secret: None }
}

#[test]
fn defaults_apply_where_nothing_is_set() {
    let env = Environment::from_variables(unset());
    assert_eq!(env.static_origin, "http://127.0.0.1:8099");
    assert_eq!(env.rpc_url, "https://soroban-testnet.stellar.org");
    assert_eq!(env.bootnode_url, None);
    assert_eq!(env.pool_contract, "CCPNFGD7A6LJ7H4FGFLTBSU6XGCPFR5DN76N5WNXOTDPOKASJIU4EMFV");
    let labels = [env.account_a.label, env.account_b.label, env.account_c.label, env.account_d.label];
    assert_eq!(labels, ["A", "B", "C", "D"]);
    assert_eq!(SEED_DEPOSIT_STROOPS, 1_000_000);
    assert_eq!(FLOW_AMOUNT_STROOPS, 500_000);
}

#[test]
fn set_variables_win() {
    let env = Environment::from_variables(Variables {
        static_origin: Some("http://o"),
        rpc_url: Some("http://r"),
        bootnode_url: Some("http://b"),
        pool_contract: Some("POOL"),
        account_b_address: Some("GB"),
        account_d_secret: Some("SD"),
        ..unset()
    });
    assert_eq!(env.static_origin, "http://o");
    assert_eq!(env.account_b, TestAccount { label: "B", address: Some("GB"), secret: None });
    assert_eq!(env.account_d, TestAccount { label: "D", address: None, secret: Some("SD") });
    assert_eq!(env.test_circuits_base_url(), "http://o/circuits/");
    let options = env.client_options("blob:x".to_string());
    assert_eq!(options.rpc_url, "http://r");
    assert_eq!(options.prover_url, "blob:x");
    assert_eq!(options.circuits_base_url, "http://o/circuits/");
    assert_eq!(options.bootnode_url, Some("http://b".to_string()));
    assert_eq!(
        env.open_pool(),
        vec![Property { name: "poolContract", value: "POOL".to_string() }]
    );
    assert_eq!(PROVER_WORKER, "prover-worker.js");
}

#[test]
fn the_stub_signer_halts_flows() {
    let methods = stub_signer();
    assert_eq!(methods.len(), 3);
    assert_eq!(methods[0].name, "signMessage");
    assert_eq!(
        methods[0].handler,
        Handler::Script {
            args: "message, opts",
            body: "return Promise.resolve('paWlpaWlpaWlpaWlpaWlpaWlpaWlpaWlpaWlpaWlpaWlpaWlpaWlpaWlpaWlpaWlpaWlpaWlpaWlpaWlpaWlpQ==');"
                .to_string(),
        }
    );
    for (i, name) in [(1, "signTransaction"), (2, "signAuthEntry")] {
        assert_eq!(methods[i].name, name);
        assert_eq!(
            methods[i].handler,
            Handler::Script {
                args: "payload, opts",
                body: "var e = new Error('e2e stub signer: halted at the signing boundary');\
                       e.code = -4;\
                       return Promise.reject(e);"
                    .to_string(),
            }
        );
    }
    for accepted in [false, true] {
        assert_eq!(signer_with_mode(SignerMode::Sentinel, accepted), Ok(stub_signer()));
    }
}

#[test]
fn a_signing_signer_signs_with_the_secret() {
    let methods = signer_with_mode(SignerMode::Signing(full()), true).unwrap();
    assert_eq!(methods.len(), 3);
    assert_eq!(methods[0], stub_signer()[0]);
    assert_eq!(
        methods[1].handler,
        Handler::SignTransaction { secret: "SC" }
    );
    assert_eq!(methods[1].name, "signTransaction");
    assert_eq!(methods[2].handler, Handler::SignAuthEntry { secret: "SC" });
    assert_eq!(methods[2].name, "signAuthEntry");
}

#[test]
fn a_missing_secret_is_named() {
    let error = SetupError { account: bare(), problem: SetupProblem::NoSecret };
    for accepted in [false, true] {
        assert_eq!(install_real_signing(bare(), accepted), Err(error));
        assert_eq!(signer_with_mode(SignerMode::Signing(bare()), accepted), Err(error));
    }
    assert_eq!(
        error.message(),
        "E2E_ACCOUNT_D_SECRET not compiled in: run via `set -a; . deployments/testnet/.e2e-accounts.env; set +a`"
    );
}

#[test]
fn an_invalid_secret_is_named() {
    let error = SetupError { account: full(), problem: SetupProblem::InvalidSecret };
    assert_eq!(install_real_signing(full(), false), Err(error));
    assert_eq!(signer_with_mode(SignerMode::Signing(full()), false), Err(error));
    assert_eq!(error.message(), "E2E_ACCOUNT_C_SECRET must be a valid S\u{2026} key");
}

#[test]
fn an_account_session_has_passphrase_and_address() {
    let session = open_account(full()).unwrap();
    assert_eq!(
        session.options,
        vec![
            Property { name: "networkPassphrase", value: PASSPHRASE.to_string() },
            Property { name: "userAddress", value: "GC".to_string() },
        ]
    );
    assert_eq!(session.signer, stub_signer());
    let signing = open_account_with(full(), SignerMode::Signing(full()), true).unwrap();
    assert_eq!(signing.options, session.options);
    assert!(signing.signer != session.signer);
}

#[test]
fn a_missing_address_comes_before_a_missing_secret() {
    let missing = open_account_with(bare(), SignerMode::Signing(bare()), false).unwrap_err();
    assert_eq!(missing, SetupError { account: bare(), problem: SetupProblem::NoAddress });
    assert_eq!(
        missing.message(),
        "E2E_ACCOUNT_D_ADDRESS not compiled in: run via `set -a; . deployments/testnet/.e2e-accounts.env; set +a`"
    );
    let missing = open_account_with(full(), SignerMode::Signing(bare()), true).unwrap_err();
    assert_eq!(missing, SetupError { account: bare(), problem: SetupProblem::NoSecret });
    assert!(open_account(bare()).is_err());
}

#[test]
fn a_preimage_is_trimmed_and_decoded() {
    let text = " \u{a0}\u{3000}aGVsbG8=\r\n\t\u{2028}".to_string();
    assert_eq!(read_auth_preimage(Some(text)), Ok(b"hello".to_vec()));
    assert_eq!(read_auth_preimage(Some(" \n ".to_string())), Ok(Vec::new()));
    // White space inside is not removed, and a zero width space is no white space.
    for (text, reason) in [
        ("aGVs bG8=", DecodeError::InvalidByte(4, b' ')),
        ("\u{200b}aGVsbG8=", DecodeError::InvalidByte(0, 0xe2)),
        ("aGVsb", DecodeError::InvalidLength(5)),
        ("/x==", DecodeError::InvalidLastSymbol(1, b'x')),
        ("/w", DecodeError::InvalidPadding),
    ] {
        let error = read_auth_preimage(Some(text.to_string())).unwrap_err();
        assert_eq!(error, SigningError::NotBase64(reason));
        assert_eq!(error.message(), format!("auth preimage must be base64: {reason:?}"));
    }
    assert_eq!(
        SigningError::NotBase64(DecodeError::InvalidByte(4, b' ')).message(),
        "auth preimage must be base64: InvalidByte(4, 32)"
    );
}

#[test]
fn trimming_knows_all_white_space() {
    for c in (0..=0x10ffff).filter_map(char::from_u32) {
        let text: String = [c, 'A', 'A', '=', '=', c].iter().collect();
        let accepted = read_auth_preimage(Some(text)).is_ok();
        let u = c as u32;
        let white = (0x9..=0xd).contains(&u)
            || [0x20, 0x85, 0xa0, 0x1680, 0x2028, 0x2029, 0x202f, 0x205f, 0x3000].contains(&u)
            || (0x2000..=0x200a).contains(&u);
        assert_eq!(accepted, white, "{u:x}");
    }
}

#[test]
fn an_argument_that_is_no_string_is_refused() {
    let error = read_auth_preimage(None).unwrap_err();
    assert_eq!(error, SigningError::NotAString);
    assert_eq!(error.message(), "signAuthEntry takes a string");
}

#[test]
fn a_signature_is_written_in_base64() {
    let signature = vec![0xa5u8; 64];
    let text = write_signature(&signature);
    assert!(text.starts_with("paWl") && text.ends_with("pQ=="));
    assert_eq!(read_auth_preimage(Some(text)), Ok(signature));
    assert_eq!(write_signature(b"hello world~"), "aGVsbG8gd29ybGR+");
    assert_eq!(write_signature(b"\xff"), "/w==");
    assert_eq!(write_signature(b""), "");
}

#[test]
fn signatures_of_any_length_are_read_back() {
    let bytes: Vec<u8> = (0..=255).collect();
    for end in 0..bytes.len() {
        let text = write_signature(&bytes[..end]);
        assert_eq!(text.len(), (end + 2) / 3 * 4);
        assert_eq!(read_auth_preimage(Some(text)), Ok(bytes[..end].to_vec()));
    }
}

#[test]
fn a_transaction_is_decoded_signed_and_encoded() {
    let stages = || {
        vec![
            TransactionStage::Argument,
            TransactionStage::Decode { text: "unsigned".to_string() },
            TransactionStage::Sign { network_passphrase: PASSPHRASE },
            TransactionStage::Encode,
        ]
    };
    let mut stage = TransactionStage::Argument;
    let outcomes = vec![
        StageOutcome::Text("unsigned".to_string()),
        StageOutcome::Envelope,
        StageOutcome::Envelope,
        StageOutcome::Text("signed".to_string()),
    ];
    for (expected, outcome) in stages().into_iter().zip(outcomes) {
        assert_eq!(stage, expected);
        stage = sign_transaction(stage, outcome).unwrap();
    }
    assert_eq!(stage, TransactionStage::Resolve { text: "signed".to_string() });
    for (stage, said) in stages().into_iter().zip([
        "unexpected outcome",
        "unsigned envelope must be valid xdr: boom",
        "signing the envelope must succeed: boom",
        "signed envelope must encode: boom",
    ]) {
        let failed = StageOutcome::Failed("boom".to_string());
        assert_eq!(sign_transaction(stage, failed), Err(said.to_string()));
    }
    assert_eq!(
        sign_transaction(TransactionStage::Argument, StageOutcome::NotAString),
        Err("signTransaction takes a string".to_string())
    );
    let last = || TransactionStage::Resolve { text: "signed".to_string() };
    assert_eq!(sign_transaction(last(), StageOutcome::Envelope), Ok(last()));
}

#[test]
fn an_auth_entry_is_decoded_signed_and_encoded() {
    let argument = AuthOutcome::Text(Some(" aGVsbG8=\n".to_string()));
    let stage = sign_auth_entry(AuthStage::Argument, argument).unwrap();
    assert_eq!(stage, AuthStage::Sign { preimage: b"hello".to_vec() });
    let stage = sign_auth_entry(stage, AuthOutcome::Signature(vec![0xa5; 64])).unwrap();
    let last = || AuthStage::Resolve { text: STUB_SIGNATURE_B64.to_string() };
    assert_eq!(stage, last());
    assert_eq!(sign_auth_entry(last(), AuthOutcome::Text(None)), Ok(last()));
}

#[test]
fn an_auth_entry_that_cannot_be_signed_is_refused() {
    let refuse = |argument: Option<&str>| {
        let outcome = AuthOutcome::Text(argument.map(str::to_string));
        sign_auth_entry(AuthStage::Argument, outcome).unwrap_err()
    };
    assert_eq!(refuse(None), SigningError::NotAString);
    assert_eq!(refuse(Some("a")), SigningError::NotBase64(DecodeError::InvalidLength(1)));
    let early = sign_auth_entry(AuthStage::Argument, AuthOutcome::Signature(vec![1]));
    assert_eq!(early, Err(SigningError::Unexpected));
    assert_eq!(SigningError::Unexpected.message(), "unexpected outcome");
    let stage = AuthStage::Sign { preimage: vec![1] };
    assert_eq!(sign_auth_entry(stage, AuthOutcome::Text(None)), Err(SigningError::Unexpected));
}

#[test]
fn the_stub_signature_is_read_as_64_bytes() {
    assert_eq!(stub_signature(), vec![0xa5u8; 64]);
    assert_eq!(write_signature(&stub_signature()), STUB_SIGNATURE_B64);
}

/// Plays requests for a page's storage that overlap: `order` says whose event comes
/// next. Gives the number of storages opened and the storage that each was handed.
fn overlap(requests: usize, order: &[usize], fails: &[usize]) -> (usize, Vec<Option<usize>>) {
    let mut page = PageStorage::Absent;
    let mut held = None;
    let mut opens = 0;
    let mut phases = vec![StoragePhase::Asked; requests];
    let mut events: Vec<Option<StorageEvent>> =
        (0..requests).map(|_| Some(StorageEvent::Turn)).collect();
    let mut opened = vec![None; requests];
    let mut handles = vec![None; requests];
    for (turn, &who) in order.iter().enumerate() {
        let Some(event) = events[who].take() else { continue };
        let event = match event {
            StorageEvent::Fetched(_) if fails.contains(&turn) => {
                StorageEvent::Fetched(Err("boom".to_string()))
            }
            StorageEvent::Opened if fails.contains(&turn) => {
                StorageEvent::NotOpened("boom".to_string())
            }
            event => event,
        };
        let (phase, action) = open_test_storage(&mut page, phases[who], event);
        phases[who] = phase;
        events[who] = match action {
            StorageAction::HandOut => {
                handles[who] = held;
                None
            }
            StorageAction::Wait => Some(StorageEvent::Turn),
            StorageAction::FetchWorker { file } => {
                assert_eq!(file, "storage-worker.js");
                Some(StorageEvent::Fetched(Ok(Some("blob:w".to_string()))))
            }
            StorageAction::Open { options } => {
                assert_eq!(
                    options,
                    vec![Property { name: "workerUrl", value: "blob:w".to_string() }]
                );
                opened[who] = Some(opens);
                opens += 1;
                Some(StorageEvent::Opened)
            }
            StorageAction::KeepAndHandOut => {
                held = opened[who];
                handles[who] = held;
                None
            }
            StorageAction::Fail { .. } => None,
        };
    }
    (opens, handles)
}

#[test]
fn a_page_opens_its_storage_once() {
    assert_eq!(overlap(3, &[0, 0, 0, 1, 2], &[]), (1, vec![Some(0); 3]));
}

#[test]
fn overlapping_requests_share_one_storage() {
    assert_eq!(overlap(2, &[0, 1, 0, 1, 0, 1], &[]), (1, vec![Some(0); 2]));
    // Every order of twelve events of two requests.
    for bits in 0..4096usize {
        let order: Vec<usize> = (0..12).map(|i| bits >> i & 1).collect();
        let (opens, handles) = overlap(2, &order, &[]);
        assert!(opens <= 1);
        assert!(handles.iter().flatten().all(|storage| *storage == 0));
    }
}

#[test]
fn a_waiting_request_opens_the_storage_after_a_failure() {
    // The first request fails to open; the second, which waited, opens.
    assert_eq!(
        overlap(3, &[0, 1, 0, 0, 1, 1, 2, 1, 2], &[3]),
        (2, vec![None, Some(1), Some(1)])
    );
}

/// What is said where a request that is opening the storage gives up.
fn given_up(phase: StoragePhase, event: StorageEvent) -> String {
    let mut page = PageStorage::Opening;
    match open_test_storage(&mut page, phase, event) {
        (StoragePhase::Failed, StorageAction::Fail { message }) => {
            assert_eq!(page, PageStorage::Absent);
            message
        }
        other => panic!("{other:?}"),
    }
}

#[test]
fn a_storage_that_does_not_open_is_reported() {
    let boom = || "JsValue(boom)".to_string();
    assert_eq!(
        given_up(StoragePhase::Opening, StorageEvent::NotOpened(boom())),
        "storage worker must start and answer its ping: JsValue(boom)"
    );
    assert_eq!(
        given_up(StoragePhase::Fetching, StorageEvent::Fetched(Err(boom()))),
        "called `Result::unwrap()` on an `Err` value: JsValue(boom)"
    );
    assert_eq!(
        given_up(StoragePhase::Fetching, StorageEvent::Fetched(Ok(None))),
        "called `Option::unwrap()` on a `None` value"
    );
    assert_eq!(given_up(StoragePhase::Fetching, StorageEvent::Opened), "unexpected event");
    assert_eq!(given_up(StoragePhase::Opening, StorageEvent::Turn), "unexpected event");
    let mut page = PageStorage::Held;
    assert_eq!(
        open_test_storage(&mut page, StoragePhase::Served, StorageEvent::Turn),
        (StoragePhase::Failed, StorageAction::Fail { message: "unexpected event".to_string() })
    );
    assert_eq!(page, PageStorage::Held);
}

#[test]
fn a_worker_url_is_taken_out_of_what_its_script_gave() {
    assert_eq!(blob_worker_url(Ok(Some("blob:w".to_string()))), Ok("blob:w".to_string()));
    assert_eq!(
        blob_worker_url(Ok(None)),
        Err("called `Option::unwrap()` on a `None` value".to_string())
    );
    assert_eq!(
        blob_worker_url(Err("404".to_string())),
        Err("called `Result::unwrap()` on an `Err` value: 404".to_string())
    );
}
