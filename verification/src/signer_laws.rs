//! What signers and sessions are made of, for every mode and account.

use crate::environment::{property_views, Property, TestAccount};
use crate::signer::{
    install_real_signing, method_views, open_account, open_account_with, real_methods,
    signer_methods, signer_with_mode, stub_signer, AccountSession, Handler, Method, SetupError,
    SetupProblem, SignerMode,
};
use vstd::prelude::*;
use vstd::string::*;

verus! {

/// Whether a method evaluates this script.
pub open spec fn runs(method: Method, name: Seq<char>, args: Seq<char>, body: Seq<char>) -> bool {
    &&& method.name@ == name
    &&& method.handler matches Handler::Script { args: own_args, body: own_body } && own_args@
        == args && own_body@ == body
}

/// Whether methods are those that a signer of a mode must have: `signMessage` resolves to
/// the blob in every mode; in sentinel mode both signing methods reject with the code of a
/// user's refusal, and in signing mode they sign with the account's own secret.
pub open spec fn is_signer_of(methods: Seq<Method>, mode: SignerMode) -> bool {
    &&& methods.len() == 3
    &&& runs(
        methods[0],
        "signMessage"@,
        "message, opts"@,
        "return Promise.resolve('"@
            + "paWlpaWlpaWlpaWlpaWlpaWlpaWlpaWlpaWlpaWlpaWlpaWlpaWlpaWlpaWlpaWlpaWlpaWlpaWlpaWlpaWlpQ=="@
            + "');"@,
    )
    &&& methods[1].name@ == "signTransaction"@
    &&& methods[2].name@ == "signAuthEntry"@
    &&& match mode {
        SignerMode::Sentinel => forall|i: int|
            1 <= i < 3 ==> runs(
                #[trigger] methods[i],
                methods[i].name@,
                "payload, opts"@,
                "var e = new Error('e2e stub signer: halted at the signing boundary');e.code = -4;return Promise.reject(e);"@,
            ),
        SignerMode::Signing(account) => {
            &&& methods[1].handler matches Handler::SignTransaction { secret } && (
            account.secret matches Some(own) && own@ == secret@)
            &&& methods[2].handler matches Handler::SignAuthEntry { secret } && (
            account.secret matches Some(own) && own@ == secret@)
        },
    }
}

proof fn lemma_signer(methods: Seq<Method>, mode: SignerMode)
    requires
        signer_methods(mode) == Some(method_views(methods)),
    ensures
        is_signer_of(methods, mode),
{
    let list = method_views(methods);
    assert(list.len() == 3);
    assert(list[0] == methods[0]@ && list[1] == methods[1]@ && list[2] == methods[2]@);
}

/// A signer that halts flows needs no secret and can always be made. One that signs can be
/// made exactly where the account has a secret that is accepted as a key; what is missing
/// is said of that account.
pub proof fn a_signer_has_the_methods_of_its_mode(
    mode: SignerMode,
    accepted: bool,
    made: Result<Vec<Method>, SetupError>,
)
    requires
        call_ensures(signer_with_mode, (mode, accepted), made),
    ensures
        mode is Sentinel ==> made is Ok,
        mode matches SignerMode::Signing(account) ==> {
            &&& made is Ok <==> account.secret is Some && accepted
            &&& account.secret is None ==> (made matches Err(error) && error.account == account
                && error.problem == SetupProblem::NoSecret)
            &&& account.secret is Some && !accepted ==> (made matches Err(error) && error.account
                == account && error.problem == SetupProblem::InvalidSecret)
        },
        made matches Ok(methods) ==> is_signer_of(methods@, mode),
{
    if let Ok(methods) = made {
        lemma_signer(methods@, mode);
    }
}

/// The stub signer is the one of sentinel mode.
pub proof fn the_stub_signer_is_the_sentinel(methods: Vec<Method>)
    requires
        call_ensures(stub_signer, (), methods),
    ensures
        is_signer_of(methods@, SignerMode::Sentinel),
{
    lemma_signer(methods@, SignerMode::Sentinel);
}

/// Real signing is two methods, both with the account's own secret, and can be had exactly
/// where there is one that is accepted.
pub proof fn real_signing_uses_the_own_secret(
    account: TestAccount,
    accepted: bool,
    made: Result<Vec<Method>, SetupError>,
)
    requires
        call_ensures(install_real_signing, (account, accepted), made),
    ensures
        made is Ok <==> account.secret is Some && accepted,
        made matches Ok(methods) ==> {
            &&& methods@.len() == 2
            &&& methods@[0].name@ == "signTransaction"@
            &&& methods@[0].handler matches Handler::SignTransaction { secret } && secret@
                == account.secret->0@
            &&& methods@[1].name@ == "signAuthEntry"@
            &&& methods@[1].handler matches Handler::SignAuthEntry { secret } && secret@
                == account.secret->0@
        },
        made matches Err(error) ==> error.account == account && (error.problem
            == SetupProblem::NoSecret <==> account.secret is None) && (error.problem
            == SetupProblem::InvalidSecret <==> account.secret is Some),
{
    if let Ok(methods) = made {
        let list = method_views(methods@);
        assert(list == real_methods(account.secret->0@));
        assert(list.len() == 2);
        assert(list[0] == methods@[0]@ && list[1] == methods@[1]@);
    }
}

/// Whether options are those of a session on the test network with this address.
pub open spec fn binds_to(options: Seq<Property>, address: Seq<char>) -> bool {
    &&& options.len() == 2
    &&& options[0].name@ == "networkPassphrase"@
    &&& options[0].value@ == "Test SDF Network ; September 2015"@
    &&& options[1].name@ == "userAddress"@
    &&& options[1].value@ == address
}

proof fn lemma_options(options: Seq<Property>, address: Seq<char>)
    requires
        property_views(options) == crate::signer::account_options(address),
    ensures
        binds_to(options, address),
{
    let list = property_views(options);
    assert(list.len() == 2);
    assert(list[0] == (options[0].name@, options[0].value@));
    assert(list[1] == (options[1].name@, options[1].value@));
}

/// A session is opened on the test network, with the account's own address and the signer
/// of the mode, exactly where the account has an address and the signer can be made. A
/// missing address is said first.
pub proof fn a_session_has_the_own_address_and_signer(
    account: TestAccount,
    mode: SignerMode,
    accepted: bool,
    opened: Result<AccountSession, SetupError>,
    signer: Result<Vec<Method>, SetupError>,
)
    requires
        call_ensures(open_account_with, (account, mode, accepted), opened),
        call_ensures(signer_with_mode, (mode, accepted), signer),
    ensures
        opened is Ok <==> account.address is Some && signer is Ok,
        opened matches Ok(session) ==> binds_to(session.options@, account.address->0@)
            && is_signer_of(session.signer@, mode),
        account.address is None ==> (opened matches Err(error) && error.account == account
            && error.problem == SetupProblem::NoAddress),
        account.address is Some ==> (signer matches Err(own) ==> (opened matches Err(error)
            && error == own)),
{
    if let Ok(session) = opened {
        lemma_options(session.options@, account.address->0@);
        lemma_signer(session.signer@, mode);
    }
}

/// A session under test is opened with the signer that halts flows, and needs an address
/// and nothing else.
pub proof fn a_session_under_test_halts_flows(
    account: TestAccount,
    opened: Result<AccountSession, SetupError>,
)
    requires
        call_ensures(open_account, (account,), opened),
    ensures
        opened is Ok <==> account.address is Some,
        opened matches Ok(session) ==> binds_to(session.options@, account.address->0@)
            && is_signer_of(session.signer@, SignerMode::Sentinel),
        opened matches Err(error) ==> error.account == account && error.problem
            == SetupProblem::NoAddress,
{
    if let Ok(session) = opened {
        lemma_options(session.options@, account.address->0@);
        lemma_signer(session.signer@, SignerMode::Sentinel);
    }
}

/// What is said of a setup error names the variable of the account that it is about.
pub proof fn a_setup_error_names_the_variable(error: &SetupError, said: String)
    requires
        call_ensures(SetupError::message, (error,), said),
    ensures
        said@ == "E2E_ACCOUNT_"@ + error.account.label@ + (match error.problem {
            SetupProblem::NoAddress => "_ADDRESS not compiled in: run via `set -a; . deployments/testnet/.e2e-accounts.env; set +a`"@,
            SetupProblem::NoSecret => "_SECRET not compiled in: run via `set -a; . deployments/testnet/.e2e-accounts.env; set +a`"@,
            SetupProblem::InvalidSecret => "_SECRET must be a valid S\u{2026} key"@,
        }),
{
}

} // verus!
