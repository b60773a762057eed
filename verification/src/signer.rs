//! The wallet signers that the end-to-end tests hand to the client, and the
//! account sessions that they are opened with.

use crate::environment::{property_views, Property, TestAccount, TESTNET_PASSPHRASE};
use vstd::prelude::*;
use vstd::string::*;

verus! {

/// Fixed 64-byte signature blob that every test signer returns from
/// `signMessage`.
///
/// Key derivation hashes these bytes with a domain tag and never verifies them as
/// a signature, but there must be exactly 64 of them. They are base64, not hex:
/// the client tries base64 first, and 128 hexadecimal digits are base64 too, of
/// 96 bytes.
pub const STUB_SIGNATURE_B64: &'static str =
    "paWlpaWlpaWlpaWlpaWlpaWlpaWlpaWlpaWlpaWlpaWlpaWlpaWlpaWlpaWlpaWlpaWlpaWlpaWlpaWlpaWlpQ==";

/// Body of the signing methods of a signer that halts flows: it rejects with the
/// SEP-0043 code of a user's refusal.
pub const SENTINEL_BODY: &'static str =
    "var e = new Error('e2e stub signer: halted at the signing boundary');e.code = -4;return Promise.reject(e);";

/// Which way a test signer answers signing requests.
#[derive(Clone, Copy, Debug, PartialEq, Eq)]
pub enum SignerMode {
    /// Reject with the SEP-0043 `code: -4` sentinel.
    Sentinel,
    /// Produce real signatures of the account, for setup transactions.
    Signing(TestAccount),
}

/// What a method of a signer does.
#[derive(Debug, PartialEq, Eq)]
pub enum Handler {
    /// Evaluate a script.
    Script { args: &'static str, body: String },
    /// Sign a transaction envelope with the secret.
    SignTransaction { secret: &'static str },
    /// Sign an authorization preimage with the secret.
    SignAuthEntry { secret: &'static str },
}

/// A method of a signer object.
#[derive(Debug, PartialEq, Eq)]
pub struct Method {
    pub name: &'static str,
    pub handler: Handler,
}

/// A handler with its texts as sequences of characters.
pub ghost enum HandlerView {
    Script { args: Seq<char>, body: Seq<char> },
    SignTransaction { secret: Seq<char> },
    SignAuthEntry { secret: Seq<char> },
}

/// A method with its texts as sequences of characters.
pub ghost struct MethodView {
    pub name: Seq<char>,
    pub handler: HandlerView,
}

impl View for Handler {
    type V = HandlerView;

    open spec fn view(&self) -> HandlerView {
        match self {
            Handler::Script { args, body } => HandlerView::Script { args: args@, body: body@ },
            Handler::SignTransaction { secret } => HandlerView::SignTransaction {
                secret: secret@,
            },
            Handler::SignAuthEntry { secret } => HandlerView::SignAuthEntry { secret: secret@ },
        }
    }
}

impl View for Method {
    type V = MethodView;

    open spec fn view(&self) -> MethodView {
        MethodView { name: self.name@, handler: self.handler@ }
    }
}

/// The views of a list of methods.
pub open spec fn method_views(list: Seq<Method>) -> Seq<MethodView> {
    Seq::new(list.len(), |i: int| list[i]@)
}

/// What stands in the way of an account session.
#[derive(Clone, Copy, Debug, PartialEq, Eq)]
pub enum SetupProblem {
    /// The account's address is not configured.
    NoAddress,
    /// The secret that is to sign is not configured.
    NoSecret,
    /// The secret that is to sign is no key.
    InvalidSecret,
}

/// A test account that a session cannot be set up with, and why.
#[derive(Clone, Copy, Debug, PartialEq, Eq)]
pub struct SetupError {
    pub account: TestAccount,
    pub problem: SetupProblem,
}

/// What is said of a setup error: the variable, and what is wrong with it.
pub open spec fn setup_complaint(error: SetupError) -> Seq<char> {
    "E2E_ACCOUNT_"@ + error.account.label@ + match error.problem {
        SetupProblem::NoAddress => "_ADDRESS not compiled in: run via `set -a; . deployments/testnet/.e2e-accounts.env; set +a`"@,
        SetupProblem::NoSecret => "_SECRET not compiled in: run via `set -a; . deployments/testnet/.e2e-accounts.env; set +a`"@,
        SetupProblem::InvalidSecret => "_SECRET must be a valid S\u{2026} key"@,
    }
}

impl SetupError {
    /// What to tell whoever runs the tests.
    pub fn message(&self) -> (r: String)
        ensures
            r@ == setup_complaint(*self),
    {
        let mut text = "E2E_ACCOUNT_".to_owned();
        text.append(self.account.label);
        text.append(
            match self.problem {
                SetupProblem::NoAddress => "_ADDRESS not compiled in: run via `set -a; . deployments/testnet/.e2e-accounts.env; set +a`",
                SetupProblem::NoSecret => "_SECRET not compiled in: run via `set -a; . deployments/testnet/.e2e-accounts.env; set +a`",
                SetupProblem::InvalidSecret => "_SECRET must be a valid S\u{2026} key",
            },
        );
        text
    }
}

/// The `signMessage` method, the same in every mode: it resolves to the blob.
pub open spec fn sign_message_method() -> MethodView {
    MethodView {
        name: "signMessage"@,
        handler: HandlerView::Script {
            args: "message, opts"@,
            body: "return Promise.resolve('"@ + STUB_SIGNATURE_B64@ + "');"@,
        },
    }
}

/// A method that rejects with the sentinel.
pub open spec fn sentinel_method(name: Seq<char>) -> MethodView {
    MethodView {
        name,
        handler: HandlerView::Script { args: "payload, opts"@, body: SENTINEL_BODY@ },
    }
}

/// The signing methods of an account with a secret.
pub open spec fn real_methods(secret: Seq<char>) -> Seq<MethodView> {
    seq![
        MethodView {
            name: "signTransaction"@,
            handler: HandlerView::SignTransaction { secret },
        },
        MethodView { name: "signAuthEntry"@, handler: HandlerView::SignAuthEntry { secret } },
    ]
}

/// The methods of the signer of a mode, or none where the secret that it needs is
/// not configured.
pub open spec fn signer_methods(mode: SignerMode) -> Option<Seq<MethodView>> {
    match mode {
        SignerMode::Sentinel => Some(
            seq![
                sign_message_method(),
                sentinel_method("signTransaction"@),
                sentinel_method("signAuthEntry"@),
            ],
        ),
        SignerMode::Signing(account) => match account.secret {
            Some(secret) => Some(seq![sign_message_method()] + real_methods(secret@)),
            None => None,
        },
    }
}

fn sign_message_fn() -> (r: Method)
    ensures
        r@ == sign_message_method(),
{
    let mut body = "return Promise.resolve('".to_owned();
    body.append(STUB_SIGNATURE_B64);
    body.append("');");
    Method { name: "signMessage", handler: Handler::Script { args: "message, opts", body } }
}

fn reject_with_sentinel(name: &'static str) -> (r: Method)
    ensures
        r@ == sentinel_method(name@),
{
    Method {
        name,
        handler: Handler::Script { args: "payload, opts", body: SENTINEL_BODY.to_owned() },
    }
}

/// What stands in the way of signing for an account, given whether its secret, if
/// it has one, is accepted as a key.
pub open spec fn signing_problem(account: TestAccount, accepted: bool) -> Option<SetupError> {
    match account.secret {
        None => Some(SetupError { account, problem: SetupProblem::NoSecret }),
        Some(_) => if accepted {
            None
        } else {
            Some(SetupError { account, problem: SetupProblem::InvalidSecret })
        },
    }
}

/// What stands in the way of a signer of a mode. Only a signer that signs looks at
/// a secret.
pub open spec fn signer_problem(mode: SignerMode, accepted: bool) -> Option<SetupError> {
    match mode {
        SignerMode::Sentinel => None,
        SignerMode::Signing(account) => signing_problem(account, accepted),
    }
}

/// The signing methods of an account. `accepted` says whether a key could be made
/// of the account's secret.
pub fn install_real_signing(
    account: TestAccount,
    accepted: bool,
) -> (r: Result<Vec<Method>, SetupError>)
    ensures
        match r {
            Ok(methods) => signing_problem(account, accepted) is None && (
            account.secret matches Some(secret) && method_views(methods@) == real_methods(secret@)),
            Err(error) => signing_problem(account, accepted) == Some(error),
        },
{
    match account.secret {
        Some(secret) => {
            if !accepted {
                return Err(SetupError { account, problem: SetupProblem::InvalidSecret });
            }
            let mut methods: Vec<Method> = Vec::new();
            methods.push(
                Method { name: "signTransaction", handler: Handler::SignTransaction { secret } },
            );
            methods.push(
                Method { name: "signAuthEntry", handler: Handler::SignAuthEntry { secret } },
            );
            proof {
                assert(method_views(methods@) =~= real_methods(secret@));
            }
            Ok(methods)
        },
        None => Err(SetupError { account, problem: SetupProblem::NoSecret }),
    }
}

/// The signer that halts flows at the signing boundary: `signMessage` succeeds so
/// that keys can be derived, and both signing methods reject with the sentinel.
pub fn stub_signer() -> (r: Vec<Method>)
    ensures
        Some(method_views(r@)) == signer_methods(SignerMode::Sentinel),
{
    let mut methods: Vec<Method> = Vec::new();
    methods.push(sign_message_fn());
    methods.push(reject_with_sentinel("signTransaction"));
    methods.push(reject_with_sentinel("signAuthEntry"));
    proof {
        assert(method_views(methods@) =~= signer_methods(SignerMode::Sentinel)->0);
    }
    methods
}

/// The methods of a test signer, in the order in which they are installed.
/// `accepted` says whether a key could be made of the secret that is to sign.
pub fn signer_with_mode(mode: SignerMode, accepted: bool) -> (r: Result<Vec<Method>, SetupError>)
    ensures
        match r {
            Ok(methods) => signer_problem(mode, accepted) is None && signer_methods(mode) == Some(
                method_views(methods@),
            ),
            Err(error) => signer_problem(mode, accepted) == Some(error),
        },
{
    match mode {
        SignerMode::Sentinel => Ok(stub_signer()),
        SignerMode::Signing(account) => {
            let mut methods: Vec<Method> = Vec::new();
            methods.push(sign_message_fn());
            match install_real_signing(account, accepted) {
                Ok(mut signing) => {
                    let ghost added = method_views(signing@);
                    methods.append(&mut signing);
                    proof {
                        assert(method_views(methods@) =~= seq![sign_message_method()] + added);
                    }
                    Ok(methods)
                },
                Err(error) => Err(error),
            }
        },
    }
}

/// A signer of any mode has the three methods that the client requires, and
/// answers `signMessage` the same way: the keys that are derived do not depend on
/// the mode.
pub proof fn every_signer_has_the_three_methods(mode: SignerMode)
    requires
        signer_methods(mode) is Some,
    ensures
        signer_methods(mode)->0.len() == 3,
        signer_methods(mode)->0[0] == sign_message_method(),
        signer_methods(mode)->0[1].name == "signTransaction"@,
        signer_methods(mode)->0[2].name == "signAuthEntry"@,
{
}

/// Only a signer in sentinel mode, and it in both signing methods, rejects; a
/// signer in signing mode signs with the account's own secret.
pub proof fn only_signing_mode_signs(mode: SignerMode, i: int)
    requires
        signer_methods(mode) is Some,
        1 <= i < 3,
    ensures
        match signer_methods(mode)->0[i].handler {
            HandlerView::Script { args, body } => mode == SignerMode::Sentinel && body
                == SENTINEL_BODY@,
            HandlerView::SignTransaction { secret } | HandlerView::SignAuthEntry { secret } => {
                mode matches SignerMode::Signing(account) && account.secret matches Some(own) && own@
                    == secret
            },
        },
{
}

/// What an account session is opened with.
#[derive(Debug, PartialEq, Eq)]
pub struct AccountSession {
    pub options: Vec<Property>,
    pub signer: Vec<Method>,
}

/// The options of the session of an account with an address.
pub open spec fn account_options(address: Seq<char>) -> Seq<(Seq<char>, Seq<char>)> {
    seq![("networkPassphrase"@, TESTNET_PASSPHRASE@), ("userAddress"@, address)]
}

/// What stands in the way of a session: a missing address before anything about
/// the secret.
pub open spec fn session_problem(
    account: TestAccount,
    mode: SignerMode,
    accepted: bool,
) -> Option<SetupError> {
    if account.address is None {
        Some(SetupError { account, problem: SetupProblem::NoAddress })
    } else {
        signer_problem(mode, accepted)
    }
}

/// What to open a session of a test account with, in an explicit signer mode.
/// `accepted` says whether a key could be made of the secret that is to sign.
pub fn open_account_with(
    account: TestAccount,
    mode: SignerMode,
    accepted: bool,
) -> (r: Result<AccountSession, SetupError>)
    ensures
        match r {
            Ok(session) => {
                &&& session_problem(account, mode, accepted) is None
                &&& account.address matches Some(address) && property_views(session.options@)
                    == account_options(address@)
                &&& signer_methods(mode) == Some(method_views(session.signer@))
            },
            Err(error) => session_problem(account, mode, accepted) == Some(error),
        },
{
    match account.address {
        Some(address) => {
            let mut options: Vec<Property> = Vec::new();
            options.push(
                Property { name: "networkPassphrase", value: TESTNET_PASSPHRASE.to_owned() },
            );
            options.push(Property { name: "userAddress", value: address.to_owned() });
            proof {
                assert(property_views(options@) =~= account_options(address@));
            }
            match signer_with_mode(mode, accepted) {
                Ok(signer) => Ok(AccountSession { options, signer }),
                Err(error) => Err(error),
            }
        },
        None => Err(SetupError { account, problem: SetupProblem::NoAddress }),
    }
}

/// What to open a session of a test account with, with the signer that halts
/// flows.
pub fn open_account(account: TestAccount) -> (r: Result<AccountSession, SetupError>)
    ensures
        match r {
            Ok(session) => {
                &&& account.address matches Some(address) && property_views(session.options@)
                    == account_options(address@)
                &&& signer_methods(SignerMode::Sentinel) == Some(method_views(session.signer@))
            },
            Err(error) => account.address is None && error == (SetupError {
                account,
                problem: SetupProblem::NoAddress,
            }),
        },
{
    open_account_with(account, SignerMode::Sentinel, false)
}

} // verus!
