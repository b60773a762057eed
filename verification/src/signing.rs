//! What the signing methods of a test signer do with their arguments.

use crate::encoding::{
    base64_bytes, base64_len, base64_refusal, base64_text, decode_base64, decoded_len,
    encoding_is_read_back, is_canonical, standard_encode, DecodeError,
};
use crate::environment::TESTNET_PASSPHRASE;
use crate::report::{unmet, unmet_text};
use crate::signer::STUB_SIGNATURE_B64;
use crate::text::{decimal, decimal_text, is_white_space, text_without_white_space_stays, trimmed};
use vstd::prelude::*;
use vstd::string::*;

verus! {

/// Why `signAuthEntry` gave up.
#[derive(Debug, PartialEq, Eq)]
pub enum SigningError {
    /// The argument is not a string.
    NotAString,
    /// The argument is not base64.
    NotBase64(DecodeError),
    /// The host reported something that the stage cannot give.
    Unexpected,
}

/// Why a text is not base64, as it is printed.
pub open spec fn decode_error_debug(error: DecodeError) -> Seq<char> {
    match error {
        DecodeError::InvalidByte(at, byte) => "InvalidByte("@ + decimal(at as nat) + ", "@
            + decimal(byte as nat) + ")"@,
        DecodeError::InvalidLength(len) => "InvalidLength("@ + decimal(len as nat) + ")"@,
        DecodeError::InvalidLastSymbol(at, byte) => "InvalidLastSymbol("@ + decimal(at as nat)
            + ", "@ + decimal(byte as nat) + ")"@,
        DecodeError::InvalidPadding => "InvalidPadding"@,
    }
}

fn decode_error_text(error: DecodeError) -> (r: String)
    ensures
        r@ == decode_error_debug(error),
{
    match error {
        DecodeError::InvalidByte(at, byte) => {
            let mut out = "InvalidByte(".to_owned();
            out.append(decimal_text(at as u128).as_str());
            out.append(", ");
            out.append(decimal_text(byte as u128).as_str());
            out.append(")");
            out
        },
        DecodeError::InvalidLength(len) => {
            let mut out = "InvalidLength(".to_owned();
            out.append(decimal_text(len as u128).as_str());
            out.append(")");
            out
        },
        DecodeError::InvalidLastSymbol(at, byte) => {
            let mut out = "InvalidLastSymbol(".to_owned();
            out.append(decimal_text(at as u128).as_str());
            out.append(", ");
            out.append(decimal_text(byte as u128).as_str());
            out.append(")");
            out
        },
        DecodeError::InvalidPadding => "InvalidPadding".to_owned(),
    }
}

/// What is said where `signAuthEntry` gave up.
pub open spec fn signing_complaint(error: SigningError) -> Seq<char> {
    match error {
        SigningError::NotAString => "signAuthEntry takes a string"@,
        SigningError::NotBase64(reason) => unmet(
            "auth preimage must be base64"@,
            decode_error_debug(reason),
        ),
        SigningError::Unexpected => "unexpected outcome"@,
    }
}

impl SigningError {
    /// What is said where `signAuthEntry` gave up.
    pub fn message(&self) -> (r: String)
        ensures
            r@ == signing_complaint(*self),
    {
        match self {
            SigningError::NotAString => "signAuthEntry takes a string".to_owned(),
            SigningError::NotBase64(reason) => {
                unmet_text("auth preimage must be base64", decode_error_text(*reason).as_str())
            },
            SigningError::Unexpected => "unexpected outcome".to_owned(),
        }
    }
}

/// Reads the preimage that `signAuthEntry` is to sign: base64, with white space
/// around it allowed.
pub fn read_auth_preimage(argument: Option<String>) -> (r: Result<Vec<u8>, SigningError>)
    ensures
        argument is None ==> (r matches Err(error) && error == SigningError::NotAString),
        argument matches Some(text) ==> (r is Ok <==> is_canonical(trimmed(text@))),
        r matches Ok(preimage) ==> (argument matches Some(text) && preimage@ == base64_bytes(
            trimmed(text@),
        ) && preimage@.len() == decoded_len(trimmed(text@)) && base64_text(preimage@) == trimmed(
            text@,
        )),
        argument matches Some(text) ==> (r matches Err(error) ==> error == SigningError::NotBase64(
            base64_refusal(trimmed(text@)),
        )),
{
    match argument {
        None => Err(SigningError::NotAString),
        Some(text) => {
            let trimmed_text = text.as_str().trim();
            match decode_base64(trimmed_text) {
                Ok(bytes) => Ok(bytes),
                Err(error) => Err(SigningError::NotBase64(error)),
            }
        },
    }
}

/// Writes what `signAuthEntry` resolves to: the signature in base64. Reading it,
/// as [`read_auth_preimage`] does, gives the signature back.
pub fn write_signature(signature: &[u8]) -> (r: String)
    requires
        base64_len(signature@.len()) <= isize::MAX,
    ensures
        r@ == base64_text(signature@),
        is_canonical(r@),
        trimmed(r@) == r@,
        base64_bytes(trimmed(r@)) == signature@,
{
    let text = standard_encode(signature);
    proof {
        lemma_text_is_its_own_trim(signature@);
    }
    text
}

proof fn lemma_text_is_its_own_trim(bytes: Seq<u8>)
    ensures
        trimmed(base64_text(bytes)) == base64_text(bytes),
        is_canonical(base64_text(bytes)),
        base64_bytes(base64_text(bytes)) == bytes,
{
    let text = base64_text(bytes);
    encoding_is_read_back(bytes);
    assert forall|i: int| 0 <= i < text.len() implies !is_white_space(#[trigger] text[i]) by {}
    text_without_white_space_stays(text);
}

/// The 64 bytes of the blob that every test signer returns from `signMessage`.
pub open spec fn stub_bytes() -> Seq<u8> {
    Seq::new(64, |i: int| 0xa5u8)
}

/// Whether two texts agree in their first `n` characters.
spec fn agree_up_to(a: Seq<char>, b: Seq<char>, n: nat) -> bool
    decreases n,
{
    n == 0 || (a[n - 1] == b[n - 1] && agree_up_to(a, b, (n - 1) as nat))
}

proof fn lemma_agree_up_to(a: Seq<char>, b: Seq<char>, n: nat)
    requires
        agree_up_to(a, b, n),
    ensures
        forall|i: int| 0 <= i < n ==> a[i] == b[i],
    decreases n,
{
    if n > 0 {
        lemma_agree_up_to(a, b, (n - 1) as nat);
    }
}

/// The blob that every test signer returns from `signMessage` is the base64 text of
/// exactly 64 bytes, each of them 0xa5.
pub proof fn stub_signature_has_64_bytes()
    ensures
        base64_text(stub_bytes()) == STUB_SIGNATURE_B64@,
        is_canonical(STUB_SIGNATURE_B64@),
        decoded_len(STUB_SIGNATURE_B64@) == 64,
        base64_bytes(STUB_SIGNATURE_B64@) == stub_bytes(),
{
    reveal_strlit(
        "paWlpaWlpaWlpaWlpaWlpaWlpaWlpaWlpaWlpaWlpaWlpaWlpaWlpaWlpaWlpaWlpaWlpaWlpaWlpaWlpaWlpQ==",
    );
    let text = base64_text(stub_bytes());
    reveal_with_fuel(agree_up_to, 89);
    assert(agree_up_to(text, STUB_SIGNATURE_B64@, 88));
    lemma_agree_up_to(text, STUB_SIGNATURE_B64@, 88);
    assert(text =~= STUB_SIGNATURE_B64@);
    encoding_is_read_back(stub_bytes());
}

/// Reads the blob that every test signer returns from `signMessage`.
pub fn stub_signature() -> (r: Vec<u8>)
    ensures
        r@ == stub_bytes(),
        base64_text(r@) == STUB_SIGNATURE_B64@,
{
    proof {
        stub_signature_has_64_bytes();
    }
    match decode_base64(STUB_SIGNATURE_B64) {
        Ok(bytes) => bytes,
        Err(_) => Vec::new(),
    }
}

/// What `signAuthEntry` does in turn.
#[derive(Debug, PartialEq, Eq)]
pub enum AuthStage {
    /// Take the argument as a string.
    Argument,
    /// Sign these bytes.
    Sign { preimage: Vec<u8> },
    /// Resolve to this text.
    Resolve { text: String },
}

/// What came of a stage of `signAuthEntry`.
#[derive(Debug, PartialEq, Eq)]
pub enum AuthOutcome {
    /// The argument, if it is a string.
    Text(Option<String>),
    /// The signature of the bytes that were to be signed.
    Signature(Vec<u8>),
}

/// A stage with its texts and bytes as sequences.
pub ghost enum AuthStageView {
    Argument,
    Sign { preimage: Seq<u8> },
    Resolve { text: Seq<char> },
}

/// An outcome with its text and bytes as sequences.
pub ghost enum AuthOutcomeView {
    Text(Option<Seq<char>>),
    Signature(Seq<u8>),
}

impl View for AuthStage {
    type V = AuthStageView;

    open spec fn view(&self) -> AuthStageView {
        match self {
            AuthStage::Argument => AuthStageView::Argument,
            AuthStage::Sign { preimage } => AuthStageView::Sign { preimage: preimage@ },
            AuthStage::Resolve { text } => AuthStageView::Resolve { text: text@ },
        }
    }
}

impl View for AuthOutcome {
    type V = AuthOutcomeView;

    open spec fn view(&self) -> AuthOutcomeView {
        match self {
            AuthOutcome::Text(text) => AuthOutcomeView::Text(
                match text {
                    Some(text) => Some(text@),
                    None => None,
                },
            ),
            AuthOutcome::Signature(signature) => AuthOutcomeView::Signature(signature@),
        }
    }
}

/// The stage of `signAuthEntry` after one and its outcome, or why it gives up. The
/// bytes that are signed are those that the argument, trimmed, stands for; the text
/// that it resolves to is the base64 text of the signature.
pub open spec fn auth_stage_after(
    stage: AuthStageView,
    outcome: AuthOutcomeView,
) -> Result<AuthStageView, SigningError> {
    match (stage, outcome) {
        (AuthStageView::Argument, AuthOutcomeView::Text(Some(text))) => {
            if is_canonical(trimmed(text)) {
                Ok(AuthStageView::Sign { preimage: base64_bytes(trimmed(text)) })
            } else {
                Err(SigningError::NotBase64(base64_refusal(trimmed(text))))
            }
        },
        (AuthStageView::Argument, AuthOutcomeView::Text(None)) => Err(SigningError::NotAString),
        (AuthStageView::Sign { .. }, AuthOutcomeView::Signature(signature)) => Ok(
            AuthStageView::Resolve { text: base64_text(signature) },
        ),
        (AuthStageView::Resolve { .. }, _) => Ok(stage),
        _ => Err(SigningError::Unexpected),
    }
}

/// Takes the signing of an authorization preimage past a stage, or says why it gives
/// up.
pub fn sign_auth_entry(
    stage: AuthStage,
    outcome: AuthOutcome,
) -> (r: Result<AuthStage, SigningError>)
    requires
        outcome matches AuthOutcome::Signature(signature) ==> base64_len(signature@.len())
            <= isize::MAX,
    ensures
        match r {
            Ok(next) => auth_stage_after(stage@, outcome@) matches Ok(after) && after == next@,
            Err(error) => auth_stage_after(stage@, outcome@) matches Err(reason) && reason == error,
        },
{
    match (stage, outcome) {
        (AuthStage::Argument, AuthOutcome::Text(argument)) => match read_auth_preimage(argument) {
            Ok(preimage) => Ok(AuthStage::Sign { preimage }),
            Err(error) => Err(error),
        },
        (AuthStage::Sign { .. }, AuthOutcome::Signature(signature)) => Ok(
            AuthStage::Resolve { text: write_signature(signature.as_slice()) },
        ),
        (AuthStage::Resolve { text }, _) => Ok(AuthStage::Resolve { text }),
        _ => Err(SigningError::Unexpected),
    }
}

/// `signAuthEntry` undoes its caller's encoding before it signs and encodes what it
/// resolves to: for every preimage that is handed over as its base64 text, with any
/// white space around it, the bytes that are signed are the preimage, and what
/// decoding the resolved text gives is the signature.
pub proof fn an_auth_entry_is_signed_as_it_was_encoded(
    preimage: Seq<u8>,
    argument: Seq<char>,
    signature: Seq<u8>,
)
    requires
        trimmed(argument) == base64_text(preimage),
    ensures
        auth_stage_after(AuthStageView::Argument, AuthOutcomeView::Text(Some(argument)))
            matches Ok(stage) && stage == (AuthStageView::Sign { preimage }),
        auth_stage_after(
            AuthStageView::Sign { preimage },
            AuthOutcomeView::Signature(signature),
        ) matches Ok(AuthStageView::Resolve { text }) && is_canonical(text) && base64_bytes(text)
            == signature,
{
    encoding_is_read_back(preimage);
    encoding_is_read_back(signature);
}

/// What `signTransaction` does in turn.
#[derive(Debug, PartialEq, Eq)]
pub enum TransactionStage {
    /// Take the argument as a string.
    Argument,
    /// Decode the unsigned envelope in this text.
    Decode { text: String },
    /// Sign the envelope for the network.
    Sign { network_passphrase: &'static str },
    /// Encode the signed envelope.
    Encode,
    /// Resolve to this text.
    Resolve { text: String },
}

/// What came of a stage of `signTransaction`.
#[derive(Debug, PartialEq, Eq)]
pub enum StageOutcome {
    /// A text: the argument, or the envelope that was encoded.
    Text(String),
    /// The argument is not a string.
    NotAString,
    /// An envelope, which the host keeps.
    Envelope,
    /// The stage failed with this error, as it is printed.
    Failed(String),
}

/// A stage with its texts as sequences of characters.
pub ghost enum TransactionStageView {
    Argument,
    Decode { text: Seq<char> },
    Sign { network_passphrase: Seq<char> },
    Encode,
    Resolve { text: Seq<char> },
}

/// An outcome with its texts as sequences of characters.
pub ghost enum StageOutcomeView {
    Text(Seq<char>),
    NotAString,
    Envelope,
    Failed(Seq<char>),
}

impl View for TransactionStage {
    type V = TransactionStageView;

    open spec fn view(&self) -> TransactionStageView {
        match self {
            TransactionStage::Argument => TransactionStageView::Argument,
            TransactionStage::Decode { text } => TransactionStageView::Decode { text: text@ },
            TransactionStage::Sign { network_passphrase } => TransactionStageView::Sign {
                network_passphrase: network_passphrase@,
            },
            TransactionStage::Encode => TransactionStageView::Encode,
            TransactionStage::Resolve { text } => TransactionStageView::Resolve { text: text@ },
        }
    }
}

impl View for StageOutcome {
    type V = StageOutcomeView;

    open spec fn view(&self) -> StageOutcomeView {
        match self {
            StageOutcome::Text(text) => StageOutcomeView::Text(text@),
            StageOutcome::NotAString => StageOutcomeView::NotAString,
            StageOutcome::Envelope => StageOutcomeView::Envelope,
            StageOutcome::Failed(error) => StageOutcomeView::Failed(error@),
        }
    }
}

/// The stage of `signTransaction` after one and its outcome, or what is said where
/// it gives up. Nothing is left to fail in the last stage.
pub open spec fn stage_after(
    stage: TransactionStageView,
    outcome: StageOutcomeView,
) -> Result<TransactionStageView, Seq<char>> {
    match (stage, outcome) {
        (TransactionStageView::Argument, StageOutcomeView::Text(text)) => Ok(
            TransactionStageView::Decode { text },
        ),
        (TransactionStageView::Argument, StageOutcomeView::NotAString) => Err(
            "signTransaction takes a string"@,
        ),
        (TransactionStageView::Decode { .. }, StageOutcomeView::Envelope) => Ok(
            TransactionStageView::Sign { network_passphrase: TESTNET_PASSPHRASE@ },
        ),
        (TransactionStageView::Decode { .. }, StageOutcomeView::Failed(error)) => Err(
            unmet("unsigned envelope must be valid xdr"@, error),
        ),
        (TransactionStageView::Sign { .. }, StageOutcomeView::Envelope) => Ok(
            TransactionStageView::Encode,
        ),
        (TransactionStageView::Sign { .. }, StageOutcomeView::Failed(error)) => Err(
            unmet("signing the envelope must succeed"@, error),
        ),
        (TransactionStageView::Encode, StageOutcomeView::Text(text)) => Ok(
            TransactionStageView::Resolve { text },
        ),
        (TransactionStageView::Encode, StageOutcomeView::Failed(error)) => Err(
            unmet("signed envelope must encode"@, error),
        ),
        (TransactionStageView::Resolve { .. }, _) => Ok(stage),
        _ => Err("unexpected outcome"@),
    }
}

/// Takes the signing of a transaction past a stage, or says which expectation the
/// stage has broken, and with which error. The envelope is decoded from the
/// argument, signed for the test network, and the method resolves to the text that
/// encoding it gave.
pub fn sign_transaction(
    stage: TransactionStage,
    outcome: StageOutcome,
) -> (r: Result<TransactionStage, String>)
    ensures
        match r {
            Ok(next) => stage_after(stage@, outcome@) matches Ok(after) && after == next@,
            Err(said) => stage_after(stage@, outcome@) matches Err(text) && text == said@,
        },
{
    match (stage, outcome) {
        (TransactionStage::Argument, StageOutcome::Text(text)) => Ok(
            TransactionStage::Decode { text },
        ),
        (TransactionStage::Argument, StageOutcome::NotAString) => Err(
            "signTransaction takes a string".to_owned(),
        ),
        (TransactionStage::Decode { .. }, StageOutcome::Envelope) => Ok(
            TransactionStage::Sign { network_passphrase: TESTNET_PASSPHRASE },
        ),
        (TransactionStage::Decode { .. }, StageOutcome::Failed(error)) => Err(
            unmet_text("unsigned envelope must be valid xdr", error.as_str()),
        ),
        (TransactionStage::Sign { .. }, StageOutcome::Envelope) => Ok(TransactionStage::Encode),
        (TransactionStage::Sign { .. }, StageOutcome::Failed(error)) => Err(
            unmet_text("signing the envelope must succeed", error.as_str()),
        ),
        (TransactionStage::Encode, StageOutcome::Text(text)) => Ok(
            TransactionStage::Resolve { text },
        ),
        (TransactionStage::Encode, StageOutcome::Failed(error)) => Err(
            unmet_text("signed envelope must encode", error.as_str()),
        ),
        (TransactionStage::Resolve { text }, _) => Ok(TransactionStage::Resolve { text }),
        _ => Err("unexpected outcome".to_owned()),
    }
}

} // verus!
