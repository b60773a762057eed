//! What the signing methods sign, resolve to, and say.

use crate::encoding::{
    base64_text, canonical_text_is_written_back, decode_base64, encoding_is_read_back, is_canonical,
    DecodeError,
};
use crate::signing::{
    read_auth_preimage, sign_auth_entry, sign_transaction, stub_signature, write_signature,
    AuthOutcome, AuthStage, SigningError, StageOutcome, TransactionStage,
};
use crate::text::{all_white_space, decimal, surrounding_white_space_is_trimmed, trimmed};
use vstd::prelude::*;
use vstd::string::*;

verus! {

/// What is written is read back: reading the text of a signature, with any white space
/// around it, gives that signature.
pub proof fn a_written_signature_is_read_back(
    signature: &[u8],
    text: String,
    before: Seq<char>,
    after: Seq<char>,
    argument: Option<String>,
    read: Result<Vec<u8>, SigningError>,
)
    requires
        call_ensures(write_signature, (signature,), text),
        call_ensures(read_auth_preimage, (argument,), read),
        all_white_space(before),
        all_white_space(after),
        argument matches Some(given) && given@ == before + text@ + after,
    ensures
        read matches Ok(bytes) && bytes@ == signature@,
{
    surrounding_white_space_is_trimmed(before, text@, after);
    encoding_is_read_back(signature@);
}

/// What is read is what was written: a text that is read is, trimmed, the base64 text of
/// what was read, and one that is refused is the base64 text of nothing.
pub proof fn a_preimage_is_what_its_text_stands_for(
    argument: Option<String>,
    read: Result<Vec<u8>, SigningError>,
    bytes: Seq<u8>,
)
    requires
        call_ensures(read_auth_preimage, (argument,), read),
    ensures
        argument is None ==> (read matches Err(error) && error == SigningError::NotAString),
        argument matches Some(text) ==> (read matches Ok(preimage) ==> base64_text(preimage@)
            == trimmed(text@)),
        argument matches Some(text) ==> (trimmed(text@) == base64_text(bytes) ==> (
        read matches Ok(preimage) && preimage@ == bytes)),
        argument matches Some(text) ==> (read matches Err(error) ==> error is NotBase64),
{
    encoding_is_read_back(bytes);
}

/// Base64 text is read exactly where it is the text of some bytes, and as those.
pub proof fn base64_is_read_as_what_it_was_written_from(
    text: &str,
    read: Result<Vec<u8>, DecodeError>,
    bytes: Seq<u8>,
)
    requires
        call_ensures(decode_base64, (text,), read),
    ensures
        text@ == base64_text(bytes) ==> (read matches Ok(own) && own@ == bytes),
        read matches Ok(own) ==> text@ == base64_text(own@),
{
    encoding_is_read_back(bytes);
}

/// The blob that keys are derived from is 64 bytes, all of them 0xa5.
pub proof fn the_stub_signature_is_fixed(bytes: Vec<u8>)
    requires
        call_ensures(stub_signature, (), bytes),
    ensures
        bytes@.len() == 64,
        forall|i: int| 0 <= i < 64 ==> #[trigger] bytes@[i] == 0xa5,
{
}

/// `signAuthEntry`, from its argument to what it resolves to: for every preimage that is
/// handed over as base64, what is signed is that preimage, and what is resolved to is the
/// base64 of the signature.
pub proof fn an_auth_entry_goes_from_argument_to_signature(
    preimage: Seq<u8>,
    argument: String,
    signature: Vec<u8>,
    first: Result<AuthStage, SigningError>,
    signing: AuthStage,
    second: Result<AuthStage, SigningError>,
)
    requires
        trimmed(argument@) == base64_text(preimage),
        call_ensures(
            sign_auth_entry,
            (AuthStage::Argument, AuthOutcome::Text(Some(argument))),
            first,
        ),
        call_ensures(sign_auth_entry, (signing, AuthOutcome::Signature(signature)), second),
        signing is Sign,
    ensures
        first matches Ok(AuthStage::Sign { preimage: bytes }) && bytes@ == preimage,
        second matches Ok(AuthStage::Resolve { text }) && text@ == base64_text(signature@),
{
    encoding_is_read_back(preimage);
}

/// `signAuthEntry` gives up on an argument that is no string or not base64, and on no
/// other; nothing is signed then.
pub proof fn an_auth_entry_is_refused_before_it_is_signed(
    argument: Option<String>,
    first: Result<AuthStage, SigningError>,
)
    requires
        call_ensures(sign_auth_entry, (AuthStage::Argument, AuthOutcome::Text(argument)), first),
    ensures
        first is Ok <==> (argument matches Some(text) && is_canonical(trimmed(text@))),
        first matches Ok(stage) ==> (stage matches AuthStage::Sign { preimage }
            && base64_text(preimage@) == trimmed(argument->0@)),
        argument is None ==> (first matches Err(error) && error is NotAString),
        argument is Some ==> (first matches Err(error) ==> error is NotBase64),
{
    if let Some(text) = argument {
        if is_canonical(trimmed(text@)) {
            canonical_text_is_written_back(trimmed(text@));
        }
    }
}

/// A method that resolves goes on resolving to the same text, and an outcome that the stage
/// cannot have is refused.
pub proof fn an_auth_entry_takes_nothing_out_of_place(
    stage: AuthStage,
    outcome: AuthOutcome,
    next: Result<AuthStage, SigningError>,
)
    requires
        call_ensures(sign_auth_entry, (stage, outcome), next),
    ensures
        stage matches AuthStage::Resolve { text } ==> (next matches Ok(AuthStage::Resolve {
            text: same,
        }) && same@ == text@),
        stage is Argument && outcome is Signature ==> (next matches Err(error)
            && error is Unexpected),
        stage is Sign && outcome is Text ==> (next matches Err(error) && error is Unexpected),
{
}

/// What is said where `signAuthEntry` gives up: which expectation was broken, and of a text
/// that is not base64, why.
pub proof fn a_signing_error_says_what_was_expected(error: &SigningError, said: String)
    requires
        call_ensures(SigningError::message, (error,), said),
    ensures
        match error {
            SigningError::NotAString => said@ == "signAuthEntry takes a string"@,
            SigningError::NotBase64(reason) => said@ == "auth preimage must be base64"@ + ": "@ + (
            match reason {
                DecodeError::InvalidByte(at, byte) => "InvalidByte("@ + decimal(*at as nat) + ", "@
                    + decimal(*byte as nat) + ")"@,
                DecodeError::InvalidLength(len) => "InvalidLength("@ + decimal(*len as nat) + ")"@,
                DecodeError::InvalidLastSymbol(at, byte) => "InvalidLastSymbol("@ + decimal(
                    *at as nat,
                ) + ", "@ + decimal(*byte as nat) + ")"@,
                DecodeError::InvalidPadding => "InvalidPadding"@,
            }),
            SigningError::Unexpected => said@ == "unexpected outcome"@,
        },
{
}

/// `signTransaction`, from its argument to what it resolves to: the envelope is decoded
/// from the argument as it is, signed for the test network, encoded, and the method resolves
/// to the text that encoding gave.
pub proof fn a_transaction_goes_from_argument_to_resolution(
    argument: String,
    decode: Result<TransactionStage, String>,
    decoding: TransactionStage,
    sign: Result<TransactionStage, String>,
    signing: TransactionStage,
    encode: Result<TransactionStage, String>,
    encoded: String,
    resolve: Result<TransactionStage, String>,
)
    requires
        call_ensures(
            sign_transaction,
            (TransactionStage::Argument, StageOutcome::Text(argument)),
            decode,
        ),
        decoding is Decode,
        call_ensures(sign_transaction, (decoding, StageOutcome::Envelope), sign),
        signing is Sign,
        call_ensures(sign_transaction, (signing, StageOutcome::Envelope), encode),
        call_ensures(
            sign_transaction,
            (TransactionStage::Encode, StageOutcome::Text(encoded)),
            resolve,
        ),
    ensures
        decode matches Ok(TransactionStage::Decode { text }) && text@ == argument@,
        sign matches Ok(TransactionStage::Sign { network_passphrase }) && network_passphrase@
            == "Test SDF Network ; September 2015"@,
        encode matches Ok(stage) && stage is Encode,
        resolve matches Ok(TransactionStage::Resolve { text }) && text@ == encoded@,
{
}

/// What is said where `signTransaction` gives up: which expectation was broken, with the
/// error.
pub proof fn a_transaction_that_fails_says_what_was_expected(
    stage: TransactionStage,
    error: String,
    failed: Result<TransactionStage, String>,
    refused: Result<TransactionStage, String>,
)
    requires
        call_ensures(sign_transaction, (stage, StageOutcome::Failed(error)), failed),
        call_ensures(
            sign_transaction,
            (TransactionStage::Argument, StageOutcome::NotAString),
            refused,
        ),
    ensures
        refused matches Err(said) && said@ == "signTransaction takes a string"@,
        match stage {
            TransactionStage::Argument => failed matches Err(said) && said@
                == "unexpected outcome"@,
            TransactionStage::Decode { .. } => failed matches Err(said) && said@
                == "unsigned envelope must be valid xdr"@ + ": "@ + error@,
            TransactionStage::Sign { .. } => failed matches Err(said) && said@
                == "signing the envelope must succeed"@ + ": "@ + error@,
            TransactionStage::Encode => failed matches Err(said) && said@
                == "signed envelope must encode"@ + ": "@ + error@,
            TransactionStage::Resolve { text } => failed matches Ok(TransactionStage::Resolve {
                text: same,
            }) && same@ == text@,
        },
{
}

/// No stage of `signTransaction` can be skipped: an outcome that the stage cannot have is
/// refused.
pub proof fn a_transaction_takes_nothing_out_of_place(
    stage: TransactionStage,
    outcome: StageOutcome,
    next: Result<TransactionStage, String>,
)
    requires
        call_ensures(sign_transaction, (stage, outcome), next),
    ensures
        stage is Argument ==> (next is Ok <==> outcome is Text),
        stage is Decode ==> (next is Ok <==> outcome is Envelope),
        stage is Sign ==> (next is Ok <==> outcome is Envelope),
        stage is Encode ==> (next is Ok <==> outcome is Text),
        stage is Resolve ==> next is Ok,
        stage matches TransactionStage::Resolve { text } ==> (
        next matches Ok(TransactionStage::Resolve { text: same }) && same@ == text@),
{
}

} // verus!
