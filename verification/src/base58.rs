//! Text form of a key, as log lines and reports show it.

use vstd::prelude::*;

verus! {

/// The Base58 text (Bitcoin alphabet) of a byte string, as the `bs58` crate encodes it.
pub uninterp spec fn base58_text(bytes: Seq<u8>) -> Seq<char>;

/// Calls `bs58::encode(..).into_string()`. The contract only gives the result its name:
/// the text is a function of the bytes alone.
#[verifier::external_body]
pub(crate) fn encode_base58(bytes: &[u8]) -> (text: String)
    ensures
        text@ == base58_text(bytes@),
{
    bs58::encode(bytes).into_string()
}

} // verus!
