use vstd::prelude::*;

use crate::felt::{cairo_short_string_to_felt, short_string_value, Felt, ShortStringError};

verus! {

/// Where and as whom the orchestrator sends transactions to Starknet.
#[derive(Debug, Clone)]
pub struct StarknetAccountData {
    pub starknet_url: String,
    pub chain_id: Felt,
    pub signer_address: Felt,
    pub signer_key: Felt,
}

/// Reads a chain id written as a Cairo short string (such as `SN_SEPOLIA`): the felt whose
/// big-endian bytes are the text's characters. Texts holding a non-ASCII character or longer
/// than 31 characters are rejected, the former first.
pub fn chain_id_from_short_string(s: &str) -> (r: Result<Felt, ShortStringError>)
    ensures
        r is Err <==> !vstd::utf8::is_ascii_chars(s@) || s@.len() > 31,
        r matches Err(e) ==> e == (if !vstd::utf8::is_ascii_chars(s@) {
            ShortStringError::NonAsciiCharacter
        } else {
            ShortStringError::StringTooLong
        }),
        r matches Ok(f) ==> f@ == short_string_value(s@),
{
    cairo_short_string_to_felt(s)
}

} // verus!
