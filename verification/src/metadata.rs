//! The STAKE token's metadata, published under a metadata URI.

use vstd::prelude::*;
use vstd::string::*;

verus! {

pub const METADATA_FT: &'static str = "http://near.org/contract/metadata/fungible-token";

#[derive(Debug)]
pub struct TokenMetadata {
    pub name: String,
    pub symbol: String,
    pub ref_url: String,
    pub ref_hash: String,
    pub granularity: u8,
    pub decimals: u8,
}

/// true if the two strings hold the same characters
pub fn str_equals(a: &str, b: &str) -> (r: bool)
    ensures
        r == (a@ == b@),
{
    let n = a.unicode_len();
    if n != b.unicode_len() {
        return false;
    }
    let mut i: usize = 0;
    while i < n
        invariant
            0 <= i <= n,
            n == a@.len(),
            n == b@.len(),
            forall|j: int| 0 <= j < i ==> a@[j] == b@[j],
        decreases n - i,
    {
        if a.get_char(i) != b.get_char(i) {
            return false;
        }
        i = i + 1;
    }
    assert(a@ =~= b@);
    true
}

/// the STAKE fungible token metadata
pub fn stake_token_metadata() -> (r: TokenMetadata)
    ensures
        r.name@ == "OysterPack STAKE Token"@,
        r.symbol@ == "STAKE"@,
        r.ref_url@ == "https://github.com/oysterpack/oysterpack-near-stake-token"@,
        r.ref_hash@ == "base64-ecoded-hash"@,
        r.granularity == 1,
        r.decimals == 24,
{
    TokenMetadata {
        name: String::from_str("OysterPack STAKE Token"),
        symbol: String::from_str("STAKE"),
        ref_url: String::from_str("https://github.com/oysterpack/oysterpack-near-stake-token"),
        ref_hash: String::from_str("base64-ecoded-hash"),
        granularity: 1,
        decimals: 24,
    }
}

/// the metadata published under `uri`: only the fungible token metadata URI has any
pub fn metadata(uri: &str) -> (r: Option<TokenMetadata>)
    ensures
        r is Some <==> uri@ == METADATA_FT@,
        r is Some ==> r.unwrap().symbol@ == "STAKE"@ && r.unwrap().decimals == 24,
{
    if str_equals(uri, METADATA_FT) {
        Some(stake_token_metadata())
    } else {
        None
    }
}

/// the metadata URIs
pub fn metadata_uris() -> (r: Vec<String>)
    ensures
        r@.len() == 1,
        r@[0]@ == METADATA_FT@,
{
    let mut uris = Vec::new();
    uris.push(String::from_str(METADATA_FT));
    uris
}

} // verus!
