//! Structured responses: an attribute list describing the action performed,
//! and the mint instructions a successful purchase hands to the token
//! registry, which owns token identity and performs the actual issuance.

use vstd::prelude::*;

verus! {

/// One key/value pair of a response's attribute list.
#[derive(Debug)]
pub struct Attribute {
    pub key: String,
    pub value: String,
}

/// Builds one attribute.
pub fn attr(key: &str, value: &str) -> (a: Attribute)
    ensures
        a.key@ == key@,
        a.value@ == value@,
{
    Attribute { key: key.to_owned(), value: value.to_owned() }
}

/// An instruction to the token registry to mint one token.
#[derive(Debug)]
pub struct MintMsg {
    /// The address that receives the token.
    pub owner: String,
    /// The token identifier, rendered as a decimal numeral.
    pub token_id: String,
    /// The token's metadata URI.
    pub uri: Option<String>,
    /// Opaque payload attached to the token, if any.
    pub data: Option<Vec<u8>>,
}

/// An instruction to the token registry to transfer one token.
#[derive(Debug)]
pub struct TransferMsg {
    /// The address that receives the token.
    pub recipient: String,
    /// The token identifier, rendered as a decimal numeral.
    pub token_id: String,
}

/// The result of a successful mutating request: attributes for external
/// indexing, and the mint instructions the caller must forward to the token
/// registry as one atomic batch (all minted, or the request's effects are
/// discarded along with the failure).
#[derive(Debug)]
pub struct Response {
    pub attributes: Vec<Attribute>,
    pub mints: Vec<MintMsg>,
}

impl Response {
    /// A response with the given attributes and no mint instructions.
    pub fn with_attributes(attributes: Vec<Attribute>) -> (r: Response)
        ensures
            r.attributes == attributes,
            r.mints@ == Seq::<MintMsg>::empty(),
    {
        Response { attributes, mints: Vec::new() }
    }
}

} // verus!
