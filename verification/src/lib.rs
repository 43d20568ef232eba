//! Client core for the Upbit exchange REST API.
//!
//! The heart of the crate is the authenticated-request pipeline: a
//! credential store, a query canonicalizer, a token signer that binds a
//! request token to the exact query parameters being sent, and a response
//! resolver that classifies a raw response body as a typed success value,
//! a structured API error, or a deserialization failure.

use vstd::prelude::*;

pub mod constant;
pub mod credentials;
pub mod crypto;
pub mod datetime;
pub mod deposit;
pub mod encode;
pub mod errors;
pub mod json;
pub mod numtext;
pub mod query;
pub mod query_laws;
pub mod request;
pub mod resolver;
pub mod response;
pub mod text;
pub mod token;
pub mod token_laws;

verus! {

} // verus!
