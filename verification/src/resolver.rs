//! The shape of a DNS-over-HTTPS TXT lookup, used to resolve a handle to an
//! identity. The HTTP call itself lives with the caller; the library holds
//! the response's shape.

use vstd::prelude::*;

verus! {

/// The TXT resolver identity.
#[derive(Debug, Clone, PartialEq, Eq)]
pub struct ApiDNSTxtResolver {}

impl Default for ApiDNSTxtResolver {
    fn default() -> (r: ApiDNSTxtResolver)
        ensures
            r == (ApiDNSTxtResolver {  }),
    {
        ApiDNSTxtResolver {  }
    }
}

/// One question of a DNS JSON answer.
#[derive(Debug, Clone, PartialEq, Eq)]
pub struct Question {
    pub name: String,
    pub type_: i32,
}

/// One answer record of a DNS JSON answer.
#[derive(Debug, Clone, PartialEq, Eq)]
#[allow(non_snake_case)]
pub struct Answer {
    pub name: String,
    pub type_: i32,
    pub TTL: i32,
    pub data: String,
}

/// A DNS JSON response.
#[derive(Debug, Clone, PartialEq, Eq)]
#[allow(non_snake_case)]
pub struct DnsResponse {
    pub Status: i32,
    pub TC: bool,
    pub RD: bool,
    pub RA: bool,
    pub AD: bool,
    pub CD: bool,
    pub Question: Vec<Question>,
    pub Answer: Vec<Answer>,
}

} // verus!
