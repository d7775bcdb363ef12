//! OpenID-Connect provider configuration: the two endpoints the flow needs.
//!
//! Discovering these from the provider's metadata document is a network
//! fetch, done by the surrounding application; the engine only consumes the
//! plain values.

use vstd::prelude::*;

verus! {

/// The provider endpoints used by the flow.
#[derive(Debug, Clone)]
pub struct Configuration {
    pub token_endpoint: String,
    pub authorization_endpoint: String,
}

impl Configuration {
    pub fn new(token_endpoint: String, authorization_endpoint: String) -> (r: Self)
        ensures
            r.token_endpoint@ == token_endpoint@,
            r.authorization_endpoint@ == authorization_endpoint@,
    {
        Configuration { token_endpoint, authorization_endpoint }
    }
}

} // verus!
