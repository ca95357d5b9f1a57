//! State shared with the request handlers.

use vstd::prelude::*;
use crate::config::JwtConfig;

verus! {

/// The JWT settings handed to the handlers that issue and check tokens.
#[derive(Debug, Clone)]
pub struct JWTConfigState {
    pub jwt_config: JwtConfig,
}

impl JWTConfigState {
    /// Wraps the JWT settings.
    pub fn new(jwt_config: JwtConfig) -> (r: JWTConfigState)
        ensures
            r.jwt_config@ == jwt_config@,
    {
        JWTConfigState { jwt_config }
    }

    /// A copy of this state, for each handler that receives it.
    pub fn duplicate(&self) -> (r: JWTConfigState)
        ensures
            r.jwt_config@ == self.jwt_config@,
    {
        JWTConfigState { jwt_config: self.jwt_config.duplicate() }
    }
}

} // verus!
