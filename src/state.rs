use vstd::prelude::*;

verus! {

/// The two values the contract keeps between calls.
#[derive(Clone, Debug, PartialEq)]
pub struct State {
    /// The only address allowed to mint. Set at creation, never changed.
    pub admin: String,
    /// The token contract's address; empty until its creation is reported.
    pub token: String,
}

impl State {
    /// Whether the token contract's address has been recorded.
    pub open spec fn token_recorded(&self) -> bool {
        self.token@.len() > 0
    }

    /// Whether the token contract's address has been recorded.
    pub fn is_token_recorded(&self) -> (r: bool)
        ensures
            r == self.token_recorded(),
    {
        !self.token.as_str().is_empty()
    }
}

} // verus!
