//! A community's premium state.

use vstd::prelude::*;

verus! {

/// The store's answer to a request for a community's premium state.
#[derive(Clone, Debug, PartialEq, Eq)]
pub struct GuildPremiumResponse {
    pub success: bool,
    pub message: String,
    pub content: Option<GuildPremium>,
}

/// A community's premium state.
#[allow(non_snake_case)]
#[derive(Clone, Copy, Debug, PartialEq, Eq)]
pub struct GuildPremium {
    pub premium: bool,
    pub voteFree: bool,
}

impl GuildPremiumResponse {
    /// The state that the answer carries, if the store reported success.
    pub fn into_content(self) -> (content: Option<GuildPremium>)
        ensures
            content == (if self.success {
                self.content
            } else {
                None
            }),
    {
        if self.success {
            self.content
        } else {
            None
        }
    }
}

} // verus!
