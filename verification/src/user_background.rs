//! The pictures behind a user's rank card.

use vstd::prelude::*;

verus! {

/// The store's answer to a request for a user's background.
#[derive(Clone, Debug, PartialEq, Eq)]
pub struct UserBackgroundResponse {
    pub success: bool,
    pub message: String,
    pub content: Option<UserBackground>,
}

/// A user's background, large and small.
#[derive(Clone, Debug, PartialEq, Eq)]
pub struct UserBackground {
    pub big: UserBackgroundBig,
    pub small: String,
}

/// The two halves of the large background.
#[derive(Clone, Debug, PartialEq, Eq)]
pub struct UserBackgroundBig {
    pub top: Option<String>,
    pub bottom: Option<String>,
}

impl UserBackgroundResponse {
    /// The background that the answer carries, if the store reported success.
    pub fn into_content(self) -> (content: Option<UserBackground>)
        ensures
            content == (if self.success {
                self.content
            } else {
                None
            }),
    {
        if self.success {
            self.content
        } else {
            None
        }
    }
}

} // verus!
