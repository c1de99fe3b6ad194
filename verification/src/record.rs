//! The credential bundle that the store keeps.

use vstd::prelude::*;

verus! {

/// The mathematical value of a [`TokenData`]: three texts, none of which the
/// store ever inspects.
pub struct TokenRecord {
    pub access_token: Seq<char>,
    pub refresh_token: Seq<char>,
    pub expires_at: Seq<char>,
}

/// An access token, a refresh token and the moment the access token expires,
/// the last in whatever notation the caller uses.
#[derive(Debug, Clone, PartialEq, Eq)]
pub struct TokenData {
    pub access_token: String,
    pub refresh_token: String,
    pub expires_at: String,
}

impl View for TokenData {
    type V = TokenRecord;

    open spec fn view(&self) -> TokenRecord {
        TokenRecord {
            access_token: self.access_token@,
            refresh_token: self.refresh_token@,
            expires_at: self.expires_at@,
        }
    }
}

impl TokenData {
    /// Bundles the three texts, unchanged and unchecked.
    pub fn new(access_token: String, refresh_token: String, expires_at: String) -> (data: TokenData)
        ensures
            data@ == (TokenRecord {
                access_token: access_token@,
                refresh_token: refresh_token@,
                expires_at: expires_at@,
            }),
    {
        TokenData { access_token, refresh_token, expires_at }
    }
}

} // verus!
