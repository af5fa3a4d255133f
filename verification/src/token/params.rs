//! The response of the token endpoint.

use vstd::prelude::*;

verus! {

/// A successful token response. It has no `Debug`: it holds secrets.
pub struct AccessTokenSuccessParams {
    /// The issued access token.
    pub access_token: String,
    /// The type of the token issued (usually `Bearer`).
    pub token_type: String,
    /// The lifetime of the access token, in seconds.
    pub expires_in: Option<usize>,
    /// The refresh token.
    pub refresh_token: Option<String>,
    /// The granted scope.
    pub scope: Option<String>,
    /// When the token was issued, in seconds since the Unix epoch.
    pub issued_at: Option<u64>,
}

/// What [`AccessTokenSuccessParams`] is, as contracts speak of it.
pub struct AccessTokenSuccessParamsView {
    pub access_token: Seq<char>,
    pub token_type: Seq<char>,
    pub expires_in: Option<usize>,
    pub refresh_token: Option<Seq<char>>,
    pub scope: Option<Seq<char>>,
    pub issued_at: Option<u64>,
}

impl View for AccessTokenSuccessParams {
    type V = AccessTokenSuccessParamsView;

    open spec fn view(&self) -> AccessTokenSuccessParamsView {
        AccessTokenSuccessParamsView {
            access_token: self.access_token@,
            token_type: self.token_type@,
            expires_in: self.expires_in,
            refresh_token: self.refresh_token.deep_view(),
            scope: self.scope.deep_view(),
            issued_at: self.issued_at,
        }
    }
}

} // verus!
