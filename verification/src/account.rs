//! The account a command works for.

use vstd::prelude::*;

use crate::uri::{Uri, UriView};

verus! {

/// The OAuth 2.0 grant of an account.
#[derive(Clone, Copy, Debug, PartialEq, Eq, Structural)]
pub enum GrantConfig {
    /// The authorization-code grant.
    AuthorizationCode,
    /// The device grant.
    Device,
}

/// What the commands read of an account.
pub struct Account {
    /// The grant that the account obtains its tokens by.
    pub grant: GrantConfig,
    /// The client identifier.
    pub client_id: String,
    /// The endpoint that issues tokens.
    pub token_endpoint: Option<Uri>,
    /// The endpoint that the authorization server redirects to.
    pub redirection_endpoint: Option<Uri>,
}

/// What [`Account`] is, as contracts speak of it.
pub struct AccountView {
    pub grant: GrantConfig,
    pub client_id: Seq<char>,
    pub token_endpoint: Option<UriView>,
    pub redirection_endpoint: Option<UriView>,
}

impl View for Account {
    type V = AccountView;

    open spec fn view(&self) -> AccountView {
        AccountView {
            grant: self.grant,
            client_id: self.client_id@,
            token_endpoint: self.token_endpoint.deep_view(),
            redirection_endpoint: self.redirection_endpoint.deep_view(),
        }
    }
}

} // verus!
