//! The credential of the authorized user, as an explicit value that the
//! caller builds once and hands to the pipeline.

use vstd::prelude::*;
use vstd::string::*;
use crate::errors::{TransferError, TransferErrorView};
use crate::file::opt_text;

verus! {

/// The secret of an authorized user, in the form that the token exchange
/// takes it.
#[derive(Debug, PartialEq, Eq)]
pub struct AuthorizedUser {
    pub client_id: String,
    pub client_secret: String,
    pub refresh_token: String,
    /// Left empty: the exchange does not read it.
    pub key_type: String,
}

/// Mathematical model of an [`AuthorizedUser`].
pub struct AuthorizedUserView {
    pub client_id: Seq<char>,
    pub client_secret: Seq<char>,
    pub refresh_token: Seq<char>,
    pub key_type: Seq<char>,
}

impl View for AuthorizedUser {
    type V = AuthorizedUserView;

    open spec fn view(&self) -> AuthorizedUserView {
        AuthorizedUserView {
            client_id: self.client_id@,
            client_secret: self.client_secret@,
            refresh_token: self.refresh_token@,
            key_type: self.key_type@,
        }
    }
}

/// The name under which the client identifier is supplied.
pub open spec fn client_id_name() -> Seq<char> {
    "CLIENT_ID"@
}

/// The name under which the client secret is supplied.
pub open spec fn client_secret_name() -> Seq<char> {
    "CLIENT_SECRET"@
}

/// The name under which the refresh token is supplied.
pub open spec fn refresh_token_name() -> Seq<char> {
    "REFRESH_TOKEN"@
}

/// The credential made of three optional inputs: all three must be there,
/// and the first that is absent, in the order identifier, secret, token, is
/// the one reported.
pub open spec fn authorized_user_of(
    client_id: Option<Seq<char>>,
    client_secret: Option<Seq<char>>,
    refresh_token: Option<Seq<char>>,
) -> Result<AuthorizedUserView, TransferErrorView> {
    if client_id is None {
        Err(TransferErrorView::CredentialMissing { name: client_id_name() })
    } else if client_secret is None {
        Err(TransferErrorView::CredentialMissing { name: client_secret_name() })
    } else if refresh_token is None {
        Err(TransferErrorView::CredentialMissing { name: refresh_token_name() })
    } else {
        Ok(
            AuthorizedUserView {
                client_id: client_id.unwrap(),
                client_secret: client_secret.unwrap(),
                refresh_token: refresh_token.unwrap(),
                key_type: Seq::empty(),
            },
        )
    }
}

/// Builds the credential from the values of the variables `CLIENT_ID`,
/// `CLIENT_SECRET` and `REFRESH_TOKEN`, each `None` where the variable is
/// not set. Reading the variables is the caller's part.
pub fn create_aus_from_env_vars(
    client_id: Option<String>,
    client_secret: Option<String>,
    refresh_token: Option<String>,
) -> (r: Result<AuthorizedUser, TransferError>)
    ensures
        match r {
            Ok(user) => authorized_user_of(
                opt_text(client_id),
                opt_text(client_secret),
                opt_text(refresh_token),
            ) == Ok::<AuthorizedUserView, TransferErrorView>(user@),
            Err(e) => authorized_user_of(
                opt_text(client_id),
                opt_text(client_secret),
                opt_text(refresh_token),
            ) == Err::<AuthorizedUserView, TransferErrorView>(e@),
        },
{
    let client_id = match client_id {
        Some(v) => v,
        None => {
            return Err(TransferError::CredentialMissing { name: String::from_str("CLIENT_ID") });
        },
    };
    let client_secret = match client_secret {
        Some(v) => v,
        None => {
            return Err(
                TransferError::CredentialMissing { name: String::from_str("CLIENT_SECRET") },
            );
        },
    };
    let refresh_token = match refresh_token {
        Some(v) => v,
        None => {
            return Err(
                TransferError::CredentialMissing { name: String::from_str("REFRESH_TOKEN") },
            );
        },
    };
    Ok(AuthorizedUser { client_id, client_secret, refresh_token, key_type: String::new() })
}

} // verus!
