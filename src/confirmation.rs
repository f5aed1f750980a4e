//! The decisions of a subscription confirmation: look up the subscriber by
//! the token from the confirmation link, then mark that subscriber confirmed.

use vstd::prelude::*;

verus! {

/// The query parameters of a confirmation link.
#[derive(Debug, Clone)]
pub struct Parameters {
    pub subscription_token: String,
}

/// Why a confirmation failed.
#[derive(Debug, Clone, PartialEq, Eq)]
pub enum ConfirmationError {
    /// The storage engine failed; the text says at which step.
    UnexpectedError(String),
    /// No subscriber holds the token.
    UnknownToken,
}

impl ConfirmationError {
    /// The HTTP status code of the error: 500 for an unexpected error, 400
    /// for an unknown token.
    pub fn status_code(&self) -> (r: u16)
        ensures
            r == (match self {
                ConfirmationError::UnexpectedError(_) => 500u16,
                ConfirmationError::UnknownToken => 400u16,
            }),
    {
        match self {
            ConfirmationError::UnexpectedError(_) => 500,
            ConfirmationError::UnknownToken => 400,
        }
    }

    /// The error's message.
    pub fn message(&self) -> (r: String)
        ensures
            match self {
                ConfirmationError::UnexpectedError(m) => r@ == m@,
                ConfirmationError::UnknownToken => r@
                    == "There is no subscriber associated with the provided token."@,
            },
    {
        match self {
            ConfirmationError::UnexpectedError(m) => m.clone(),
            ConfirmationError::UnknownToken => {
                "There is no subscriber associated with the provided token.".to_string()
            },
        }
    }
}

/// Context of a failed token lookup.
pub open spec fn lookup_failed_text() -> Seq<char> {
    "Failed to get subscriber id from token"@
}

/// Context of a failed status update.
pub open spec fn update_failed_text() -> Seq<char> {
    "Failed to update subscriber status to `confirmed`"@
}

/// Decides from the token lookup: the subscriber to confirm, `UnknownToken`
/// when no subscriber holds the token, or an unexpected error when the
/// lookup itself failed.
pub fn subscriber_to_confirm(lookup: Result<Option<u128>, String>) -> (r: Result<u128, ConfirmationError>)
    ensures
        match lookup {
            Ok(Some(id)) => r == Ok::<u128, ConfirmationError>(id),
            Ok(None) => r == Err::<u128, ConfirmationError>(ConfirmationError::UnknownToken),
            Err(_) => r matches Err(ConfirmationError::UnexpectedError(m)) && m@
                == lookup_failed_text(),
        },
{
    match lookup {
        Ok(Some(id)) => Ok(id),
        Ok(None) => Err(ConfirmationError::UnknownToken),
        Err(_) => Err(
            ConfirmationError::UnexpectedError(
                "Failed to get subscriber id from token".to_string(),
            ),
        ),
    }
}

/// Decides from the status update: the HTTP status of the reply (200), or
/// an unexpected error when the update failed.
pub fn confirmation_reply(update: Result<(), String>) -> (r: Result<u16, ConfirmationError>)
    ensures
        match update {
            Ok(()) => r == Ok::<u16, ConfirmationError>(200),
            Err(_) => r matches Err(ConfirmationError::UnexpectedError(m)) && m@
                == update_failed_text(),
        },
{
    match update {
        Ok(()) => Ok(200),
        Err(_) => Err(
            ConfirmationError::UnexpectedError(
                "Failed to update subscriber status to `confirmed`".to_string(),
            ),
        ),
    }
}

} // verus!
