//! The rules a new password must meet before any credential is checked.

use vstd::prelude::*;

verus! {

pub const MIN_PASSWORD_LEN: usize = 12;

pub const MAX_PASSWORD_LEN: usize = 128;

/// Why a password change is turned down.
#[derive(Debug, Clone, Copy, PartialEq, Eq, Structural)]
pub enum PasswordRejection {
    /// The new password and its confirmation differ.
    Mismatch,
    /// The new password has fewer than 12 characters.
    TooShort,
    /// The new password has more than 128 characters.
    TooLong,
    /// The current password given is not the user's password.
    WrongCurrentPassword,
}

/// The verdict on a new password and its confirmation, checked in the order
/// mismatch, too short, too long.
pub open spec fn new_password_verdict(new_password: Seq<char>, check: Seq<char>) -> Option<PasswordRejection> {
    if new_password != check {
        Some(PasswordRejection::Mismatch)
    } else if new_password.len() < MIN_PASSWORD_LEN {
        Some(PasswordRejection::TooShort)
    } else if new_password.len() > MAX_PASSWORD_LEN {
        Some(PasswordRejection::TooLong)
    } else {
        None
    }
}

/// Checks a new password and its confirmation; the length is counted in
/// characters.
pub fn check_new_password(new_password: &String, new_password_check: &String) -> (r: Result<
    (),
    PasswordRejection,
>)
    ensures
        match new_password_verdict(new_password@, new_password_check@) {
            None => r is Ok,
            Some(e) => r == Err::<(), PasswordRejection>(e),
        },
{
    if *new_password != *new_password_check {
        return Err(PasswordRejection::Mismatch);
    }
    let len = new_password.as_str().unicode_len();
    if len < MIN_PASSWORD_LEN {
        return Err(PasswordRejection::TooShort);
    }
    if len > MAX_PASSWORD_LEN {
        return Err(PasswordRejection::TooLong);
    }
    Ok(())
}

impl PasswordRejection {
    /// The message shown to the user.
    pub fn message(&self) -> (r: String)
        ensures
            r@ == (match self {
                PasswordRejection::Mismatch =>
                    "You entered two different new passwords - the field values must match."@,
                PasswordRejection::TooShort =>
                    "New password should be at least 12 characters long."@,
                PasswordRejection::TooLong =>
                    "New password should be at most 128 characters long."@,
                PasswordRejection::WrongCurrentPassword => "The current password is incorrect."@,
            }),
    {
        match self {
            PasswordRejection::Mismatch => {
                "You entered two different new passwords - the field values must match.".to_string()
            },
            PasswordRejection::TooShort => {
                "New password should be at least 12 characters long.".to_string()
            },
            PasswordRejection::TooLong => {
                "New password should be at most 128 characters long.".to_string()
            },
            PasswordRejection::WrongCurrentPassword => {
                "The current password is incorrect.".to_string()
            },
        }
    }
}

} // verus!
