use zero_to_prod::confirmation::{
    confirmation_reply, subscriber_to_confirm, ConfirmationError, Parameters,
};
use zero_to_prod::flash::render_flash_messages;
use zero_to_prod::password::{check_new_password, PasswordRejection};
use zero_to_prod::tasks::report_exit;

#[test]
fn report_for_a_task_that_exited() {
    let r = report_exit("API", Ok(Ok(())));
    assert_eq!(r.summary, "API has exited");
    assert_eq!(r.error, None);
}

#[test]
fn report_for_a_task_that_failed() {
    let r = report_exit("Background worker", Ok(Err("db down".to_string())));
    assert_eq!(r.summary, "Background worker has failed");
    assert_eq!(r.error, Some("db down".to_string()));
}

#[test]
fn report_for_a_task_that_could_not_be_joined() {
    let r = report_exit("API", Err("task panicked".to_string()));
    assert_eq!(r.summary, "API task failed to complete");
    assert_eq!(r.error, Some("task panicked".to_string()));
}

#[test]
fn confirmation_error_status_codes() {
    assert_eq!(ConfirmationError::UnknownToken.status_code(), 400);
    assert_eq!(ConfirmationError::UnexpectedError("x".to_string()).status_code(), 500);
    assert_eq!(
        ConfirmationError::UnknownToken.message(),
        "There is no subscriber associated with the provided token."
    );
    assert_eq!(ConfirmationError::UnexpectedError("boom".to_string()).message(), "boom");
}

#[test]
fn confirmation_decisions() {
    let p = Parameters { subscription_token: "tok".to_string() };
    assert_eq!(p.subscription_token, "tok");
    assert_eq!(subscriber_to_confirm(Ok(Some(77))), Ok(77));
    assert_eq!(subscriber_to_confirm(Ok(None)), Err(ConfirmationError::UnknownToken));
    assert_eq!(
        subscriber_to_confirm(Err("io".to_string())),
        Err(ConfirmationError::UnexpectedError(
            "Failed to get subscriber id from token".to_string()
        ))
    );
    assert_eq!(confirmation_reply(Ok(())), Ok(200));
    assert_eq!(
        confirmation_reply(Err("io".to_string())),
        Err(ConfirmationError::UnexpectedError(
            "Failed to update subscriber status to `confirmed`".to_string()
        ))
    );
}

#[test]
fn new_password_rules() {
    let s = |x: &str| x.to_string();
    assert_eq!(
        check_new_password(&s("abcdefghijkl"), &s("abcdefghijkm")),
        Err(PasswordRejection::Mismatch)
    );
    assert_eq!(check_new_password(&s("short"), &s("short")), Err(PasswordRejection::TooShort));
    let eleven = "a".repeat(11);
    assert_eq!(check_new_password(&eleven, &eleven), Err(PasswordRejection::TooShort));
    let twelve = "a".repeat(12);
    assert_eq!(check_new_password(&twelve, &twelve), Ok(()));
    let accented = "é".repeat(12);
    assert_eq!(check_new_password(&accented, &accented), Ok(()));
    let max = "b".repeat(128);
    assert_eq!(check_new_password(&max, &max), Ok(()));
    let long = "b".repeat(129);
    assert_eq!(check_new_password(&long, &long), Err(PasswordRejection::TooLong));
    assert_eq!(
        PasswordRejection::TooShort.message(),
        "New password should be at least 12 characters long."
    );
    assert_eq!(
        PasswordRejection::Mismatch.message(),
        "You entered two different new passwords - the field values must match."
    );
    assert_eq!(
        PasswordRejection::TooLong.message(),
        "New password should be at most 128 characters long."
    );
    assert_eq!(
        PasswordRejection::WrongCurrentPassword.message(),
        "The current password is incorrect."
    );
}

#[test]
fn flash_messages_render_in_order() {
    assert_eq!(render_flash_messages(&vec![]), "");
    let msgs = vec!["one".to_string(), "two".to_string()];
    assert_eq!(render_flash_messages(&msgs), "<p><i>one</i></p>\n<p><i>two</i></p>\n");
}
