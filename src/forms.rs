//! The HTML pages of the admin forms. A page is fixed text around the
//! rendered flash messages (and, for the newsletter form, the idempotency
//! key that the form submits back).

use crate::flash::{flash_html, render_flash_messages, texts};
use vstd::prelude::*;

verus! {

pub open spec fn newsletter_page(msg_html: Seq<char>, key: Seq<char>) -> Seq<char> {
    "<!DOCTYPE html>
<html lang=\"en\">
<head>
    <meta http-equiv=\"content-type\" content=\"text/html, charset=utf-8\">
    <title>Submit Newsletter</title>
</head>
<body>
    "@ + msg_html + "
    <form action=\"admin/newsletters\" method=\"post\">
        <label>Title
            <input
                type=\"text\"
                placeholder=\"Enter Title\"
                name=\"title\"
            >
        </label>
        <br>
        <label>HTML Content
            <input
                type=\"text\"
                placeholder=\"Enter Content in HTML\"
                name=\"html_content\"
            >
        </label>
        <br>
        <label>Text Content
            <input
                type=\"text\"
                placeholder=\"Enter Content in Plain Text\"
                name=\"text_content\"
            >
        </label>
        <br>
        <input hidden type=\"text\" name=\"idempotency_key\" value=\""@ + key + "\">
        <button type=\"submit\">Submit</button>
    </form>
    <p><a href=\"/admin/dashboard\">&lt;- Back</a></p>
</body>
</html>"@
}

/// The newsletter form, showing the flash messages and carrying the fresh
/// idempotency key in a hidden field.
pub fn publish_newsletter_form(flash_messages: &Vec<String>, idempotency_key: &str) -> (r: String)
    ensures
        r@ == newsletter_page(flash_html(texts(flash_messages@)), idempotency_key@),
{
    let msg_html = render_flash_messages(flash_messages);
    let mut page = String::new();
    page.append(
        "<!DOCTYPE html>
<html lang=\"en\">
<head>
    <meta http-equiv=\"content-type\" content=\"text/html, charset=utf-8\">
    <title>Submit Newsletter</title>
</head>
<body>
    ",
    );
    page.append(msg_html.as_str());
    page.append(
        "
    <form action=\"admin/newsletters\" method=\"post\">
        <label>Title
            <input
                type=\"text\"
                placeholder=\"Enter Title\"
                name=\"title\"
            >
        </label>
        <br>
        <label>HTML Content
            <input
                type=\"text\"
                placeholder=\"Enter Content in HTML\"
                name=\"html_content\"
            >
        </label>
        <br>
        <label>Text Content
            <input
                type=\"text\"
                placeholder=\"Enter Content in Plain Text\"
                name=\"text_content\"
            >
        </label>
        <br>
        <input hidden type=\"text\" name=\"idempotency_key\" value=\"",
    );
    page.append(idempotency_key);
    page.append(
        "\">
        <button type=\"submit\">Submit</button>
    </form>
    <p><a href=\"/admin/dashboard\">&lt;- Back</a></p>
</body>
</html>",
    );
    assert(page@ =~= newsletter_page(msg_html@, idempotency_key@));
    page
}

pub open spec fn password_page(msg_html: Seq<char>) -> Seq<char> {
    "<!DOCTYPE html>
<html lang=\"en\">
<head>
    <meta http-equiv=\"content-type\" content=\"text/html; charset=utf-8\">
    <title>Change Password</title>
</head>
<body>
    "@ + msg_html + "
    <form action=\"/admin/password\" method=\"post\">
        <label>Current password
            <input
                type=\"password\"
                placeholder=\"Enter current password\"
                name=\"current_password\"
            >
        </label>
        <br>
        <label>New password
            <input
                type=\"password\"
                placeholder=\"Enter new password\"
                name=\"new_password\"
            >
        <br>
        <label>Confirm new password
            <input
                type=\"password\"
                placeholder=\"Enter new password\"
                name=\"new_password\"
            >
        </label>
        <br>
        <button type=\"submit\">Change password</button>
    </form>
    <p><a href=\"/admin/dashboard\">&lt;- Back</a></p>
</body>
</html>"@
}

/// The password-change form, showing the flash messages.
pub fn change_password_form(flash_messages: &Vec<String>) -> (r: String)
    ensures
        r@ == password_page(flash_html(texts(flash_messages@))),
{
    let msg_html = render_flash_messages(flash_messages);
    let mut page = String::new();
    page.append(
        "<!DOCTYPE html>
<html lang=\"en\">
<head>
    <meta http-equiv=\"content-type\" content=\"text/html; charset=utf-8\">
    <title>Change Password</title>
</head>
<body>
    ",
    );
    page.append(msg_html.as_str());
    page.append(
        "
    <form action=\"/admin/password\" method=\"post\">
        <label>Current password
            <input
                type=\"password\"
                placeholder=\"Enter current password\"
                name=\"current_password\"
            >
        </label>
        <br>
        <label>New password
            <input
                type=\"password\"
                placeholder=\"Enter new password\"
                name=\"new_password\"
            >
        <br>
        <label>Confirm new password
            <input
                type=\"password\"
                placeholder=\"Enter new password\"
                name=\"new_password\"
            >
        </label>
        <br>
        <button type=\"submit\">Change password</button>
    </form>
    <p><a href=\"/admin/dashboard\">&lt;- Back</a></p>
</body>
</html>",
    );
    assert(page@ =~= password_page(msg_html@));
    page
}

} // verus!
