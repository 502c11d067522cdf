//! Notification composition: the links, subjects, template names and
//! placeholder sets for each mail the system sends. Delivery itself is a
//! collaborator's job.

use vstd::prelude::*;

verus! {

/// A composed mail, ready for a transport to render and send.
#[derive(Debug)]
pub struct MailRequest {
    pub to: String,
    pub subject: String,
    pub template_path: String,
    pub placeholders: Vec<(String, String)>,
}

/// The confirmation link a mail carries: the base URL with the token as
/// its query parameter.
pub fn create_verification_link(base_url: &str, token: &str) -> (r: String)
    ensures
        r@ == base_url@ + "?token="@ + token@,
{
    String::from_str(base_url).concat("?token=").concat(token)
}

/// Joins a template directory and a template file name.
fn template_file(dir: &str, name: &str) -> (r: String)
    ensures
        r@ == dir@ + "/"@ + name@,
{
    String::from_str(dir).concat("/").concat(name)
}

/// The address-verification mail: subject, template, and the name, email
/// and confirmation-URL placeholders.
pub fn verification_email(
    backend_base_url: &str,
    mail_template_path: &str,
    to_email: &String,
    name: &String,
    token: &String,
) -> (r: MailRequest)
    ensures
        r.to == *to_email,
        r.subject@ == "Email Verification"@,
        r.template_path@ == mail_template_path@ + "/"@ + "verification-email.html"@,
        r.placeholders@.len() == 3,
{
    let base_url = String::from_str(backend_base_url).concat("/auth/verify");
    let link = create_verification_link(base_url.as_str(), token.as_str());
    let mut placeholders: Vec<(String, String)> = Vec::new();
    placeholders.push((String::from_str("{{ .Name }}"), name.clone()));
    placeholders.push((String::from_str("{{ .Email }}"), to_email.clone()));
    placeholders.push((String::from_str("{{ .ConfirmationURL }}"), link));
    MailRequest {
        to: to_email.clone(),
        subject: String::from_str("Email Verification"),
        template_path: template_file(mail_template_path, "verification-email.html"),
        placeholders,
    }
}

/// The welcome mail sent after a successful verification.
pub fn welcome_email(mail_template_path: &str, to_email: &String, frontend_base_url: &str, name: &String) -> (r:
    MailRequest)
    ensures
        r.to == *to_email,
        r.subject@ == "Welcome to workspace kit"@,
        r.template_path@ == mail_template_path@ + "/"@ + "welcome-email.html"@,
        r.placeholders@.len() == 2,
{
    let mut placeholders: Vec<(String, String)> = Vec::new();
    placeholders.push((String::from_str("{{ .Name }}"), name.clone()));
    placeholders.push((String::from_str("{{ .SiteURL }}"), String::from_str(frontend_base_url)));
    MailRequest {
        to: to_email.clone(),
        subject: String::from_str("Welcome to workspace kit"),
        template_path: template_file(mail_template_path, "welcome-email.html"),
        placeholders,
    }
}

/// The password-reset mail with its confirmation link.
pub fn password_reset_email(
    mail_template_path: &str,
    to_email: &String,
    frontend_base_url: &str,
    name: &String,
    token: &String,
) -> (r: MailRequest)
    ensures
        r.to == *to_email,
        r.subject@ == "Password Reset Request"@,
        r.template_path@ == mail_template_path@ + "/"@ + "reset-password.html"@,
        r.placeholders@.len() == 3,
{
    let base_url = String::from_str(frontend_base_url).concat("/auth/reset-password");
    let link = create_verification_link(base_url.as_str(), token.as_str());
    let mut placeholders: Vec<(String, String)> = Vec::new();
    placeholders.push((String::from_str("{{ .Name }}"), name.clone()));
    placeholders.push((String::from_str("{{ .Email }}"), to_email.clone()));
    placeholders.push((String::from_str("{{ .ConfirmationURL }}"), link));
    MailRequest {
        to: to_email.clone(),
        subject: String::from_str("Password Reset Request"),
        template_path: template_file(mail_template_path, "reset-password.html"),
        placeholders,
    }
}

/// The email-change notification, sent to the new address with its
/// confirmation link.
pub fn email_change_notification(
    mail_template_path: &str,
    frontend_base_url: &str,
    old_email: &String,
    new_email: &String,
    name: &String,
    token: &String,
) -> (r: MailRequest)
    ensures
        r.to == *new_email,
        r.subject@ == "Email Change Notification"@,
        r.template_path@ == mail_template_path@ + "/"@ + "email-change-notification.html"@,
        r.placeholders@.len() == 4,
{
    let base_url = String::from_str(frontend_base_url).concat("/user/change-email");
    let link = create_verification_link(base_url.as_str(), token.as_str());
    let mut placeholders: Vec<(String, String)> = Vec::new();
    placeholders.push((String::from_str("{{ .Name }}"), name.clone()));
    placeholders.push((String::from_str("{{ .Email }}"), old_email.clone()));
    placeholders.push((String::from_str("{{ .NewEmail }}"), new_email.clone()));
    placeholders.push((String::from_str("{{ .ConfirmationURL }}"), link));
    MailRequest {
        to: new_email.clone(),
        subject: String::from_str("Email Change Notification"),
        template_path: template_file(mail_template_path, "email-change-notification.html"),
        placeholders,
    }
}

} // verus!
