//! The emails that carry a verification code or a password reset link.

use vstd::prelude::*;
use crate::text::append_str;
use crate::types::EmailVerifyType;

verus! {

/// Subject of the email that asks a user to verify an address.
pub const VERIFY_SUBJECT: &'static str = "Request To Verify Your Email Address(nerdnuggets.org)";

/// Subject of the email that carries a password reset.
pub const RESET_SUBJECT: &'static str = "Request To Reset Your NERDNUGGETS Password(nerdnuggets.org)";

/// The body of a verification email up to its code.
pub const VERIFY_BODY_BEFORE_CODE: &'static str = r#"<div style="width: 100%; padding: 10 auto;">
                    <div style="max-width: 1000px;">
                        <div style="font-size: 40px; font-weight: bold;display: flex; justify-content: center; max-width: 1600px;font-family: Arial,'Helvetica Neue',Helvetica,sans-serif;padding-top: 30px;">
                            <span style="font-size: 40;">Request To Verify Your Email Address</span>
                        </div>
                        <div style="width: 100%; margin: 30px;">
                            <p style="font-size: 16px;font-family: Arial,'Helvetica Neue',Helvetica,sans-serif;color: black;">Hi</p>
                            <p style="font-size: 16px;font-family: Arial,'Helvetica Neue',Helvetica,sans-serif;color: black;">A request to verify your email address has been detected on NOBLEBLOCKS. To proceed, please</p>
                            <p style="font-size: 16px;font-family: Arial,'Helvetica Neue',Helvetica,sans-serif;color: black;">enter the verification code provided below:</p>
                            <p style="font-size: 20px;font-weight: bold;font-family: Arial,'Helvetica Neue',Helvetica,sans-serif;">Verification Code: "#;

/// The body of a verification email after its code.
pub const VERIFY_BODY_AFTER_CODE: &'static str = r#"</p>
                            <p style="font-size: 16px;font-family: Arial,'Helvetica Neue',Helvetica,sans-serif;color: black;">For your security, this code will expire in 3 minutes and is valid for only one use.</p>
                            <br />
                            <p style="font-size: 16px;font-family: Arial,'Helvetica Neue',Helvetica,sans-serif;color: black;">Best regards</p>
                            <p style="font-size: 16px;font-family: Arial,'Helvetica Neue',Helvetica,sans-serif;color: black;">NOBLEBLOCKS Team</p>
                            <a href="https://www.nerdnuggets.org" style="margin-top: 20px; color: #1155cc">www.nerdnuggets.org</a>
                            <p style="background: #888888; width: 100%; height: 2px;"></p>
                            <p style="font-size: 16px;font-family: Arial,'Helvetica Neue',Helvetica,sans-serif;color: black;"><i>Please do not reply to this email as it is automatically generated.</i></p>
                            <p style="background: #888888; width: 100%; height: 2px;"></p>
                        </div>
                    </div>
                </div>"#;

/// The reset step of a reset email up to its link.
pub const RESET_LINK_BEFORE_URL: &'static str = r#"<p style="font-size: 16px;font-family: Arial,'Helvetica Neue',Helvetica,sans-serif;color: black;">Click the link below to reset your password:</p>
                    <p style="font-size: 16px;font-family: Arial,'Helvetica Neue',Helvetica,sans-serif;color: black;">
                        <a href=""#;

/// The reset step of a reset email after its link.
pub const RESET_LINK_AFTER_URL: &'static str = r#"" style="color: #1155cc; text-decoration: underline;">Reset Password</a>
                    </p>"#;

/// The code step of a reset email up to its code.
pub const RESET_CODE_BEFORE_CODE: &'static str = r#"<p style="font-size: 16px;font-family: Arial,'Helvetica Neue',Helvetica,sans-serif;color: black;">Enter the verification code provided below:</p>
                    <p style="font-size: 20px;font-weight: bold;font-family: Arial,'Helvetica Neue',Helvetica,sans-serif;">Verification Code: "#;

/// The code step of a reset email after its code.
pub const RESET_CODE_AFTER_CODE: &'static str = r#"</p>"#;

/// The body of a reset email up to its reset step.
pub const RESET_BODY_BEFORE_STEP: &'static str = r#"<div style="width: 100%; padding: 10 auto;">
                        <div style="max-width: 1000px;">
                            <div style="font-size: 40px; font-weight: bold;display: flex; justify-content: center; max-width: 1600px;font-family: Arial,'Helvetica Neue',Helvetica,sans-serif;padding-top: 30px;">
                                <span style="font-size: 40;">Request To Reset Your NERDNUGGETS Password</span>
                            </div>
                            <div style="width: 100%; margin: 30px;">
                                <p style="font-size: 16px;font-family: Arial,'Helvetica Neue',Helvetica,sans-serif;color: black;">Hi</p>
                                <p style="font-size: 16px;font-family: Arial,'Helvetica Neue',Helvetica,sans-serif;color: black;">A request to reset your password has been detected on NOBLEBLOCKS. To proceed, please</p>
                                "#;

/// The body of a reset email after its reset step.
pub const RESET_BODY_AFTER_STEP: &'static str = r#"
                                <p style="font-size: 16px;font-family: Arial,'Helvetica Neue',Helvetica,sans-serif;color: black;">For your security, this link will expire in 15 minutes and is valid for only one use.</p>
                                <br />
                                <p style="font-size: 16px;font-family: Arial,'Helvetica Neue',Helvetica,sans-serif;color: black;">Best regards</p>
                                <p style="font-size: 16px;font-family: Arial,'Helvetica Neue',Helvetica,sans-serif;color: black;">NOBLEBLOCKS Team</p>
                                <a href="https://nerdnuggets.org" style="margin-top: 20px; color: #1155cc">www.nerdnuggets.org</a>
                                <p style="background: #888888; width: 100%; height: 2px;"></p>
                                <p style="font-size: 16px;font-family: Arial,'Helvetica Neue',Helvetica,sans-serif;color: black;"><i>Please do not reply to this email as it is automatically generated.</i></p>
                                <p style="background: #888888; width: 100%; height: 2px;"></p>
                            </div>
                        </div>
                    </div>"#;

/// The subject and the HTML body of an email that carries a code or a reset link: to
/// verify an address (for a new account or an added address), the code; to reset a
/// password, the reset link where there is one, else the code.
pub open spec fn auth_email(kind: EmailVerifyType, passkey: Seq<char>, reset_url: Option<Seq<char>>) -> (
    Seq<char>,
    Seq<char>,
) {
    match kind {
        EmailVerifyType::ResetPassword => {
            let step = match reset_url {
                Some(url) => RESET_LINK_BEFORE_URL@ + url + RESET_LINK_AFTER_URL@,
                None => RESET_CODE_BEFORE_CODE@ + passkey + RESET_CODE_AFTER_CODE@,
            };
            (RESET_SUBJECT@, RESET_BODY_BEFORE_STEP@ + step + RESET_BODY_AFTER_STEP@)
        },
        _ => (VERIFY_SUBJECT@, VERIFY_BODY_BEFORE_CODE@ + passkey + VERIFY_BODY_AFTER_CODE@),
    }
}

fn surround(before: &str, middle: &str, after: &str) -> (s: String)
    ensures
        s@ == before@ + middle@ + after@,
{
    let mut s = String::from_str(before);
    append_str(&mut s, middle);
    append_str(&mut s, after);
    s
}

/// The subject and the HTML body of the email that carries a code or a reset link.
pub fn auth_email_content(passkey: &str, message_type: EmailVerifyType, reset_url: &Option<String>) -> (r: (
    String,
    String,
))
    ensures
        (r.0@, r.1@) == auth_email(
            message_type,
            passkey@,
            match reset_url {
                Some(u) => Some(u@),
                None => None,
            },
        ),
{
    match message_type {
        EmailVerifyType::ResetPassword => {
            let step = match reset_url {
                Some(url) => surround(RESET_LINK_BEFORE_URL, url.as_str(), RESET_LINK_AFTER_URL),
                None => surround(RESET_CODE_BEFORE_CODE, passkey, RESET_CODE_AFTER_CODE),
            };
            (
                String::from_str(RESET_SUBJECT),
                surround(RESET_BODY_BEFORE_STEP, step.as_str(), RESET_BODY_AFTER_STEP),
            )
        },
        _ => (
            String::from_str(VERIFY_SUBJECT),
            surround(VERIFY_BODY_BEFORE_CODE, passkey, VERIFY_BODY_AFTER_CODE),
        ),
    }
}

} // verus!
