//! Sign in with Apple: what is read from the identity token that Apple issues.

use vstd::prelude::*;
use crate::ids::{split_chars, split_on};
use crate::listing::text_opt;
use crate::text::string_of;

verus! {

/// The user that an Apple identity token names.
#[derive(Debug, Clone)]
pub struct AppleUserResult {
    /// Apple's unique id of the user.
    pub sub: String,
    pub email: Option<String>,
    pub email_verified: Option<String>,
    pub is_private_email: Option<String>,
    pub name: Option<AppleName>,
}

/// A user's name as Apple gives it, on the first sign-in only.
#[derive(Debug, Clone)]
pub struct AppleName {
    pub first_name: Option<String>,
    pub last_name: Option<String>,
}

/// The bytes that standard base64 (with padding) encodes in the text, or the text of
/// the decoding error.
pub uninterp spec fn base64_standard(text: Seq<char>) -> Result<Seq<u8>, Seq<char>>;

/// Decodes standard base64 (`base64::decode`). The contract claims only that the result
/// is the one that `base64_standard` names for the text, with the error as its
/// `Display` text.
#[verifier::external_body]
fn decode_base64(text: &str) -> (r: Result<Vec<u8>, String>)
    ensures
        match base64_standard(text@) {
            Ok(b) => r matches Ok(v) && v@ == b,
            Err(m) => r matches Err(e) && e@ == m,
        },
{
    #[allow(deprecated)]
    let decoded = base64::decode(text);
    match decoded {
        Ok(v) => Ok(v),
        Err(e) => Err(e.to_string()),
    }
}

/// The text that the bytes encode in UTF-8, or the text of the error.
pub uninterp spec fn utf8_text(bytes: Seq<u8>) -> Result<Seq<char>, Seq<char>>;

/// Reads bytes as UTF-8 text (`String::from_utf8`). The contract claims only that the
/// result is the one that `utf8_text` names for the bytes.
#[verifier::external_body]
fn text_from_utf8(bytes: Vec<u8>) -> (r: Result<String, String>)
    ensures
        match utf8_text(bytes@) {
            Ok(t) => r matches Ok(s) && s@ == t,
            Err(m) => r matches Err(e) && e@ == m,
        },
{
    match String::from_utf8(bytes) {
        Ok(s) => Ok(s),
        Err(e) => Err(e.to_string()),
    }
}

/// The members of the JSON object in the text, each with its value where that is a
/// string (none for a document that is not an object), or the text of the parse error.
pub uninterp spec fn json_object_texts(text: Seq<char>) -> Result<Seq<(Seq<char>, Option<Seq<char>>)>, Seq<char>>;

/// Parses a JSON document (`serde_json::from_str::<serde_json::Value>`) and lists the
/// members of the object it holds, with their string values (`Value::as_str`). The
/// contract claims only that the result is the one that `json_object_texts` names for
/// the text.
#[verifier::external_body]
fn json_members(text: &str) -> (r: Result<Vec<(String, Option<String>)>, String>)
    ensures
        match json_object_texts(text@) {
            Ok(ms) => r matches Ok(v) && v@.map_values(|m: (String, Option<String>)| (m.0@, text_opt(m.1)))
                == ms,
            Err(m) => r matches Err(e) && e@ == m,
        },
{
    match serde_json::from_str::<serde_json::Value>(text) {
        Ok(serde_json::Value::Object(map)) => Ok(
            map.into_iter().map(|(k, v)| match v {
                serde_json::Value::String(s) => (k, Some(s)),
                _ => (k, None),
            }).collect(),
        ),
        Ok(_) => Ok(Vec::new()),
        Err(e) => Err(e.to_string()),
    }
}

/// The string value of the first member with the name, where there is one.
pub open spec fn member_text(members: Seq<(Seq<char>, Option<Seq<char>>)>, name: Seq<char>) -> Option<Seq<char>>
    decreases members.len(),
{
    if members.len() == 0 {
        None
    } else if members[0].0 == name {
        members[0].1
    } else {
        member_text(members.drop_first(), name)
    }
}

fn find_member(members: &Vec<(String, Option<String>)>, name: &str) -> (r: Option<String>)
    ensures
        text_opt(r) == member_text(members@.map_values(|m: (String, Option<String>)| (m.0@, text_opt(m.1))), name@),
{
    let ghost mv = members@.map_values(|m: (String, Option<String>)| (m.0@, text_opt(m.1)));
    let mut i: usize = 0;
    assert(mv.skip(0) =~= mv);
    while i < members.len()
        invariant
            mv == members@.map_values(|m: (String, Option<String>)| (m.0@, text_opt(m.1))),
            i <= members@.len(),
            member_text(mv, name@) == member_text(mv.skip(i as int), name@),
        decreases members.len() - i,
    {
        proof {
            assert(mv.skip(i as int).drop_first() =~= mv.skip(i + 1));
        }
        if crate::text::str_eq(members[i].0.as_str(), name) {
            return match &members[i].1 {
                Some(s) => Some(s.clone()),
                None => None,
            };
        }
        i = i + 1;
    }
    None
}

/// What the identity token's claims give of the user: its subject (`unknown` where it
/// is missing), its email, whether that was verified, and whether it is a private relay
/// address; never a name.
pub open spec fn apple_user_from(members: Seq<(Seq<char>, Option<Seq<char>>)>, u: AppleUserResult) -> bool {
    &&& u.sub@ == match member_text(members, "sub"@) {
        Some(s) => s,
        None => "unknown"@,
    }
    &&& text_opt(u.email) == member_text(members, "email"@)
    &&& text_opt(u.email_verified) == member_text(members, "email_verified"@)
    &&& text_opt(u.is_private_email) == member_text(members, "is_private_email"@)
    &&& u.name is None
}

/// Reads the user from an Apple identity token without checking its signature: the
/// token must have three parts separated by dots, and its middle part must be base64 of
/// a UTF-8 JSON document; each failure gives its error's text.
pub fn decode_apple_id_token(id_token: &str) -> (r: Result<AppleUserResult, String>)
    ensures
        split_on(id_token@, '.').len() != 3 ==> (r matches Err(e) && e@ == "Invalid JWT token format"@),
        split_on(id_token@, '.').len() == 3 ==> match base64_standard(split_on(id_token@, '.')[1]) {
            Err(m) => r matches Err(e) && e@ == m,
            Ok(bytes) => match utf8_text(bytes) {
                Err(m) => r matches Err(e) && e@ == m,
                Ok(text) => match json_object_texts(text) {
                    Err(m) => r matches Err(e) && e@ == m,
                    Ok(members) => r matches Ok(u) && apple_user_from(members, u),
                },
            },
        },
{
    let parts = split_chars(id_token, '.');
    if parts.len() != 3 {
        return Err(String::from_str("Invalid JWT token format"));
    }
    let payload = string_of(&parts[1]);
    let decoded = match decode_base64(payload.as_str()) {
        Ok(d) => d,
        Err(e) => {
            return Err(e);
        },
    };
    let payload_text = match text_from_utf8(decoded) {
        Ok(t) => t,
        Err(e) => {
            return Err(e);
        },
    };
    let members = match json_members(payload_text.as_str()) {
        Ok(m) => m,
        Err(e) => {
            return Err(e);
        },
    };
    let sub = match find_member(&members, "sub") {
        Some(s) => s,
        None => String::from_str("unknown"),
    };
    Ok(
        AppleUserResult {
            sub,
            email: find_member(&members, "email"),
            email_verified: find_member(&members, "email_verified"),
            is_private_email: find_member(&members, "is_private_email"),
            name: None,
        },
    )
}

} // verus!
