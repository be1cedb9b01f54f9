//! Helpers shared by the services: random numbers, article identifiers, e-mail and URL
//! checks, and usernames.

use rand::Rng;
use vstd::prelude::*;

verus! {

/// A random number from `from` to `to`, both included (`rand::Rng::gen_range` on the
/// thread-local generator). Nothing is claimed of its distribution.
#[verifier::external_body]
pub fn generate_random_number(from: u32, to: u32) -> (n: u32)
    requires
        from <= to,
    ensures
        from <= n <= to,
{
    let mut rng = rand::thread_rng();
    rng.gen_range(from..=to)
}

/// The article identifier of a proposal: `NB`, the proposal id, `A`.
pub fn get_article_id_from_proposal_id(proposal_id: &str) -> (article_id: String)
    ensures
        article_id@ == "NB"@ + proposal_id@ + "A"@,
{
    let mut article_id = String::from_str("NB");
    article_id.append(proposal_id);
    article_id.append("A");
    article_id
}

/// Whether `email_address::EmailAddress::is_valid` accepts an address.
pub uninterp spec fn email_address_is_valid(address: Seq<char>) -> bool;

/// `email_address::EmailAddress::is_valid`; the result is the named predicate of the
/// address.
#[verifier::external_body]
fn email_address_valid(address: &str) -> (r: bool)
    ensures
        r == email_address_is_valid(address@),
{
    email_address::EmailAddress::is_valid(address)
}

/// Whether the text contains the character.
fn contains_char(s: &str, c: char) -> (r: bool)
    ensures
        r == s@.contains(c),
{
    let chars = crate::text::chars_of(s);
    let mut i: usize = 0;
    while i < chars.len()
        invariant
            chars@ == s@,
            i <= chars@.len(),
            forall|j: int| 0 <= j < i ==> chars@[j] != c,
        decreases chars.len() - i,
    {
        if chars[i] == c {
            assert(s@[i as int] == c);
            return true;
        }
        i = i + 1;
    }
    false
}

/// Whether an address is accepted for sign-up: it has no `+` (no sub-addressing) and
/// is a valid e-mail address.
pub fn is_valid_email(email: &str) -> (valid: bool)
    ensures
        valid == (!email@.contains('+') && email_address_is_valid(email@)),
{
    if contains_char(email, '+') {
        return false;
    }
    email_address_valid(email)
}

/// The text of a URL with its path removed, as `url::Url::parse` followed by
/// `Url::set_path("")` and `to_string` gives it, or `None` where the text is no URL.
pub uninterp spec fn url_without_path(input: Seq<char>) -> Option<Seq<char>>;

/// Parses a URL with `url::Url::parse`, clears its path with `Url::set_path("")` and
/// writes it back; `None` where parsing fails. The result is the named function of the
/// input.
#[verifier::external_body]
fn strip_url_path(input: &str) -> (r: Option<String>)
    ensures
        r matches Some(s) ==> url_without_path(input@) == Some(s@),
        r is None ==> url_without_path(input@) is None,
{
    match url::Url::parse(input) {
        Ok(url) => {
            let mut base_url = url.clone();
            base_url.set_path("");
            Some(base_url.to_string())
        },
        Err(_) => None,
    }
}

/// The base of a URL: the URL without its path; a text that is no URL is given back
/// unchanged.
pub fn get_base_url(input: &str) -> (base: String)
    ensures
        base@ == match url_without_path(input@) {
            Some(b) => b,
            None => input@,
        },
{
    match strip_url_path(input) {
        Some(b) => b,
        None => String::from_str(input),
    }
}

} // verus!
