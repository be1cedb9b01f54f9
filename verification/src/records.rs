//! How clients name stored records, and the nerd ids that records are given.

use chrono::Datelike;
use vstd::prelude::*;
use crate::commons::generate_random_number;
use crate::error::{db_error, is_db_error, ApiError};
use crate::ids::{count_char, lemma_count_char_absent, lemma_count_char_concat, parse_uuid, uuid_from_text};
use crate::text::{append_decimal, chars_of, decimal, lemma_digits_are_digits, push_char};

verus! {

/// How a client names a stored record: by its UUID, or by its nerd id.
#[derive(Debug, Clone)]
pub enum RecordKey {
    Id(u128),
    NerdId(String),
}

/// Whether `s` begins with `prefix`.
pub open spec fn starts_with(s: Seq<char>, prefix: Seq<char>) -> bool {
    prefix.len() <= s.len() && s.subrange(0, prefix.len() as int) == prefix
}

/// Whether the text begins with the prefix.
pub fn text_starts_with(s: &str, prefix: &str) -> (r: bool)
    ensures
        r == starts_with(s@, prefix@),
{
    let a = chars_of(s);
    let b = chars_of(prefix);
    if b.len() > a.len() {
        return false;
    }
    let mut i: usize = 0;
    while i < b.len()
        invariant
            a@ == s@,
            b@ == prefix@,
            b@.len() <= a@.len(),
            i <= b@.len(),
            forall|j: int| 0 <= j < i ==> a@[j] == b@[j],
        decreases b.len() - i,
    {
        if a[i] != b[i] {
            assert(s@.subrange(0, prefix@.len() as int)[i as int] != prefix@[i as int]);
            return false;
        }
        i = i + 1;
    }
    assert(s@.subrange(0, prefix@.len() as int) =~= prefix@);
    true
}

/// How a record named by `id` is looked up: by UUID where `id` is one, else by nerd id
/// where `id` begins with the prefix of the record's kind.
pub open spec fn record_key_of(id: Seq<char>, nerd_prefix: Seq<char>) -> Option<Result<u128, Seq<char>>> {
    match uuid_from_text(id) {
        Some(u) => Some(Ok(u)),
        None => if starts_with(id, nerd_prefix) {
            Some(Err(id))
        } else {
            None
        },
    }
}

/// Decides how to look up the record that a client names: by UUID where the text is
/// one, else by nerd id where it begins with `nerd_prefix` (`RP-` for projects, `BT-`
/// for bounties and predictions); any other text is refused.
pub fn resolve_record_key(id: &str, nerd_prefix: &str) -> (r: Result<RecordKey, ApiError>)
    ensures
        match record_key_of(id@, nerd_prefix@) {
            Some(Ok(u)) => r matches Ok(RecordKey::Id(v)) && v == u,
            Some(Err(n)) => r matches Ok(RecordKey::NerdId(s)) && s@ == n,
            None => r matches Err(e) && is_db_error(e, "Invalid id format"@),
        },
{
    match parse_uuid(id) {
        Some(u) => Ok(RecordKey::Id(u)),
        None => {
            if text_starts_with(id, nerd_prefix) {
                Ok(RecordKey::NerdId(String::from_str(id)))
            } else {
                Err(db_error("Invalid id format"))
            }
        },
    }
}

/// The nerd id of a record of the given kind: the kind, the year and a number, joined
/// by hyphens (such as `RP-2024-1234`).
pub open spec fn nerd_id_text(kind: Seq<char>, year: int, number: int) -> Seq<char> {
    kind + seq!['-'] + decimal(year) + seq!['-'] + decimal(number)
}

/// The contract id that goes with a nerd id: the year followed by four digits of the
/// number.
pub open spec fn contract_id_of(year: int, number: int) -> int {
    year * 10000 + number
}

/// The nerd id and contract id of a record of the given kind, year and number.
pub fn nerd_id_and_contract_id(kind: &str, year: i32, number: u32) -> (r: (String, i32))
    requires
        i32::MIN <= contract_id_of(year as int, number as int) <= i32::MAX,
    ensures
        r.0@ == nerd_id_text(kind@, year as int, number as int),
        r.1 == contract_id_of(year as int, number as int),
{
    let mut nerd_id = String::from_str(kind);
    push_char(&mut nerd_id, '-');
    append_decimal(&mut nerd_id, year as i64);
    push_char(&mut nerd_id, '-');
    append_decimal(&mut nerd_id, number as i64);
    assert(nerd_id@ =~= nerd_id_text(kind@, year as int, number as int));
    let wide: i64 = (year as i64) * 10000 + (number as i64);
    (nerd_id, wide as i32)
}

/// The current year (`chrono::Utc::now().year()`). Nothing is claimed of its value.
#[verifier::external_body]
fn current_year() -> (year: i32) {
    chrono::Utc::now().year()
}

/// The nerd id and contract id for a year and number, where the contract id fits in
/// 32 bits; `None` otherwise.
pub open spec fn nerd_id_option(kind: Seq<char>, year: int, number: int) -> Option<(Seq<char>, int)> {
    if i32::MIN <= contract_id_of(year, number) <= i32::MAX {
        Some((nerd_id_text(kind, year, number), contract_id_of(year, number)))
    } else {
        None
    }
}

/// Whether an optional nerd id and contract id is the one that `nerd_id_option` gives.
pub open spec fn is_nerd_id_option(r: Option<(String, i32)>, kind: Seq<char>, year: int, number: int) -> bool {
    match nerd_id_option(kind, year, number) {
        Some(c) => r matches Some(v) && v.0@ == c.0 && v.1 as int == c.1,
        None => r is None,
    }
}

/// The nerd id and contract id of a record of the given kind for the given year and
/// number, or `None` where the contract id does not fit in 32 bits.
pub fn nerd_id_for_year(kind: &str, year: i32, number: u32) -> (r: Option<(String, i32)>)
    ensures
        is_nerd_id_option(r, kind@, year as int, number as int),
{
    let wide: i64 = (year as i64) * 10000 + (number as i64);
    if wide >= i32::MIN as i64 && wide <= i32::MAX as i64 {
        Some(nerd_id_and_contract_id(kind, year, number))
    } else {
        None
    }
}

/// A candidate nerd id for a new record of the given kind: this year and a random
/// number from 1000 to 9999, returned together with the nerd id and contract id that
/// `nerd_id_for_year` gives for them (`None` in the distant years whose contract ids do
/// not fit in 32 bits). Whether the candidate is still free is for the caller to check
/// against the stored records.
pub fn nerd_id_candidate(kind: &str) -> (r: (i32, u32, Option<(String, i32)>))
    ensures
        1000 <= r.1 <= 9999,
        is_nerd_id_option(r.2, kind@, r.0 as int, r.1 as int),
{
    let year = current_year();
    let number = generate_random_number(1000, 9999);
    let candidate = nerd_id_for_year(kind, year, number);
    (year, number, candidate)
}

/// A nerd id of a kind without hyphens, for a year that is not negative, has exactly two
/// hyphens, so the chat numbers built on it give their bidder back.
pub proof fn lemma_nerd_id_hyphens(kind: Seq<char>, year: int, number: int)
    requires
        count_char(kind, '-') == 0,
        year >= 0,
        number >= 0,
    ensures
        count_char(nerd_id_text(kind, year, number), '-') == 2,
{
    lemma_digits_are_digits(year as nat);
    lemma_digits_are_digits(number as nat);
    lemma_count_char_absent(decimal(year), '-');
    lemma_count_char_absent(decimal(number), '-');
    let d = seq!['-'];
    assert(count_char(d, '-') == 1) by {
        assert(d.drop_last() =~= Seq::<char>::empty());
        assert(count_char(Seq::<char>::empty(), '-') == 0);
    }
    lemma_count_char_concat(kind, d, '-');
    lemma_count_char_concat(kind + d, decimal(year), '-');
    lemma_count_char_concat(kind + d + decimal(year), d, '-');
    lemma_count_char_concat(kind + d + decimal(year) + d, decimal(number), '-');
}

} // verus!
