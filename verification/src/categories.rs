//! Research categories as users name them.

use vstd::prelude::*;
use crate::error::{db_error, is_db_error, ApiError};
use crate::models::project::Category;
use crate::service::UtilService;
use crate::text::{chars_of, string_of};
use crate::username::{char_is_whitespace, is_whitespace};

verus! {

/// The text without its leading white space.
pub open spec fn trim_start(s: Seq<char>) -> Seq<char>
    decreases s.len(),
{
    if s.len() > 0 && char_is_whitespace(s[0]) {
        trim_start(s.drop_first())
    } else {
        s
    }
}

/// The text without its trailing white space.
pub open spec fn trim_end(s: Seq<char>) -> Seq<char>
    decreases s.len(),
{
    if s.len() > 0 && char_is_whitespace(s.last()) {
        trim_end(s.drop_last())
    } else {
        s
    }
}

/// The text without white space at either end (`str::trim`, whose white space is that of
/// `char::is_whitespace`).
pub open spec fn trimmed(s: Seq<char>) -> Seq<char> {
    trim_end(trim_start(s))
}

/// The text without white space at either end.
pub fn trim_text(text: &str) -> (t: String)
    ensures
        t@ == trimmed(text@),
{
    let chars = chars_of(text);
    let ghost s = text@;
    let n = chars.len();
    let mut i: usize = 0;
    assert(s.subrange(0, n as int) =~= s);
    while i < n && is_whitespace(chars[i])
        invariant
            chars@ == s,
            n == s.len(),
            i <= n,
            trim_start(s) == trim_start(s.subrange(i as int, n as int)),
        decreases n - i,
    {
        assert(s.subrange(i as int, n as int).drop_first() =~= s.subrange(i + 1, n as int));
        i = i + 1;
    }
    proof {
        if i < n {
            assert(s.subrange(i as int, n as int)[0] == s[i as int]);
        }
    }
    assert(trim_start(s) == s.subrange(i as int, n as int));
    let mut j: usize = n;
    while j > i && is_whitespace(chars[j - 1])
        invariant
            chars@ == s,
            n == s.len(),
            i <= j <= n,
            trim_end(s.subrange(i as int, n as int)) == trim_end(s.subrange(i as int, j as int)),
        decreases j - i,
    {
        assert(s.subrange(i as int, j as int).drop_last() =~= s.subrange(i as int, j - 1));
        j = j - 1;
    }
    proof {
        if j > i {
            assert(s.subrange(i as int, j as int).last() == s[j - 1]);
        }
    }
    assert(trim_end(s.subrange(i as int, j as int)) == s.subrange(i as int, j as int));
    let mut kept: Vec<char> = Vec::new();
    let mut k: usize = i;
    while k < j
        invariant
            chars@ == s,
            i <= k <= j <= n,
            n == s.len(),
            kept@ == s.subrange(i as int, k as int),
        decreases j - k,
    {
        kept.push(chars[k]);
        k = k + 1;
        assert(kept@ =~= s.subrange(i as int, k as int));
    }
    string_of(&kept)
}

impl UtilService {
    /// The names under which categories are looked up or added: each given name without
    /// white space at either end, in order.
    pub fn category_names(categories: &Vec<String>) -> (names: Vec<String>)
        ensures
            names@.len() == categories@.len(),
            forall|i: int| 0 <= i < categories@.len() ==> (#[trigger] names@[i])@ == trimmed(categories@[i]@),
    {
        let mut names: Vec<String> = Vec::new();
        let mut i: usize = 0;
        while i < categories.len()
            invariant
                i <= categories@.len(),
                names@.len() == i,
                forall|j: int| 0 <= j < i ==> (#[trigger] names@[j])@ == trimmed(categories@[j]@),
            decreases categories.len() - i,
        {
            names.push(trim_text(categories[i].as_str()));
            i = i + 1;
        }
        names
    }

    /// A category looked up by its id; a missing one is refused.
    pub fn found_category(found: Option<Category>) -> (r: Result<Category, ApiError>)
        ensures
            match found {
                Some(c) => r == Ok::<Category, ApiError>(c),
                None => r matches Err(e) && is_db_error(e, "This category does not exist."@),
            },
    {
        match found {
            Some(c) => Ok(c),
            None => Err(db_error("This category does not exist.")),
        }
    }
}

} // verus!
