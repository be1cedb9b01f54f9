//! Usernames made from a person's name or e-mail address, in the style of professional
//! networks: the name in lower case without spaces or punctuation, and a number after
//! it where that is taken.

use vstd::prelude::*;
use crate::commons::generate_random_number;
use crate::text::{append_decimal, chars_of, decimal, push_char};

verus! {

/// Whether a character has the Unicode `White_Space` property, which `char::is_whitespace`
/// tests: tab to carriage return, space, next line, no-break space, ogham space mark,
/// en quad to hair space, line and paragraph separators, narrow no-break space, medium
/// mathematical space and ideographic space.
pub open spec fn char_is_whitespace(c: char) -> bool {
    let v = c as int;
    ||| 0x09 <= v <= 0x0D
    ||| v == 0x20 || v == 0x85 || v == 0xA0 || v == 0x1680
    ||| 0x2000 <= v <= 0x200A
    ||| v == 0x2028 || v == 0x2029 || v == 0x202F || v == 0x205F || v == 0x3000
}

/// Whether `char::is_alphanumeric` holds of a character (alphabetic or numeric).
pub uninterp spec fn char_is_alphanumeric(c: char) -> bool;

/// The lower-case form of a text by `str::to_lowercase`.
pub uninterp spec fn text_to_lowercase(text: Seq<char>) -> Seq<char>;

/// Whether the character has the `White_Space` property, as `char::is_whitespace`
/// tests it.
pub(crate) fn is_whitespace(c: char) -> (r: bool)
    ensures
        r == char_is_whitespace(c),
{
    let v = c as u32;
    (0x09 <= v && v <= 0x0D) || v == 0x20 || v == 0x85 || v == 0xA0 || v == 0x1680 || (0x2000 <= v
        && v <= 0x200A) || v == 0x2028 || v == 0x2029 || v == 0x202F || v == 0x205F || v == 0x3000
}

/// `char::is_alphanumeric`; the result is the named predicate of the character.
#[verifier::external_body]
fn is_alphanumeric(c: char) -> (r: bool)
    ensures
        r == char_is_alphanumeric(c),
{
    c.is_alphanumeric()
}

/// `str::to_lowercase`; the result is the named function of the text, and the lower-case
/// form of the empty text is empty.
#[verifier::external_body]
fn to_lowercase(text: &str) -> (r: String)
    ensures
        r@ == text_to_lowercase(text@),
        text@.len() == 0 ==> r@.len() == 0,
{
    text.to_lowercase()
}

/// The current time as seconds since the Unix epoch (`chrono::Utc::now().timestamp()`).
/// Nothing is claimed of its value.
#[verifier::external_body]
fn now_timestamp() -> (t: i64) {
    chrono::Utc::now().timestamp()
}

/// Scanning a text for whitespace-separated words: the words completed so far and the
/// word being read.
pub open spec fn word_scan(s: Seq<char>) -> (Seq<Seq<char>>, Seq<char>)
    decreases s.len(),
{
    if s.len() == 0 {
        (seq![], seq![])
    } else {
        let (done, cur) = word_scan(s.drop_last());
        let c = s.last();
        if char_is_whitespace(c) {
            if cur.len() > 0 {
                (done.push(cur), seq![])
            } else {
                (done, cur)
            }
        } else {
            (done, cur.push(c))
        }
    }
}

/// The words of a text: its non-empty runs of non-whitespace characters
/// (`str::split_whitespace`).
pub open spec fn words(s: Seq<char>) -> Seq<Seq<char>> {
    let (done, cur) = word_scan(s);
    if cur.len() > 0 {
        done.push(cur)
    } else {
        done
    }
}

/// The part of a text before the first `c`, or the whole text where there is none
/// (`split(c).next()`).
pub open spec fn before_first(s: Seq<char>, c: char) -> Seq<char>
    decreases s.len(),
{
    if s.len() == 0 {
        s
    } else if s[0] == c {
        seq![]
    } else {
        seq![s[0]] + before_first(s.drop_first(), c)
    }
}

/// The alphanumeric characters of a text, in order.
pub open spec fn alphanumeric_only(s: Seq<char>) -> Seq<char>
    decreases s.len(),
{
    if s.len() == 0 {
        s
    } else if char_is_alphanumeric(s.last()) {
        alphanumeric_only(s.drop_last()).push(s.last())
    } else {
        alphanumeric_only(s.drop_last())
    }
}

/// What a username is made of before it is cleaned: the first two words of the name
/// run together (or its only word); where there is no name, or the name has no words,
/// the part of the e-mail address before the `@`.
pub open spec fn username_source(name: Option<Seq<char>>, email: Seq<char>) -> Seq<char> {
    match name {
        Some(n) if words(n).len() >= 2 => words(n)[0] + words(n)[1],
        Some(n) if words(n).len() == 1 => words(n)[0],
        _ => before_first(email, '@'),
    }
}

/// The username tried first: the source in lower case with everything but letters and
/// digits removed, or `user` where nothing is left.
pub open spec fn username_base(name: Option<Seq<char>>, email: Seq<char>) -> Seq<char> {
    let clean = alphanumeric_only(text_to_lowercase(username_source(name, email)));
    if clean.len() == 0 {
        "user"@
    } else {
        clean
    }
}

/// Whether one of the existing usernames is `candidate`.
pub open spec fn is_taken(existing: Seq<String>, candidate: Seq<char>) -> bool {
    exists|i: int| 0 <= i < existing.len() && (#[trigger] existing[i])@ == candidate
}

/// The smallest number from `k` to 99 that, put after `base`, gives a free username.
pub open spec fn first_free_suffix(existing: Seq<String>, base: Seq<char>, k: int) -> Option<int>
    decreases 100 - k,
{
    if k > 99 || k < 1 {
        None
    } else if !is_taken(existing, base + decimal(k)) {
        Some(k)
    } else {
        first_free_suffix(existing, base, k + 1)
    }
}

/// The username chosen given the random number and the time that the choice may need:
/// the base if it is free; else the base with the smallest free number from 1 to 99;
/// else the base with the random number if that is free; else the base with the time.
pub open spec fn chosen_username(
    base: Seq<char>,
    existing: Seq<String>,
    random_suffix: int,
    timestamp: int,
) -> Seq<char> {
    if !is_taken(existing, base) {
        base
    } else {
        match first_free_suffix(existing, base, 1) {
            Some(k) => base + decimal(k),
            None => if !is_taken(existing, base + decimal(random_suffix)) {
                base + decimal(random_suffix)
            } else {
                base + decimal(timestamp)
            },
        }
    }
}

/// The optional name as a sequence of characters.
pub open spec fn name_view(name: Option<&str>) -> Option<Seq<char>> {
    match name {
        Some(n) => Some(n@),
        None => None,
    }
}

proof fn lemma_before_first_take(s: Seq<char>, c: char, k: int)
    requires
        0 <= k <= s.len(),
        forall|j: int| 0 <= j < k ==> s[j] != c,
        k == s.len() || s[k] == c,
    ensures
        before_first(s, c) == s.subrange(0, k),
    decreases s.len(),
{
    if s.len() > 0 && s[0] != c {
        lemma_before_first_take(s.drop_first(), c, k - 1);
        assert(seq![s[0]] + s.drop_first().subrange(0, k - 1) =~= s.subrange(0, k));
    } else if s.len() > 0 {
        assert(s.subrange(0, k) =~= Seq::<char>::empty());
    } else {
        assert(s.subrange(0, k) =~= s);
    }
}

/// The characters of the text before its first `c`.
fn prefix_before(s: &str, c: char) -> (p: Vec<char>)
    ensures
        p@ == before_first(s@, c),
{
    let chars = chars_of(s);
    let mut p: Vec<char> = Vec::new();
    let mut i: usize = 0;
    while i < chars.len() && chars[i] != c
        invariant
            chars@ == s@,
            i <= chars@.len(),
            p@ == chars@.subrange(0, i as int),
            forall|j: int| 0 <= j < i ==> chars@[j] != c,
        decreases chars.len() - i,
    {
        p.push(chars[i]);
        i = i + 1;
        assert(p@ =~= chars@.subrange(0, i as int));
    }
    proof {
        lemma_before_first_take(s@, c, i as int);
    }
    p
}

/// The words of the text, each as a vector of characters.
fn split_words(s: &str) -> (ws: Vec<Vec<char>>)
    ensures
        ws@.len() == words(s@).len(),
        forall|i: int| 0 <= i < ws@.len() ==> (#[trigger] ws@[i])@ == words(s@)[i],
{
    let chars = chars_of(s);
    let mut done: Vec<Vec<char>> = Vec::new();
    let mut cur: Vec<char> = Vec::new();
    let mut i: usize = 0;
    while i < chars.len()
        invariant
            chars@ == s@,
            i <= chars@.len(),
            done@.len() == word_scan(chars@.subrange(0, i as int)).0.len(),
            forall|k: int|
                0 <= k < done@.len() ==> (#[trigger] done@[k])@ == word_scan(
                    chars@.subrange(0, i as int),
                ).0[k],
            cur@ == word_scan(chars@.subrange(0, i as int)).1,
        decreases chars.len() - i,
    {
        let c = chars[i];
        let ghost before = chars@.subrange(0, i as int);
        let ghost after = chars@.subrange(0, i + 1);
        assert(after.drop_last() =~= before);
        if is_whitespace(c) {
            if cur.len() > 0 {
                done.push(cur);
                cur = Vec::new();
            }
        } else {
            cur.push(c);
        }
        i = i + 1;
        assert(chars@.subrange(0, i as int) == after);
    }
    assert(chars@.subrange(0, chars@.len() as int) =~= s@);
    if cur.len() > 0 {
        done.push(cur);
    }
    done
}


/// The alphanumeric characters of the text.
fn keep_alphanumeric(s: &str) -> (r: String)
    ensures
        r@ == alphanumeric_only(s@),
{
    let chars = chars_of(s);
    let mut r = String::new();
    let mut i: usize = 0;
    while i < chars.len()
        invariant
            chars@ == s@,
            i <= chars@.len(),
            r@ == alphanumeric_only(chars@.subrange(0, i as int)),
        decreases chars.len() - i,
    {
        let c = chars[i];
        let ghost after = chars@.subrange(0, i + 1);
        assert(after.drop_last() =~= chars@.subrange(0, i as int));
        if is_alphanumeric(c) {
            push_char(&mut r, c);
        }
        i = i + 1;
    }
    assert(chars@.subrange(0, chars@.len() as int) =~= s@);
    r
}

/// The username tried first for a person (see `username_base`).
pub fn base_username(name: Option<&str>, email: &str) -> (base: String)
    ensures
        base@ == username_base(name_view(name), email@),
{
    let source: Vec<char> = match name {
        Some(n) => {
            let ws = split_words(n);
            if ws.len() >= 2 {
                let mut joined = ws[0].clone();
                let mut j: usize = 0;
                let second = &ws[1];
                let ghost first = ws@[0]@;
                assert(joined@ == first);
                while j < second.len()
                    invariant
                        j <= second@.len(),
                        joined@ == first + second@.subrange(0, j as int),
                    decreases second.len() - j,
                {
                    joined.push(second[j]);
                    j = j + 1;
                    assert(joined@ =~= first + second@.subrange(0, j as int));
                }
                assert(second@.subrange(0, second@.len() as int) =~= second@);
                joined
            } else if ws.len() == 1 {
                ws[0].clone()
            } else {
                prefix_before(email, '@')
            }
        },
        None => prefix_before(email, '@'),
    };
    assert(source@ == username_source(name_view(name), email@));
    let source_text = crate::text::string_of(&source);
    let lower = to_lowercase(source_text.as_str());
    let clean = keep_alphanumeric(lower.as_str());
    if clean.as_str().unicode_len() == 0 {
        String::from_str("user")
    } else {
        clean
    }
}

/// Whether one of the existing usernames is the candidate.
pub fn username_taken(existing: &Vec<String>, candidate: &String) -> (taken: bool)
    ensures
        taken == is_taken(existing@, candidate@),
{
    let mut i: usize = 0;
    while i < existing.len()
        invariant
            i <= existing@.len(),
            forall|j: int| 0 <= j < i ==> (#[trigger] existing@[j])@ != candidate@,
        decreases existing.len() - i,
    {
        if existing[i] == *candidate {
            assert(existing@[i as int]@ == candidate@);
            return true;
        }
        i = i + 1;
    }
    false
}

/// The base with a number after it.
fn with_suffix(base: &String, n: i64) -> (c: String)
    ensures
        c@ == base@ + decimal(n as int),
{
    let mut c = base.clone();
    append_decimal(&mut c, n);
    c
}

/// The smallest number from 1 to 99 that, put after the base, gives a free username.
fn find_free_suffix(existing: &Vec<String>, base: &String) -> (k: Option<i64>)
    ensures
        k == match first_free_suffix(existing@, base@, 1) {
            Some(v) => Some(v as i64),
            None => None::<i64>,
        },
{
    let mut k: i64 = 1;
    while k <= 99
        invariant
            1 <= k <= 100,
            first_free_suffix(existing@, base@, 1) == first_free_suffix(existing@, base@, k as int),
        decreases 100 - k,
    {
        let candidate = with_suffix(base, k);
        if !username_taken(existing, &candidate) {
            return Some(k);
        }
        k = k + 1;
    }
    None
}

/// The username chosen for a person among the existing ones, given the random number
/// and the time that the choice may need (see `chosen_username`).
pub fn pick_username(
    name: Option<&str>,
    email: &str,
    existing_usernames: &Vec<String>,
    random_suffix: u32,
    timestamp: i64,
) -> (username: String)
    ensures
        username@ == chosen_username(
            username_base(name_view(name), email@),
            existing_usernames@,
            random_suffix as int,
            timestamp as int,
        ),
{
    let base = base_username(name, email);
    if !username_taken(existing_usernames, &base) {
        return base;
    }
    proof {
        lemma_first_free_suffix_free(existing_usernames@, base@, 1);
    }
    match find_free_suffix(existing_usernames, &base) {
        Some(k) => with_suffix(&base, k),
        None => {
            let candidate = with_suffix(&base, random_suffix as i64);
            if !username_taken(existing_usernames, &candidate) {
                candidate
            } else {
                with_suffix(&base, timestamp)
            }
        },
    }
}

/// A username for a person that is not among the existing ones: the base if it is free,
/// else the base with the smallest free number from 1 to 99; where all of those are
/// taken, the base with a random number from 100 to 999998 if that is free, else with
/// the current time in seconds.
pub fn generate_username(name: Option<&str>, email: &str, existing_usernames: &Vec<String>) -> (username: String)
    ensures
        exists|r: int, t: int|
            100 <= r <= 999998 && username@ == chosen_username(
                username_base(name_view(name), email@),
                existing_usernames@,
                r,
                t,
            ),
{
    let base = base_username(name, email);
    if !username_taken(existing_usernames, &base) {
        assert(base@ == chosen_username(base@, existing_usernames@, 100, 0));
        return base;
    }
    proof {
        lemma_first_free_suffix_free(existing_usernames@, base@, 1);
    }
    match find_free_suffix(existing_usernames, &base) {
        Some(k) => {
            let u = with_suffix(&base, k);
            assert(u@ == chosen_username(base@, existing_usernames@, 100, 0));
            u
        },
        None => {
            let r = generate_random_number(100, 999998);
            let candidate = with_suffix(&base, r as i64);
            if !username_taken(existing_usernames, &candidate) {
                assert(candidate@ == chosen_username(base@, existing_usernames@, r as int, 0));
                candidate
            } else {
                let t = now_timestamp();
                let u = with_suffix(&base, t);
                assert(u@ == chosen_username(base@, existing_usernames@, r as int, t as int));
                u
            }
        },
    }
}

/// The chosen username is not among the existing ones, unless the last fallback (the
/// base followed by the time) is itself taken.
pub proof fn lemma_chosen_username_free(
    base: Seq<char>,
    existing: Seq<String>,
    random_suffix: int,
    timestamp: int,
)
    requires
        !is_taken(existing, base + decimal(timestamp)),
    ensures
        !is_taken(existing, chosen_username(base, existing, random_suffix, timestamp)),
{
    lemma_first_free_suffix_free(existing, base, 1);
}

proof fn lemma_first_free_suffix_free(existing: Seq<String>, base: Seq<char>, k: int)
    ensures
        first_free_suffix(existing, base, k) matches Some(v) ==> 1 <= v <= 99 && !is_taken(
            existing,
            base + decimal(v),
        ),
    decreases 100 - k,
{
    if 1 <= k <= 99 && is_taken(existing, base + decimal(k)) {
        lemma_first_free_suffix_free(existing, base, k + 1);
    }
}

proof fn lemma_first_free_suffix_least(existing: Seq<String>, base: Seq<char>, k: int)
    requires
        1 <= k,
    ensures
        first_free_suffix(existing, base, k) matches Some(v) ==> k <= v <= 99 && !is_taken(existing, base + decimal(v))
            && forall|j: int| k <= j < v ==> is_taken(existing, #[trigger] (base + decimal(j))),
        first_free_suffix(existing, base, k) is None ==> forall|j: int|
            k <= j <= 99 ==> is_taken(existing, #[trigger] (base + decimal(j))),
    decreases 100 - k,
{
    if k <= 99 && is_taken(existing, base + decimal(k)) {
        lemma_first_free_suffix_least(existing, base, k + 1);
    }
}

/// The username chosen for a person is the first free one of: the base; the base with
/// 1, 2, ... 99 after it, the smallest number that gives a free username; where all of
/// those are taken, the base with the random number if that is free, else the base with
/// the time.
pub proof fn lemma_chosen_username_is_first_free(
    base: Seq<char>,
    existing: Seq<String>,
    random_suffix: int,
    timestamp: int,
)
    ensures
        !is_taken(existing, base) ==> chosen_username(base, existing, random_suffix, timestamp) == base,
        forall|k: int|
            #![trigger decimal(k)]
            is_taken(existing, base) && 1 <= k <= 99 && !is_taken(existing, base + decimal(k)) && (forall|j: int|
                1 <= j < k ==> is_taken(existing, #[trigger] (base + decimal(j)))) ==> chosen_username(
                base,
                existing,
                random_suffix,
                timestamp,
            ) == base + decimal(k),
        is_taken(existing, base) && (forall|j: int| 1 <= j <= 99 ==> is_taken(existing, #[trigger] (base + decimal(j))))
            ==> chosen_username(base, existing, random_suffix, timestamp) == (if !is_taken(
            existing,
            base + decimal(random_suffix),
        ) {
            base + decimal(random_suffix)
        } else {
            base + decimal(timestamp)
        }),
{
    lemma_first_free_suffix_least(existing, base, 1);
    assert forall|k: int|
        #![trigger decimal(k)]
        is_taken(existing, base) && 1 <= k <= 99 && !is_taken(existing, base + decimal(k)) && (forall|j: int|
            1 <= j < k ==> is_taken(existing, #[trigger] (base + decimal(j)))) implies chosen_username(
        base,
        existing,
        random_suffix,
        timestamp,
    ) == base + decimal(k) by {
        match first_free_suffix(existing, base, 1) {
            Some(v) => {
                if v < k {
                    assert(is_taken(existing, base + decimal(v)));
                } else if v > k {
                    assert(is_taken(existing, base + decimal(k)));
                }
            },
            None => {
                assert(is_taken(existing, base + decimal(k)));
            },
        }
    }
    if is_taken(existing, base) && (forall|j: int| 1 <= j <= 99 ==> is_taken(existing, #[trigger] (base + decimal(j)))) {
        if let Some(v) = first_free_suffix(existing, base, 1) {
            assert(is_taken(existing, base + decimal(v)));
        }
    }
}

} // verus!
