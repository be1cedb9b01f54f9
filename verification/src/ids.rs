//! Identifiers: UUIDs in their hyphenated text form, and the splitting and joining of
//! hyphen-separated identifiers built on them.

use vstd::prelude::*;
use crate::error::{db_error, is_db_error, ApiError};
use crate::text::push_char;

verus! {

/// The lower-case hexadecimal digit for a value below sixteen.
pub open spec fn hex_char(d: nat) -> char {
    if d < 10 {
        crate::text::digit_char(d)
    } else if d == 10 {
        'a'
    } else if d == 11 {
        'b'
    } else if d == 12 {
        'c'
    } else if d == 13 {
        'd'
    } else if d == 14 {
        'e'
    } else {
        'f'
    }
}

/// The last `count` hexadecimal digits of `n`, zero-padded, most significant first.
pub open spec fn hex_digits(n: nat, count: nat) -> Seq<char>
    decreases count,
{
    if count == 0 {
        seq![]
    } else {
        hex_digits(n / 16, (count - 1) as nat).push(hex_char(n % 16))
    }
}

/// The hyphenated lower-case text of a UUID: its 32 hexadecimal digits in groups of
/// 8, 4, 4, 4 and 12, separated by hyphens.
pub open spec fn uuid_hyphenated(id: u128) -> Seq<char> {
    let h = hex_digits(id as nat, 32);
    h.subrange(0, 8) + seq!['-'] + h.subrange(8, 12) + seq!['-'] + h.subrange(12, 16) + seq!['-']
        + h.subrange(16, 20) + seq!['-'] + h.subrange(20, 32)
}

/// The UUID that `uuid::Uuid::from_str` reads from a text, as its 128-bit value, or
/// `None` where it refuses the text.
pub uninterp spec fn uuid_from_text(text: Seq<char>) -> Option<u128>;

/// Parses a UUID with `uuid::Uuid::from_str` and gives its 128-bit value
/// (`Uuid::as_u128`). The result is the named function of the text; nothing more is
/// claimed of which texts it accepts.
#[verifier::external_body]
pub(crate) fn parse_uuid(text: &str) -> (r: Option<u128>)
    ensures
        r == uuid_from_text(text@),
{
    match <uuid::Uuid as std::str::FromStr>::from_str(text) {
        Ok(u) => Some(u.as_u128()),
        Err(_) => None,
    }
}

/// Writes the UUID with the value `id` (`uuid::Uuid::from_u128`) as text with its
/// `Display`: the lower-case hyphenated form. The claim that this text parses back to
/// the same value rests on the crate's parser, which accepts exactly the 36-character
/// hyphenated form of hexadecimal digits that `Display` writes.
#[verifier::external_body]
pub(crate) fn uuid_to_text(id: u128) -> (s: String)
    ensures
        s@ == uuid_hyphenated(id),
        uuid_from_text(s@) == Some(id),
{
    uuid::Uuid::from_u128(id).to_string()
}

/// Parses a UUID given by a client; a text that is no UUID is a storage error.
pub fn uuid_from_str(id: &str) -> (r: Result<u128, ApiError>)
    ensures
        uuid_from_text(id@) matches Some(u) ==> (r matches Ok(v) && v == u),
        uuid_from_text(id@) is None ==> (r matches Err(e) && is_db_error(e, "Invalid UUID format"@)),
{
    match parse_uuid(id) {
        Some(u) => Ok(u),
        None => Err(db_error("Invalid UUID format")),
    }
}

/// The pieces of `s` between occurrences of `sep` (`str::split` on a character): always
/// at least one piece, empty pieces included.
pub open spec fn split_on(s: Seq<char>, sep: char) -> Seq<Seq<char>>
    decreases s.len(),
{
    if s.len() == 0 {
        seq![seq![]]
    } else {
        let prev = split_on(s.drop_last(), sep);
        if s.last() == sep {
            prev.push(seq![])
        } else {
            prev.update(prev.len() - 1, prev.last().push(s.last()))
        }
    }
}

/// The pieces joined with `sep` between consecutive ones (`[T]::join`).
pub open spec fn join_with(parts: Seq<Seq<char>>, sep: char) -> Seq<char>
    decreases parts.len(),
{
    if parts.len() == 0 {
        seq![]
    } else if parts.len() == 1 {
        parts[0]
    } else {
        join_with(parts.drop_last(), sep) + seq![sep] + parts.last()
    }
}

/// How often `c` occurs in `s`.
pub open spec fn count_char(s: Seq<char>, c: char) -> nat
    decreases s.len(),
{
    if s.len() == 0 {
        0
    } else {
        count_char(s.drop_last(), c) + if s.last() == c { 1nat } else { 0nat }
    }
}

/// Splitting gives one more piece than the text has separators.
pub proof fn lemma_split_on_nonempty(s: Seq<char>, sep: char)
    ensures
        split_on(s, sep).len() == count_char(s, sep) + 1,
    decreases s.len(),
{
    if s.len() > 0 {
        lemma_split_on_nonempty(s.drop_last(), sep);
    }
}

/// The pieces of a text split on a character, each as its own vector of characters.
pub(crate) fn split_chars(s: &str, sep: char) -> (parts: Vec<Vec<char>>)
    ensures
        parts@.len() == split_on(s@, sep).len(),
        forall|i: int| 0 <= i < parts@.len() ==> (#[trigger] parts@[i])@ == split_on(s@, sep)[i],
{
    let chars = crate::text::chars_of(s);
    let mut parts: Vec<Vec<char>> = Vec::new();
    parts.push(Vec::new());
    let mut i: usize = 0;
    proof {
        assert(chars@.subrange(0, 0) =~= Seq::<char>::empty());
        lemma_split_on_nonempty(chars@.subrange(0, 0), sep);
    }
    while i < chars.len()
        invariant
            chars@ == s@,
            i <= chars@.len(),
            parts@.len() == split_on(chars@.subrange(0, i as int), sep).len(),
            parts@.len() >= 1,
            forall|k: int|
                0 <= k < parts@.len() ==> (#[trigger] parts@[k])@ == split_on(
                    chars@.subrange(0, i as int),
                    sep,
                )[k],
        decreases chars.len() - i,
    {
        let c = chars[i];
        let ghost before = chars@.subrange(0, i as int);
        let ghost after = chars@.subrange(0, i + 1);
        assert(after.drop_last() =~= before);
        proof {
            lemma_split_on_nonempty(before, sep);
        }
        if c == sep {
            parts.push(Vec::new());
        } else {
            let mut cur = parts.pop().unwrap();
            cur.push(c);
            parts.push(cur);
            assert(parts@.len() == split_on(after, sep).len());
        }
        i = i + 1;
        assert forall|k: int| 0 <= k < parts@.len() implies (#[trigger] parts@[k])@ == split_on(
            chars@.subrange(0, i as int),
            sep,
        )[k] by {
            assert(chars@.subrange(0, i as int) == after);
        }
    }
    assert(chars@.subrange(0, chars@.len() as int) =~= s@);
    parts
}

/// The pieces from `from` on, joined with `sep`.
pub(crate) fn join_from(parts: &Vec<Vec<char>>, from: usize, sep: char) -> (s: String)
    requires
        from <= parts@.len(),
    ensures
        s@ == join_with(parts@.skip(from as int).map_values(|p: Vec<char>| p@), sep),
{
    let mut s = String::new();
    let mut i: usize = from;
    while i < parts.len()
        invariant
            from <= i <= parts@.len(),
            s@ == join_with(
                parts@.subrange(from as int, i as int).map_values(|p: Vec<char>| p@),
                sep,
            ),
        decreases parts.len() - i,
    {
        let ghost prev = parts@.subrange(from as int, i as int).map_values(|p: Vec<char>| p@);
        if i > from {
            push_char(&mut s, sep);
        }
        let part = &parts[i];
        let mut j: usize = 0;
        let ghost s0 = s@;
        while j < part.len()
            invariant
                j <= part@.len(),
                s@ == s0 + part@.subrange(0, j as int),
            decreases part.len() - j,
        {
            push_char(&mut s, part[j]);
            j = j + 1;
            assert(s@ =~= s0 + part@.subrange(0, j as int));
        }
        i = i + 1;
        let ghost next = parts@.subrange(from as int, i as int).map_values(|p: Vec<char>| p@);
        assert(next.drop_last() =~= prev);
        assert(part@.subrange(0, part@.len() as int) =~= part@);
        assert(s@ =~= join_with(next, sep));
    }
    assert(parts@.subrange(from as int, parts@.len() as int) =~= parts@.skip(from as int));
    s
}

/// Splitting a text made of two texts joined by the separator gives the pieces of the
/// first followed by the pieces of the second.
pub proof fn lemma_split_on_concat(a: Seq<char>, b: Seq<char>, sep: char)
    ensures
        split_on(a + seq![sep] + b, sep) == split_on(a, sep) + split_on(b, sep),
    decreases b.len(),
{
    let s = a + seq![sep] + b;
    if b.len() == 0 {
        assert(s.drop_last() =~= a);
        assert(split_on(b, sep) =~= seq![seq![]]);
        assert(split_on(s, sep) =~= split_on(a, sep) + split_on(b, sep));
    } else {
        let b0 = b.drop_last();
        lemma_split_on_concat(a, b0, sep);
        assert(s.drop_last() =~= a + seq![sep] + b0);
        assert(s.last() == b.last());
        lemma_split_on_nonempty(b0, sep);
        let x = split_on(a, sep);
        let y = split_on(b0, sep);
        if b.last() == sep {
            assert(split_on(s, sep) =~= x + split_on(b, sep));
        } else {
            assert((x + y).last() == y.last());
            assert((x + y).update((x + y).len() - 1, y.last().push(b.last())) =~= x + y.update(
                y.len() - 1,
                y.last().push(b.last()),
            ));
            assert(split_on(s, sep) =~= x + split_on(b, sep));
        }
    }
}

/// Joining the pieces of a text with the separator gives the text back.
pub proof fn lemma_join_split(s: Seq<char>, sep: char)
    ensures
        join_with(split_on(s, sep), sep) == s,
    decreases s.len(),
{
    if s.len() > 0 {
        let s0 = s.drop_last();
        lemma_join_split(s0, sep);
        lemma_split_on_nonempty(s0, sep);
        let p = split_on(s0, sep);
        if s.last() == sep {
            assert(p.push(seq![]).drop_last() =~= p);
            assert(join_with(split_on(s, sep), sep) =~= s);
        } else {
            let q = p.update(p.len() - 1, p.last().push(s.last()));
            if p.len() == 1 {
                assert(join_with(q, sep) =~= s);
            } else {
                assert(q.drop_last() =~= p.drop_last());
                assert(q.last() == p.last().push(s.last()));
                assert(join_with(p, sep) == join_with(p.drop_last(), sep) + seq![sep] + p.last());
                assert(join_with(q, sep) == join_with(p.drop_last(), sep) + seq![sep] + q.last());
                assert(s =~= s0.push(s.last()));
                assert(join_with(q, sep) =~= s);
            }
        }
    }
}

/// Occurrences in two joined texts add up.
pub proof fn lemma_count_char_concat(a: Seq<char>, b: Seq<char>, c: char)
    ensures
        count_char(a + b, c) == count_char(a, c) + count_char(b, c),
    decreases b.len(),
{
    if b.len() > 0 {
        lemma_count_char_concat(a, b.drop_last(), c);
        assert((a + b).drop_last() =~= a + b.drop_last());
    } else {
        assert(a + b =~= a);
    }
}

/// A text without the character has no occurrence of it.
pub proof fn lemma_count_char_absent(s: Seq<char>, c: char)
    requires
        forall|i: int| 0 <= i < s.len() ==> s[i] != c,
    ensures
        count_char(s, c) == 0,
    decreases s.len(),
{
    if s.len() > 0 {
        lemma_count_char_absent(s.drop_last(), c);
    }
}

/// Hexadecimal digits hold no hyphen.
pub proof fn lemma_hex_digits_no_hyphen(n: nat, count: nat)
    ensures
        hex_digits(n, count).len() == count,
        forall|i: int| 0 <= i < count ==> hex_digits(n, count)[i] != '-',
    decreases count,
{
    if count > 0 {
        lemma_hex_digits_no_hyphen(n / 16, (count - 1) as nat);
    }
}

/// The hyphenated text of a UUID splits on hyphens into its five groups.
pub proof fn lemma_uuid_hyphen_count(id: u128)
    ensures
        count_char(uuid_hyphenated(id), '-') == 4,
        split_on(uuid_hyphenated(id), '-').len() == 5,
{
    let h = hex_digits(id as nat, 32);
    lemma_hex_digits_no_hyphen(id as nat, 32);
    let g0 = h.subrange(0, 8);
    let g1 = h.subrange(8, 12);
    let g2 = h.subrange(12, 16);
    let g3 = h.subrange(16, 20);
    let g4 = h.subrange(20, 32);
    lemma_count_char_absent(g0, '-');
    lemma_count_char_absent(g1, '-');
    lemma_count_char_absent(g2, '-');
    lemma_count_char_absent(g3, '-');
    lemma_count_char_absent(g4, '-');
    let d = seq!['-'];
    assert(count_char(d, '-') == 1) by {
        assert(d.drop_last() =~= Seq::<char>::empty());
        assert(count_char(Seq::<char>::empty(), '-') == 0);
        assert(d.last() == '-');
    }
    lemma_count_char_concat(g0, d, '-');
    lemma_count_char_concat(g0 + d, g1, '-');
    lemma_count_char_concat(g0 + d + g1, d, '-');
    lemma_count_char_concat(g0 + d + g1 + d, g2, '-');
    lemma_count_char_concat(g0 + d + g1 + d + g2, d, '-');
    lemma_count_char_concat(g0 + d + g1 + d + g2 + d, g3, '-');
    lemma_count_char_concat(g0 + d + g1 + d + g2 + d + g3, d, '-');
    lemma_count_char_concat(g0 + d + g1 + d + g2 + d + g3 + d, g4, '-');
    lemma_split_on_nonempty(uuid_hyphenated(id), '-');
}

/// The bidder whose UUID a chat number carries: the pieces of the chat number after its
/// third hyphen, read as a UUID; `None` where it has fewer than four hyphens or those
/// pieces are no UUID.
pub open spec fn chat_number_bidder(chat_number: Seq<char>) -> Option<u128> {
    let parts = split_on(chat_number, '-');
    if parts.len() >= 5 {
        uuid_from_text(join_with(parts.skip(3), '-'))
    } else {
        None
    }
}

/// The chat number of a bounty (given by its nerd id) and a bidder: the nerd id, a
/// hyphen, and the bidder's UUID.
pub open spec fn chat_number_of(nerd_id: Seq<char>, bidder_id: u128) -> Seq<char> {
    nerd_id + seq!['-'] + uuid_hyphenated(bidder_id)
}

/// A chat number made from a nerd id with exactly two hyphens (such as `BT-2024-1234`)
/// carries the bidder back.
pub proof fn lemma_chat_number_bidder(nerd_id: Seq<char>, bidder_id: u128)
    requires
        count_char(nerd_id, '-') == 2,
        uuid_from_text(uuid_hyphenated(bidder_id)) == Some(bidder_id),
    ensures
        chat_number_bidder(chat_number_of(nerd_id, bidder_id)) == Some(bidder_id),
{
    let u = uuid_hyphenated(bidder_id);
    lemma_split_on_concat(nerd_id, u, '-');
    lemma_split_on_nonempty(nerd_id, '-');
    lemma_uuid_hyphen_count(bidder_id);
    let parts = split_on(chat_number_of(nerd_id, bidder_id), '-');
    assert(parts.skip(3) =~= split_on(u, '-'));
    lemma_join_split(u, '-');
}

} // verus!
