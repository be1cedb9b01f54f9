//! Listing queries: SQL text with numbered placeholders, and the values bound to them.
//!
//! A listing is a `SELECT` followed by optional joins, optional `WHERE` conditions,
//! an ordering, and a page given by `LIMIT $1 OFFSET $2`. Every other value is bound
//! to the next free placeholder number, in the order in which the conditions are
//! decided.

use vstd::prelude::*;
use crate::ids::{count_char, lemma_count_char_absent, lemma_count_char_concat};
use crate::text::{append_digits, append_str, decimal, digits, lemma_digits_are_digits, push_char};

verus! {

/// A value bound to a placeholder, as the database receives it.
pub enum SqlValue {
    Int(i32),
    SmallInt(i16),
    Text(Seq<char>),
    Id(u128),
}

/// A value bound to a placeholder of a query.
#[derive(Debug, Clone)]
pub enum SqlParam {
    Int(i32),
    SmallInt(i16),
    Text(String),
    Id(u128),
}

impl View for SqlParam {
    type V = SqlValue;

    open spec fn view(&self) -> SqlValue {
        match self {
            SqlParam::Int(v) => SqlValue::Int(*v),
            SqlParam::SmallInt(v) => SqlValue::SmallInt(*v),
            SqlParam::Text(s) => SqlValue::Text(s@),
            SqlParam::Id(v) => SqlValue::Id(*v),
        }
    }
}

/// One decided condition of a listing: a fixed condition, a condition with a bound
/// value between two fixed texts, or a join with a bound value between two fixed texts.
pub enum ClauseSpec {
    Where(Seq<char>),
    WhereBound(Seq<char>, Seq<char>, SqlValue),
    JoinBound(Seq<char>, Seq<char>, SqlValue),
}

/// One decided condition of a listing.
#[derive(Debug, Clone)]
pub enum Clause {
    Where(String),
    WhereBound(String, String, SqlParam),
    JoinBound(String, String, SqlParam),
}

impl View for Clause {
    type V = ClauseSpec;

    open spec fn view(&self) -> ClauseSpec {
        match self {
            Clause::Where(t) => ClauseSpec::Where(t@),
            Clause::WhereBound(b, a, p) => ClauseSpec::WhereBound(b@, a@, p@),
            Clause::JoinBound(b, a, p) => ClauseSpec::JoinBound(b@, a@, p@),
        }
    }
}

/// A query and the values bound to its placeholders, the first to `$1`.
#[derive(Debug, Clone)]
pub struct SqlQuery {
    pub sql: String,
    pub params: Vec<SqlParam>,
}

/// The values of bound parameters.
pub open spec fn values_of(params: Seq<SqlParam>) -> Seq<SqlValue> {
    params.map_values(|p: SqlParam| p@)
}

/// The decided conditions as specified.
pub open spec fn clause_views(clauses: Seq<Clause>) -> Seq<ClauseSpec> {
    clauses.map_values(|c: Clause| c@)
}

/// The texts of strings.
pub open spec fn texts_of(texts: Seq<String>) -> Seq<Seq<char>> {
    texts.map_values(|t: String| t@)
}

/// The placeholder with the given number, such as `$3`.
pub open spec fn placeholder(n: int) -> Seq<char> {
    seq!['$'] + decimal(n)
}

/// What the decided conditions add to a listing.
pub struct Rendered {
    /// The joins, in order.
    pub joins: Seq<char>,
    /// The conditions of the `WHERE` part, in order.
    pub filters: Seq<Seq<char>>,
    /// The bound values: the page size and offset first, then one per bound condition.
    pub values: Seq<SqlValue>,
}

/// The conditions placed in a listing, each bound value taking the next placeholder.
pub open spec fn render_clauses(clauses: Seq<ClauseSpec>, limit: i32, offset: i32) -> Rendered
    decreases clauses.len(),
{
    if clauses.len() == 0 {
        Rendered {
            joins: Seq::empty(),
            filters: Seq::empty(),
            values: seq![SqlValue::Int(limit), SqlValue::Int(offset)],
        }
    } else {
        let r = render_clauses(clauses.drop_last(), limit, offset);
        let n: int = r.values.len() as int + 1;
        match clauses.last() {
            ClauseSpec::Where(t) => Rendered { joins: r.joins, filters: r.filters.push(t), values: r.values },
            ClauseSpec::WhereBound(b, a, v) => Rendered {
                joins: r.joins,
                filters: r.filters.push(b + placeholder(n) + a),
                values: r.values.push(v),
            },
            ClauseSpec::JoinBound(b, a, v) => Rendered {
                joins: r.joins + b + placeholder(n) + a,
                filters: r.filters,
                values: r.values.push(v),
            },
        }
    }
}

/// The texts joined by the separator.
pub open spec fn join_texts(parts: Seq<Seq<char>>, sep: Seq<char>) -> Seq<char>
    decreases parts.len(),
{
    if parts.len() == 0 {
        Seq::empty()
    } else if parts.len() == 1 {
        parts[0]
    } else {
        join_texts(parts.drop_last(), sep) + sep + parts.last()
    }
}

/// The `WHERE` part of a listing: empty without conditions.
pub open spec fn where_part(filters: Seq<Seq<char>>) -> Seq<char> {
    if filters.len() == 0 {
        Seq::empty()
    } else {
        " WHERE "@ + join_texts(filters, " AND "@)
    }
}

/// The SQL text of a listing: the select, the joins, the conditions, the ordering and
/// the page.
pub open spec fn listing_sql(select: Seq<char>, r: Rendered, order: Seq<char>) -> Seq<char> {
    select + r.joins + where_part(r.filters) + order + " LIMIT "@ + placeholder(1) + " OFFSET "@
        + placeholder(2)
}

fn copy_param(p: &SqlParam) -> (c: SqlParam)
    ensures
        c@ == p@,
{
    match p {
        SqlParam::Int(v) => SqlParam::Int(*v),
        SqlParam::SmallInt(v) => SqlParam::SmallInt(*v),
        SqlParam::Text(s) => SqlParam::Text(s.clone()),
        SqlParam::Id(v) => SqlParam::Id(*v),
    }
}

fn append_placeholder(s: &mut String, n: u64)
    ensures
        final(s)@ == old(s)@ + placeholder(n as int),
{
    push_char(s, '$');
    append_digits(s, n);
    assert(final(s)@ =~= old(s)@ + placeholder(n as int));
}

/// Builds a listing from its select, its decided conditions and its ordering, with the
/// page size and offset bound to `$1` and `$2`.
pub fn render_listing(select: &str, clauses: &Vec<Clause>, order: &str, limit: i32, offset: i32) -> (q: SqlQuery)
    requires
        clauses@.len() + 3 <= usize::MAX,
    ensures
        values_of(q.params@) == render_clauses(clause_views(clauses@), limit, offset).values,
        q.sql@ == listing_sql(select@, render_clauses(clause_views(clauses@), limit, offset), order@),
{
    let ghost cv = clause_views(clauses@);
    let mut joins = String::new();
    let mut filters: Vec<String> = Vec::new();
    let mut params: Vec<SqlParam> = Vec::new();
    params.push(SqlParam::Int(limit));
    params.push(SqlParam::Int(offset));
    proof {
        assert(cv.take(0) =~= Seq::<ClauseSpec>::empty());
        assert(values_of(params@) =~= render_clauses(cv.take(0), limit, offset).values);
        assert(texts_of(filters@) =~= render_clauses(cv.take(0), limit, offset).filters);
    }
    let mut i: usize = 0;
    while i < clauses.len()
        invariant
            cv == clause_views(clauses@),
            clauses@.len() + 3 <= usize::MAX,
            i <= clauses@.len(),
            2 <= params@.len() <= i + 2,
            joins@ == render_clauses(cv.take(i as int), limit, offset).joins,
            texts_of(filters@) == render_clauses(cv.take(i as int), limit, offset).filters,
            values_of(params@) == render_clauses(cv.take(i as int), limit, offset).values,
        decreases clauses.len() - i,
    {
        let ghost r = render_clauses(cv.take(i as int), limit, offset);
        proof {
            assert(cv.take(i + 1).drop_last() =~= cv.take(i as int));
            assert(cv.take(i + 1).last() == clauses@[i as int]@);
            assert(r.values.len() == params@.len());
        }
        let n: u64 = params.len() as u64 + 1;
        match &clauses[i] {
            Clause::Where(t) => {
                filters.push(t.clone());
                proof {
                    assert(texts_of(filters@) =~= r.filters.push(t@));
                }
            },
            Clause::WhereBound(b, a, p) => {
                let mut f = b.clone();
                append_placeholder(&mut f, n);
                append_str(&mut f, a.as_str());
                filters.push(f);
                params.push(copy_param(p));
                proof {
                    assert(texts_of(filters@) =~= r.filters.push(b@ + placeholder(n as int) + a@));
                    assert(values_of(params@) =~= r.values.push(p@));
                }
            },
            Clause::JoinBound(b, a, p) => {
                append_str(&mut joins, b.as_str());
                append_placeholder(&mut joins, n);
                append_str(&mut joins, a.as_str());
                params.push(copy_param(p));
                proof {
                    assert(joins@ =~= r.joins + b@ + placeholder(n as int) + a@);
                    assert(values_of(params@) =~= r.values.push(p@));
                }
            },
        }
        i = i + 1;
    }
    proof {
        assert(cv.take(clauses@.len() as int) =~= cv);
    }
    let ghost r = render_clauses(cv, limit, offset);
    let mut sql = String::from_str(select);
    append_str(&mut sql, joins.as_str());
    let ghost head = sql@;
    if filters.len() > 0 {
        append_str(&mut sql, " WHERE ");
        let ghost start = sql@;
        let mut k: usize = 0;
        while k < filters.len()
            invariant
                texts_of(filters@) == r.filters,
                k <= filters@.len(),
                sql@ == start + join_texts(r.filters.take(k as int), " AND "@),
            decreases filters.len() - k,
        {
            proof {
                assert(r.filters.take(k + 1).drop_last() =~= r.filters.take(k as int));
                assert(r.filters.take(k + 1).last() == filters@[k as int]@);
            }
            if k > 0 {
                append_str(&mut sql, " AND ");
            }
            append_str(&mut sql, filters[k].as_str());
            proof {
                if k == 0 {
                    assert(r.filters.take(1)[0] == filters@[0]@);
                    assert(sql@ =~= start + join_texts(r.filters.take(1), " AND "@));
                } else {
                    assert(sql@ =~= start + join_texts(r.filters.take(k + 1), " AND "@));
                }
            }
            k = k + 1;
        }
        proof {
            assert(r.filters.take(filters@.len() as int) =~= r.filters);
        }
    }
    assert(sql@ =~= select@ + r.joins + where_part(r.filters));
    append_str(&mut sql, order);
    append_str(&mut sql, " LIMIT ");
    append_placeholder(&mut sql, 1);
    append_str(&mut sql, " OFFSET ");
    append_placeholder(&mut sql, 2);
    assert(sql@ =~= listing_sql(select@, r, order@));
    SqlQuery { sql, params }
}

/// Whether a text holds no `$`, so that it holds no placeholder.
pub open spec fn no_dollar(t: Seq<char>) -> bool {
    count_char(t, '$') == 0
}

/// Whether the fixed texts of a condition hold no `$`.
pub open spec fn clause_is_plain(c: ClauseSpec) -> bool {
    match c {
        ClauseSpec::Where(t) => no_dollar(t),
        ClauseSpec::WhereBound(b, a, _) => no_dollar(b) && no_dollar(a),
        ClauseSpec::JoinBound(b, a, _) => no_dollar(b) && no_dollar(a),
    }
}

/// The number of `$` in all the texts together.
pub open spec fn dollars_in(texts: Seq<Seq<char>>) -> nat
    decreases texts.len(),
{
    if texts.len() == 0 {
        0
    } else {
        dollars_in(texts.drop_last()) + count_char(texts.last(), '$')
    }
}

/// A text none of whose characters is `$` holds no placeholder.
pub proof fn lemma_literal_plain(t: &str)
    requires
        forall|i: int| 0 <= i < t@.len() ==> t@[i] != '$',
    ensures
        no_dollar(t@),
{
    lemma_count_char_absent(t@, '$');
}

proof fn lemma_placeholder_dollars(n: int)
    requires
        n >= 0,
    ensures
        count_char(placeholder(n), '$') == 1,
{
    lemma_digits_are_digits(n as nat);
    lemma_count_char_absent(digits(n as nat), '$');
    let d = seq!['$'];
    assert(d.drop_last() =~= Seq::<char>::empty());
    assert(count_char(Seq::<char>::empty(), '$') == 0);
    assert(count_char(d, '$') == 1);
    assert(decimal(n) == digits(n as nat));
    lemma_count_char_concat(d, digits(n as nat), '$');
}

proof fn lemma_join_texts_dollars(parts: Seq<Seq<char>>, sep: Seq<char>)
    requires
        no_dollar(sep),
    ensures
        count_char(join_texts(parts, sep), '$') == dollars_in(parts),
    decreases parts.len(),
{
    if parts.len() == 0 {
        assert(count_char(Seq::<char>::empty(), '$') == 0);
    } else if parts.len() == 1 {
        assert(parts.drop_last() =~= Seq::<Seq<char>>::empty());
        assert(dollars_in(parts.drop_last()) == 0);
    } else {
        lemma_join_texts_dollars(parts.drop_last(), sep);
        let head = join_texts(parts.drop_last(), sep);
        lemma_count_char_concat(head, sep, '$');
        lemma_count_char_concat(head + sep, parts.last(), '$');
    }
}

proof fn lemma_render_dollars(clauses: Seq<ClauseSpec>, limit: i32, offset: i32)
    requires
        forall|i: int| 0 <= i < clauses.len() ==> clause_is_plain(#[trigger] clauses[i]),
    ensures
        render_clauses(clauses, limit, offset).values.len() >= 2,
        count_char(render_clauses(clauses, limit, offset).joins, '$') + dollars_in(
            render_clauses(clauses, limit, offset).filters,
        ) + 2 == render_clauses(clauses, limit, offset).values.len(),
    decreases clauses.len(),
{
    if clauses.len() == 0 {
        assert(count_char(Seq::<char>::empty(), '$') == 0);
    } else {
        let front = clauses.drop_last();
        assert forall|i: int| 0 <= i < front.len() implies clause_is_plain(#[trigger] front[i]) by {
            assert(front[i] == clauses[i]);
        }
        lemma_render_dollars(front, limit, offset);
        let r = render_clauses(front, limit, offset);
        let n: int = r.values.len() as int + 1;
        assert(clause_is_plain(clauses[clauses.len() - 1]));
        match clauses.last() {
            ClauseSpec::Where(t) => {
                assert(r.filters.push(t).drop_last() =~= r.filters);
            },
            ClauseSpec::WhereBound(b, a, v) => {
                lemma_placeholder_dollars(n);
                lemma_count_char_concat(b, placeholder(n), '$');
                lemma_count_char_concat(b + placeholder(n), a, '$');
                assert(r.filters.push(b + placeholder(n) + a).drop_last() =~= r.filters);
            },
            ClauseSpec::JoinBound(b, a, v) => {
                lemma_placeholder_dollars(n);
                lemma_count_char_concat(r.joins, b, '$');
                lemma_count_char_concat(r.joins + b, placeholder(n), '$');
                lemma_count_char_concat(r.joins + b + placeholder(n), a, '$');
            },
        }
    }
}

/// All the conditions have plain fixed texts.
pub open spec fn all_plain(clauses: Seq<ClauseSpec>) -> bool {
    forall|i: int| 0 <= i < clauses.len() ==> clause_is_plain(#[trigger] clauses[i])
}

/// Joining plain conditions gives plain conditions.
pub proof fn lemma_all_plain_concat(a: Seq<ClauseSpec>, b: Seq<ClauseSpec>)
    requires
        all_plain(a),
        all_plain(b),
    ensures
        all_plain(a + b),
{
    assert forall|i: int| 0 <= i < (a + b).len() implies clause_is_plain(#[trigger] (a + b)[i]) by {
        if i < a.len() {
            assert((a + b)[i] == a[i]);
        } else {
            assert((a + b)[i] == b[i - a.len()]);
        }
    }
}

/// Texts without `$` stay so when joined.
pub proof fn lemma_no_dollar_concat(a: Seq<char>, b: Seq<char>)
    requires
        no_dollar(a),
        no_dollar(b),
    ensures
        no_dollar(a + b),
{
    lemma_count_char_concat(a, b, '$');
}

/// A decimal numeral holds no `$`.
pub proof fn lemma_decimal_plain(n: int)
    ensures
        no_dollar(decimal(n)),
{
    if n < 0 {
        lemma_digits_are_digits((-n) as nat);
        lemma_count_char_absent(digits((-n) as nat), '$');
        let m = seq!['-'];
        assert(m.drop_last() =~= Seq::<char>::empty());
        assert(count_char(Seq::<char>::empty(), '$') == 0);
        assert(count_char(m, '$') == 0);
        lemma_count_char_concat(m, digits((-n) as nat), '$');
    } else {
        lemma_digits_are_digits(n as nat);
        lemma_count_char_absent(digits(n as nat), '$');
    }
}

/// Every listing binds exactly one value for each placeholder in its text, provided
/// its fixed texts (the select, the ordering and those of its conditions) hold no `$`.
pub proof fn lemma_listing_placeholders(
    select: Seq<char>,
    clauses: Seq<ClauseSpec>,
    order: Seq<char>,
    limit: i32,
    offset: i32,
)
    requires
        no_dollar(select),
        no_dollar(order),
        forall|i: int| 0 <= i < clauses.len() ==> clause_is_plain(#[trigger] clauses[i]),
    ensures
        count_char(listing_sql(select, render_clauses(clauses, limit, offset), order), '$')
            == render_clauses(clauses, limit, offset).values.len(),
{
    let r = render_clauses(clauses, limit, offset);
    lemma_render_dollars(clauses, limit, offset);
    reveal_strlit(" WHERE ");
    reveal_strlit(" AND ");
    reveal_strlit(" LIMIT ");
    reveal_strlit(" OFFSET ");
    lemma_literal_plain(" WHERE ");
    lemma_literal_plain(" AND ");
    lemma_literal_plain(" LIMIT ");
    lemma_literal_plain(" OFFSET ");
    lemma_placeholder_dollars(1);
    lemma_placeholder_dollars(2);
    if r.filters.len() > 0 {
        lemma_join_texts_dollars(r.filters, " AND "@);
        lemma_count_char_concat(" WHERE "@, join_texts(r.filters, " AND "@), '$');
    } else {
        assert(count_char(Seq::<char>::empty(), '$') == 0);
    }
    let w = where_part(r.filters);
    lemma_count_char_concat(select, r.joins, '$');
    lemma_count_char_concat(select + r.joins, w, '$');
    lemma_count_char_concat(select + r.joins + w, order, '$');
    lemma_count_char_concat(select + r.joins + w + order, " LIMIT "@, '$');
    lemma_count_char_concat(select + r.joins + w + order + " LIMIT "@, placeholder(1), '$');
    lemma_count_char_concat(
        select + r.joins + w + order + " LIMIT "@ + placeholder(1),
        " OFFSET "@,
        '$',
    );
    lemma_count_char_concat(
        select + r.joins + w + order + " LIMIT "@ + placeholder(1) + " OFFSET "@,
        placeholder(2),
        '$',
    );
}

} // verus!
