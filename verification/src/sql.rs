//! The list queries of the repositories: `WHERE` clauses with numbered
//! placeholders, the values bound to them in order, and the paged `SELECT`s.

use vstd::prelude::*;
use crate::text::string_views;
use crate::text::{chars_of, decimal, push_char, push_decimal, str_eq};
use crate::validation::join;

verus! {

broadcast use vstd::string::group_string_axioms;

/// One condition of a `WHERE` clause. Each `$` in `text` stands for the
/// placeholder of `value`, when the condition binds one.
#[derive(Debug, Clone)]
pub struct Condition {
    pub text: &'static str,
    pub value: Option<String>,
}

pub open spec fn condition_view(c: Condition) -> (Seq<char>, Option<Seq<char>>) {
    (c.text@, match c.value { Some(v) => Some(v@), None => None })
}

pub open spec fn conditions_view(v: Seq<Condition>) -> Seq<(Seq<char>, Option<Seq<char>>)> {
    v.map_values(|c: Condition| condition_view(c))
}

/// `text` with each `$` replaced by the placeholder `?n`.
pub open spec fn fill_placeholder(text: Seq<char>, n: nat) -> Seq<char>
    decreases text.len(),
{
    if text.len() == 0 {
        Seq::empty()
    } else {
        fill_placeholder(text.drop_last(), n) + if text.last() == '$' {
            seq!['?'] + decimal(n)
        } else {
            seq![text.last()]
        }
    }
}

/// The values the conditions bind, in order.
pub open spec fn bound_values(conds: Seq<(Seq<char>, Option<Seq<char>>)>) -> Seq<Seq<char>>
    decreases conds.len(),
{
    if conds.len() == 0 {
        Seq::empty()
    } else {
        bound_values(conds.drop_last()) + match conds.last().1 {
            Some(v) => seq![v],
            None => Seq::empty(),
        }
    }
}

proof fn lemma_bound_values_len(conds: Seq<(Seq<char>, Option<Seq<char>>)>)
    ensures
        bound_values(conds).len() <= conds.len(),
    decreases conds.len(),
{
    if conds.len() > 0 {
        lemma_bound_values_len(conds.drop_last());
    }
}

/// The conditions' texts, each binding condition numbered after those
/// before it (from `?1`).
pub open spec fn rendered(conds: Seq<(Seq<char>, Option<Seq<char>>)>) -> Seq<Seq<char>>
    decreases conds.len(),
{
    if conds.len() == 0 {
        Seq::empty()
    } else {
        let before = conds.drop_last();
        rendered(before).push(
            if conds.last().1 is Some {
                fill_placeholder(conds.last().0, bound_values(before).len() + 1)
            } else {
                conds.last().0
            },
        )
    }
}

/// The conditions joined with ` AND `, or `1=1` when there are none.
pub open spec fn where_text(conds: Seq<(Seq<char>, Option<Seq<char>>)>) -> Seq<char> {
    if conds.len() == 0 { "1=1"@ } else { join(rendered(conds), " AND "@) }
}

/// A `WHERE` clause and the values for its placeholders.
#[derive(Debug, Clone)]
pub struct WhereClause {
    pub clause: String,
    pub binds: Vec<String>,
}

fn push_filled(r: &mut String, text: &str, n: u64)
    ensures
        final(r)@ == old(r)@ + fill_placeholder(text@, n as nat),
{
    let chars = chars_of(text);
    let ghost start = r@;
    let mut i: usize = 0;
    while i < chars.len()
        invariant
            chars@ == text@,
            0 <= i <= chars@.len(),
            r@ == start + fill_placeholder(chars@.subrange(0, i as int), n as nat),
        decreases chars.len() - i,
    {
        let ghost pre = chars@.subrange(0, i as int);
        let ghost next = chars@.subrange(0, i + 1);
        assert(next.drop_last() =~= pre);
        if chars[i] == '$' {
            push_char(r, '?');
            push_decimal(r, n);
        } else {
            push_char(r, chars[i]);
        }
        assert(r@ =~= start + fill_placeholder(next, n as nat));
        i = i + 1;
    }
    assert(chars@.subrange(0, chars@.len() as int) =~= chars@);
}

/// The conditions' texts joined with `sep`, and the values they bind.
pub fn join_conditions(conds: &Vec<Condition>, sep: &str) -> (r: WhereClause)
    requires
        conds@.len() < u64::MAX,
    ensures
        r.clause@ == join(rendered(conditions_view(conds@)), sep@),
        string_views(r.binds@) == bound_values(conditions_view(conds@)),
{
    let ghost cv = conditions_view(conds@);
    let mut clause = String::new();
    let mut binds: Vec<String> = Vec::new();
    let mut i: usize = 0;
    while i < conds.len()
        invariant
            cv == conditions_view(conds@),
            conds@.len() < u64::MAX,
            0 <= i <= conds@.len(),
            clause@ == join(rendered(cv.subrange(0, i as int)), sep@),
            string_views(binds@) == bound_values(cv.subrange(0, i as int)),
            binds@.len() <= i,
        decreases conds.len() - i,
    {
        let ghost pre = cv.subrange(0, i as int);
        let ghost next = cv.subrange(0, i + 1);
        assert(next.drop_last() =~= pre);
        assert(next.last() == condition_view(conds@[i as int]));
        if i > 0 {
            clause.append(sep);
        }
        let c = &conds[i];
        match &c.value {
            Some(v) => {
                let n: u64 = binds.len() as u64 + 1;
                push_filled(&mut clause, c.text, n);
                binds.push(v.clone());
                assert(string_views(binds@) =~= bound_values(pre) + seq![v@]);
            },
            None => {
                clause.append(c.text);
                assert(string_views(binds@) =~= bound_values(pre) + Seq::<Seq<char>>::empty());
            },
        }
        proof {
            assert(rendered(next).drop_last() == rendered(pre));
            if i > 0 {
                assert(rendered(next).len() > 1);
            } else {
                assert(rendered(next).len() == 1);
            }
            assert(clause@ =~= join(rendered(next), sep@));
        }
        i = i + 1;
    }
    assert(cv.subrange(0, conds@.len() as int) =~= cv);
    WhereClause { clause, binds }
}

/// Builds the `WHERE` clause of `conds`.
pub fn build_where(conds: &Vec<Condition>) -> (r: WhereClause)
    requires
        conds@.len() < u64::MAX,
    ensures
        r.clause@ == where_text(conditions_view(conds@)),
        string_views(r.binds@) == bound_values(conditions_view(conds@)),
{
    let w = join_conditions(conds, " AND ");
    if conds.len() == 0 {
        WhereClause { clause: "1=1".to_string(), binds: w.binds }
    } else {
        w
    }
}

/// An `UPDATE` of one row by id: the statement, and the values of its
/// placeholders before the id's, which comes last.
#[derive(Debug, Clone)]
pub struct UpdateStatement {
    pub sql: String,
    pub binds: Vec<String>,
}

/// `UPDATE <table> SET <assignments>[, updated_at = now] WHERE id = ?<n+1>`,
/// the `n` assignments numbered from `?1`.
pub open spec fn update_text(table: Seq<char>, sets: Seq<(Seq<char>, Option<Seq<char>>)>, touch_updated_at: bool) -> Seq<char> {
    "UPDATE "@ + table + " SET "@ + join(rendered(sets), ", "@)
        + (if touch_updated_at { ", updated_at = strftime('%Y-%m-%dT%H:%M:%SZ','now')"@ } else { Seq::empty() })
        + " WHERE id = ?"@ + decimal(bound_values(sets).len() + 1)
}

/// The update setting `sets` on a row of `table`, or `None` when there is
/// nothing to set.
pub fn update_statement(table: &str, sets: &Vec<Condition>, touch_updated_at: bool) -> (r: Option<UpdateStatement>)
    requires
        sets@.len() < u64::MAX - 1,
    ensures
        sets@.len() == 0 ==> r is None,
        sets@.len() > 0 ==> (r matches Some(u)
            && u.sql@ == update_text(table@, conditions_view(sets@), touch_updated_at)
            && string_views(u.binds@) == bound_values(conditions_view(sets@))),
{
    if sets.len() == 0 {
        return None;
    }
    let w = join_conditions(sets, ", ");
    let mut sql = "UPDATE ".to_string();
    sql.append(table);
    sql.append(" SET ");
    sql.append(w.clause.as_str());
    if touch_updated_at {
        sql.append(", updated_at = strftime('%Y-%m-%dT%H:%M:%SZ','now')");
    }
    sql.append(" WHERE id = ?");
    proof {
        lemma_bound_values_len(conditions_view(sets@));
        assert(string_views(w.binds@).len() == w.binds@.len());
    }
    push_decimal(&mut sql, w.binds.len() as u64 + 1);
    proof {
        assert(sql@ =~= update_text(table@, conditions_view(sets@), touch_updated_at));
    }
    Some(UpdateStatement { sql, binds: w.binds })
}

/// The row count and the requested page of a filtered list.
#[derive(Debug, Clone)]
pub struct PagedQuery {
    /// `count_prefix` and the `WHERE` clause.
    pub count_sql: String,
    /// `list_prefix`, the `WHERE` clause, the ordering, and `LIMIT` and
    /// `OFFSET` placeholders after the filter values.
    pub list_sql: String,
    pub binds: Vec<String>,
    pub limit: u32,
    pub offset: u32,
}

/// Rows skipped before page `page` (pages count from 1; page 0 is page 1).
pub open spec fn offset_of(page: u32, limit: u32) -> int {
    (if page >= 1 { page - 1 } else { 0 }) * limit
}

pub open spec fn paged_list_text(list_prefix: Seq<char>, order: Seq<char>, conds: Seq<(Seq<char>, Option<Seq<char>>)>) -> Seq<char> {
    let n = bound_values(conds).len();
    list_prefix + where_text(conds) + order + " LIMIT ?"@ + decimal(n + 1) + " OFFSET ?"@ + decimal(n + 2)
}

/// The count and page statements of a filtered list.
pub fn paged_query(
    count_prefix: &str,
    list_prefix: &str,
    order: &str,
    conds: &Vec<Condition>,
    page: u32,
    limit: u32,
) -> (r: PagedQuery)
    requires
        conds@.len() < u64::MAX - 2,
        offset_of(page, limit) <= u32::MAX,
    ensures
        r.count_sql@ == count_prefix@ + where_text(conditions_view(conds@)),
        r.list_sql@ == paged_list_text(list_prefix@, order@, conditions_view(conds@)),
        string_views(r.binds@) == bound_values(conditions_view(conds@)),
        r.limit == limit,
        r.offset == offset_of(page, limit),
{
    let w = build_where(conds);
    let mut count_sql = count_prefix.to_string();
    count_sql.append(w.clause.as_str());
    let mut list_sql = list_prefix.to_string();
    list_sql.append(w.clause.as_str());
    list_sql.append(order);
    list_sql.append(" LIMIT ?");
    proof {
        assert(w.binds@.len() == bound_values(conditions_view(conds@)).len()) by {
            assert(string_views(w.binds@).len() == w.binds@.len());
        }
    }
    proof {
        lemma_bound_values_len(conditions_view(conds@));
    }
    let n = w.binds.len() as u64;
    push_decimal(&mut list_sql, n + 1);
    list_sql.append(" OFFSET ?");
    push_decimal(&mut list_sql, n + 2);
    let skipped: u32 = if page >= 1 { page - 1 } else { 0 };
    proof {
        assert(skipped * limit == offset_of(page, limit));
    }
    let offset = skipped * limit;
    PagedQuery { count_sql, list_sql, binds: w.binds, limit, offset }
}

} // verus!
