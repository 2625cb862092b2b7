//! Properties that hold across the functions of the library.
use vstd::prelude::*;
use crate::attributes::{bool_attribute, AttributeValue};
use crate::builder::{
    delete_sql, insert_sql, select_count_sql, select_sql, update_sql, DeleteQueryView,
    InsertQueryView, SelectCountQueryView, SelectQueryView, UpdateQueryView,
};
use crate::user_repo::page_query;
use crate::user_table::{SELECT_USERS, SELECT_USERS_PAGING};
use crate::criteria::{
    offset, rebound_all, rendered_all, total_arity, where_clause,
    SqlCriteria, SqlCriterion,
};
use crate::text::{decimal, digit_char, join, lemma_join_push, placeholder};

verus! {

/// Distinct numbers are written differently: no two parameters share a
/// placeholder.
pub proof fn lemma_decimal_injective(a: nat, b: nat)
    requires
        decimal(a) == decimal(b),
    ensures
        a == b,
    decreases a,
{
    if a >= 10 {
        assert(decimal(a).len() >= 2) by {
            lemma_decimal_nonempty((a / 10) as nat);
        }
    }
    if b >= 10 {
        assert(decimal(b).len() >= 2) by {
            lemma_decimal_nonempty((b / 10) as nat);
        }
    }
    if a < 10 && b < 10 {
        assert(decimal(a)[0] == digit_char(a));
        assert(decimal(b)[0] == digit_char(b));
    } else if a >= 10 && b >= 10 {
        assert(decimal(a).drop_last() =~= decimal((a / 10) as nat));
        assert(decimal(b).drop_last() =~= decimal((b / 10) as nat));
        lemma_decimal_injective((a / 10) as nat, (b / 10) as nat);
        assert(decimal(a).last() == digit_char(a % 10));
        assert(decimal(b).last() == digit_char(b % 10));
    }
}

/// Every number has at least one digit.
pub proof fn lemma_decimal_nonempty(n: nat)
    ensures
        decimal(n).len() >= 1,
    decreases n,
{
    if n >= 10 {
        lemma_decimal_nonempty((n / 10) as nat);
    }
}

/// Distinct parameters get distinct placeholders.
pub proof fn lemma_placeholder_injective(a: nat, b: nat)
    requires
        placeholder(a) == placeholder(b),
    ensures
        a == b,
{
    assert(placeholder(a).drop_first() =~= decimal(a));
    assert(placeholder(b).drop_first() =~= decimal(b));
    lemma_decimal_injective(a, b);
}

/// After a condition was rendered from `index`, the next free placeholder is
/// `index` plus what it takes, and rendering it again from the same index
/// gives the same text.
pub proof fn lemma_clause_then_current_index(c: SqlCriterion, index: nat)
    requires
        index <= usize::MAX,
    ensures
        c.rebound(index).bound_index() == index,
        c.rebound(index).arity() == c.arity(),
        c.rebound(index).rendered(index) == c.rendered(index),
{
}

/// Each condition's placeholders start right after those of the one before.
pub proof fn lemma_offsets_consecutive(cs: Seq<SqlCriterion>, start: nat, k: int)
    requires
        0 <= k < cs.len(),
    ensures
        offset(cs, start, k + 1) == offset(cs, start, k) + cs[k].arity(),
        offset(cs, start, 0) == start,
{
    assert(cs.take(k + 1).drop_last() =~= cs.take(k));
    assert(cs.take(0) =~= Seq::<SqlCriterion>::empty());
}

proof fn lemma_total_arity_concat(a: Seq<SqlCriterion>, b: Seq<SqlCriterion>)
    ensures
        total_arity(a + b) == total_arity(a) + total_arity(b),
    decreases b.len(),
{
    if b.len() == 0 {
        assert(a + b =~= a);
    } else {
        assert((a + b).drop_last() =~= a + b.drop_last());
        lemma_total_arity_concat(a, b.drop_last());
    }
}

proof fn lemma_join_concat(x: Seq<Seq<char>>, y: Seq<Seq<char>>, sep: Seq<char>)
    requires
        x.len() > 0,
        y.len() > 0,
    ensures
        join(x + y, sep) == join(x, sep) + sep + join(y, sep),
    decreases y.len(),
{
    if y.len() == 1 {
        assert(x + y =~= x.push(y[0]));
        lemma_join_push(x, sep, y[0]);
    } else {
        assert(x + y =~= (x + y.drop_last()).push(y.last()));
        lemma_join_push(x + y.drop_last(), sep, y.last());
        lemma_join_concat(x, y.drop_last(), sep);
        assert(y =~= y.drop_last().push(y.last()));
        lemma_join_push(y.drop_last(), sep, y.last());
    }
}

/// Splitting the conditions of a WHERE clause in two: the first part keeps
/// its placeholders, the second continues the numbering where the first
/// stopped, and the clause is the two joined by `AND`.
pub proof fn lemma_where_clause_concat(a: Seq<SqlCriterion>, b: Seq<SqlCriterion>, start: nat)
    requires
        a.len() > 0,
        b.len() > 0,
    ensures
        where_clause(a + b, start) == where_clause(a, start) + " AND "@ + where_clause(
            b,
            start + total_arity(a),
        ),
        rebound_all(a + b, start) == rebound_all(a, start) + rebound_all(b, start + total_arity(a)),
{
    let ab = a + b;
    assert forall|k: int| 0 <= k < a.len() implies #[trigger] ab.take(k) == a.take(k) by {
        assert(ab.take(k) =~= a.take(k));
    }
    assert forall|k: int| 0 <= k < b.len() implies offset(ab, start, a.len() + k) == #[trigger] offset(
        b,
        start + total_arity(a),
        k,
    ) by {
        assert(ab.take(a.len() + k) =~= a + b.take(k));
        lemma_total_arity_concat(a, b.take(k));
    }
    assert(rendered_all(ab, start) =~= rendered_all(a, start) + rendered_all(
        b,
        start + total_arity(a),
    )) by {
        assert forall|k: int| 0 <= k < ab.len() implies rendered_all(ab, start)[k] == (
        rendered_all(a, start) + rendered_all(b, start + total_arity(a)))[k] by {
            if k < a.len() {
                assert(ab.take(k) == a.take(k));
            } else {
                assert(offset(ab, start, a.len() + (k - a.len())) == offset(
                    b,
                    start + total_arity(a),
                    k - a.len(),
                ));
            }
        }
    }
    assert(rebound_all(ab, start) =~= rebound_all(a, start) + rebound_all(
        b,
        start + total_arity(a),
    )) by {
        assert forall|k: int| 0 <= k < ab.len() implies rebound_all(ab, start)[k] == (rebound_all(
            a,
            start,
        ) + rebound_all(b, start + total_arity(a)))[k] by {
            if k < a.len() {
                assert(ab.take(k) == a.take(k));
            } else {
                assert(offset(ab, start, a.len() + (k - a.len())) == offset(
                    b,
                    start + total_arity(a),
                    k - a.len(),
                ));
            }
        }
    }
    lemma_join_concat(rendered_all(a, start), rendered_all(b, start + total_arity(a)), " AND "@);
}

/// A WHERE clause of one condition is that condition alone.
pub proof fn lemma_where_clause_single(c: SqlCriterion, start: nat)
    ensures
        where_clause(seq![c], start) == c.rendered(start),
{
    assert(seq![c].take(0) =~= Seq::<SqlCriterion>::empty());
    assert(total_arity(Seq::<SqlCriterion>::empty()) == 0);
    assert(rendered_all(seq![c], start) =~= seq![c.rendered(start)]);
}

/// A boolean attribute that was just set reads back as set.
pub proof fn lemma_bool_attribute_after_insert(
    attributes: Map<Seq<char>, AttributeValue>,
    name: Seq<char>,
    value: bool,
)
    ensures
        bool_attribute(attributes.insert(name, AttributeValue::Bool(value)), name) == Some(value),
{
}

/// Setting one attribute leaves the reading of every other as it was.
pub proof fn lemma_bool_attribute_other(
    attributes: Map<Seq<char>, AttributeValue>,
    name: Seq<char>,
    value: AttributeValue,
    other: Seq<char>,
)
    requires
        other != name,
    ensures
        bool_attribute(attributes.insert(name, value), other) == bool_attribute(attributes, other),
{
}

/// The connection pool that a builder was given never changes the statement
/// that it builds, nor whether it refuses to build one.
pub proof fn lemma_statements_ignore_connection_pool(
    insert: InsertQueryView,
    update: UpdateQueryView,
    delete: DeleteQueryView,
    select: SelectQueryView,
    count: SelectCountQueryView,
    pool: Option<Seq<char>>,
)
    ensures
        insert_sql(InsertQueryView { connection_pool: pool, ..insert }) == insert_sql(insert),
        update_sql(UpdateQueryView { connection_pool: pool, ..update }) == update_sql(update),
        delete_sql(DeleteQueryView { connection_pool: pool, ..delete }) == delete_sql(delete),
        select_sql(SelectQueryView { connection_pool: pool, ..select }) == select_sql(select),
        select_count_sql(SelectCountQueryView { connection_pool: pool, ..count }) == select_count_sql(
            count,
        ),
{
}

/// The opening of a SELECT: `SELECT`, the selection, `FROM` and the table.
pub open spec fn select_opening(selection: Seq<char>, table: Seq<char>) -> Seq<char> {
    "SELECT "@ + selection + " FROM "@ + table
}

/// A SELECT names the columns that it was given, joined by commas, or `*`
/// when it was given none, whatever its conditions and its page.
pub proof fn lemma_select_names_its_columns(v: SelectQueryView)
    requires
        v.table_name is Some,
    ensures
        select_sql(v) is Ok,
        ({
            let opening = select_opening(
                match v.columns {
                    Some(c) => join(c, ","@),
                    None => "*"@,
                },
                v.table_name->0,
            );
            select_sql(v)->Ok_0.len() >= opening.len() && select_sql(v)->Ok_0.take(
                opening.len() as int,
            ) == opening
        }),
{
    let rest = crate::builder::where_suffix(v.clauses, 1) + " "@ + match v.pagination_options {
        Some((start, max)) => crate::builder::offset_limit(start, max),
        None => seq![],
    };
    let opening = select_opening(
        match v.columns {
            Some(c) => join(c, ","@),
            None => "*"@,
        },
        v.table_name->0,
    );
    assert(select_sql(v)->Ok_0 =~= opening + rest);
    assert((opening + rest).take(opening.len() as int) =~= opening);
}

/// What follows the table of a SELECT, its conditions and its page, does not
/// depend on the columns: two builders that differ only in their columns
/// differ only between `SELECT ` and ` FROM `.
pub proof fn lemma_select_columns_change_only_the_selection(
    v: SelectQueryView,
    columns: Option<Seq<Seq<char>>>,
)
    requires
        v.table_name is Some,
    ensures
        ({
            let w = SelectQueryView { columns, ..v };
            let a = select_opening(crate::builder::selected_columns(v.columns), v.table_name->0);
            let b = select_opening(crate::builder::selected_columns(columns), v.table_name->0);
            &&& select_sql(v) is Ok
            &&& select_sql(w) is Ok
            &&& select_sql(v)->Ok_0.len() >= a.len()
            &&& select_sql(w)->Ok_0.len() >= b.len()
            &&& select_sql(v)->Ok_0.take(a.len() as int) == a
            &&& select_sql(w)->Ok_0.take(b.len() as int) == b
            &&& select_sql(v)->Ok_0.skip(a.len() as int) == select_sql(w)->Ok_0.skip(
                b.len() as int,
            )
        }),
{
    let w = SelectQueryView { columns, ..v };
    let rest = crate::builder::where_suffix(v.clauses, 1) + " "@ + match v.pagination_options {
        Some((start, max)) => crate::builder::offset_limit(start, max),
        None => seq![],
    };
    let a = select_opening(crate::builder::selected_columns(v.columns), v.table_name->0);
    let b = select_opening(crate::builder::selected_columns(columns), v.table_name->0);
    assert(select_sql(v)->Ok_0 =~= a + rest);
    assert(select_sql(w)->Ok_0 =~= b + rest);
    assert((a + rest).take(a.len() as int) =~= a);
    assert((b + rest).take(b.len() as int) =~= b);
    assert((a + rest).skip(a.len() as int) =~= rest);
    assert((b + rest).skip(b.len() as int) =~= rest);
}

/// A page of users is asked for exactly when both its index and its size are
/// given: then the listing is the paged one, else the full one.
pub proof fn lemma_page_only_when_asked(page_index: Option<u64>, page_size: Option<u64>)
    ensures
        (page_query(page_index, page_size).1 is Some) == (page_index is Some && page_size is Some),
        page_query(page_index, page_size).0 == if page_index is Some && page_size is Some {
            SELECT_USERS_PAGING@
        } else {
            SELECT_USERS@
        },
{
}

/// Page `index` of `size` users skips `index * size` rows and keeps `size`,
/// the first page (index 0) included.
pub proof fn lemma_page_offset(index: u64, size: u64)
    requires
        index * size <= i64::MAX,
        size <= i64::MAX,
    ensures
        page_query(Some(index), Some(size)).0 == SELECT_USERS_PAGING@,
        page_query(Some(index), Some(size)).1 matches Some((offset, limit)) && offset == index
            * size && limit == size,
{
}

} // verus!
