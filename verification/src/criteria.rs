//! WHERE criteria: single conditions on a column, rendered with numbered
//! `$n` placeholders, and their conjunction.
use vstd::prelude::*;
use crate::text::{join, placeholder, placeholders, push_placeholder, push_placeholder_list};

verus! {

/// A condition of a WHERE clause that takes its parameters from a run of
/// consecutive placeholders.
pub trait SqlCriteria: Sized {
    /// How many placeholders the condition takes.
    spec fn arity(&self) -> nat;

    /// The index of its first placeholder, as last rendered.
    spec fn bound_index(&self) -> nat;

    /// The text of the condition when its placeholders start at `index`.
    spec fn rendered(&self, index: nat) -> Seq<char>;

    /// The condition after it was rendered from `index`.
    spec fn rebound(&self, index: nat) -> Self;

    /// Renders the condition with its placeholders starting at `index`, and
    /// remembers `index`.
    fn clause(&mut self, index: usize) -> (text: String)
        requires
            index + old(self).arity() <= usize::MAX,
        ensures
            text@ == old(self).rendered(index as nat),
            *final(self) == old(self).rebound(index as nat),
    ;

    /// The index of the first placeholder after those of this condition.
    fn current_index(&self) -> (next: usize)
        requires
            self.bound_index() + self.arity() <= usize::MAX,
        ensures
            next == self.bound_index() + self.arity(),
    ;
}

/// `column op $n`: a comparison with one parameter.
pub struct ComparableSqlClause {
    pub column: String,
    pub op: String,
    pub index: usize,
}

impl ComparableSqlClause {
    pub fn new(column: String, op: String) -> (c: Self)
        ensures
            c.column == column,
            c.op == op,
            c.index == 0,
    {
        Self { column, op, index: 0 }
    }
}

impl SqlCriteria for ComparableSqlClause {
    open spec fn arity(&self) -> nat {
        1
    }

    open spec fn bound_index(&self) -> nat {
        self.index as nat
    }

    open spec fn rendered(&self, index: nat) -> Seq<char> {
        self.column@ + " "@ + self.op@ + " "@ + placeholder(index)
    }

    open spec fn rebound(&self, index: nat) -> Self {
        ComparableSqlClause { column: self.column, op: self.op, index: index as usize }
    }

    fn clause(&mut self, index: usize) -> (text: String) {
        self.index = index;
        let mut text = self.column.clone();
        text.append(" ");
        text.append(self.op.as_str());
        text.append(" ");
        push_placeholder(&mut text, index as u64);
        text
    }

    fn current_index(&self) -> (next: usize) {
        self.index + 1
    }
}

/// `column op ($n,...,$m)`: a membership test with `in_count` parameters.
pub struct InSqlClause {
    pub column: String,
    pub op: String,
    pub index: usize,
    pub in_count: usize,
}

impl InSqlClause {
    pub fn new(column: String, op: String, in_count: usize) -> (c: Self)
        ensures
            c.column == column,
            c.op == op,
            c.index == 0,
            c.in_count == in_count,
    {
        Self { column, op, index: 0, in_count }
    }
}

impl SqlCriteria for InSqlClause {
    open spec fn arity(&self) -> nat {
        self.in_count as nat
    }

    open spec fn bound_index(&self) -> nat {
        self.index as nat
    }

    open spec fn rendered(&self, index: nat) -> Seq<char> {
        self.column@ + " "@ + self.op@ + " ("@ + join(placeholders(index, self.in_count as nat), ","@)
            + ")"@
    }

    open spec fn rebound(&self, index: nat) -> Self {
        InSqlClause {
            column: self.column,
            op: self.op,
            index: index as usize,
            in_count: self.in_count,
        }
    }

    fn clause(&mut self, index: usize) -> (text: String) {
        self.index = index;
        let mut text = self.column.clone();
        text.append(" ");
        text.append(self.op.as_str());
        text.append(" (");
        push_placeholder_list(&mut text, index as u64, self.in_count as u64);
        text.append(")");
        text
    }

    fn current_index(&self) -> (next: usize) {
        self.index + self.in_count
    }
}

/// `column op`: a test without parameter, such as `IS NULL`.
pub struct NullSqlClause {
    pub column: String,
    pub op: String,
    pub index: usize,
}

impl NullSqlClause {
    pub fn new(column: String, op: String) -> (c: Self)
        ensures
            c.column == column,
            c.op == op,
            c.index == 0,
    {
        Self { column, op, index: 0 }
    }
}

impl SqlCriteria for NullSqlClause {
    open spec fn arity(&self) -> nat {
        0
    }

    open spec fn bound_index(&self) -> nat {
        self.index as nat
    }

    open spec fn rendered(&self, index: nat) -> Seq<char> {
        self.column@ + " "@ + self.op@
    }

    open spec fn rebound(&self, index: nat) -> Self {
        NullSqlClause { column: self.column, op: self.op, index: index as usize }
    }

    fn clause(&mut self, index: usize) -> (text: String) {
        self.index = index;
        let mut text = self.column.clone();
        text.append(" ");
        text.append(self.op.as_str());
        text
    }

    fn current_index(&self) -> (next: usize) {
        self.index
    }
}

/// Any one of the conditions above.
pub enum SqlCriterion {
    Comparable(ComparableSqlClause),
    In(InSqlClause),
    Null(NullSqlClause),
}

impl SqlCriteria for SqlCriterion {
    open spec fn arity(&self) -> nat {
        match self {
            SqlCriterion::Comparable(c) => c.arity(),
            SqlCriterion::In(c) => c.arity(),
            SqlCriterion::Null(c) => c.arity(),
        }
    }

    open spec fn bound_index(&self) -> nat {
        match self {
            SqlCriterion::Comparable(c) => c.bound_index(),
            SqlCriterion::In(c) => c.bound_index(),
            SqlCriterion::Null(c) => c.bound_index(),
        }
    }

    open spec fn rendered(&self, index: nat) -> Seq<char> {
        match self {
            SqlCriterion::Comparable(c) => c.rendered(index),
            SqlCriterion::In(c) => c.rendered(index),
            SqlCriterion::Null(c) => c.rendered(index),
        }
    }

    open spec fn rebound(&self, index: nat) -> Self {
        match self {
            SqlCriterion::Comparable(c) => SqlCriterion::Comparable(c.rebound(index)),
            SqlCriterion::In(c) => SqlCriterion::In(c.rebound(index)),
            SqlCriterion::Null(c) => SqlCriterion::Null(c.rebound(index)),
        }
    }

    fn clause(&mut self, index: usize) -> (text: String) {
        match self {
            SqlCriterion::Comparable(c) => c.clause(index),
            SqlCriterion::In(c) => c.clause(index),
            SqlCriterion::Null(c) => c.clause(index),
        }
    }

    fn current_index(&self) -> (next: usize) {
        match self {
            SqlCriterion::Comparable(c) => c.current_index(),
            SqlCriterion::In(c) => c.current_index(),
            SqlCriterion::Null(c) => c.current_index(),
        }
    }
}

/// `c` is the comparison `column op $n`, not yet rendered.
pub open spec fn is_fresh_comparison(c: SqlCriterion, column: Seq<char>, op: Seq<char>) -> bool {
    &&& c matches SqlCriterion::Comparable(cc)
    &&& cc.column@ == column
    &&& cc.op@ == op
    &&& cc.index == 0
}

/// `c` is the membership test `column op (...)` with `in_count` parameters,
/// not yet rendered.
pub open spec fn is_fresh_membership(
    c: SqlCriterion,
    column: Seq<char>,
    op: Seq<char>,
    in_count: usize,
) -> bool {
    &&& c matches SqlCriterion::In(ic)
    &&& ic.column@ == column
    &&& ic.op@ == op
    &&& ic.index == 0
    &&& ic.in_count == in_count
}

/// Shorthands for the usual conditions.
pub struct SqlCriteriaBuilder {}

impl SqlCriteriaBuilder {
    pub fn is_equals(column: String) -> (c: SqlCriterion)
        ensures
            is_fresh_comparison(c, column@, "="@),
    {
        SqlCriterion::Comparable(ComparableSqlClause::new(column, "=".to_owned()))
    }

    pub fn is_less_than(column: String) -> (c: SqlCriterion)
        ensures
            is_fresh_comparison(c, column@, "<"@),
    {
        SqlCriterion::Comparable(ComparableSqlClause::new(column, "<".to_owned()))
    }

    pub fn is_less_or_equals(column: String) -> (c: SqlCriterion)
        ensures
            is_fresh_comparison(c, column@, "<="@),
    {
        SqlCriterion::Comparable(ComparableSqlClause::new(column, "<=".to_owned()))
    }

    pub fn is_greater_than(column: String) -> (c: SqlCriterion)
        ensures
            is_fresh_comparison(c, column@, ">"@),
    {
        SqlCriterion::Comparable(ComparableSqlClause::new(column, ">".to_owned()))
    }

    pub fn is_greater_or_equals(column: String) -> (c: SqlCriterion)
        ensures
            is_fresh_comparison(c, column@, ">="@),
    {
        SqlCriterion::Comparable(ComparableSqlClause::new(column, ">=".to_owned()))
    }

    pub fn is_not_equals(column: String) -> (c: SqlCriterion)
        ensures
            is_fresh_comparison(c, column@, "<>"@),
    {
        SqlCriterion::Comparable(ComparableSqlClause::new(column, "<>".to_owned()))
    }

    /// A comparison whose operator is `IS NULL`: it renders as
    /// `column IS NULL $n` and takes one placeholder.
    pub fn is_null(column: String) -> (c: SqlCriterion)
        ensures
            is_fresh_comparison(c, column@, "IS NULL"@),
    {
        SqlCriterion::Comparable(ComparableSqlClause::new(column, "IS NULL".to_owned()))
    }

    /// A comparison whose operator is `IS NOT NULL`: it renders as
    /// `column IS NOT NULL $n` and takes one placeholder.
    pub fn is_not_null(column: String) -> (c: SqlCriterion)
        ensures
            is_fresh_comparison(c, column@, "IS NOT NULL"@),
    {
        SqlCriterion::Comparable(ComparableSqlClause::new(column, "IS NOT NULL".to_owned()))
    }

    pub fn is_in(column: String, in_count: usize) -> (c: SqlCriterion)
        ensures
            is_fresh_membership(c, column@, "IN"@, in_count),
    {
        SqlCriterion::In(InSqlClause::new(column, "IN".to_owned(), in_count))
    }

    pub fn is_not_in(column: String, in_count: usize) -> (c: SqlCriterion)
        ensures
            is_fresh_membership(c, column@, "NOT IN"@, in_count),
    {
        SqlCriterion::In(InSqlClause::new(column, "NOT IN".to_owned(), in_count))
    }
}

/// The number of placeholders that the conditions take together.
pub open spec fn total_arity(cs: Seq<SqlCriterion>) -> nat
    decreases cs.len(),
{
    if cs.len() == 0 {
        0
    } else {
        total_arity(cs.drop_last()) + cs.last().arity()
    }
}

/// The first placeholder of the `k`-th condition when the first one starts
/// at `start`.
pub open spec fn offset(cs: Seq<SqlCriterion>, start: nat, k: int) -> nat {
    start + total_arity(cs.take(k))
}

/// The text of each condition, the placeholders numbered on from `start`.
pub open spec fn rendered_all(cs: Seq<SqlCriterion>, start: nat) -> Seq<Seq<char>> {
    Seq::new(cs.len(), |k: int| cs[k].rendered(offset(cs, start, k)))
}

/// The conditions after they were rendered from `start`.
pub open spec fn rebound_all(cs: Seq<SqlCriterion>, start: nat) -> Seq<SqlCriterion> {
    Seq::new(cs.len(), |k: int| cs[k].rebound(offset(cs, start, k)))
}

/// The conjunction of the conditions, the placeholders numbered on from `start`.
pub open spec fn where_clause(cs: Seq<SqlCriterion>, start: nat) -> Seq<char> {
    join(rendered_all(cs, start), " AND "@)
}

/// A prefix of the conditions takes no more placeholders than all of them.
pub proof fn lemma_total_arity_prefix(cs: Seq<SqlCriterion>, j: int)
    requires
        0 <= j <= cs.len(),
    ensures
        total_arity(cs.take(j)) <= total_arity(cs),
    decreases cs.len(),
{
    if j == cs.len() {
        assert(cs.take(j) =~= cs);
    } else {
        assert(cs.drop_last().take(j) =~= cs.take(j));
        lemma_total_arity_prefix(cs.drop_last(), j);
    }
}

/// One condition takes its own placeholders.
pub proof fn lemma_total_arity_single(c: SqlCriterion)
    ensures
        total_arity(seq![c]) == c.arity(),
{
    assert(seq![c].drop_last() =~= Seq::<SqlCriterion>::empty());
    assert(total_arity(Seq::<SqlCriterion>::empty()) == 0);
}

/// Renders the conjunction of `criteria`, numbering their placeholders on
/// from `start_index`; each condition remembers where its placeholders start.
pub fn build_sql_where_clause(criteria: &mut Vec<SqlCriterion>, start_index: usize) -> (s: String)
    requires
        start_index + total_arity(old(criteria)@) <= usize::MAX,
    ensures
        s@ == where_clause(old(criteria)@, start_index as nat),
        final(criteria)@ == rebound_all(old(criteria)@, start_index as nat),
{
    let ghost cs = criteria@;
    let ghost parts = rendered_all(cs, start_index as nat);
    let mut s = String::new();
    let mut index = start_index;
    let mut i: usize = 0;
    while i < criteria.len()
        invariant
            i <= cs.len(),
            criteria@.len() == cs.len(),
            start_index + total_arity(cs) <= usize::MAX,
            parts == rendered_all(cs, start_index as nat),
            index == offset(cs, start_index as nat, i as int),
            s@ == join(parts.take(i as int), " AND "@),
            forall|k: int| 0 <= k < i ==> criteria@[k] == cs[k].rebound(offset(cs, start_index as nat, k)),
            forall|k: int| i <= k < cs.len() ==> criteria@[k] == cs[k],
        decreases cs.len() - i,
    {
        proof {
            assert(cs.take(i + 1).drop_last() =~= cs.take(i as int));
            lemma_total_arity_prefix(cs, i + 1);
            assert(parts.take(i + 1) =~= parts.take(i as int).push(parts[i as int]));
            crate::text::lemma_join_push(parts.take(i as int), " AND "@, parts[i as int]);
        }
        let text = criteria[i].clause(index);
        if i > 0 {
            s.append(" AND ");
        }
        s.append(text.as_str());
        index = criteria[i].current_index();
        i = i + 1;
    }
    assert(parts.take(i as int) =~= parts);
    assert(criteria@ =~= rebound_all(cs, start_index as nat));
    s
}

} // verus!
