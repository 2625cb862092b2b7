//! Builders of the INSERT, UPDATE, DELETE, SELECT and SELECT COUNT(*)
//! statements of the store, with `$n` placeholders for every parameter.
use vstd::prelude::*;
use crate::criteria::{build_sql_where_clause, total_arity, where_clause, SqlCriterion};
use crate::text::{decimal, decimal_string, join, join_strings, placeholder, placeholders, push_placeholder, push_placeholder_list, views};

verus! {

/// The text of a built statement, or of the reason why none could be built.
pub open spec fn text_result(r: Result<String, String>) -> Result<Seq<char>, Seq<char>> {
    match r {
        Ok(s) => Ok(s@),
        Err(e) => Err(e@),
    }
}

pub open spec fn opt_view(o: Option<String>) -> Option<Seq<char>> {
    match o {
        Some(s) => Some(s@),
        None => None,
    }
}

pub open spec fn opt_views(o: Option<Vec<String>>) -> Option<Seq<Seq<char>>> {
    match o {
        Some(v) => Some(views(v@)),
        None => None,
    }
}

pub open spec fn opt_criteria(o: Option<Vec<SqlCriterion>>) -> Option<Seq<SqlCriterion>> {
    match o {
        Some(v) => Some(v@),
        None => None,
    }
}

/// `" WHERE "` and the conjunction of the conditions, numbered from
/// `start`; nothing where there are no conditions.
pub open spec fn where_suffix(clauses: Option<Seq<SqlCriterion>>, start: nat) -> Seq<char> {
    match clauses {
        Some(cs) => " WHERE "@ + where_clause(cs, start),
        None => seq![],
    }
}

/// The conditions, if any, leave room for their placeholders from `start`.
pub open spec fn clauses_fit(clauses: Option<Seq<SqlCriterion>>, start: nat) -> bool {
    clauses matches Some(cs) ==> start + total_arity(cs) <= usize::MAX
}

// ---------------------------------------------------------------- INSERT

/// What an insert builder was given.
pub struct InsertQueryView {
    pub table_name: Option<Seq<char>>,
    pub connection_pool: Option<Seq<char>>,
    pub columns: Option<Seq<Seq<char>>>,
    pub resolve_conflict: Option<bool>,
}

/// The INSERT statement for `v`: one placeholder per column, in order.
pub open spec fn insert_sql(v: InsertQueryView) -> Result<Seq<char>, Seq<char>> {
    if v.table_name is None || v.columns is None || v.columns->0.len() == 0 {
        Err("Invalid query builder"@)
    } else {
        let columns = v.columns->0;
        Ok(
            "INSERT INTO "@ + v.table_name->0 + " ("@ + join(columns, ","@) + ") VALUES("@
                + join(placeholders(1, columns.len()), ","@) + ")"@ + if v.resolve_conflict
                == Some(true) {
                " ON CONFLICT DO NOTHING"@
            } else {
                seq![]
            },
        )
    }
}

pub struct InsertQueryBuilder {
    table_name: Option<String>,
    connection_pool: Option<String>,
    columns: Option<Vec<String>>,
    resolve_conflict: Option<bool>,
}

impl View for InsertQueryBuilder {
    type V = InsertQueryView;

    closed spec fn view(&self) -> InsertQueryView {
        InsertQueryView {
            table_name: opt_view(self.table_name),
            connection_pool: opt_view(self.connection_pool),
            columns: opt_views(self.columns),
            resolve_conflict: self.resolve_conflict,
        }
    }
}

impl InsertQueryBuilder {
    pub fn new() -> (b: Self)
        ensures
            b@ == (InsertQueryView {
                table_name: None,
                connection_pool: None,
                columns: None,
                resolve_conflict: None,
            }),
    {
        Self { table_name: None, connection_pool: None, columns: None, resolve_conflict: None }
    }

    pub fn table_name(self, table_name: String) -> (b: InsertQueryBuilder)
        ensures
            b@ == (InsertQueryView { table_name: Some(table_name@), ..self@ }),
    {
        let mut b = self;
        b.table_name = Some(table_name);
        b
    }

    pub fn connection_pool(self, connection_pool: String) -> (b: InsertQueryBuilder)
        ensures
            b@ == (InsertQueryView { connection_pool: Some(connection_pool@), ..self@ }),
    {
        let mut b = self;
        b.connection_pool = Some(connection_pool);
        b
    }

    pub fn columns(self, columns: Vec<String>) -> (b: InsertQueryBuilder)
        ensures
            b@ == (InsertQueryView { columns: Some(views(columns@)), ..self@ }),
    {
        let mut b = self;
        b.columns = Some(columns);
        b
    }

    pub fn resolve_conflict(self, resolve_conflict: bool) -> (b: InsertQueryBuilder)
        ensures
            b@ == (InsertQueryView { resolve_conflict: Some(resolve_conflict), ..self@ }),
    {
        let mut b = self;
        b.resolve_conflict = Some(resolve_conflict);
        b
    }

    pub fn sql_query(&mut self) -> (r: Result<String, String>)
        ensures
            *final(self) == *old(self),
            text_result(r) == insert_sql(old(self)@),
    {
        let columns = match &self.columns {
            Some(c) => c,
            None => {
                return Err("Invalid query builder".to_owned());
            },
        };
        let table_name = match &self.table_name {
            Some(t) => t,
            None => {
                return Err("Invalid query builder".to_owned());
            },
        };
        if columns.len() == 0 {
            return Err("Invalid query builder".to_owned());
        }
        let joined = join_strings(columns, ",");
        let mut q = "INSERT INTO ".to_owned();
        q.append(table_name.as_str());
        q.append(" (");
        q.append(joined.as_str());
        q.append(") VALUES(");
        push_placeholder_list(&mut q, 1, columns.len() as u64);
        q.append(")");
        let ghost body = q@;
        let conflict = match self.resolve_conflict {
            Some(b) => b,
            None => false,
        };
        if conflict {
            q.append(" ON CONFLICT DO NOTHING");
        } else {
            assert(q@ =~= body + seq![]);
        }
        Ok(q)
    }
}

// ---------------------------------------------------------------- UPDATE

/// What an update builder was given.
pub struct UpdateQueryView {
    pub table_name: Option<Seq<char>>,
    pub connection_pool: Option<Seq<char>>,
    pub columns: Option<Seq<Seq<char>>>,
    pub manage_version: Option<bool>,
    pub clauses: Option<Seq<SqlCriterion>>,
}

/// `column=$k`, the k-th column taking the k-th placeholder.
pub open spec fn assignments(columns: Seq<Seq<char>>) -> Seq<Seq<char>> {
    Seq::new(columns.len(), |k: int| columns[k] + "="@ + placeholder((k + 1) as nat))
}

/// The UPDATE statement for `v`: the columns take the first placeholders,
/// the conditions those after them. Whenever a version flag is given, true or
/// false, the version is increased.
pub open spec fn update_sql(v: UpdateQueryView) -> Result<Seq<char>, Seq<char>> {
    if v.table_name is None || v.columns is None || v.columns->0.len() == 0 || v.clauses is None
        || v.clauses->0.len() == 0 {
        Err("Invalid query builder"@)
    } else {
        let columns = v.columns->0;
        Ok(
            "UPDATE "@ + v.table_name->0 + " SET "@ + join(assignments(columns), ","@) + (
            if v.manage_version is Some {
                ", version = version + 1"@
            } else {
                seq![]
            }) + " WHERE "@ + where_clause(v.clauses->0, columns.len() + 1),
        )
    }
}

pub struct UpdateQueryBuilder {
    table_name: Option<String>,
    connection_pool: Option<String>,
    columns: Option<Vec<String>>,
    manage_version: Option<bool>,
    clauses: Option<Vec<SqlCriterion>>,
}

impl View for UpdateQueryBuilder {
    type V = UpdateQueryView;

    closed spec fn view(&self) -> UpdateQueryView {
        UpdateQueryView {
            table_name: opt_view(self.table_name),
            connection_pool: opt_view(self.connection_pool),
            columns: opt_views(self.columns),
            manage_version: self.manage_version,
            clauses: opt_criteria(self.clauses),
        }
    }
}

/// Writes `column=$k` for each column, joined by commas.
fn assignment_list(columns: &Vec<String>) -> (s: String)
    ensures
        s@ == join(assignments(views(columns@)), ","@),
{
    let ghost all = assignments(views(columns@));
    let mut s = String::new();
    let mut i: usize = 0;
    while i < columns.len()
        invariant
            i <= columns.len(),
            all == assignments(views(columns@)),
            s@ == join(all.take(i as int), ","@),
        decreases columns.len() - i,
    {
        proof {
            assert(all.take(i + 1) =~= all.take(i as int).push(all[i as int]));
            crate::text::lemma_join_push(all.take(i as int), ","@, all[i as int]);
        }
        if i > 0 {
            s.append(",");
        }
        s.append(columns[i].as_str());
        s.append("=");
        push_placeholder(&mut s, (i + 1) as u64);
        i = i + 1;
    }
    assert(all.take(i as int) =~= all);
    s
}

impl UpdateQueryBuilder {
    pub fn new() -> (b: Self)
        ensures
            b@ == (UpdateQueryView {
                table_name: None,
                connection_pool: None,
                columns: None,
                manage_version: None,
                clauses: None,
            }),
    {
        Self {
            table_name: None,
            connection_pool: None,
            columns: None,
            manage_version: None,
            clauses: None,
        }
    }

    pub fn table_name(self, table_name: String) -> (b: UpdateQueryBuilder)
        ensures
            b@ == (UpdateQueryView { table_name: Some(table_name@), ..self@ }),
    {
        let mut b = self;
        b.table_name = Some(table_name);
        b
    }

    pub fn connection_pool(self, connection_pool: String) -> (b: UpdateQueryBuilder)
        ensures
            b@ == (UpdateQueryView { connection_pool: Some(connection_pool@), ..self@ }),
    {
        let mut b = self;
        b.connection_pool = Some(connection_pool);
        b
    }

    pub fn columns(self, columns: Vec<String>) -> (b: UpdateQueryBuilder)
        ensures
            b@ == (UpdateQueryView { columns: Some(views(columns@)), ..self@ }),
    {
        let mut b = self;
        b.columns = Some(columns);
        b
    }

    pub fn manage_version(self, manage_version: bool) -> (b: UpdateQueryBuilder)
        ensures
            b@ == (UpdateQueryView { manage_version: Some(manage_version), ..self@ }),
    {
        let mut b = self;
        b.manage_version = Some(manage_version);
        b
    }

    pub fn where_clauses(self, clauses: Vec<SqlCriterion>) -> (b: UpdateQueryBuilder)
        ensures
            b@ == (UpdateQueryView { clauses: Some(clauses@), ..self@ }),
    {
        let mut b = self;
        b.clauses = Some(clauses);
        b
    }

    pub fn sql_query(self) -> (r: Result<String, String>)
        requires
            self@.columns matches Some(c) ==> clauses_fit(self@.clauses, c.len() + 1),
        ensures
            text_result(r) == update_sql(self@),
    {
        let UpdateQueryBuilder { table_name, connection_pool: _, columns, manage_version, clauses } =
            self;
        let table_name = match table_name {
            Some(t) => t,
            None => {
                return Err("Invalid query builder".to_owned());
            },
        };
        let columns = match columns {
            Some(c) => c,
            None => {
                return Err("Invalid query builder".to_owned());
            },
        };
        if columns.len() == 0 {
            return Err("Invalid query builder".to_owned());
        }
        let mut clauses = match clauses {
            Some(c) => c,
            None => {
                return Err("Invalid query builder".to_owned());
            },
        };
        if clauses.len() == 0 {
            return Err("Invalid query builder".to_owned());
        }
        let mut q = "UPDATE ".to_owned();
        q.append(table_name.as_str());
        q.append(" SET ");
        let assigned = assignment_list(&columns);
        q.append(assigned.as_str());
        let ghost before_version = q@;
        if manage_version.is_some() {
            q.append(", version = version + 1");
        } else {
            assert(q@ =~= before_version + seq![]);
        }
        let where_text = build_sql_where_clause(&mut clauses, columns.len() + 1);
        q.append(" WHERE ");
        q.append(where_text.as_str());
        Ok(q)
    }
}

// ---------------------------------------------------------------- DELETE

/// What a delete builder was given.
pub struct DeleteQueryView {
    pub table_name: Option<Seq<char>>,
    pub connection_pool: Option<Seq<char>>,
    pub clauses: Option<Seq<SqlCriterion>>,
}

/// The DELETE statement for `v`: every row when no conditions were given.
pub open spec fn delete_sql(v: DeleteQueryView) -> Result<Seq<char>, Seq<char>> {
    if v.table_name is None {
        Err("Invalid delete query state"@)
    } else {
        Ok("DELETE FROM "@ + v.table_name->0 + where_suffix(v.clauses, 1))
    }
}

pub struct DeleteQueryBuilder {
    table_name: Option<String>,
    connection_pool: Option<String>,
    clauses: Option<Vec<SqlCriterion>>,
}

impl View for DeleteQueryBuilder {
    type V = DeleteQueryView;

    closed spec fn view(&self) -> DeleteQueryView {
        DeleteQueryView {
            table_name: opt_view(self.table_name),
            connection_pool: opt_view(self.connection_pool),
            clauses: opt_criteria(self.clauses),
        }
    }
}

impl DeleteQueryBuilder {
    pub fn new() -> (b: Self)
        ensures
            b@ == (DeleteQueryView { table_name: None, connection_pool: None, clauses: None }),
    {
        Self { table_name: None, connection_pool: None, clauses: None }
    }

    pub fn table_name(self, table_name: String) -> (b: DeleteQueryBuilder)
        ensures
            b@ == (DeleteQueryView { table_name: Some(table_name@), ..self@ }),
    {
        let mut b = self;
        b.table_name = Some(table_name);
        b
    }

    pub fn connection_pool(self, connection_pool: String) -> (b: DeleteQueryBuilder)
        ensures
            b@ == (DeleteQueryView { connection_pool: Some(connection_pool@), ..self@ }),
    {
        let mut b = self;
        b.connection_pool = Some(connection_pool);
        b
    }

    pub fn where_clauses(self, clauses: Vec<SqlCriterion>) -> (b: DeleteQueryBuilder)
        ensures
            b@ == (DeleteQueryView { clauses: Some(clauses@), ..self@ }),
    {
        let mut b = self;
        b.clauses = Some(clauses);
        b
    }

    pub fn sql_query(self) -> (r: Result<String, String>)
        requires
            clauses_fit(self@.clauses, 1),
        ensures
            text_result(r) == delete_sql(self@),
    {
        let DeleteQueryBuilder { table_name, connection_pool: _, clauses } = self;
        let table_name = match table_name {
            Some(t) => t,
            None => {
                return Err("Invalid delete query state".to_owned());
            },
        };
        let mut q = "DELETE FROM ".to_owned();
        q.append(table_name.as_str());
        match clauses {
            Some(mut cs) => {
                let ghost prefix = q@;
                let ghost given = cs@;
                let where_text = build_sql_where_clause(&mut cs, 1);
                q.append(" WHERE ");
                q.append(where_text.as_str());
                assert(q@ =~= prefix + (" WHERE "@ + where_clause(given, 1)));
            },
            None => {
                assert(q@ =~= q@ + seq![]);
            },
        }
        Ok(q)
    }
}

// ---------------------------------------------------------------- IN (...)

/// A parenthesised list of `end_index` placeholders from `start_index`.
pub struct InQueryBuilder {
    start_index: u32,
    end_index: u32,
}

impl InQueryBuilder {
    fn sql_query(&self) -> (r: Result<String, String>)
        requires
            self.start_index + self.end_index <= u32::MAX,
        ensures
            text_result(r) == Ok::<Seq<char>, Seq<char>>(
                "("@ + join(placeholders(self.start_index as nat, self.end_index as nat), ","@)
                    + ")"@,
            ),
    {
        let mut q = "(".to_owned();
        push_placeholder_list(&mut q, self.start_index as u64, self.end_index as u64);
        q.append(")");
        Ok(q)
    }
}

// ---------------------------------------------------------------- paging

/// Skip the first `start_index` rows, keep at most `max_result`.
pub struct PaginationOptions {
    pub start_index: u32,
    pub max_result: u32,
}

/// `OFFSET a LIMIT b`, the page of a query.
pub open spec fn offset_limit(start_index: u32, max_result: u32) -> Seq<char> {
    "OFFSET "@ + decimal(start_index as nat) + " LIMIT "@ + decimal(max_result as nat)
}

fn offset_limit_text(options: &PaginationOptions) -> (s: String)
    ensures
        s@ == offset_limit(options.start_index, options.max_result),
{
    let mut s = "OFFSET ".to_owned();
    let start = decimal_string(options.start_index as u64);
    s.append(start.as_str());
    s.append(" LIMIT ");
    let max = decimal_string(options.max_result as u64);
    s.append(max.as_str());
    s
}

/// What a paginated select was given.
pub struct PaginatedSelectView {
    pub select_query: Seq<char>,
    pub pagination_option: Option<(u32, u32)>,
}

/// The query with its page, if any.
pub open spec fn paginated_sql(v: PaginatedSelectView) -> Result<Seq<char>, Seq<char>> {
    if v.select_query.len() == 0 {
        Err("No root query is provided"@)
    } else {
        match v.pagination_option {
            Some((start, max)) => Ok(v.select_query + " "@ + offset_limit(start, max)),
            None => Ok(v.select_query),
        }
    }
}

pub struct SelectFromQueryWithPaginationQueryBuilder {
    select_query: String,
    pagination_option: Option<PaginationOptions>,
}

impl View for SelectFromQueryWithPaginationQueryBuilder {
    type V = PaginatedSelectView;

    closed spec fn view(&self) -> PaginatedSelectView {
        PaginatedSelectView {
            select_query: self.select_query@,
            pagination_option: match self.pagination_option {
                Some(o) => Some((o.start_index, o.max_result)),
                None => None,
            },
        }
    }
}

impl SelectFromQueryWithPaginationQueryBuilder {
    pub fn new(query: String) -> (b: Self)
        ensures
            b@ == (PaginatedSelectView { select_query: query@, pagination_option: None }),
    {
        Self { select_query: query, pagination_option: None }
    }

    pub fn pagination_option(&mut self, pagination_options: PaginationOptions) -> (b: &mut Self)
        ensures
            b@ == (PaginatedSelectView {
                pagination_option: Some(
                    (pagination_options.start_index, pagination_options.max_result),
                ),
                ..old(self)@
            }),
            *final(self) == *final(b),
    {
        let mut b = self;
        b.pagination_option = Some(pagination_options);
        b
    }

    pub fn sql_query(&self) -> (r: Result<String, String>)
        ensures
            text_result(r) == paginated_sql(self@),
    {
        if self.select_query.as_str().is_empty() {
            return Err("No root query is provided".to_owned());
        }
        match &self.pagination_option {
            Some(options) => {
                let mut q = self.select_query.clone();
                q.append(" ");
                let page = offset_limit_text(options);
                q.append(page.as_str());
                Ok(q)
            },
            None => Ok(self.select_query.clone()),
        }
    }
}

// ---------------------------------------------------------------- SELECT

/// What a select builder was given.
pub struct SelectQueryView {
    pub table_name: Option<Seq<char>>,
    pub connection_pool: Option<Seq<char>>,
    pub columns: Option<Seq<Seq<char>>>,
    pub clauses: Option<Seq<SqlCriterion>>,
    pub pagination_options: Option<(u32, u32)>,
}

/// The selected columns: all of them unless some were named.
pub open spec fn selected_columns(columns: Option<Seq<Seq<char>>>) -> Seq<char> {
    match columns {
        Some(c) => join(c, ","@),
        None => "*"@,
    }
}

/// The SELECT statement for `v`. A space always follows the selection,
/// then the page, if any.
pub open spec fn select_sql(v: SelectQueryView) -> Result<Seq<char>, Seq<char>> {
    if v.table_name is None {
        Err("Invalid request builder"@)
    } else {
        Ok(
            "SELECT "@ + selected_columns(v.columns) + " FROM "@ + v.table_name->0 + where_suffix(
                v.clauses,
                1,
            ) + " "@ + match v.pagination_options {
                Some((start, max)) => offset_limit(start, max),
                None => seq![],
            },
        )
    }
}

pub struct SelectQueryBuilder {
    table_name: Option<String>,
    connection_pool: Option<String>,
    columns: Option<Vec<String>>,
    clauses: Option<Vec<SqlCriterion>>,
    pagination_options: Option<PaginationOptions>,
}

impl View for SelectQueryBuilder {
    type V = SelectQueryView;

    closed spec fn view(&self) -> SelectQueryView {
        SelectQueryView {
            table_name: opt_view(self.table_name),
            connection_pool: opt_view(self.connection_pool),
            columns: opt_views(self.columns),
            clauses: opt_criteria(self.clauses),
            pagination_options: match self.pagination_options {
                Some(o) => Some((o.start_index, o.max_result)),
                None => None,
            },
        }
    }
}

impl SelectQueryBuilder {
    pub fn new() -> (b: Self)
        ensures
            b@ == (SelectQueryView {
                table_name: None,
                connection_pool: None,
                columns: None,
                clauses: None,
                pagination_options: None,
            }),
    {
        Self {
            table_name: None,
            connection_pool: None,
            columns: None,
            clauses: None,
            pagination_options: None,
        }
    }

    pub fn table_name(self, table_name: String) -> (b: SelectQueryBuilder)
        ensures
            b@ == (SelectQueryView { table_name: Some(table_name@), ..self@ }),
    {
        let mut b = self;
        b.table_name = Some(table_name);
        b
    }

    pub fn connection_pool(self, connection_pool: String) -> (b: SelectQueryBuilder)
        ensures
            b@ == (SelectQueryView { connection_pool: Some(connection_pool@), ..self@ }),
    {
        let mut b = self;
        b.connection_pool = Some(connection_pool);
        b
    }

    pub fn columns(self, columns: Vec<String>) -> (b: SelectQueryBuilder)
        ensures
            b@ == (SelectQueryView { columns: Some(views(columns@)), ..self@ }),
    {
        let mut b = self;
        b.columns = Some(columns);
        b
    }

    pub fn pagination_options(self, options: PaginationOptions) -> (b: SelectQueryBuilder)
        ensures
            b@ == (SelectQueryView {
                pagination_options: Some((options.start_index, options.max_result)),
                ..self@
            }),
    {
        let mut b = self;
        b.pagination_options = Some(options);
        b
    }

    pub fn where_clauses(self, clause: Vec<SqlCriterion>) -> (b: SelectQueryBuilder)
        ensures
            b@ == (SelectQueryView { clauses: Some(clause@), ..self@ }),
    {
        let mut b = self;
        b.clauses = Some(clause);
        b
    }

    pub fn sql_query(self) -> (r: Result<String, String>)
        requires
            clauses_fit(self@.clauses, 1),
        ensures
            text_result(r) == select_sql(self@),
    {
        let SelectQueryBuilder {
            table_name,
            connection_pool: _,
            columns,
            clauses,
            pagination_options,
        } = self;
        let table_name = match table_name {
            Some(t) => t,
            None => {
                return Err("Invalid request builder".to_owned());
            },
        };
        let selected = match columns {
            Some(c) => join_strings(&c, ","),
            None => "*".to_owned(),
        };
        let mut q = "SELECT ".to_owned();
        q.append(selected.as_str());
        q.append(" FROM ");
        q.append(table_name.as_str());
        match clauses {
            Some(mut cs) => {
                let ghost prefix = q@;
                let ghost given = cs@;
                let where_text = build_sql_where_clause(&mut cs, 1);
                q.append(" WHERE ");
                q.append(where_text.as_str());
                assert(q@ =~= prefix + (" WHERE "@ + where_clause(given, 1)));
            },
            None => {
                assert(q@ =~= q@ + seq![]);
            },
        }
        q.append(" ");
        match pagination_options {
            Some(options) => {
                let page = offset_limit_text(&options);
                q.append(page.as_str());
            },
            None => {
                assert(q@ =~= q@ + seq![]);
            },
        }
        Ok(q)
    }
}

// ---------------------------------------------------------------- COUNT

/// What a count builder was given.
pub struct SelectCountQueryView {
    pub table_name: Option<Seq<char>>,
    pub connection_pool: Option<Seq<char>>,
    pub clauses: Option<Seq<SqlCriterion>>,
}

/// The SELECT COUNT(*) statement for `v`.
pub open spec fn select_count_sql(v: SelectCountQueryView) -> Result<Seq<char>, Seq<char>> {
    if v.table_name is None {
        Err("Invalid request builder"@)
    } else {
        Ok("SELECT COUNT(*) FROM "@ + v.table_name->0 + where_suffix(v.clauses, 1))
    }
}

pub struct SelectCountQueryBuilder {
    table_name: Option<String>,
    connection_pool: Option<String>,
    clauses: Option<Vec<SqlCriterion>>,
}

impl View for SelectCountQueryBuilder {
    type V = SelectCountQueryView;

    closed spec fn view(&self) -> SelectCountQueryView {
        SelectCountQueryView {
            table_name: opt_view(self.table_name),
            connection_pool: opt_view(self.connection_pool),
            clauses: opt_criteria(self.clauses),
        }
    }
}

impl SelectCountQueryBuilder {
    pub fn new() -> (b: Self)
        ensures
            b@ == (SelectCountQueryView { table_name: None, connection_pool: None, clauses: None }),
    {
        Self { table_name: None, connection_pool: None, clauses: None }
    }

    pub fn table_name(self, table_name: String) -> (b: SelectCountQueryBuilder)
        ensures
            b@ == (SelectCountQueryView { table_name: Some(table_name@), ..self@ }),
    {
        let mut b = self;
        b.table_name = Some(table_name);
        b
    }

    pub fn connection_pool(self, connection_pool: String) -> (b: SelectCountQueryBuilder)
        ensures
            b@ == (SelectCountQueryView { connection_pool: Some(connection_pool@), ..self@ }),
    {
        let mut b = self;
        b.connection_pool = Some(connection_pool);
        b
    }

    pub fn where_clauses(self, clauses: Vec<SqlCriterion>) -> (b: SelectCountQueryBuilder)
        ensures
            b@ == (SelectCountQueryView { clauses: Some(clauses@), ..self@ }),
    {
        let mut b = self;
        b.clauses = Some(clauses);
        b
    }

    pub fn sql_query(self) -> (r: Result<String, String>)
        requires
            clauses_fit(self@.clauses, 1),
        ensures
            text_result(r) == select_count_sql(self@),
    {
        let SelectCountQueryBuilder { table_name, connection_pool: _, clauses } = self;
        let table_name = match table_name {
            Some(t) => t,
            None => {
                return Err("Invalid request builder".to_owned());
            },
        };
        let mut q = "SELECT COUNT(*) FROM ".to_owned();
        q.append(table_name.as_str());
        match clauses {
            Some(mut cs) => {
                let ghost prefix = q@;
                let ghost given = cs@;
                let where_text = build_sql_where_clause(&mut cs, 1);
                q.append(" WHERE ");
                q.append(where_text.as_str());
                assert(q@ =~= prefix + (" WHERE "@ + where_clause(given, 1)));
            },
            None => {
                assert(q@ =~= q@ + seq![]);
            },
        }
        Ok(q)
    }
}

} // verus!
