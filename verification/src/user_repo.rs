//! The statements of the user store and the reading of what the database
//! answers. Running them against a connection is the caller's part.
use vstd::prelude::*;
use crate::builder::{DeleteQueryBuilder, DeleteQueryView, InsertQueryBuilder, InsertQueryView, SelectCountQueryBuilder, SelectCountQueryView, SelectQueryBuilder, SelectQueryView, UpdateQueryBuilder, UpdateQueryView, delete_sql, insert_sql, select_count_sql, select_sql, update_sql};
use crate::criteria::{lemma_total_arity_single, SqlCriteriaBuilder, SqlCriterion, is_fresh_comparison, is_fresh_membership};
use crate::attributes::AttributesMap;
use crate::runtime::Timestamp;
use crate::user::{UserModel, UserPagingResult};
use crate::user_table::{users_table, users_table_name, user_insert_columns, user_update_columns, SELECT_USERS, SELECT_USERS_PAGING};

verus! {

/// The single condition `column = $n`, as the builder makes it.
pub open spec fn equals_condition(cs: Seq<SqlCriterion>, column: Seq<char>) -> bool {
    cs.len() == 1 && is_fresh_comparison(cs[0], column, "="@)
}

/// The statement that creates a user: one placeholder per inserted column.
pub open spec fn create_user_statement() -> Result<Seq<char>, Seq<char>> {
    insert_sql(
        InsertQueryView {
            table_name: Some(users_table_name()),
            connection_pool: None,
            columns: Some(user_insert_columns()),
            resolve_conflict: Some(false),
        },
    )
}

/// The statement that updates the user whose `user_id` is the last parameter.
pub open spec fn update_user_statement(cs: Seq<SqlCriterion>) -> Result<Seq<char>, Seq<char>> {
    update_sql(
        UpdateQueryView {
            table_name: Some(users_table_name()),
            connection_pool: None,
            columns: Some(user_update_columns()),
            manage_version: Some(true),
            clauses: Some(cs),
        },
    )
}

/// The statement that deletes the rows that the conditions select.
pub open spec fn delete_user_statement(cs: Seq<SqlCriterion>) -> Result<Seq<char>, Seq<char>> {
    delete_sql(
        DeleteQueryView {
            table_name: Some(users_table_name()),
            connection_pool: None,
            clauses: Some(cs),
        },
    )
}

/// The statement that selects every column of the rows that the conditions
/// select.
pub open spec fn select_users_statement(cs: Seq<SqlCriterion>) -> Result<Seq<char>, Seq<char>> {
    select_sql(
        SelectQueryView {
            table_name: Some(users_table_name()),
            connection_pool: None,
            columns: None,
            clauses: Some(cs),
            pagination_options: None,
        },
    )
}

/// The statement that counts the rows that the conditions, if any, select.
pub open spec fn count_users_statement(cs: Option<Seq<SqlCriterion>>) -> Result<Seq<char>, Seq<char>> {
    select_count_sql(
        SelectCountQueryView {
            table_name: Some(users_table_name()),
            connection_pool: None,
            clauses: cs,
        },
    )
}

/// The listing statement, and its offset and limit when a page was asked
/// for: page `index` of `size` rows starts after `index * size` rows.
pub open spec fn page_query(page_index: Option<u64>, page_size: Option<u64>) -> (
    Seq<char>,
    Option<(i64, i64)>,
) {
    match (page_index, page_size) {
        (Some(index), Some(size)) => (
            SELECT_USERS_PAGING@,
            Some((((index * size) as u64) as i64, size as i64)),
        ),
        _ => (SELECT_USERS@, None),
    }
}

/// A value bound to a placeholder of a user statement.
pub enum UserParam<'a> {
    Text(&'a String),
    OptionalText(&'a Option<String>),
    Attributes(&'a Option<AttributesMap>),
    Instant(Option<Timestamp>),
    Version(i32),
}

/// The value of `user` that the column `column` holds, if it is a column of
/// the USERS table.
pub open spec fn column_param<'a>(user: &'a UserModel, column: Seq<char>) -> Option<UserParam<'a>> {
    if column == "user_id"@ {
        Some(UserParam::Text(&user.user_id))
    } else if column == "username"@ {
        Some(UserParam::Text(&user.username))
    } else if column == "first_name"@ {
        Some(UserParam::Text(&user.first_name))
    } else if column == "last_name"@ {
        Some(UserParam::Text(&user.last_name))
    } else if column == "function"@ {
        Some(UserParam::Text(&user.function))
    } else if column == "email"@ {
        Some(UserParam::Text(&user.email))
    } else if column == "attributes"@ {
        Some(UserParam::Attributes(&user.attributes))
    } else if column == "created_by"@ {
        Some(UserParam::OptionalText(&user.metadata.created_by))
    } else if column == "created_at"@ {
        Some(UserParam::Instant(user.metadata.created_at))
    } else if column == "updated_by"@ {
        Some(UserParam::OptionalText(&user.metadata.updated_by))
    } else if column == "updated_at"@ {
        Some(UserParam::Instant(user.metadata.updated_at))
    } else if column == "version"@ {
        Some(UserParam::Version(user.metadata.version))
    } else {
        None
    }
}

/// The page of users: what was asked for, the total count, and the rows.
pub open spec fn is_page(
    r: UserPagingResult,
    page_index: Option<u64>,
    page_size: Option<u64>,
    total: i64,
    users: Vec<UserModel>,
) -> bool {
    &&& r.page_index == page_index
    &&& r.page_size == page_size
    &&& r.total_count == Some(total as u64)
    &&& r.users == users
}

/// The lengths of the column names, and the letters that tell apart those of
/// equal length.
proof fn lemma_column_names()
    ensures
        "user_id"@.len() == 7,
        "user_id"@[0] == 'u',
        "username"@.len() == 8,
        "username"@[0] == 'u',
        "first_name"@.len() == 10,
        "first_name"@[0] == 'f',
        "last_name"@.len() == 9,
        "last_name"@[0] == 'l',
        "function"@.len() == 8,
        "function"@[0] == 'f',
        "email"@.len() == 5,
        "email"@[0] == 'e',
        "attributes"@.len() == 10,
        "attributes"@[0] == 'a',
        "created_by"@.len() == 10,
        "created_by"@[0] == 'c',
        "created_at"@.len() == 10,
        "created_at"@[0] == 'c',
        "updated_by"@.len() == 10,
        "updated_by"@[0] == 'u',
        "updated_at"@.len() == 10,
        "updated_at"@[0] == 'u',
        "version"@.len() == 7,
        "version"@[0] == 'v',
        "created_by"@[8] == 'b',
        "created_at"@[8] == 'a',
        "updated_by"@[8] == 'b',
        "updated_at"@[8] == 'a',
{
    reveal_strlit("user_id");
    reveal_strlit("username");
    reveal_strlit("first_name");
    reveal_strlit("last_name");
    reveal_strlit("function");
    reveal_strlit("email");
    reveal_strlit("attributes");
    reveal_strlit("created_by");
    reveal_strlit("created_at");
    reveal_strlit("updated_by");
    reveal_strlit("updated_at");
    reveal_strlit("version");
}

/// The store of users in the USERS table.
pub struct UserProvider;

impl UserProvider {
    pub fn create_user_sql() -> (s: String)
        ensures
            create_user_statement() == Ok::<Seq<char>, Seq<char>>(s@),
    {
        let table = users_table();
        let mut builder = InsertQueryBuilder::new().table_name(table.table_name).columns(
            table.insert_columns,
        ).resolve_conflict(false);
        builder.sql_query().unwrap()
    }

    /// Parameters: the updated columns, then `user_id`.
    pub fn update_user_sql() -> (s: String)
        ensures
            exists|cs: Seq<SqlCriterion>|
                equals_condition(cs, "user_id"@) && update_user_statement(cs) == Ok::<
                    Seq<char>,
                    Seq<char>,
                >(s@),
    {
        let table = users_table();
        let clauses = vec![SqlCriteriaBuilder::is_equals("user_id".to_owned())];
        let ghost cs = clauses@;
        proof {
            assert(cs =~= seq![cs[0]]);
            lemma_total_arity_single(cs[0]);
        }
        let builder = UpdateQueryBuilder::new().table_name(table.table_name).columns(
            table.update_columns,
        ).where_clauses(clauses).manage_version(true);
        let s = builder.sql_query().unwrap();
        assert(equals_condition(cs, "user_id"@));
        assert(update_user_statement(cs) == Ok::<Seq<char>, Seq<char>>(s@));
        s
    }

    pub fn delete_user_sql() -> (s: String)
        ensures
            exists|cs: Seq<SqlCriterion>|
                equals_condition(cs, "user_id"@) && delete_user_statement(cs) == Ok::<
                    Seq<char>,
                    Seq<char>,
                >(s@),
    {
        let table = users_table();
        let clauses = vec![SqlCriteriaBuilder::is_equals("user_id".to_owned())];
        let ghost cs = clauses@;
        proof {
            assert(cs =~= seq![cs[0]]);
            lemma_total_arity_single(cs[0]);
        }
        let builder = DeleteQueryBuilder::new().table_name(table.table_name).where_clauses(
            clauses,
        );
        let s = builder.sql_query().unwrap();
        assert(equals_condition(cs, "user_id"@));
        assert(delete_user_statement(cs) == Ok::<Seq<char>, Seq<char>>(s@));
        s
    }

    /// Selects the user with one `column`.
    fn select_by(column: &str) -> (s: String)
        ensures
            exists|cs: Seq<SqlCriterion>|
                equals_condition(cs, column@) && select_users_statement(cs) == Ok::<
                    Seq<char>,
                    Seq<char>,
                >(s@),
    {
        let table = users_table();
        let clauses = vec![SqlCriteriaBuilder::is_equals(column.to_owned())];
        let ghost cs = clauses@;
        proof {
            assert(cs =~= seq![cs[0]]);
            lemma_total_arity_single(cs[0]);
        }
        let builder = SelectQueryBuilder::new().table_name(table.table_name).where_clauses(
            clauses,
        );
        let s = builder.sql_query().unwrap();
        assert(equals_condition(cs, column@));
        assert(select_users_statement(cs) == Ok::<Seq<char>, Seq<char>>(s@));
        s
    }

    /// Counts the users with one `column`.
    fn count_by(column: &str) -> (s: String)
        ensures
            exists|cs: Seq<SqlCriterion>|
                equals_condition(cs, column@) && count_users_statement(Some(cs)) == Ok::<
                    Seq<char>,
                    Seq<char>,
                >(s@),
    {
        let table = users_table();
        let clauses = vec![SqlCriteriaBuilder::is_equals(column.to_owned())];
        let ghost cs = clauses@;
        proof {
            assert(cs =~= seq![cs[0]]);
            lemma_total_arity_single(cs[0]);
        }
        let builder = SelectCountQueryBuilder::new().table_name(table.table_name).where_clauses(
            clauses,
        );
        let s = builder.sql_query().unwrap();
        assert(equals_condition(cs, column@));
        assert(count_users_statement(Some(cs)) == Ok::<Seq<char>, Seq<char>>(s@));
        s
    }

    /// Parameter: the `user_id`.
    pub fn load_user_by_id_sql() -> (s: String)
        ensures
            exists|cs: Seq<SqlCriterion>|
                equals_condition(cs, "user_id"@) && select_users_statement(cs) == Ok::<
                    Seq<char>,
                    Seq<char>,
                >(s@),
    {
        Self::select_by("user_id")
    }

    /// Parameters: the `count` identifiers.
    pub fn load_user_by_ids_sql(count: usize) -> (s: String)
        requires
            1 + count <= usize::MAX,
        ensures
            exists|cs: Seq<SqlCriterion>|
                cs.len() == 1 && is_fresh_membership(cs[0], "user_id"@, "IN"@, count)
                    && select_users_statement(cs) == Ok::<Seq<char>, Seq<char>>(s@),
    {
        let table = users_table();
        let clauses = vec![SqlCriteriaBuilder::is_in("user_id".to_owned(), count)];
        let ghost cs = clauses@;
        proof {
            assert(cs =~= seq![cs[0]]);
            lemma_total_arity_single(cs[0]);
        }
        let builder = SelectQueryBuilder::new().table_name(table.table_name).where_clauses(
            clauses,
        );
        let s = builder.sql_query().unwrap();
        assert(cs.len() == 1 && is_fresh_membership(cs[0], "user_id"@, "IN"@, count));
        s
    }

    /// Parameter: the username, which is matched against the `email` column.
    pub fn load_user_by_username_sql() -> (s: String)
        ensures
            exists|cs: Seq<SqlCriterion>|
                equals_condition(cs, "email"@) && select_users_statement(cs) == Ok::<
                    Seq<char>,
                    Seq<char>,
                >(s@),
    {
        Self::select_by("email")
    }

    /// Parameter: the email.
    pub fn load_user_by_email_sql() -> (s: String)
        ensures
            exists|cs: Seq<SqlCriterion>|
                equals_condition(cs, "email"@) && select_users_statement(cs) == Ok::<
                    Seq<char>,
                    Seq<char>,
                >(s@),
    {
        Self::select_by("email")
    }

    /// Parameter: the username.
    pub fn user_exists_by_username_sql() -> (s: String)
        ensures
            exists|cs: Seq<SqlCriterion>|
                equals_condition(cs, "username"@) && count_users_statement(Some(cs)) == Ok::<
                    Seq<char>,
                    Seq<char>,
                >(s@),
    {
        Self::count_by("username")
    }

    /// Parameter: the email.
    pub fn user_exists_by_email_sql() -> (s: String)
        ensures
            exists|cs: Seq<SqlCriterion>|
                equals_condition(cs, "email"@) && count_users_statement(Some(cs)) == Ok::<
                    Seq<char>,
                    Seq<char>,
                >(s@),
    {
        Self::count_by("email")
    }

    pub fn count_users_sql() -> (s: String)
        ensures
            count_users_statement(None) == Ok::<Seq<char>, Seq<char>>(s@),
    {
        let table = users_table();
        let builder = SelectCountQueryBuilder::new().table_name(table.table_name);
        builder.sql_query().unwrap()
    }

    /// The listing statement for a page, and its offset and limit. A page is
    /// asked for only when both its index and its size are given.
    pub fn users_page_query(page_index: Option<u64>, page_size: Option<u64>) -> (q: (
        String,
        Option<(i64, i64)>,
    ))
        requires
            page_index matches Some(i) ==> (page_size matches Some(s) ==> i * s <= u64::MAX),
        ensures
            (q.0@, q.1) == page_query(page_index, page_size),
    {
        match (page_index, page_size) {
            (Some(index), Some(size)) => {
                let offset = (index * size) as i64;
                (SELECT_USERS_PAGING.to_owned(), Some((offset, size as i64)))
            },
            _ => (SELECT_USERS.to_owned(), None),
        }
    }

    /// The values bound to the placeholders of the creating statement: the
    /// k-th is what `user` holds for the k-th inserted column.
    pub fn create_user_params<'a>(user: &'a UserModel) -> (p: Vec<UserParam<'a>>)
        ensures
            p@.len() == user_insert_columns().len(),
            forall|k: int|
                0 <= k < p@.len() ==> Some(#[trigger] p@[k]) == column_param(
                    user,
                    user_insert_columns()[k],
                ),
    {
        let p = vec![
            UserParam::Text(&user.user_id),
            UserParam::Text(&user.username),
            UserParam::Text(&user.first_name),
            UserParam::Text(&user.last_name),
            UserParam::Text(&user.function),
            UserParam::Text(&user.email),
            UserParam::Attributes(&user.attributes),
            UserParam::OptionalText(&user.metadata.created_by),
            UserParam::Instant(user.metadata.created_at),
            UserParam::Version(user.metadata.version),
        ];
        proof {
            lemma_column_names();
        }
        p
    }

    /// The values bound to the placeholders of the updating statement: the
    /// k-th updated column's value, then the `user_id` of the WHERE clause.
    pub fn update_user_params<'a>(user: &'a UserModel) -> (p: Vec<UserParam<'a>>)
        ensures
            p@.len() == user_update_columns().len() + 1,
            forall|k: int|
                0 <= k < user_update_columns().len() ==> Some(#[trigger] p@[k]) == column_param(
                    user,
                    user_update_columns()[k],
                ),
            Some(p@[user_update_columns().len() as int]) == column_param(user, "user_id"@),
    {
        let p = vec![
            UserParam::Text(&user.username),
            UserParam::Text(&user.first_name),
            UserParam::Text(&user.last_name),
            UserParam::Text(&user.function),
            UserParam::Text(&user.email),
            UserParam::Attributes(&user.attributes),
            UserParam::OptionalText(&user.metadata.updated_by),
            UserParam::Instant(user.metadata.updated_at),
            UserParam::Text(&user.user_id),
        ];
        proof {
            lemma_column_names();
        }
        p
    }

    /// The page of users that was asked for, with the count of all users.
    pub fn page_result(
        page_index: Option<u64>,
        page_size: Option<u64>,
        total: i64,
        users: Vec<UserModel>,
    ) -> (r: UserPagingResult)
        ensures
            is_page(r, page_index, page_size, total, users),
    {
        UserPagingResult { page_size, page_index, total_count: Some(total as u64), users }
    }

    /// An update succeeded when it changed exactly one row.
    pub fn update_outcome(changed_rows: u64) -> (r: Result<(), String>)
        ensures
            match r {
                Ok(_) => changed_rows == 1,
                Err(e) => changed_rows != 1 && e@ == "Failed to update user"@,
            },
    {
        if changed_rows == 1 {
            Ok(())
        } else {
            Err("Failed to update user".to_owned())
        }
    }

    /// A user exists when the count of the matching rows is positive.
    pub fn exists_from_count(count: i64) -> (b: bool)
        ensures
            b == (count > 0),
    {
        count > 0
    }
}

} // verus!
