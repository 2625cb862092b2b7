//! The USERS table: its name, the columns written on insert and on update,
//! and the fixed listing statements.
use vstd::prelude::*;
use crate::text::views;

verus! {

/// A table and the columns that the store writes.
pub struct Table {
    pub table_name: String,
    pub insert_columns: Vec<String>,
    pub update_columns: Vec<String>,
}

pub open spec fn users_table_name() -> Seq<char> {
    "USERS"@
}

/// The columns written when a user is created, in the order of the
/// statement's parameters.
pub open spec fn user_insert_columns() -> Seq<Seq<char>> {
    seq![
        "user_id"@,
        "username"@,
        "first_name"@,
        "last_name"@,
        "function"@,
        "email"@,
        "attributes"@,
        "created_by"@,
        "created_at"@,
        "version"@,
    ]
}

/// The columns written when a user is updated, in the order of the
/// statement's parameters.
pub open spec fn user_update_columns() -> Seq<Seq<char>> {
    seq![
        "username"@,
        "first_name"@,
        "last_name"@,
        "function"@,
        "email"@,
        "attributes"@,
        "updated_by"@,
        "updated_at"@,
    ]
}

/// The USERS table.
pub fn users_table() -> (t: Table)
    ensures
        t.table_name@ == users_table_name(),
        views(t.insert_columns@) == user_insert_columns(),
        views(t.update_columns@) == user_update_columns(),
{
    let insert_columns = vec![
        "user_id".to_owned(),
        "username".to_owned(),
        "first_name".to_owned(),
        "last_name".to_owned(),
        "function".to_owned(),
        "email".to_owned(),
        "attributes".to_owned(),
        "created_by".to_owned(),
        "created_at".to_owned(),
        "version".to_owned(),
    ];
    let update_columns = vec![
        "username".to_owned(),
        "first_name".to_owned(),
        "last_name".to_owned(),
        "function".to_owned(),
        "email".to_owned(),
        "attributes".to_owned(),
        "updated_by".to_owned(),
        "updated_at".to_owned(),
    ];
    assert(views(insert_columns@) =~= user_insert_columns());
    assert(views(update_columns@) =~= user_update_columns());
    Table { table_name: "USERS".to_owned(), insert_columns, update_columns }
}

/// Counts the users.
pub const SELECT_COUNT_USERS: &'static str = "SELECT COUNT(*) FROM USERS";

/// Lists one page of users: `$1` rows skipped, at most `$2` kept.
pub const SELECT_USERS_PAGING: &'static str = "SELECT u.* FROM USERS u OFFSET $1 LIMIT $2";

/// Lists every user.
pub const SELECT_USERS: &'static str = "SELECT u.* FROM USERS u";

} // verus!
