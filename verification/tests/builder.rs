use actix_crud::builder::{
    DeleteQueryBuilder, InsertQueryBuilder, PaginationOptions, SelectCountQueryBuilder,
    SelectFromQueryWithPaginationQueryBuilder, SelectQueryBuilder, UpdateQueryBuilder,
};
use actix_crud::criteria::{
    build_sql_where_clause, ComparableSqlClause, InSqlClause, NullSqlClause, SqlCriteria,
    SqlCriteriaBuilder,
};

#[test]
fn test_comparable_sql_clauses() {
    let comparable_operation = ComparableSqlClause::new("id".to_owned(), "=".to_owned());
    assert_eq!(comparable_operation.column, "id");
    assert_eq!(comparable_operation.op, "=");
}

#[test]
fn test_in_sql_clause_sql_clauses() {
    let in_operation = InSqlClause::new("id".to_owned(), "IN".to_owned(), 10);
    assert_eq!(in_operation.column, "id");
    assert_eq!(in_operation.op, "IN");
    assert_eq!(in_operation.in_count, 10);
}

#[test]
fn test_comparable_sql_clause_clause() {
    {
        let mut comp_op = ComparableSqlClause::new("id".to_owned(), "=".to_owned());
        assert_eq!(comp_op.clause(1), "id = $1");
        assert_eq!(comp_op.current_index(), 2);
    }
    {
        let mut comp_op = ComparableSqlClause::new("id".to_owned(), ">".to_owned());
        assert_eq!(comp_op.clause(1), "id > $1");
        assert_eq!(comp_op.current_index(), 2);
    }
    {
        let mut comp_op = ComparableSqlClause::new("id".to_owned(), "<".to_owned());
        assert_eq!(comp_op.clause(1), "id < $1");
        assert_eq!(comp_op.current_index(), 2);
    }
    {
        let mut comp_op = ComparableSqlClause::new("id".to_owned(), "<=".to_owned());
        assert_eq!(comp_op.clause(1), "id <= $1");
        assert_eq!(comp_op.current_index(), 2);
    }
    {
        let mut comp_op = ComparableSqlClause::new("id".to_owned(), ">=".to_owned());
        assert_eq!(comp_op.clause(1), "id >= $1");
        assert_eq!(comp_op.current_index(), 2);
    }
    {
        let mut comp_op = ComparableSqlClause::new("id".to_owned(), "<>".to_owned());
        assert_eq!(comp_op.clause(1), "id <> $1");
        assert_eq!(comp_op.current_index(), 2);
    }
}

#[test]
fn test_in_sql_clause_clause() {
    {
        let mut comp_op = InSqlClause::new("id".to_owned(), "IN".to_owned(), 1);
        assert_eq!(comp_op.clause(1), "id IN ($1)");
        assert_eq!(comp_op.current_index(), 2);
    }
    {
        let mut comp_op = InSqlClause::new("id".to_owned(), "IN".to_owned(), 10);
        assert_eq!(comp_op.clause(1), "id IN ($1,$2,$3,$4,$5,$6,$7,$8,$9,$10)");
        assert_eq!(comp_op.current_index(), 11);
    }
    {
        let mut comp_op = InSqlClause::new("id".to_owned(), "NOT IN".to_owned(), 10);
        assert_eq!(
            comp_op.clause(1),
            "id NOT IN ($1,$2,$3,$4,$5,$6,$7,$8,$9,$10)"
        );
        assert_eq!(comp_op.current_index(), 11);
    }
}

#[test]
fn test_null_sql_clause() {
    {
        let mut null_op = NullSqlClause::new("id".to_owned(), "IS NULL".to_owned());
        assert_eq!(null_op.clause(1), "id IS NULL");
        assert_eq!(null_op.current_index(), 1);
    }
    {
        let mut null_op = NullSqlClause::new("id".to_owned(), "IS NOT NULL".to_owned());
        assert_eq!(null_op.clause(1), "id IS NOT NULL");
        assert_eq!(null_op.current_index(), 1);
    }
}

#[test]
fn test_sql_criteria_builder() {
    {
        assert_eq!(
            SqlCriteriaBuilder::is_equals("id".to_owned()).clause(1),
            "id = $1"
        );
    }
    {
        assert_eq!(
            SqlCriteriaBuilder::is_not_equals("id".to_owned()).clause(1),
            "id <> $1"
        );
    }
    {
        assert_eq!(
            SqlCriteriaBuilder::is_greater_than("id".to_owned()).clause(1),
            "id > $1"
        );
    }
    {
        assert_eq!(
            SqlCriteriaBuilder::is_greater_or_equals("id".to_owned()).clause(1),
            "id >= $1"
        );
    }
    {
        assert_eq!(
            SqlCriteriaBuilder::is_less_than("id".to_owned()).clause(1),
            "id < $1"
        );
    }
    {
        assert_eq!(
            SqlCriteriaBuilder::is_less_or_equals("id".to_owned()).clause(1),
            "id <= $1"
        );
    }
    {
        assert_eq!(
            SqlCriteriaBuilder::is_not_in("id".to_owned(), 10).clause(1),
            "id NOT IN ($1,$2,$3,$4,$5,$6,$7,$8,$9,$10)"
        );
    }
    {
        assert_eq!(
            SqlCriteriaBuilder::is_in("id".to_owned(), 10).clause(1),
            "id IN ($1,$2,$3,$4,$5,$6,$7,$8,$9,$10)"
        );
    }
}

#[test]
fn test_build_sql_where_clause() {
    {
        let mut clauses = vec![
            SqlCriteriaBuilder::is_less_than("id".to_owned()),
            SqlCriteriaBuilder::is_greater_than("tenant".to_owned()),
        ];
        assert_eq!(
            build_sql_where_clause(&mut clauses, 1),
            "id < $1 AND tenant > $2"
        );
    }
    {
        let mut clauses = vec![
            SqlCriteriaBuilder::is_in("id".to_owned(), 10),
            SqlCriteriaBuilder::is_greater_than("tenant".to_owned()),
        ];
        assert_eq!(
            build_sql_where_clause(&mut clauses, 1),
            "id IN ($1,$2,$3,$4,$5,$6,$7,$8,$9,$10) AND tenant > $11"
        );
    }
    {
        let mut clauses = vec![
            SqlCriteriaBuilder::is_equals("id".to_owned()),
            SqlCriteriaBuilder::is_less_than("tenant".to_owned()),
            SqlCriteriaBuilder::is_less_or_equals("version".to_owned()),
            SqlCriteriaBuilder::is_greater_than("name".to_owned()),
            SqlCriteriaBuilder::is_greater_or_equals("description".to_owned()),
        ];
        assert_eq!(
            build_sql_where_clause(&mut clauses, 1),
            "id = $1 AND tenant < $2 AND version <= $3 AND name > $4 AND description >= $5"
        );
    }
    {
        let mut clauses = vec![
            SqlCriteriaBuilder::is_in("id".to_owned(), 2),
            SqlCriteriaBuilder::is_not_in("tenant".to_owned(), 2),
        ];
        assert_eq!(
            build_sql_where_clause(&mut clauses, 1),
            "id IN ($1,$2) AND tenant NOT IN ($3,$4)"
        );
    }
}

#[test]
fn test_select_from_query_with_pagination_query_builder() {
    {
        let mut builder =
            SelectFromQueryWithPaginationQueryBuilder::new("SELECT * FROM USERS".to_string());
        builder.pagination_option(PaginationOptions {
            start_index: 1,
            max_result: 10,
        });
        assert_eq!(
            builder.sql_query().unwrap(),
            "SELECT * FROM USERS OFFSET 1 LIMIT 10"
        );
    }
    {
        let builder =
            SelectFromQueryWithPaginationQueryBuilder::new("SELECT * FROM USERS".to_string());
        assert_eq!(builder.sql_query().unwrap(), "SELECT * FROM USERS");
    }
}

#[test]
fn test_insert_query_builder() {
    {
        let mut builder = InsertQueryBuilder::new()
            .table_name("USERS".to_owned())
            .columns(vec!["id".to_owned()])
            .connection_pool("my_pool".to_owned())
            .resolve_conflict(false);
        assert_eq!(
            builder.sql_query().unwrap(),
            "INSERT INTO USERS (id) VALUES($1)"
        );
    }
    {
        let mut builder = InsertQueryBuilder::new()
            .table_name("USERS".to_owned())
            .columns(vec![
                "id".to_owned(),
                "name".to_owned(),
                "description".to_owned(),
            ])
            .connection_pool("my_pool".to_owned())
            .resolve_conflict(false);
        assert_eq!(
            builder.sql_query().unwrap(),
            "INSERT INTO USERS (id,name,description) VALUES($1,$2,$3)"
        );
    }
}

#[test]
fn test_update_query_builder() {
    {
        let builder = UpdateQueryBuilder::new()
            .table_name("USERS".to_owned())
            .columns(vec![
                "id".to_owned(),
                "name".to_owned(),
                "description".to_owned(),
            ])
            .connection_pool("my_pool".to_owned())
            .where_clauses(vec![SqlCriteriaBuilder::is_less_than("name".to_owned())])
            .manage_version(true);
        assert_eq!(
            builder.sql_query().unwrap(),
            "UPDATE USERS SET id=$1,name=$2,description=$3, version = version + 1 WHERE name < $4"
        );
    }
    {
        let builder = UpdateQueryBuilder::new()
            .table_name("USERS".to_owned())
            .columns(vec![
                "id".to_owned(),
                "name".to_owned(),
                "description".to_owned(),
            ])
            .connection_pool("my_pool".to_owned())
            .where_clauses(vec![
                SqlCriteriaBuilder::is_less_than("name".to_owned()),
                SqlCriteriaBuilder::is_equals("creation_time".to_owned()),
            ])
            .manage_version(true);
        assert_eq!(
            builder.sql_query().unwrap(),
            "UPDATE USERS SET id=$1,name=$2,description=$3, version = version + 1 WHERE name < $4 AND creation_time = $5"
        );
    }
}

#[test]
fn test_select_query_builder() {
    {
        let builder = SelectQueryBuilder::new()
            .table_name("USERS".to_owned())
            .columns(vec![
                "id".to_owned(),
                "name".to_owned(),
                "description".to_owned(),
            ])
            .connection_pool("my_pool".to_owned())
            .where_clauses(vec![SqlCriteriaBuilder::is_less_than("name".to_owned())]);
        assert_eq!(
            builder.sql_query().unwrap(),
            "SELECT id,name,description FROM USERS WHERE name < $1 "
        );
    }
    {
        let builder = SelectQueryBuilder::new()
            .table_name("USERS".to_owned())
            .columns(vec![
                "id".to_owned(),
                "name".to_owned(),
                "description".to_owned(),
            ])
            .connection_pool("my_pool".to_owned())
            .where_clauses(vec![
                SqlCriteriaBuilder::is_less_than("name".to_owned()),
                SqlCriteriaBuilder::is_equals("creation_time".to_owned()),
            ]);
        assert_eq!(
            builder.sql_query().unwrap(),
            "SELECT id,name,description FROM USERS WHERE name < $1 AND creation_time = $2 "
        );
    }
}

#[test]
fn test_select_count_query_builder() {
    {
        let builder = SelectCountQueryBuilder::new()
            .table_name("USERS".to_owned())
            .connection_pool("my_pool".to_owned())
            .where_clauses(vec![SqlCriteriaBuilder::is_less_than("name".to_owned())]);
        assert_eq!(
            builder.sql_query().unwrap(),
            "SELECT COUNT(*) FROM USERS WHERE name < $1"
        );
    }
    {
        let builder = SelectCountQueryBuilder::new()
            .table_name("USERS".to_owned())
            .connection_pool("my_pool".to_owned())
            .where_clauses(vec![
                SqlCriteriaBuilder::is_less_than("name".to_owned()),
                SqlCriteriaBuilder::is_equals("creation_time".to_owned()),
            ]);
        assert_eq!(
            builder.sql_query().unwrap(),
            "SELECT COUNT(*) FROM USERS WHERE name < $1 AND creation_time = $2"
        );
    }
}

#[test]
fn test_delete_query_builder() {
    {
        let builder = DeleteQueryBuilder::new()
            .table_name("USERS".to_owned())
            .connection_pool("my_pool".to_owned())
            .where_clauses(vec![SqlCriteriaBuilder::is_less_than("name".to_owned())]);
        assert_eq!(
            builder.sql_query().unwrap(),
            "DELETE FROM USERS WHERE name < $1"
        );
    }
    {
        let builder = DeleteQueryBuilder::new()
            .table_name("USERS".to_owned())
            .connection_pool("my_pool".to_owned())
            .where_clauses(vec![
                SqlCriteriaBuilder::is_less_than("name".to_owned()),
                SqlCriteriaBuilder::is_equals("creation_time".to_owned()),
            ]);
        assert_eq!(
            builder.sql_query().unwrap(),
            "DELETE FROM USERS WHERE name < $1 AND creation_time = $2"
        );
    }
}
