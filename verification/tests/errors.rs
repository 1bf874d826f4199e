use better_auth_diesel_sqlite::error::{
    diesel_to_database_error, failure_to_database_error, store_failure_of, DatabaseError,
    FailureKind, StoreFailure,
};
use better_auth_diesel_sqlite::AdapterError;

#[test]
fn not_found_is_query_error() {
    assert_eq!(
        failure_to_database_error(StoreFailure::NotFound),
        DatabaseError::Query("Record not found".to_string())
    );
}

#[test]
fn unique_and_foreign_key_violations_are_constraint_errors() {
    assert_eq!(
        failure_to_database_error(StoreFailure::Database(
            FailureKind::UniqueViolation,
            "UNIQUE constraint failed: users.email".to_string()
        )),
        DatabaseError::Constraint("UNIQUE constraint failed: users.email".to_string())
    );
    assert_eq!(
        failure_to_database_error(StoreFailure::Database(
            FailureKind::ForeignKeyViolation,
            "FOREIGN KEY constraint failed".to_string()
        )),
        DatabaseError::Constraint("FOREIGN KEY constraint failed".to_string())
    );
}

#[test]
fn other_database_failures_are_query_errors() {
    assert_eq!(
        failure_to_database_error(StoreFailure::Database(
            FailureKind::Unknown,
            "no such table: users".to_string()
        )),
        DatabaseError::Query("no such table: users".to_string())
    );
    assert_eq!(
        failure_to_database_error(StoreFailure::Database(
            FailureKind::CheckViolation,
            "CHECK constraint failed: age".to_string()
        )),
        DatabaseError::Query("CHECK constraint failed: age".to_string())
    );
    assert_eq!(
        failure_to_database_error(StoreFailure::BrokenTransactionManager("boom".to_string())),
        DatabaseError::Query("boom".to_string())
    );
}

#[test]
fn rollback_is_transaction_error() {
    assert_eq!(
        failure_to_database_error(StoreFailure::RollbackTransaction),
        DatabaseError::Transaction("Transaction rolled back".to_string())
    );
}

#[test]
fn diesel_not_found_maps_to_record_not_found() {
    assert_eq!(
        diesel_to_database_error(diesel::result::Error::NotFound),
        DatabaseError::Query("Record not found".to_string())
    );
}

#[test]
fn diesel_rollback_maps_to_transaction_error() {
    assert_eq!(
        diesel_to_database_error(diesel::result::Error::RollbackTransaction),
        DatabaseError::Transaction("Transaction rolled back".to_string())
    );
}

#[test]
fn diesel_unique_violation_maps_to_constraint() {
    let err = diesel::result::Error::DatabaseError(
        diesel::result::DatabaseErrorKind::UniqueViolation,
        Box::new("UNIQUE constraint failed: sessions.token".to_string()),
    );
    assert_eq!(
        diesel_to_database_error(err),
        DatabaseError::Constraint("UNIQUE constraint failed: sessions.token".to_string())
    );
}

#[test]
fn diesel_foreign_key_violation_maps_to_constraint() {
    let err = diesel::result::Error::DatabaseError(
        diesel::result::DatabaseErrorKind::ForeignKeyViolation,
        Box::new("FOREIGN KEY constraint failed".to_string()),
    );
    assert_eq!(
        diesel_to_database_error(err),
        DatabaseError::Constraint("FOREIGN KEY constraint failed".to_string())
    );
}

#[test]
fn diesel_other_database_error_maps_to_query() {
    let err = diesel::result::Error::DatabaseError(
        diesel::result::DatabaseErrorKind::NotNullViolation,
        Box::new("NOT NULL constraint failed: users.email".to_string()),
    );
    assert_eq!(
        diesel_to_database_error(err),
        DatabaseError::Query("NOT NULL constraint failed: users.email".to_string())
    );
}

#[test]
fn diesel_other_error_maps_to_its_text() {
    let err = diesel::result::Error::AlreadyInTransaction;
    let text = err.to_string();
    assert_eq!(diesel_to_database_error(err), DatabaseError::Query(text));
}

#[test]
fn adapter_errors_map_to_database_errors() {
    assert_eq!(
        AdapterError::Pool("p".to_string()).into_database_error(),
        DatabaseError::Connection("p".to_string())
    );
    assert_eq!(
        AdapterError::Migration("m".to_string()).into_database_error(),
        DatabaseError::Migration("m".to_string())
    );
    assert_eq!(
        AdapterError::Conversion("c".to_string()).into_database_error(),
        DatabaseError::Query("c".to_string())
    );
    assert_eq!(
        AdapterError::Connection("x".to_string()).into_database_error(),
        DatabaseError::Connection("x".to_string())
    );
    assert_eq!(
        AdapterError::Database(diesel::result::Error::NotFound).into_database_error(),
        DatabaseError::Query("Record not found".to_string())
    );
}

#[test]
fn diesel_errors_read_as_plain_values() {
    assert_eq!(store_failure_of(&diesel::result::Error::NotFound), StoreFailure::NotFound);
    assert_eq!(
        store_failure_of(&diesel::result::Error::RollbackTransaction),
        StoreFailure::RollbackTransaction
    );
    let err = diesel::result::Error::DatabaseError(
        diesel::result::DatabaseErrorKind::CheckViolation,
        Box::new("CHECK constraint failed: age".to_string()),
    );
    assert_eq!(
        store_failure_of(&err),
        StoreFailure::Database(
            FailureKind::CheckViolation,
            "CHECK constraint failed: age".to_string()
        )
    );
    let err = diesel::result::Error::DatabaseError(
        diesel::result::DatabaseErrorKind::ForeignKeyViolation,
        Box::new("FOREIGN KEY constraint failed".to_string()),
    );
    assert_eq!(
        store_failure_of(&err),
        StoreFailure::Database(
            FailureKind::ForeignKeyViolation,
            "FOREIGN KEY constraint failed".to_string()
        )
    );
    let err = diesel::result::Error::NotInTransaction;
    let text = err.to_string();
    assert_eq!(store_failure_of(&err), StoreFailure::NotInTransaction(text));
    let err = diesel::result::Error::BrokenTransactionManager;
    let text = err.to_string();
    assert_eq!(store_failure_of(&err), StoreFailure::BrokenTransactionManager(text));
}

#[test]
fn diesel_check_violation_is_a_query_error() {
    let err = diesel::result::Error::DatabaseError(
        diesel::result::DatabaseErrorKind::CheckViolation,
        Box::new("CHECK constraint failed: age".to_string()),
    );
    assert_eq!(
        diesel_to_database_error(err),
        DatabaseError::Query("CHECK constraint failed: age".to_string())
    );
}
