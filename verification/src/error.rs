//! Error types, and the mapping of storage failures onto database errors.

use diesel::result::DatabaseErrorKind as DieselKind;
use diesel::result::Error as DieselError;
use vstd::prelude::*;

verus! {

/// A `diesel` query error, opaque to the specifications here; `error_variant`
/// and `error_text` read it.
#[verifier::external_type_specification]
#[verifier::external_body]
pub struct ExDieselError(diesel::result::Error);

/// The kind of a database-side failure that `diesel` reports, opaque to the
/// specifications here; `error_kind` reads it.
#[verifier::external_type_specification]
#[verifier::external_body]
pub struct ExDieselErrorKind(diesel::result::DatabaseErrorKind);

/// The variant of a `diesel::result::Error`, without its payload but for the
/// kind of a database-side failure. `Unlisted` stands for a variant that a
/// later `diesel` adds (the enum is non-exhaustive).
#[derive(Debug, Clone, Copy)]
pub enum ErrorVariant {
    InvalidCString,
    DatabaseError(diesel::result::DatabaseErrorKind),
    NotFound,
    QueryBuilderError,
    DeserializationError,
    SerializationError,
    RollbackErrorOnCommit,
    RollbackTransaction,
    AlreadyInTransaction,
    NotInTransaction,
    BrokenTransactionManager,
    IntegerConversion,
    Unlisted,
}

/// The kind of a database-side failure, one variant for each kind that
/// `diesel` names. `Unlisted` stands for a kind that a later `diesel` adds.
#[derive(Debug, Clone, Copy, PartialEq, Eq)]
pub enum FailureKind {
    UniqueViolation,
    ForeignKeyViolation,
    UnableToSendCommand,
    SerializationFailure,
    ReadOnlyTransaction,
    RestrictViolation,
    NotNullViolation,
    CheckViolation,
    ExclusionViolation,
    ClosedConnection,
    Unknown,
    Unlisted,
}

/// A storage failure as plain values: one variant for each variant of
/// `diesel::result::Error`, carrying the error's rendered text where the
/// adapter may report it (for a database-side failure, the database's message).
#[derive(Debug, Clone, PartialEq, Eq)]
pub enum StoreFailure {
    InvalidCString(String),
    Database(FailureKind, String),
    NotFound,
    QueryBuilderError(String),
    DeserializationError(String),
    SerializationError(String),
    RollbackErrorOnCommit(String),
    RollbackTransaction,
    AlreadyInTransaction(String),
    NotInTransaction(String),
    BrokenTransactionManager(String),
    IntegerConversion(String),
    Unlisted(String),
}

/// Database error categories that the authentication framework distinguishes.
#[derive(Debug, Clone, PartialEq, Eq)]
pub enum DatabaseError {
    /// The connection could not be made or used.
    Connection(String),
    /// A query failed.
    Query(String),
    /// A migration failed.
    Migration(String),
    /// A constraint was violated.
    Constraint(String),
    /// A transaction failed.
    Transaction(String),
}

/// Errors specific to the adapter.
#[derive(Debug)]
pub enum AdapterError {
    /// Database query or connection error from the query layer.
    Database(diesel::result::Error),
    /// Connection pool error.
    Pool(String),
    /// Migration execution error.
    Migration(String),
    /// Data conversion error (e.g., invalid UUID, timestamp, JSON).
    Conversion(String),
    /// Connection setup error (pragmas, initialization).
    Connection(String),
}

/// The variant of a `diesel` error, as `error_variant` reads it.
pub uninterp spec fn diesel_error_variant(err: diesel::result::Error) -> ErrorVariant;

/// The text that `diesel`'s `Display` writes for an error.
pub uninterp spec fn diesel_error_text(err: diesel::result::Error) -> Seq<char>;

/// A `diesel` database error kind, as `error_kind` reads it.
pub uninterp spec fn diesel_error_kind(kind: diesel::result::DatabaseErrorKind) -> FailureKind;

/// Tells the variants of a `diesel::result::Error` apart, one arm each,
/// keeping the kind of a database-side failure. The contract names the
/// result, since the specifications here cannot see the variants of the
/// outside enum.
#[verifier::external_body]
fn error_variant(err: &DieselError) -> (r: ErrorVariant)
    ensures
        r == diesel_error_variant(*err),
{
    match err {
        DieselError::InvalidCString(_) => ErrorVariant::InvalidCString,
        DieselError::DatabaseError(kind, _) => ErrorVariant::DatabaseError(*kind),
        DieselError::NotFound => ErrorVariant::NotFound,
        DieselError::QueryBuilderError(_) => ErrorVariant::QueryBuilderError,
        DieselError::DeserializationError(_) => ErrorVariant::DeserializationError,
        DieselError::SerializationError(_) => ErrorVariant::SerializationError,
        DieselError::RollbackErrorOnCommit { .. } => ErrorVariant::RollbackErrorOnCommit,
        DieselError::RollbackTransaction => ErrorVariant::RollbackTransaction,
        DieselError::AlreadyInTransaction => ErrorVariant::AlreadyInTransaction,
        DieselError::NotInTransaction => ErrorVariant::NotInTransaction,
        DieselError::BrokenTransactionManager => ErrorVariant::BrokenTransactionManager,
        DieselError::IntegerConversion(_) => ErrorVariant::IntegerConversion,
        _ => ErrorVariant::Unlisted,
    }
}

/// Calls `to_string` on a `diesel::result::Error`. Its `Display` writes, for a
/// database-side failure, the database's message (`message()` of the error
/// information) and, for the other variants, a text of their own; the
/// contract names the text.
#[verifier::external_body]
fn error_text(err: &DieselError) -> (s: String)
    ensures
        s@ == diesel_error_text(*err),
{
    err.to_string()
}

/// Tells the variants of a `diesel::result::DatabaseErrorKind` apart, one arm
/// each. The contract names the result, since the specifications here cannot
/// see the variants of the outside enum.
#[verifier::external_body]
fn error_kind(kind: DieselKind) -> (r: FailureKind)
    ensures
        r == diesel_error_kind(kind),
{
    match kind {
        DieselKind::UniqueViolation => FailureKind::UniqueViolation,
        DieselKind::ForeignKeyViolation => FailureKind::ForeignKeyViolation,
        DieselKind::UnableToSendCommand => FailureKind::UnableToSendCommand,
        DieselKind::SerializationFailure => FailureKind::SerializationFailure,
        DieselKind::ReadOnlyTransaction => FailureKind::ReadOnlyTransaction,
        DieselKind::RestrictViolation => FailureKind::RestrictViolation,
        DieselKind::NotNullViolation => FailureKind::NotNullViolation,
        DieselKind::CheckViolation => FailureKind::CheckViolation,
        DieselKind::ExclusionViolation => FailureKind::ExclusionViolation,
        DieselKind::ClosedConnection => FailureKind::ClosedConnection,
        DieselKind::Unknown => FailureKind::Unknown,
        _ => FailureKind::Unlisted,
    }
}

/// `f` is the plain reading of a `diesel` error of variant `v` whose rendered
/// text is `text`.
pub open spec fn is_failure_of(v: ErrorVariant, text: Seq<char>, f: StoreFailure) -> bool {
    match v {
        ErrorVariant::InvalidCString => f matches StoreFailure::InvalidCString(m) && m@ == text,
        ErrorVariant::DatabaseError(kind) => f matches StoreFailure::Database(k, m) && k
            == diesel_error_kind(kind) && m@ == text,
        ErrorVariant::NotFound => f is NotFound,
        ErrorVariant::QueryBuilderError => f matches StoreFailure::QueryBuilderError(m) && m@
            == text,
        ErrorVariant::DeserializationError => f matches StoreFailure::DeserializationError(m)
            && m@ == text,
        ErrorVariant::SerializationError => f matches StoreFailure::SerializationError(m) && m@
            == text,
        ErrorVariant::RollbackErrorOnCommit => f matches StoreFailure::RollbackErrorOnCommit(m)
            && m@ == text,
        ErrorVariant::RollbackTransaction => f is RollbackTransaction,
        ErrorVariant::AlreadyInTransaction => f matches StoreFailure::AlreadyInTransaction(m)
            && m@ == text,
        ErrorVariant::NotInTransaction => f matches StoreFailure::NotInTransaction(m) && m@
            == text,
        ErrorVariant::BrokenTransactionManager => f matches StoreFailure::BrokenTransactionManager(
            m,
        ) && m@ == text,
        ErrorVariant::IntegerConversion => f matches StoreFailure::IntegerConversion(m) && m@
            == text,
        ErrorVariant::Unlisted => f matches StoreFailure::Unlisted(m) && m@ == text,
    }
}

/// Read a `diesel` error as plain values.
pub fn store_failure_of(err: &DieselError) -> (r: StoreFailure)
    ensures
        is_failure_of(diesel_error_variant(*err), diesel_error_text(*err), r),
{
    let text = error_text(err);
    match error_variant(err) {
        ErrorVariant::InvalidCString => StoreFailure::InvalidCString(text),
        ErrorVariant::DatabaseError(kind) => StoreFailure::Database(error_kind(kind), text),
        ErrorVariant::NotFound => StoreFailure::NotFound,
        ErrorVariant::QueryBuilderError => StoreFailure::QueryBuilderError(text),
        ErrorVariant::DeserializationError => StoreFailure::DeserializationError(text),
        ErrorVariant::SerializationError => StoreFailure::SerializationError(text),
        ErrorVariant::RollbackErrorOnCommit => StoreFailure::RollbackErrorOnCommit(text),
        ErrorVariant::RollbackTransaction => StoreFailure::RollbackTransaction,
        ErrorVariant::AlreadyInTransaction => StoreFailure::AlreadyInTransaction(text),
        ErrorVariant::NotInTransaction => StoreFailure::NotInTransaction(text),
        ErrorVariant::BrokenTransactionManager => StoreFailure::BrokenTransactionManager(text),
        ErrorVariant::IntegerConversion => StoreFailure::IntegerConversion(text),
        ErrorVariant::Unlisted => StoreFailure::Unlisted(text),
    }
}

/// A unique or foreign-key violation: the database-side failures that the
/// framework sees as constraint errors.
pub open spec fn is_constraint_kind(kind: FailureKind) -> bool {
    kind is UniqueViolation || kind is ForeignKeyViolation
}

/// The database error that a storage failure is reported as, from what
/// decides it: a missing row is a query error, a rollback is a transaction
/// error, a unique or foreign-key violation is a constraint error carrying the
/// failure's text (the database's message), and anything else is a query
/// error with that text.
pub open spec fn reported(
    not_found: bool,
    rolled_back: bool,
    constraint: bool,
    text: Seq<char>,
    err: DatabaseError,
) -> bool {
    if not_found {
        err matches DatabaseError::Query(m) && m@ == "Record not found"@
    } else if rolled_back {
        err matches DatabaseError::Transaction(m) && m@ == "Transaction rolled back"@
    } else if constraint {
        err matches DatabaseError::Constraint(m) && m@ == text
    } else {
        err matches DatabaseError::Query(m) && m@ == text
    }
}

/// The text that a storage failure carries; none for a missing row or a
/// rollback.
pub open spec fn failure_text(failure: StoreFailure) -> Seq<char> {
    match failure {
        StoreFailure::InvalidCString(t) => t@,
        StoreFailure::Database(_, t) => t@,
        StoreFailure::NotFound => Seq::empty(),
        StoreFailure::QueryBuilderError(t) => t@,
        StoreFailure::DeserializationError(t) => t@,
        StoreFailure::SerializationError(t) => t@,
        StoreFailure::RollbackErrorOnCommit(t) => t@,
        StoreFailure::RollbackTransaction => Seq::empty(),
        StoreFailure::AlreadyInTransaction(t) => t@,
        StoreFailure::NotInTransaction(t) => t@,
        StoreFailure::BrokenTransactionManager(t) => t@,
        StoreFailure::IntegerConversion(t) => t@,
        StoreFailure::Unlisted(t) => t@,
    }
}

/// The database error that a storage failure is reported as.
pub open spec fn reports_as(failure: StoreFailure, err: DatabaseError) -> bool {
    reported(
        failure is NotFound,
        failure is RollbackTransaction,
        (failure matches StoreFailure::Database(kind, _) && is_constraint_kind(kind)),
        failure_text(failure),
        err,
    )
}

/// The database error that a `diesel` error of variant `v`, rendered as
/// `text`, is reported as.
pub open spec fn diesel_reports_as(v: ErrorVariant, text: Seq<char>, err: DatabaseError) -> bool {
    reported(
        v is NotFound,
        v is RollbackTransaction,
        (v matches ErrorVariant::DatabaseError(kind) && is_constraint_kind(diesel_error_kind(kind))),
        text,
        err,
    )
}

/// Report a storage failure as a database error.
pub fn failure_to_database_error(failure: StoreFailure) -> (r: DatabaseError)
    ensures
        reports_as(failure, r),
{
    match failure {
        StoreFailure::NotFound => DatabaseError::Query(String::from_str("Record not found")),
        StoreFailure::Database(kind, msg) => match kind {
            FailureKind::UniqueViolation => DatabaseError::Constraint(msg),
            FailureKind::ForeignKeyViolation => DatabaseError::Constraint(msg),
            _ => DatabaseError::Query(msg),
        },
        StoreFailure::RollbackTransaction => DatabaseError::Transaction(
            String::from_str("Transaction rolled back"),
        ),
        StoreFailure::InvalidCString(text) => DatabaseError::Query(text),
        StoreFailure::QueryBuilderError(text) => DatabaseError::Query(text),
        StoreFailure::DeserializationError(text) => DatabaseError::Query(text),
        StoreFailure::SerializationError(text) => DatabaseError::Query(text),
        StoreFailure::RollbackErrorOnCommit(text) => DatabaseError::Query(text),
        StoreFailure::AlreadyInTransaction(text) => DatabaseError::Query(text),
        StoreFailure::NotInTransaction(text) => DatabaseError::Query(text),
        StoreFailure::BrokenTransactionManager(text) => DatabaseError::Query(text),
        StoreFailure::IntegerConversion(text) => DatabaseError::Query(text),
        StoreFailure::Unlisted(text) => DatabaseError::Query(text),
    }
}

/// Convert a `diesel` error into a database error.
pub fn diesel_to_database_error(err: DieselError) -> (r: DatabaseError)
    ensures
        diesel_reports_as(diesel_error_variant(err), diesel_error_text(err), r),
{
    let failure = store_failure_of(&err);
    failure_to_database_error(failure)
}

/// The database error that an adapter error is reported as.
pub open spec fn adapter_error_reports_as(err: AdapterError, r: DatabaseError) -> bool {
    match err {
        AdapterError::Database(e) => diesel_reports_as(
            diesel_error_variant(e),
            diesel_error_text(e),
            r,
        ),
        AdapterError::Pool(msg) => r == DatabaseError::Connection(msg),
        AdapterError::Migration(msg) => r == DatabaseError::Migration(msg),
        AdapterError::Conversion(msg) => r == DatabaseError::Query(msg),
        AdapterError::Connection(msg) => r == DatabaseError::Connection(msg),
    }
}

impl AdapterError {
    /// The database error under which the framework sees this adapter error.
    pub fn into_database_error(self) -> (r: DatabaseError)
        ensures
            adapter_error_reports_as(self, r),
    {
        match self {
            AdapterError::Database(e) => diesel_to_database_error(e),
            AdapterError::Pool(msg) => DatabaseError::Connection(msg),
            AdapterError::Migration(msg) => DatabaseError::Migration(msg),
            AdapterError::Conversion(msg) => DatabaseError::Query(msg),
            AdapterError::Connection(msg) => DatabaseError::Connection(msg),
        }
    }
}

} // verus!
