//! How the SQLite audit-log database is opened: the connection options read
//! from its URL. Opening the pool, running migrations and the queries are
//! disk I/O, performed by the runtime around the library.

use vstd::prelude::*;

verus! {

#[verifier::external_type_specification]
#[verifier::external_body]
pub struct ExSqliteOptions(sqlx::sqlite::SqliteConnectOptions);

#[verifier::external_type_specification]
#[verifier::external_body]
pub struct ExSqlxFailure(sqlx::Error);

/// Whether `sqlx` reads `url` as SQLite connection options: after an
/// optional `sqlite://` or `sqlite:` scheme, a percent-encoded file name (or
/// `:memory:`) and known query parameters with valid values.
pub uninterp spec fn sqlite_url_accepted(url: Seq<char>) -> bool;

/// Parses SQLite connection options from `url` with
/// `<SqliteConnectOptions as FromStr>::from_str`, which reads the URL and
/// touches no file. It succeeds exactly when the URL is accepted.
#[verifier::external_body]
fn parse_sqlite_options(url: &str) -> (options: Result<
    sqlx::sqlite::SqliteConnectOptions,
    sqlx::Error,
>)
    ensures
        options is Ok <==> sqlite_url_accepted(url@),
{
    <sqlx::sqlite::SqliteConnectOptions as std::str::FromStr>::from_str(url)
}

/// SQLite connection options, with whether the database file is created
/// when it does not exist. Only [`with_create_if_missing`] builds one, so the
/// flag always is the one the options were set with.
pub struct SqliteOptions {
    options: sqlx::sqlite::SqliteConnectOptions,
    create_if_missing: bool,
}

impl SqliteOptions {
    /// Whether the database file is created when it does not exist.
    pub closed spec fn creates_if_missing(self) -> bool {
        self.create_if_missing
    }

    /// Returns whether the database file is created when it does not exist.
    pub fn create_if_missing(&self) -> (create: bool)
        ensures
            create == self.creates_if_missing(),
    {
        self.create_if_missing
    }

    /// Returns the connection options, to connect with.
    pub fn into_options(self) -> sqlx::sqlite::SqliteConnectOptions {
        self.options
    }
}

/// Sets, with `SqliteConnectOptions::create_if_missing`, whether the
/// database file is created when it does not exist, and records the flag
/// beside the options.
#[verifier::external_body]
fn with_create_if_missing(options: sqlx::sqlite::SqliteConnectOptions, create: bool) -> (set:
    SqliteOptions)
    ensures
        set.creates_if_missing() == create,
{
    SqliteOptions { options: options.create_if_missing(create), create_if_missing: create }
}

/// The options the audit-log database is opened with: those read from `url`,
/// creating the database file when it does not exist. Fails with the `sqlx`
/// error exactly when `sqlx` does not accept the URL.
pub fn sqlite_connect_options(url: &str) -> (options: Result<SqliteOptions, sqlx::Error>)
    ensures
        options is Ok <==> sqlite_url_accepted(url@),
        options matches Ok(o) ==> o.creates_if_missing(),
{
    match parse_sqlite_options(url) {
        Ok(parsed) => Ok(with_create_if_missing(parsed, true)),
        Err(e) => Err(e),
    }
}

} // verus!
