//! Which database the service connects to.
use vstd::prelude::*;

verus! {

/// The kind of database the data lives in.
#[derive(Clone, Copy, Debug, PartialEq, Eq, Structural)]
pub enum DatabaseBackend {
    /// A SQLite file in the data directory.
    Sqlite,
    /// A PostgreSQL server at a configured URL.
    Postgres,
}

/// The database section of the configuration.
#[derive(Debug, PartialEq, Eq)]
pub struct DatabaseConfig {
    pub backend: DatabaseBackend,
    pub postgres_url: Option<String>,
}

/// Where to connect.
#[derive(Debug, PartialEq, Eq)]
pub enum ConnectTarget {
    /// The SQLite file `db.sqlite` in the data directory.
    SqliteFile,
    /// The given URL.
    Url(String),
}

/// Why no database can be opened.
#[derive(Clone, Copy, Debug, PartialEq, Eq)]
pub enum ConfigError {
    /// PostgreSQL is chosen but no URL is configured.
    UrlNotSet,
}

impl ConfigError {
    /// The message of the error.
    pub fn message(&self) -> (r: &'static str)
        ensures
            r@ == "Database URL has not been set."@,
    {
        "Database URL has not been set."
    }
}

impl DatabaseConfig {
    /// Where the configuration says to connect.
    pub fn connect_target(&self) -> (r: Result<ConnectTarget, ConfigError>)
        ensures
            r == match self.backend {
                DatabaseBackend::Sqlite => Ok(ConnectTarget::SqliteFile),
                DatabaseBackend::Postgres => match self.postgres_url {
                    Some(url) => Ok(ConnectTarget::Url(url)),
                    None => Err(ConfigError::UrlNotSet),
                },
            },
    {
        match self.backend {
            DatabaseBackend::Sqlite => Ok(ConnectTarget::SqliteFile),
            DatabaseBackend::Postgres => match &self.postgres_url {
                Some(url) => Ok(ConnectTarget::Url(url.clone())),
                None => Err(ConfigError::UrlNotSet),
            },
        }
    }
}

/// The name of the SQLite file in the data directory.
pub fn sqlite_file_name() -> (r: &'static str)
    ensures
        r@ == "db.sqlite"@,
{
    "db.sqlite"
}

/// The connection URL of the SQLite file at `path`: `sqlite:` and the path.
pub fn sqlite_url(path: &str) -> (r: String)
    ensures
        r@ == "sqlite:"@ + path@,
{
    String::from_str("sqlite:").concat(path)
}

} // verus!
