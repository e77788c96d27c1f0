use vstd::prelude::*;
use crate::config::ConfigModel;
use crate::config::DatabaseConfig;

verus! {

/// Declares sqlx's `PgConnectOptions` so that it can pass through
/// signatures; the library never looks inside a value of it.
#[verifier::external_type_specification]
#[verifier::external_body]
pub struct ExPgConnectOptions(sqlx::postgres::PgConnectOptions);

/// Declares sqlx's `Error` so that a query outcome can pass through
/// signatures; the library never looks inside a value of it.
#[verifier::external_type_specification]
#[verifier::external_body]
pub struct ExSqlxError(sqlx::Error);

/// Declares tokio's runtime `Handle` so that pool construction can name the
/// runtime it spawns on; the library never looks inside a value of it.
#[verifier::external_type_specification]
#[verifier::external_body]
pub struct ExTokioHandle(tokio::runtime::Handle);

/// The connection parameters a set of Postgres options carries.
pub uninterp spec fn spec_options_config(options: sqlx::postgres::PgConnectOptions) -> ConfigModel;

/// Relies on sqlx's `PgConnectOptions::new`: default connection options,
/// drawn from the process environment; no parameter of the result is
/// claimed, and the caller overrides every field the service cares about.
pub assume_specification[ sqlx::postgres::PgConnectOptions::new ]() -> sqlx::postgres::PgConnectOptions;

/// Relies on sqlx's `PgConnectOptions::host`: stores exactly the given host
/// and leaves every other parameter as it was.
pub assume_specification[ sqlx::postgres::PgConnectOptions::host ](
    o: sqlx::postgres::PgConnectOptions,
    host: &str,
) -> (r: sqlx::postgres::PgConnectOptions)
    ensures
        spec_options_config(r) == (ConfigModel { host: host@, ..spec_options_config(o) }),
;

/// Relies on sqlx's `PgConnectOptions::port`: stores exactly the given port
/// and leaves every other parameter as it was.
pub assume_specification[ sqlx::postgres::PgConnectOptions::port ](
    o: sqlx::postgres::PgConnectOptions,
    port: u16,
) -> (r: sqlx::postgres::PgConnectOptions)
    ensures
        spec_options_config(r) == (ConfigModel { port: port, ..spec_options_config(o) }),
;

/// Relies on sqlx's `PgConnectOptions::username`: stores exactly the given
/// user name and leaves every other parameter as it was.
pub assume_specification[ sqlx::postgres::PgConnectOptions::username ](
    o: sqlx::postgres::PgConnectOptions,
    username: &str,
) -> (r: sqlx::postgres::PgConnectOptions)
    ensures
        spec_options_config(r) == (ConfigModel { username: username@, ..spec_options_config(o) }),
;

/// Relies on sqlx's `PgConnectOptions::password`: stores exactly the given
/// password and leaves every other parameter as it was.
pub assume_specification[ sqlx::postgres::PgConnectOptions::password ](
    o: sqlx::postgres::PgConnectOptions,
    password: &str,
) -> (r: sqlx::postgres::PgConnectOptions)
    ensures
        spec_options_config(r) == (ConfigModel { password: password@, ..spec_options_config(o) }),
;

/// Relies on sqlx's `PgConnectOptions::database`: stores exactly the given
/// database name and leaves every other parameter as it was.
pub assume_specification[ sqlx::postgres::PgConnectOptions::database ](
    o: sqlx::postgres::PgConnectOptions,
    database: &str,
) -> (r: sqlx::postgres::PgConnectOptions)
    ensures
        spec_options_config(r) == (ConfigModel { database: database@, ..spec_options_config(o) }),
;

/// Builds the Postgres connection options that mirror `cfg`, field for field.
pub fn connect_options_from(cfg: &DatabaseConfig) -> (options: sqlx::postgres::PgConnectOptions)
    ensures
        spec_options_config(options) == cfg@,
{
    let options = sqlx::postgres::PgConnectOptions::new()
        .host(cfg.host.as_str())
        .port(cfg.port)
        .username(cfg.username.as_str())
        .password(cfg.password.as_str())
        .database(cfg.database.as_str());
    proof {
        assert(spec_options_config(options) =~= cfg@);
    }
    options
}

/// An opaque, shared, thread-safe handle to the Postgres connection pool.
/// The handle is valid as soon as it exists, even before any physical
/// connection does: first use triggers the connection, not construction.
/// It holds sqlx's `Pool`, whose generic declaration Verus refuses, behind
/// an opaque struct.
#[verifier::external_body]
pub struct PoolHandle {
    pub pool: sqlx::PgPool,
}

/// The connection parameters a pool handle was built with, and which every
/// connection attempt through it presents.
pub uninterp spec fn spec_pool_config(handle: PoolHandle) -> ConfigModel;

/// Relies on tokio's `Handle::enter` and sqlx's `Pool::connect_lazy_with`:
/// with the runtime context entered, the pool handle is built and returned
/// at once — sqlx spawns its idle-connection upkeep on that runtime rather
/// than panicking for want of one — and no connection is attempted before
/// the pool's first use. The pool stores the options it is given and uses
/// them for every later connection attempt.
#[verifier::external_body]
fn pg_connect_lazy_with(
    runtime: &tokio::runtime::Handle,
    options: sqlx::postgres::PgConnectOptions,
) -> (handle: PoolHandle)
    ensures
        spec_pool_config(handle) == spec_options_config(options),
{
    let _guard = runtime.enter();
    PoolHandle { pool: sqlx::PgPool::connect_lazy_with(options) }
}

/// Turns the connection parameters into a shared pool handle that presents
/// exactly those parameters on every connection attempt. The pool is lazy:
/// this returns at once, succeeds whether or not the database is reachable,
/// and connects only when a query is first issued. `runtime` is the runtime
/// the pool's background upkeep runs on.
pub fn connect_database_with(
    runtime: &tokio::runtime::Handle,
    cfg: DatabaseConfig,
) -> (handle: PoolHandle)
    ensures
        spec_pool_config(handle) == cfg@,
{
    pg_connect_lazy_with(runtime, connect_options_from(&cfg))
}

} // verus!
