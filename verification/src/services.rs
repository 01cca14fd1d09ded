//! The services that hold the connections of the ingestor: to the column store,
//! to the buffer store, and the configuration of its server.
use vstd::prelude::*;

use crate::config::{ClickhouseConfig, GrpcConfig, RedisConfig};

verus! {

#[verifier::external_type_specification]
#[verifier::external_body]
pub struct ExClickhouseClient(clickhouse::Client);

#[verifier::external_type_specification]
#[verifier::external_body]
pub struct ExMultiplexedConnection(redis::aio::MultiplexedConnection);

/// The default database that `clickhouse::Client::database` reports for a client:
/// the one last set by `with_database`, or by a `database` parameter of the URL
/// given to `with_url`, if any.
pub uninterp spec fn clickhouse_database(client: clickhouse::Client) -> Option<Seq<char>>;

/// The URL that a `clickhouse::Client` holds and sends its requests to: its
/// `url` field, last set by `with_url`. No getter reads it back.
pub uninterp spec fn clickhouse_url(client: clickhouse::Client) -> Seq<char>;

/// The user that a `clickhouse::Client` authenticates as: the `user` of its
/// credentials, last set by `with_user`. No getter reads it back.
pub uninterp spec fn clickhouse_user(client: clickhouse::Client) -> Option<Seq<char>>;

/// The password that a `clickhouse::Client` authenticates with: the `password`
/// of its credentials, last set by `with_password`. No getter reads it back.
pub uninterp spec fn clickhouse_password(client: clickhouse::Client) -> Option<Seq<char>>;

/// Calls `clickhouse::Client::default` and then its setters `with_url`,
/// `with_user`, `with_password` and `with_database` with the given texts. The
/// default client carries no access token, so none of these setters panics.
/// `with_url` stores the URL as it is (the `test-util` feature, which would
/// rewrite it, is not enabled); `with_user` and `with_password` keep the default
/// credentials and set their user and password; `with_database` comes last and
/// sets the client's database to the given name, which `Client::database` then
/// reports, whatever the URL held.
#[verifier::external_body]
fn clickhouse_client(url: String, user: String, password: String, database: String) -> (c:
    clickhouse::Client)
    ensures
        clickhouse_url(c) == url@,
        clickhouse_user(c) == Some(user@),
        clickhouse_password(c) == Some(password@),
        clickhouse_database(c) == Some(database@),
{
    clickhouse::Client::default().with_url(url).with_user(user).with_password(password).with_database(
        database,
    )
}

#[verifier::external_type_specification]
#[verifier::external_body]
pub struct ExRedisClient(redis::Client);

#[verifier::external_type_specification]
#[verifier::external_body]
pub struct ExRedisError(redis::RedisError);

/// Whether `redis::Client::open` accepts a connection address: whether it
/// parses as a Redis URL that gives connection settings.
pub uninterp spec fn redis_uri_accepted(uri: Seq<char>) -> bool;

/// The connection settings that a `redis::Client` holds, as
/// `get_connection_info()` gives them: the address written out (`host:port`, or
/// the socket path), the database number, the user name and the password.
pub uninterp spec fn redis_client_settings(client: redis::Client) -> (
    Seq<char>,
    int,
    Option<Seq<char>>,
    Option<Seq<char>>,
);

/// The connection settings that a connection address parses to, in the same
/// form: address, database number, user name and password.
pub uninterp spec fn redis_url_settings(uri: Seq<char>) -> (
    Seq<char>,
    int,
    Option<Seq<char>>,
    Option<Seq<char>>,
);

/// Calls `redis::Client::open`, which parses the address into connection
/// settings and keeps them, or fails where it does not parse; it connects to
/// nothing.
#[verifier::external_body]
fn redis_client_open(uri: String) -> (r: Result<redis::Client, redis::RedisError>)
    ensures
        r is Ok <==> redis_uri_accepted(uri@),
        r matches Ok(c) ==> redis_client_settings(c) == redis_url_settings(uri@),
{
    redis::Client::open(uri)
}

/// The client of the buffer store for a configuration, not yet connected: the
/// configured address read as a Redis URL, with the settings it parses to; an
/// error exactly where that address is not accepted.
pub fn redis_client(config: &RedisConfig) -> (r: Result<redis::Client, redis::RedisError>)
    ensures
        r is Ok <==> redis_uri_accepted(config.spec_uri()),
        r matches Ok(c) ==> redis_client_settings(c) == redis_url_settings(config.spec_uri()),
{
    redis_client_open(config.uri())
}

/// The connection to the column store.
pub struct ClickhouseService {
    client: clickhouse::Client,
}

impl ClickhouseService {
    /// The client of the service.
    pub closed spec fn spec_client(&self) -> clickhouse::Client {
        self.client
    }

    /// A service whose client is set to the configured address, user, password
    /// and database. It has not connected yet.
    pub fn with_config(config: ClickhouseConfig) -> (s: ClickhouseService)
        ensures
            clickhouse_url(s.spec_client()) == config.address@,
            clickhouse_user(s.spec_client()) == Some(config.user@),
            clickhouse_password(s.spec_client()) == Some(config.password.text()),
            clickhouse_database(s.spec_client()) == Some(config.database@),
    {
        let password = String::from_str(config.password.expose());
        ClickhouseService {
            client: clickhouse_client(config.address, config.user, password, config.database),
        }
    }

    /// The client of the service.
    pub fn client(&self) -> (r: &clickhouse::Client)
        ensures
            *r == self.spec_client(),
    {
        &self.client
    }
}

/// The connection to the buffer store, with the database it uses and the number
/// of entries it flushes at once.
pub struct RedisService {
    connection: redis::aio::MultiplexedConnection,
    database: String,
    batch_capacity: usize,
}

impl RedisService {
    /// The connection of the service.
    pub closed spec fn spec_connection(&self) -> redis::aio::MultiplexedConnection {
        self.connection
    }

    /// The database the service uses.
    pub closed spec fn spec_database(&self) -> Seq<char> {
        self.database@
    }

    /// The number of entries the service flushes at once.
    pub closed spec fn spec_batch_capacity(&self) -> usize {
        self.batch_capacity
    }

    /// A service over an open connection, with the database and batch capacity of
    /// the configuration.
    pub fn with_connection(connection: redis::aio::MultiplexedConnection, config: &RedisConfig) -> (s: RedisService)
        ensures
            s.spec_connection() == connection,
            s.spec_database() == config.spec_database(),
            s.spec_batch_capacity() == config.spec_batch_capacity(),
    {
        RedisService {
            connection,
            database: config.database().clone(),
            batch_capacity: config.batch_capacity(),
        }
    }

    /// The database the service uses.
    pub fn database(&self) -> (r: &String)
        ensures
            r@ == self.spec_database(),
    {
        &self.database
    }

    /// The number of entries the service flushes at once.
    pub fn batch_capacity(&self) -> (r: usize)
        ensures
            r == self.spec_batch_capacity(),
    {
        self.batch_capacity
    }

    /// The connection of the service.
    pub fn connection(&self) -> (r: &redis::aio::MultiplexedConnection)
        ensures
            *r == self.spec_connection(),
    {
        &self.connection
    }
}

/// The server that receives log entries.
pub struct GrpcServer {
    config: GrpcConfig,
}

impl GrpcServer {
    /// The configuration of the server.
    pub closed spec fn spec_config(&self) -> GrpcConfig {
        self.config
    }

    /// A server with the given configuration.
    pub fn new(config: GrpcConfig) -> (s: GrpcServer)
        ensures
            s.spec_config() == config,
    {
        GrpcServer { config }
    }

    /// The configuration of the server.
    pub fn config(&self) -> (r: &GrpcConfig)
        ensures
            *r == self.spec_config(),
    {
        &self.config
    }
}

/// The server for the given configuration.
pub fn build_grpc_server(config: GrpcConfig) -> (s: GrpcServer)
    ensures
        s.spec_config() == config,
{
    GrpcServer::new(config)
}

} // verus!
