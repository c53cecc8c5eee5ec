//! Service configuration: the values the process is started with and the
//! rules they must satisfy.
//!
//! The environment is handed in as a list of name and value pairs; reading
//! it from the process is the caller's part.
use crate::parse::{has_prefix, parse_u16, parse_u32, parse_u64, parsed, starts_with, ParseFailure};
use vstd::prelude::*;
use vstd::string::StringExecFns;
use vstd::string::StringSliceAdditionalSpecFns;
use vstd::utf8::encode_utf8;

verus! {

/// The whole configuration of the service.
#[derive(Debug, Clone)]
pub struct Config {
    pub server: ServerConfig,
    pub database: DatabaseConfig,
    pub redis: RedisConfig,
    pub discord: DiscordConfig,
}

/// Where the service listens. The host is kept as it was written.
#[derive(Debug, Clone)]
pub struct ServerConfig {
    pub host: String,
    pub port: u16,
}

/// Connection settings of the relational database.
#[derive(Debug, Clone)]
pub struct DatabaseConfig {
    pub url: String,
    pub max_connections: u32,
    pub connect_timeout_seconds: u64,
}

/// Connection settings of the key-value store and of the pool in front of it.
#[derive(Debug)]
pub struct RedisConfig {
    pub url: String,
    pub pool_size: u32,
    pub connect_timeout_seconds: u64,
}

/// Credentials of the identity provider.
#[derive(Debug, Clone)]
pub struct DiscordConfig {
    pub client_id: String,
    pub client_secret: String,
    pub redirect_uri: String,
}

/// Why a configuration is refused.
#[derive(Debug)]
pub enum ConfigError {
    /// A variable without a default is not set.
    MissingEnvVar(String),
    /// A value breaks a rule.
    InvalidValue { var: String, value: String, reason: String },
    /// A value is no number of the wanted type.
    ParseError { var: String, source: ParseFailure },
}

/// A `ConfigError` with its texts as sequences of characters.
pub enum ConfigFault {
    MissingEnvVar(Seq<char>),
    InvalidValue { var: Seq<char>, value: Seq<char>, reason: Seq<char> },
    ParseError { var: Seq<char>, source: ParseFailure },
}

impl View for ConfigError {
    type V = ConfigFault;

    open spec fn view(&self) -> ConfigFault {
        match *self {
            ConfigError::MissingEnvVar(var) => ConfigFault::MissingEnvVar(var@),
            ConfigError::InvalidValue { var, value, reason } => ConfigFault::InvalidValue {
                var: var@,
                value: value@,
                reason: reason@,
            },
            ConfigError::ParseError { var, source } => ConfigFault::ParseError {
                var: var@,
                source,
            },
        }
    }
}

impl ConfigFault {
    /// The fault as one line of text.
    pub open spec fn text(self) -> Seq<char> {
        match self {
            ConfigFault::MissingEnvVar(var) => "Missing required environment variable: "@ + var,
            ConfigFault::InvalidValue { var, value, reason } => "Invalid value for "@ + var + ": "@
                + value + " - "@ + reason,
            ConfigFault::ParseError { var, source } => "Parse error for "@ + var + ": "@
                + source.words(),
        }
    }
}

impl ConfigError {
    /// The error as one line of text.
    pub fn message(&self) -> (m: String)
        ensures
            m@ == self@.text(),
    {
        match self {
            ConfigError::MissingEnvVar(var) => {
                let mut m = "Missing required environment variable: ".to_owned();
                m.append(var.as_str());
                m
            },
            ConfigError::InvalidValue { var, value, reason } => {
                let mut m = "Invalid value for ".to_owned();
                m.append(var.as_str());
                m.append(": ");
                m.append(value.as_str());
                m.append(" - ");
                m.append(reason.as_str());
                m
            },
            ConfigError::ParseError { var, source } => {
                let mut m = "Parse error for ".to_owned();
                m.append(var.as_str());
                m.append(": ");
                m.append(source.message());
                m
            },
        }
    }
}

impl Clone for RedisConfig {
    fn clone(&self) -> (res: Self)
        ensures
            res == *self,
    {
        RedisConfig {
            url: self.url.clone(),
            pool_size: self.pool_size,
            connect_timeout_seconds: self.connect_timeout_seconds,
        }
    }
}

/// The value of the first variable named `key`, if there is one.
pub open spec fn lookup(env: Seq<(String, String)>, key: Seq<char>) -> Option<Seq<char>>
    decreases env.len(),
{
    if env.len() == 0 {
        None
    } else if env[0].0@ == key {
        Some(env[0].1@)
    } else {
        lookup(env.drop_first(), key)
    }
}

/// The value of `key`, or `default` where it is not set.
pub open spec fn value_or(env: Seq<(String, String)>, key: Seq<char>, default: Seq<char>) -> Seq<
    char,
> {
    match lookup(env, key) {
        Some(value) => value,
        None => default,
    }
}

/// The number that `key` holds, or that `default` holds where it is not set,
/// for a type whose largest value is `max`.
pub open spec fn number_of(
    env: Seq<(String, String)>,
    key: Seq<char>,
    default: Seq<char>,
    max: nat,
) -> Result<nat, ConfigFault> {
    match parsed(encode_utf8(value_or(env, key, default)), max) {
        Ok(n) => Ok(n),
        Err(source) => Err(ConfigFault::ParseError { var: key, source }),
    }
}

/// An address with the two limits that belong to it: the address is
/// required, the limits have defaults, and the first fault found is reported.
pub open spec fn address_with_limits(
    env: Seq<(String, String)>,
    url_key: Seq<char>,
    size_key: Seq<char>,
    size_default: Seq<char>,
    timeout_key: Seq<char>,
    timeout_default: Seq<char>,
) -> Result<(Seq<char>, nat, nat), ConfigFault> {
    match lookup(env, url_key) {
        None => Err(ConfigFault::MissingEnvVar(url_key)),
        Some(url) => match number_of(env, size_key, size_default, u32::MAX as nat) {
            Err(fault) => Err(fault),
            Ok(size) => match number_of(env, timeout_key, timeout_default, u64::MAX as nat) {
                Err(fault) => Err(fault),
                Ok(timeout) => Ok((url, size, timeout)),
            },
        },
    }
}

fn env_var(env: &Vec<(String, String)>, key: &str) -> (r: Option<String>)
    ensures
        match lookup(env@, key@) {
            Some(value) => r matches Some(s) && s@ == value,
            None => r is None,
        },
{
    let wanted = key.to_owned();
    let mut i: usize = 0;
    assert(env@.subrange(0, env@.len() as int) =~= env@);
    while i < env.len()
        invariant
            i <= env.len(),
            wanted@ == key@,
            lookup(env@, key@) == lookup(env@.subrange(i as int, env@.len() as int), key@),
        decreases env.len() - i,
    {
        let ghost rest = env@.subrange(i as int, env@.len() as int);
        assert(rest[0] == env@[i as int]);
        assert(rest.drop_first() =~= env@.subrange(i + 1, env@.len() as int));
        if env[i].0 == wanted {
            return Some(env[i].1.clone());
        }
        i = i + 1;
    }
    None
}

/// The value of a variable that must be set.
pub fn get_env_required(env: &Vec<(String, String)>, key: &str) -> (r: Result<String, ConfigError>)
    ensures
        match lookup(env@, key@) {
            Some(value) => r matches Ok(s) && s@ == value,
            None => r matches Err(e) && e@ == ConfigFault::MissingEnvVar(key@),
        },
{
    match env_var(env, key) {
        Some(value) => Ok(value),
        None => Err(ConfigError::MissingEnvVar(key.to_owned())),
    }
}

/// The value of a variable, or `default` where it is not set.
pub fn get_env_or(env: &Vec<(String, String)>, key: &str, default: &str) -> (r: Result<
    String,
    ConfigError,
>)
    ensures
        r matches Ok(s) && s@ == value_or(env@, key@, default@),
{
    match env_var(env, key) {
        Some(value) => Ok(value),
        None => Ok(default.to_owned()),
    }
}

fn get_env_u16(env: &Vec<(String, String)>, key: &str, default: &str) -> (r: Result<
    u16,
    ConfigError,
>)
    ensures
        match number_of(env@, key@, default@, u16::MAX as nat) {
            Ok(n) => r matches Ok(v) && v == n,
            Err(fault) => r matches Err(e) && e@ == fault,
        },
{
    let text = get_env_or(env, key, default)?;
    match parse_u16(text.as_str()) {
        Ok(n) => Ok(n),
        Err(source) => Err(ConfigError::ParseError { var: key.to_owned(), source }),
    }
}

fn get_env_u32(env: &Vec<(String, String)>, key: &str, default: &str) -> (r: Result<
    u32,
    ConfigError,
>)
    ensures
        match number_of(env@, key@, default@, u32::MAX as nat) {
            Ok(n) => r matches Ok(v) && v == n,
            Err(fault) => r matches Err(e) && e@ == fault,
        },
{
    let text = get_env_or(env, key, default)?;
    match parse_u32(text.as_str()) {
        Ok(n) => Ok(n),
        Err(source) => Err(ConfigError::ParseError { var: key.to_owned(), source }),
    }
}

fn get_env_u64(env: &Vec<(String, String)>, key: &str, default: &str) -> (r: Result<
    u64,
    ConfigError,
>)
    ensures
        match number_of(env@, key@, default@, u64::MAX as nat) {
            Ok(n) => r matches Ok(v) && v == n,
            Err(fault) => r matches Err(e) && e@ == fault,
        },
{
    let text = get_env_or(env, key, default)?;
    match parse_u64(text.as_str()) {
        Ok(n) => Ok(n),
        Err(source) => Err(ConfigError::ParseError { var: key.to_owned(), source }),
    }
}

impl ServerConfig {
    /// What the environment says of the listener: `HOST`, `0.0.0.0` by
    /// default, and `PORT`, `3000` by default.
    pub open spec fn loaded(env: Seq<(String, String)>) -> Result<(Seq<char>, nat), ConfigFault> {
        match number_of(env, "PORT"@, "3000"@, u16::MAX as nat) {
            Err(fault) => Err(fault),
            Ok(port) => Ok((value_or(env, "HOST"@, "0.0.0.0"@), port)),
        }
    }

    pub fn from_env(env: &Vec<(String, String)>) -> (r: Result<Self, ConfigError>)
        ensures
            match Self::loaded(env@) {
                Ok((host, port)) => r matches Ok(c) && c.host@ == host && c.port == port,
                Err(fault) => r matches Err(e) && e@ == fault,
            },
    {
        let host = get_env_or(env, "HOST", "0.0.0.0")?;
        match get_env_u16(env, "PORT", "3000") {
            Ok(port) => Ok(ServerConfig { host, port }),
            Err(e) => Err(e),
        }
    }
}

impl DatabaseConfig {
    /// What the environment says of the database: `DATABASE_URL`, then
    /// `DB_MAX_CONNECTIONS`, 10 by default, then `DB_CONNECT_TIMEOUT`, 30 by
    /// default.
    pub open spec fn loaded(env: Seq<(String, String)>) -> Result<
        (Seq<char>, nat, nat),
        ConfigFault,
    > {
        address_with_limits(
            env,
            "DATABASE_URL"@,
            "DB_MAX_CONNECTIONS"@,
            "10"@,
            "DB_CONNECT_TIMEOUT"@,
            "30"@,
        )
    }

    pub fn from_env(env: &Vec<(String, String)>) -> (r: Result<Self, ConfigError>)
        ensures
            match Self::loaded(env@) {
                Ok((url, size, timeout)) => r matches Ok(c) && c.url@ == url && c.max_connections
                    == size && c.connect_timeout_seconds == timeout,
                Err(fault) => r matches Err(e) && e@ == fault,
            },
    {
        let url = match get_env_required(env, "DATABASE_URL") {
            Ok(url) => url,
            Err(e) => {
                return Err(e);
            },
        };
        let max_connections = match get_env_u32(env, "DB_MAX_CONNECTIONS", "10") {
            Ok(n) => n,
            Err(e) => {
                return Err(e);
            },
        };
        match get_env_u64(env, "DB_CONNECT_TIMEOUT", "30") {
            Ok(connect_timeout_seconds) => Ok(
                DatabaseConfig { url, max_connections, connect_timeout_seconds },
            ),
            Err(e) => Err(e),
        }
    }
}

impl RedisConfig {
    /// What the environment says of the key-value store: `REDIS_URL`, then
    /// `REDIS_POOL_SIZE`, 5 by default, then `REDIS_CONNECT_TIMEOUT`, 10 by
    /// default.
    pub open spec fn loaded(env: Seq<(String, String)>) -> Result<
        (Seq<char>, nat, nat),
        ConfigFault,
    > {
        address_with_limits(
            env,
            "REDIS_URL"@,
            "REDIS_POOL_SIZE"@,
            "5"@,
            "REDIS_CONNECT_TIMEOUT"@,
            "10"@,
        )
    }

    pub fn from_env(env: &Vec<(String, String)>) -> (r: Result<Self, ConfigError>)
        ensures
            match Self::loaded(env@) {
                Ok((url, size, timeout)) => r matches Ok(c) && c.url@ == url && c.pool_size == size
                    && c.connect_timeout_seconds == timeout,
                Err(fault) => r matches Err(e) && e@ == fault,
            },
    {
        let url = match get_env_required(env, "REDIS_URL") {
            Ok(url) => url,
            Err(e) => {
                return Err(e);
            },
        };
        let pool_size = match get_env_u32(env, "REDIS_POOL_SIZE", "5") {
            Ok(n) => n,
            Err(e) => {
                return Err(e);
            },
        };
        match get_env_u64(env, "REDIS_CONNECT_TIMEOUT", "10") {
            Ok(connect_timeout_seconds) => Ok(
                RedisConfig { url, pool_size, connect_timeout_seconds },
            ),
            Err(e) => Err(e),
        }
    }
}

impl DiscordConfig {
    /// What the environment says of the identity provider: `CLIENT_ID`,
    /// `CLIENT_SECRET` and `REDIRECT_URI`, all required, looked for in this
    /// order.
    pub open spec fn loaded(env: Seq<(String, String)>) -> Result<
        (Seq<char>, Seq<char>, Seq<char>),
        ConfigFault,
    > {
        match lookup(env, "CLIENT_ID"@) {
            None => Err(ConfigFault::MissingEnvVar("CLIENT_ID"@)),
            Some(id) => match lookup(env, "CLIENT_SECRET"@) {
                None => Err(ConfigFault::MissingEnvVar("CLIENT_SECRET"@)),
                Some(secret) => match lookup(env, "REDIRECT_URI"@) {
                    None => Err(ConfigFault::MissingEnvVar("REDIRECT_URI"@)),
                    Some(uri) => Ok((id, secret, uri)),
                },
            },
        }
    }

    pub fn from_env(env: &Vec<(String, String)>) -> (r: Result<Self, ConfigError>)
        ensures
            match Self::loaded(env@) {
                Ok((id, secret, uri)) => r matches Ok(c) && c.client_id@ == id && c.client_secret@
                    == secret && c.redirect_uri@ == uri,
                Err(fault) => r matches Err(e) && e@ == fault,
            },
    {
        let client_id = match get_env_required(env, "CLIENT_ID") {
            Ok(v) => v,
            Err(e) => {
                return Err(e);
            },
        };
        let client_secret = match get_env_required(env, "CLIENT_SECRET") {
            Ok(v) => v,
            Err(e) => {
                return Err(e);
            },
        };
        match get_env_required(env, "REDIRECT_URI") {
            Ok(redirect_uri) => Ok(DiscordConfig { client_id, client_secret, redirect_uri }),
            Err(e) => Err(e),
        }
    }
}

/// The first rule that the three addresses break, if any: the redirect
/// address starts with `http`, the database address with `postgres://` or
/// `postgresql://`, the store's address with `redis://` or `rediss://`. The
/// two connection strings are not repeated in the fault.
pub open spec fn first_fault(redirect_uri: Seq<char>, database_url: Seq<char>, redis_url: Seq<char>)
    -> Option<ConfigFault> {
    if !starts_with(encode_utf8(redirect_uri), encode_utf8("http"@)) {
        Some(
            ConfigFault::InvalidValue {
                var: "REDIRECT_URI"@,
                value: redirect_uri,
                reason: "Must start with http:// or https://"@,
            },
        )
    } else if !starts_with(encode_utf8(database_url), encode_utf8("postgres://"@)) && !starts_with(
        encode_utf8(database_url),
        encode_utf8("postgresql://"@),
    ) {
        Some(
            ConfigFault::InvalidValue {
                var: "DATABASE_URL"@,
                value: "***hidden***"@,
                reason: "Must be a valid PostgreSQL connection string"@,
            },
        )
    } else if !starts_with(encode_utf8(redis_url), encode_utf8("redis://"@)) && !starts_with(
        encode_utf8(redis_url),
        encode_utf8("rediss://"@),
    ) {
        Some(
            ConfigFault::InvalidValue {
                var: "REDIS_URL"@,
                value: "***hidden***"@,
                reason: "Must be a valid Redis connection string"@,
            },
        )
    } else {
        None
    }
}

impl Config {
    /// The four parts, loaded in the order server, database, store, identity
    /// provider; the first fault ends the loading.
    pub fn from_env(env: &Vec<(String, String)>) -> (r: Result<Self, ConfigError>)
        ensures
            match ServerConfig::loaded(env@) {
                Err(fault) => r matches Err(e) && e@ == fault,
                Ok(server) => match DatabaseConfig::loaded(env@) {
                    Err(fault) => r matches Err(e) && e@ == fault,
                    Ok(database) => match RedisConfig::loaded(env@) {
                        Err(fault) => r matches Err(e) && e@ == fault,
                        Ok(redis) => match DiscordConfig::loaded(env@) {
                            Err(fault) => r matches Err(e) && e@ == fault,
                            Ok(discord) => r matches Ok(c) && (c.server.host@, c.server.port as nat)
                                == server && (
                                c.database.url@,
                                c.database.max_connections as nat,
                                c.database.connect_timeout_seconds as nat,
                            ) == database && (
                                c.redis.url@,
                                c.redis.pool_size as nat,
                                c.redis.connect_timeout_seconds as nat,
                            ) == redis && (
                                c.discord.client_id@,
                                c.discord.client_secret@,
                                c.discord.redirect_uri@,
                            ) == discord,
                        },
                    },
                },
            },
    {
        let server = match ServerConfig::from_env(env) {
            Ok(v) => v,
            Err(e) => {
                return Err(e);
            },
        };
        let database = match DatabaseConfig::from_env(env) {
            Ok(v) => v,
            Err(e) => {
                return Err(e);
            },
        };
        let redis = match RedisConfig::from_env(env) {
            Ok(v) => v,
            Err(e) => {
                return Err(e);
            },
        };
        match DiscordConfig::from_env(env) {
            Ok(discord) => Ok(Config { server, database, redis, discord }),
            Err(e) => Err(e),
        }
    }

    /// Holds the three addresses to their rules and reports the first one
    /// that is broken.
    pub fn validate(&self) -> (r: Result<(), ConfigError>)
        ensures
            match first_fault(self.discord.redirect_uri@, self.database.url@, self.redis.url@) {
                None => r is Ok,
                Some(fault) => r matches Err(e) && e@ == fault,
            },
    {
        if !has_prefix(self.discord.redirect_uri.as_str(), "http") {
            return Err(
                ConfigError::InvalidValue {
                    var: "REDIRECT_URI".to_owned(),
                    value: self.discord.redirect_uri.clone(),
                    reason: "Must start with http:// or https://".to_owned(),
                },
            );
        }
        if !has_prefix(self.database.url.as_str(), "postgres://") && !has_prefix(
            self.database.url.as_str(),
            "postgresql://",
        ) {
            return Err(
                ConfigError::InvalidValue {
                    var: "DATABASE_URL".to_owned(),
                    value: "***hidden***".to_owned(),
                    reason: "Must be a valid PostgreSQL connection string".to_owned(),
                },
            );
        }
        if !has_prefix(self.redis.url.as_str(), "redis://") && !has_prefix(
            self.redis.url.as_str(),
            "rediss://",
        ) {
            return Err(
                ConfigError::InvalidValue {
                    var: "REDIS_URL".to_owned(),
                    value: "***hidden***".to_owned(),
                    reason: "Must be a valid Redis connection string".to_owned(),
                },
            );
        }
        Ok(())
    }
}

} // verus!
