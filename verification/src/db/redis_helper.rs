//! The connection pool: a bounded list of idle connections, the handles
//! that lease one connection each, and the rules by which a connection
//! leaves the list and comes back to it.
//!
//! The pool does no I/O. Opening a connection is the caller's part: the
//! caller reports how the attempt ended as a [`ConnectAttempt`], and the pool
//! decides what follows.
use crate::config::RedisConfig;
use crate::db::free_list::{after_acquire, after_release};
use std::collections::VecDeque;
use vstd::prelude::*;

verus! {

/// `redis::Client`: what opens connections to one address. Nothing inside
/// it is looked at here.
#[verifier::external_type_specification]
#[verifier::external_body]
pub struct ExClient(redis::Client);

/// `redis::RedisError`: why the `redis` crate refused something. Nothing
/// inside it is looked at here.
#[verifier::external_type_specification]
#[verifier::external_body]
pub struct ExRedisError(redis::RedisError);

/// Whether `redis::Client::open` accepts `url` as the address of a server.
pub uninterp spec fn url_opens(url: Seq<char>) -> bool;

/// Calls `redis::Client::open`, which parses the address and connects to
/// nothing. Trusted: it succeeds on the addresses that `url_opens` names, the
/// same ones on every call.
#[verifier::external_body]
fn open_client(url: &str) -> (r: Result<redis::Client, redis::RedisError>)
    ensures
        r is Ok <==> url_opens(url@),
{
    redis::Client::open(url)
}

/// Why no connection could be opened.
#[derive(Debug, Clone, Copy, PartialEq, Eq, Structural)]
pub enum ConnectError {
    /// The transport could not be established.
    Transport,
    /// The connect timeout ran out first.
    Timeout,
}

/// What the pool reports to its callers.
#[derive(Debug, Clone, Copy, PartialEq, Eq, Structural)]
pub enum PoolError {
    /// The configured capacity is zero.
    ZeroCapacity,
    /// The configured address is not one of a server.
    InvalidAddress,
    /// The factory could not open a connection.
    Connect(ConnectError),
    /// A handle was used after it had given its connection back.
    InvalidState,
}

/// How one attempt to open a connection ended.
pub enum ConnectAttempt<C> {
    /// The connection stands.
    Connected(C),
    /// The transport reported a failure.
    Failed,
    /// The timer won the race. Whatever the transport delivers later is
    /// dropped by the caller.
    TimedOut,
}

/// What becomes of an attempt: the connection, or the error that the caller
/// of the pool sees.
pub open spec fn settle<C>(attempt: ConnectAttempt<C>) -> Result<C, PoolError> {
    match attempt {
        ConnectAttempt::Connected(conn) => Ok(conn),
        ConnectAttempt::Failed => Err(PoolError::Connect(ConnectError::Transport)),
        ConnectAttempt::TimedOut => Err(PoolError::Connect(ConnectError::Timeout)),
    }
}

/// What a handle did with its connection when it ended.
#[derive(Debug, Clone, Copy, PartialEq, Eq, Structural)]
pub enum Released {
    /// The connection is idle in the pool again.
    Returned,
    /// The pool was full: the connection was closed.
    Discarded,
    /// The handle had given its connection back before.
    AlreadyReleased,
}

/// The pool. `C` is the connection type; the pool never looks inside one.
pub struct RedisPool<C> {
    connections: VecDeque<C>,
    client: redis::Client,
    config: RedisConfig,
}

/// A lease on one connection. It cannot be cloned, so no two handles share a
/// connection.
pub struct PooledConnection<C> {
    connection: Option<C>,
}

impl<C> RedisPool<C> {
    #[verifier::type_invariant]
    spec fn bounded(self) -> bool {
        &&& self.connections@.len() <= self.config.pool_size
        &&& self.config.pool_size > 0
    }

    /// The idle connections, oldest first.
    pub closed spec fn idle(&self) -> Seq<C> {
        self.connections@
    }

    /// The most connections the pool keeps idle.
    pub closed spec fn capacity(&self) -> nat {
        self.config.pool_size as nat
    }

    /// The settings the pool was made with.
    pub closed spec fn settings(&self) -> RedisConfig {
        self.config
    }

    /// The client the pool was made with.
    pub closed spec fn opened(&self) -> redis::Client {
        self.client
    }

    /// An empty pool for `config`. It is refused when the capacity is zero
    /// or the address does not name a server; the capacity is looked at first.
    pub fn new(config: RedisConfig) -> (r: Result<Self, PoolError>)
        ensures
            config.pool_size == 0 ==> r == Err::<Self, PoolError>(PoolError::ZeroCapacity),
            config.pool_size > 0 && !url_opens(config.url@) ==> r == Err::<Self, PoolError>(
                PoolError::InvalidAddress,
            ),
            config.pool_size > 0 && url_opens(config.url@) ==> r is Ok,
            r matches Ok(pool) ==> pool.idle() == Seq::<C>::empty() && pool.settings() == config
                && pool.capacity() == config.pool_size,
    {
        if config.pool_size == 0 {
            return Err(PoolError::ZeroCapacity);
        }
        let opened = open_client(config.url.as_str());
        Self::with_client(config, opened)
    }

    /// An empty pool for `config`, given what opening a client for its
    /// address gave. It is refused when the capacity is zero or no client
    /// could be opened; the capacity is looked at first.
    pub fn with_client(config: RedisConfig, opened: Result<redis::Client, redis::RedisError>) -> (r:
        Result<Self, PoolError>)
        ensures
            config.pool_size == 0 ==> r == Err::<Self, PoolError>(PoolError::ZeroCapacity),
            config.pool_size > 0 && opened is Err ==> r == Err::<Self, PoolError>(
                PoolError::InvalidAddress,
            ),
            config.pool_size > 0 && opened is Ok ==> r is Ok,
            r matches Ok(pool) ==> pool.idle() == Seq::<C>::empty() && pool.settings() == config
                && pool.capacity() == config.pool_size && opened == Ok::<
                redis::Client,
                redis::RedisError,
            >(pool.opened()),
    {
        if config.pool_size == 0 {
            return Err(PoolError::ZeroCapacity);
        }
        match opened {
            Ok(client) => Ok(RedisPool { connections: VecDeque::new(), client, config }),
            Err(_) => Err(PoolError::InvalidAddress),
        }
    }

    /// The number of idle connections, which never exceeds the capacity.
    pub fn idle_count(&self) -> (n: usize)
        ensures
            n == self.idle().len(),
            n <= self.capacity(),
    {
        proof {
            use_type_invariant(self);
        }
        self.connections.len()
    }

    /// The capacity the pool was configured with.
    pub fn pool_size(&self) -> (n: u32)
        ensures
            n == self.capacity(),
            n > 0,
    {
        proof {
            use_type_invariant(self);
        }
        self.config.pool_size
    }

    /// The time an attempt to connect may take, in seconds.
    pub fn connect_timeout_seconds(&self) -> (secs: u64)
        ensures
            secs == self.settings().connect_timeout_seconds,
    {
        self.config.connect_timeout_seconds
    }

    /// The client that opens connections to the configured address.
    pub fn client(&self) -> (client: &redis::Client)
        ensures
            *client == self.opened(),
    {
        &self.client
    }

    /// How many connections the pre-warm still has to open.
    pub fn warmup_remaining(&self) -> (n: usize)
        ensures
            n == self.capacity() - self.idle().len(),
    {
        proof {
            use_type_invariant(self);
        }
        self.config.pool_size as usize - self.connections.len()
    }

    /// One step of the pre-warm: a connection that stands becomes idle, and
    /// the result says how many are still to be opened; a failed attempt ends
    /// the pre-warm with its error and leaves the pool as it was.
    pub fn initialize_pool(&mut self, attempt: ConnectAttempt<C>) -> (r: Result<usize, PoolError>)
        ensures
            final(self).capacity() == old(self).capacity(),
            final(self).settings() == old(self).settings(),
            final(self).opened() == old(self).opened(),
            final(self).idle().len() <= final(self).capacity(),
            match settle(attempt) {
                Ok(conn) => final(self).idle() == after_release(
                    old(self).idle(),
                    old(self).capacity(),
                    conn,
                ) && r == Ok::<usize, PoolError>(
                    (final(self).capacity() - final(self).idle().len()) as usize,
                ),
                Err(e) => final(self).idle() == old(self).idle() && r == Err::<usize, PoolError>(e),
            },
    {
        proof {
            use_type_invariant(&*self);
        }
        match Self::create_connection(attempt) {
            Ok(conn) => {
                let _ = self.return_connection(conn);
                Ok(self.warmup_remaining())
            },
            Err(e) => Err(e),
        }
    }

    /// The factory's verdict on one attempt: the connection, or the error.
    /// Nothing is retried.
    pub fn create_connection(attempt: ConnectAttempt<C>) -> (r: Result<C, PoolError>)
        ensures
            r == settle(attempt),
    {
        match attempt {
            ConnectAttempt::Connected(conn) => Ok(conn),
            ConnectAttempt::Failed => Err(PoolError::Connect(ConnectError::Transport)),
            ConnectAttempt::TimedOut => Err(PoolError::Connect(ConnectError::Timeout)),
        }
    }

    /// Leases the oldest idle connection. `None` means that none is idle: the
    /// caller then opens one, outside any lock on the pool, and turns the
    /// attempt into a handle with [`RedisPool::lease_new`].
    pub fn get_connection(&mut self) -> (r: Option<PooledConnection<C>>)
        ensures
            final(self).idle() == after_acquire(old(self).idle()),
            final(self).capacity() == old(self).capacity(),
            final(self).settings() == old(self).settings(),
            final(self).opened() == old(self).opened(),
            final(self).idle().len() <= final(self).capacity(),
            old(self).idle().len() == 0 ==> r is None,
            old(self).idle().len() > 0 ==> r is Some && r->0.connection() == Some(
                old(self).idle()[0],
            ),
    {
        proof {
            use_type_invariant(&*self);
        }
        let mut connections = VecDeque::new();
        std::mem::swap(&mut connections, &mut self.connections);
        let front = connections.pop_front();
        self.connections = connections;
        match front {
            Some(conn) => Some(PooledConnection { connection: Some(conn) }),
            None => None,
        }
    }

    /// The handle for a connection that was opened because none was idle, or
    /// the error of the attempt. No pool is touched: a pool keeps no record of
    /// the connection until the handle gives it back.
    pub fn lease_new(attempt: ConnectAttempt<C>) -> (r: Result<PooledConnection<C>, PoolError>)
        ensures
            match settle(attempt) {
                Ok(conn) => r is Ok && r->Ok_0.connection() == Some(conn),
                Err(e) => r is Err && r->Err_0 == e,
            },
    {
        match Self::create_connection(attempt) {
            Ok(conn) => Ok(PooledConnection { connection: Some(conn) }),
            Err(e) => Err(e),
        }
    }

    /// Takes a connection back: it becomes idle while the pool has room, and
    /// is handed back to the caller to be closed otherwise.
    pub fn return_connection(&mut self, conn: C) -> (discarded: Option<C>)
        ensures
            final(self).idle() == after_release(old(self).idle(), old(self).capacity(), conn),
            final(self).capacity() == old(self).capacity(),
            final(self).settings() == old(self).settings(),
            final(self).opened() == old(self).opened(),
            final(self).idle().len() <= final(self).capacity(),
            discarded == if old(self).idle().len() < old(self).capacity() {
                None
            } else {
                Some(conn)
            },
    {
        proof {
            use_type_invariant(&*self);
        }
        if self.connections.len() < self.config.pool_size as usize {
            let mut connections = VecDeque::new();
            std::mem::swap(&mut connections, &mut self.connections);
            connections.push_back(conn);
            self.connections = connections;
            None
        } else {
            Some(conn)
        }
    }
}

impl<C> PooledConnection<C> {
    /// The connection the handle holds; `None` once it has been given back.
    pub closed spec fn connection(&self) -> Option<C> {
        self.connection
    }

    /// Whether the handle has given its connection back.
    pub fn is_released(&self) -> (b: bool)
        ensures
            b == (self.connection() is None),
    {
        self.connection.is_none()
    }

    /// The connection, to send a request over. A handle that has given its
    /// connection back answers `InvalidState` and stays as it is.
    pub fn as_mut(&mut self) -> (r: Result<&mut C, PoolError>)
        ensures
            match old(self).connection() {
                Some(conn) => r is Ok && *r->Ok_0 == conn && final(self).connection() == Some(
                    *final(r->Ok_0),
                ),
                None => r == Err::<&mut C, PoolError>(PoolError::InvalidState)
                    && final(self).connection() is None,
            },
    {
        match self.connection.as_mut() {
            Some(conn) => Ok(conn),
            None => Err(PoolError::InvalidState),
        }
    }

    /// The connection, to read from. A handle that has given its connection
    /// back answers `InvalidState`.
    pub fn as_ref(&self) -> (r: Result<&C, PoolError>)
        ensures
            match self.connection() {
                Some(conn) => r == Ok::<&C, PoolError>(&conn),
                None => r == Err::<&C, PoolError>(PoolError::InvalidState),
            },
    {
        match self.connection.as_ref() {
            Some(conn) => Ok(conn),
            None => Err(PoolError::InvalidState),
        }
    }

    /// Takes the connection out of the handle. It comes out once: every later
    /// call finds nothing, and the handle refuses further use.
    pub fn take(&mut self) -> (conn: Option<C>)
        ensures
            conn == old(self).connection(),
            final(self).connection() is None,
    {
        self.connection.take()
    }

    /// Ends the lease: the connection goes back to `pool`, which keeps it
    /// while it has room. A handle that has ended before changes nothing.
    pub fn release(&mut self, pool: &mut RedisPool<C>) -> (outcome: Released)
        ensures
            final(self).connection() is None,
            final(pool).capacity() == old(pool).capacity(),
            final(pool).settings() == old(pool).settings(),
            final(pool).opened() == old(pool).opened(),
            final(pool).idle().len() <= final(pool).capacity(),
            match old(self).connection() {
                Some(conn) => final(pool).idle() == after_release(
                    old(pool).idle(),
                    old(pool).capacity(),
                    conn,
                ) && outcome == (if old(pool).idle().len() < old(pool).capacity() {
                    Released::Returned
                } else {
                    Released::Discarded
                }),
                None => final(pool).idle() == old(pool).idle() && outcome
                    == Released::AlreadyReleased,
            },
    {
        proof {
            use_type_invariant(&*pool);
        }
        match self.connection.take() {
            Some(conn) => match pool.return_connection(conn) {
                None => Released::Returned,
                Some(_) => Released::Discarded,
            },
            None => Released::AlreadyReleased,
        }
    }
}

/// A pool for `config`: see [`RedisPool::new`].
pub fn connect<C>(config: &RedisConfig) -> (r: Result<RedisPool<C>, PoolError>)
    ensures
        config.pool_size == 0 ==> r == Err::<RedisPool<C>, PoolError>(PoolError::ZeroCapacity),
        config.pool_size > 0 && !url_opens(config.url@) ==> r == Err::<RedisPool<C>, PoolError>(
            PoolError::InvalidAddress,
        ),
        config.pool_size > 0 && url_opens(config.url@) ==> r is Ok,
        r matches Ok(pool) ==> pool.idle() == Seq::<C>::empty() && pool.settings() == *config
            && pool.capacity() == config.pool_size,
{
    RedisPool::new(config.clone())
}

} // verus!
