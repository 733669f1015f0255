use vstd::prelude::*;
use vstd::string::StringExecFns;
use r2d2_postgres::{PostgresConnectionManager, TlsMode};
use crate::error::DbError;

verus! {

/// Whether `c` is a hexadecimal digit of value eight or more.
pub open spec fn is_high_hex(c: char) -> bool {
    c == '8' || c == '9' || ('a' <= c <= 'f') || ('A' <= c <= 'F')
}

/// Whether the first colon of `s` stands at `p`.
pub open spec fn is_first_colon(s: Seq<char>, p: int) -> bool {
    &&& 0 <= p < s.len()
    &&& s[p] == ':'
    &&& forall|j: int| 0 <= j < p ==> #[trigger] s[j] != ':'
}

/// Whether what follows the first colon of `s` begins with a percent sign and
/// a hexadecimal digit of value eight or more: the escape of a byte that is
/// no ASCII character, where a URL's host or path would start.
pub open spec fn opens_with_high_escape(s: Seq<char>) -> bool {
    exists|p: int|
        #[trigger] is_first_colon(s, p) && p + 2 < s.len() && s[p + 1] == '%' && is_high_hex(
            s[p + 2],
        )
}

enum Scan {
    Scheme,
    Colon,
    Percent,
    Clear,
    Escape,
}

fn high_hex(c: char) -> (b: bool)
    ensures
        b == is_high_hex(c),
{
    c == '8' || c == '9' || ('a' <= c && c <= 'f') || ('A' <= c && c <= 'F')
}

/// Decides [`opens_with_high_escape`].
pub fn check_high_escape(s: &str) -> (found: bool)
    ensures
        found == opens_with_high_escape(s@),
{
    let mut state = Scan::Scheme;
    let ghost mut p: int = 0;
    for c in it: s.chars()
        invariant
            it.seq() == s@,
            state is Scheme ==> forall|j: int| 0 <= j < it.index() ==> #[trigger] s@[j] != ':',
            !(state is Scheme) ==> is_first_colon(s@, p) && p < it.index(),
            state is Colon ==> it.index() == p + 1,
            state is Percent ==> it.index() == p + 2 && s@[p + 1] == '%',
            state is Clear ==> p + 1 < it.index() && !(p + 2 < s@.len() && s@[p + 1] == '%'
                && is_high_hex(s@[p + 2])),
            state is Escape ==> p + 2 < s@.len() && s@[p + 1] == '%' && is_high_hex(s@[p + 2]),
    {
        match state {
            Scan::Scheme => {
                if c == ':' {
                    proof {
                        p = it.index() as int;
                    }
                    state = Scan::Colon;
                }
            },
            Scan::Colon => {
                state = if c == '%' { Scan::Percent } else { Scan::Clear };
            },
            Scan::Percent => {
                state = if high_hex(c) { Scan::Escape } else { Scan::Clear };
            },
            Scan::Clear => {},
            Scan::Escape => {},
        }
    }
    proof {
        if state is Escape {
            assert(is_first_colon(s@, p));
        } else {
            assert forall|q: int| #[trigger] is_first_colon(s@, q) implies !(q + 2 < s@.len()
                && s@[q + 1] == '%' && is_high_hex(s@[q + 2])) by {
                if !(state is Scheme) {
                    assert(q == p);
                }
            }
        }
    }
    matches!(state, Scan::Escape)
}

/// The connection manager of `r2d2_postgres`. Nothing of its contents is
/// visible here: it is made by [`setup_connection_pool`] and handed on to the
/// pool.
#[verifier::external_type_specification]
#[verifier::external_body]
pub struct ExPostgresConnectionManager(PostgresConnectionManager);

/// What `PostgresConnectionManager::new` answers to the connection string
/// `cn_str` when no TLS is asked for: `None` where it makes a manager, else
/// the text of the error it returns.
pub uninterp spec fn connect_rejection(cn_str: Seq<char>) -> Option<Seq<char>>;

/// Calls `PostgresConnectionManager::new` of `r2d2_postgres` with
/// `TlsMode::None`, and renders its error as text.
///
/// The call parses `cn_str` as a URL and opens no connection, so its outcome
/// depends on `cn_str` alone; the contract gives that outcome its name and
/// claims nothing else. The parser cuts the first byte off the decoded path,
/// and panics where the URL has no host and its path begins with an escaped
/// byte above `0x7f`; such strings are left out.
#[verifier::external_body]
fn new_manager(cn_str: &str) -> (res: Result<PostgresConnectionManager, String>)
    requires
        !opens_with_high_escape(cn_str@),
    ensures
        match res {
            Ok(_) => connect_rejection(cn_str@) is None,
            Err(text) => connect_rejection(cn_str@) == Some(text@),
        },
{
    match PostgresConnectionManager::new(cn_str, TlsMode::None) {
        Ok(manager) => Ok(manager),
        Err(err) => Err(format!("{}", err)),
    }
}

/// What a pool is opened with: its capacity, how long a checkout may wait,
/// and the manager that makes its connections.
///
/// The capacity is never zero, and neither is the wait where one is set.
pub struct PoolSettings {
    pool_size: u32,
    acquire_timeout_ms: Option<u64>,
    manager: PostgresConnectionManager,
}

impl PoolSettings {
    #[verifier::type_invariant]
    spec fn well_formed(self) -> bool {
        self.pool_size > 0 && self.acquire_timeout_ms != Some(0u64)
    }

    /// The capacity, for contracts.
    pub closed spec fn spec_pool_size(&self) -> u32 {
        self.pool_size
    }

    /// The wait, for contracts.
    pub closed spec fn spec_acquire_timeout_ms(&self) -> Option<u64> {
        self.acquire_timeout_ms
    }

    /// The manager, for contracts.
    pub closed spec fn spec_manager(&self) -> PostgresConnectionManager {
        self.manager
    }

    /// The most connections the pool may hold, checked out or idle.
    pub fn pool_size(&self) -> (n: u32)
        ensures
            n == self.spec_pool_size(),
            n > 0,
    {
        proof {
            use_type_invariant(self);
        }
        self.pool_size
    }

    /// How many milliseconds a checkout may wait for a connection; `None`
    /// leaves the wait to the pool.
    pub fn acquire_timeout_ms(&self) -> (wait: Option<u64>)
        ensures
            wait == self.spec_acquire_timeout_ms(),
            wait != Some(0u64),
    {
        proof {
            use_type_invariant(self);
        }
        self.acquire_timeout_ms
    }

    /// The same settings with a wait of `millis` milliseconds for a
    /// checkout. A wait of zero is a `ConfigError`.
    pub fn with_acquire_timeout(self, millis: u64) -> (res: Result<PoolSettings, DbError>)
        ensures
            if millis == 0 {
                res matches Err(DbError::ConfigError(t)) && t@
                    == "acquire timeout must be positive"@
            } else {
                res matches Ok(settings) && settings.spec_pool_size() == self.spec_pool_size()
                    && settings.spec_acquire_timeout_ms() == Some(millis)
                    && settings.spec_manager() == self.spec_manager()
            },
    {
        proof {
            use_type_invariant(&self);
        }
        if millis == 0 {
            return refused("acquire timeout must be positive");
        }
        Ok(
            PoolSettings {
                pool_size: self.pool_size,
                acquire_timeout_ms: Some(millis),
                manager: self.manager,
            },
        )
    }

    /// Gives up the settings for the manager in them.
    pub fn into_manager(self) -> (manager: PostgresConnectionManager)
        ensures
            manager == self.spec_manager(),
    {
        self.manager
    }
}

/// What is wrong with the settings of a pool, if anything: a capacity of
/// zero, a connection string that [`opens_with_high_escape`], or one that the
/// connection manager rejects, in this order.
pub open spec fn config_fault(cn_str: Seq<char>, pool_size: u32) -> Option<Seq<char>> {
    if pool_size == 0 {
        Some("pool size must be positive"@)
    } else if opens_with_high_escape(cn_str) {
        Some("connection string begins with an escaped byte that is no character"@)
    } else {
        connect_rejection(cn_str)
    }
}

fn refused(text: &str) -> (res: Result<PoolSettings, DbError>)
    ensures
        res matches Err(DbError::ConfigError(t)) && t@ == text@,
{
    Err(DbError::ConfigError(String::from_str(text)))
}

/// Joins a capacity and the outcome of making a connection manager into the
/// settings of a pool, with the wait left to the pool.
///
/// A capacity of zero is a `ConfigError`, whatever the outcome; a manager
/// that could not be made is a `ConfigError` with the text of the failure.
pub fn pool_settings(pool_size: u32, manager: Result<PostgresConnectionManager, String>) -> (res:
    Result<PoolSettings, DbError>)
    ensures
        if pool_size == 0 {
            res matches Err(DbError::ConfigError(t)) && t@ == "pool size must be positive"@
        } else {
            match manager {
                Ok(made) => res matches Ok(settings) && settings.spec_pool_size() == pool_size
                    && settings.spec_acquire_timeout_ms() is None && settings.spec_manager()
                    == made,
                Err(text) => res matches Err(DbError::ConfigError(t)) && t == text,
            }
        },
{
    if pool_size == 0 {
        return refused("pool size must be positive");
    }
    match manager {
        Ok(manager) => Ok(PoolSettings { pool_size, acquire_timeout_ms: None, manager }),
        Err(text) => Err(DbError::ConfigError(text)),
    }
}

/// Checks the settings of a pool and makes its connection manager, without
/// opening a connection.
///
/// The settings are refused as a `ConfigError` exactly where
/// [`config_fault`] finds one, with its text. Otherwise the capacity is
/// handed back unchanged beside the manager made from `cn_str`, with the wait
/// left to the pool.
pub fn setup_connection_pool(cn_str: &str, pool_size: u32) -> (res: Result<PoolSettings, DbError>)
    ensures
        match config_fault(cn_str@, pool_size) {
            Some(text) => res matches Err(DbError::ConfigError(t)) && t@ == text,
            None => res matches Ok(settings) && settings.spec_pool_size() == pool_size
                && settings.spec_acquire_timeout_ms() is None,
        },
{
    if pool_size == 0 {
        return refused("pool size must be positive");
    }
    if check_high_escape(cn_str) {
        return refused("connection string begins with an escaped byte that is no character");
    }
    pool_settings(pool_size, new_manager(cn_str))
}

/// Decides what opening the pool gives: the pool, or the text of the failure.
///
/// The pool is handed on untouched; a failure is a `PoolInitError` with the
/// same text.
pub fn pool_opened<P>(outcome: Result<P, String>) -> (res: Result<P, DbError>)
    ensures
        match outcome {
            Ok(pool) => res matches Ok(p) && p == pool,
            Err(text) => res matches Err(DbError::PoolInitError(t)) && t == text,
        },
{
    match outcome {
        Ok(pool) => Ok(pool),
        Err(text) => Err(DbError::PoolInitError(text)),
    }
}

/// Decides what a request gets from looking for the pool and checking a
/// connection out of it.
///
/// `checkout` is `None` where no pool is registered, else the outcome of the
/// checkout: the connection, or the text of the failure. The connection is
/// handed on untouched; no pool is a `LookupError`, a failed checkout a
/// `PoolAcquireError` with the same text.
pub fn get_connection<C>(checkout: Option<Result<C, String>>) -> (res: Result<C, DbError>)
    ensures
        match checkout {
            None => res matches Err(DbError::LookupError),
            Some(Err(text)) => res matches Err(DbError::PoolAcquireError(t)) && t == text,
            Some(Ok(connection)) => res matches Ok(c) && c == connection,
        },
{
    match checkout {
        None => Err(DbError::LookupError),
        Some(Err(text)) => Err(DbError::PoolAcquireError(text)),
        Some(Ok(connection)) => Ok(connection),
    }
}

} // verus!
