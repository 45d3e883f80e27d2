//! What the connection pool asks of its manager, and the pool's settings.

use crate::clock::{now_timestamp, on_clock};
use crate::error::{TaskError, TaskErrorView};
use crate::text::text;
use crate::user_validator::UserValidator;
use crate::xx::{Probe, Xx};
use vstd::prelude::*;

verus! {

/// Why settings of a pool are refused.
#[derive(Clone, Copy, Debug, PartialEq, Eq, Structural)]
pub enum PoolConfigError {
    ZeroMaxSize,
    MinIdleAboveMaxSize,
    ZeroTimeout,
}

/// Settings of a pool: the most connections it holds, how many it keeps idle
/// in advance, and how many seconds an acquisition may wait.
#[derive(Clone, Copy, Debug, PartialEq, Eq, Structural)]
pub struct PoolConfig {
    max_size: u32,
    min_idle: u32,
    acquire_timeout: u64,
}

impl PoolConfig {
    pub closed spec fn spec_max_size(self) -> u32 {
        self.max_size
    }

    pub closed spec fn spec_min_idle(self) -> u32 {
        self.min_idle
    }

    pub closed spec fn spec_acquire_timeout(self) -> u64 {
        self.acquire_timeout
    }

    /// Settings a pool can be built with.
    pub open spec fn wf(self) -> bool {
        &&& self.spec_max_size() > 0
        &&& self.spec_min_idle() <= self.spec_max_size()
        &&& self.spec_acquire_timeout() > 0
    }

    /// Checks settings. They are accepted exactly when the size is positive,
    /// the idle count does not exceed it and the timeout is positive; the
    /// first of these that fails, in this order, is reported.
    pub fn new(max_size: u32, min_idle: u32, acquire_timeout: u64) -> (r: Result<
        Self,
        PoolConfigError,
    >)
        ensures
            max_size == 0 ==> r == Err::<Self, PoolConfigError>(PoolConfigError::ZeroMaxSize),
            max_size > 0 && min_idle > max_size ==> r == Err::<Self, PoolConfigError>(
                PoolConfigError::MinIdleAboveMaxSize,
            ),
            max_size > 0 && min_idle <= max_size && acquire_timeout == 0 ==> r == Err::<
                Self,
                PoolConfigError,
            >(PoolConfigError::ZeroTimeout),
            max_size > 0 && min_idle <= max_size && acquire_timeout > 0 ==> r.is_ok()
                && r.unwrap().wf() && r.unwrap().spec_max_size() == max_size
                && r.unwrap().spec_min_idle() == min_idle && r.unwrap().spec_acquire_timeout()
                == acquire_timeout,
    {
        if max_size == 0 {
            Err(PoolConfigError::ZeroMaxSize)
        } else if min_idle > max_size {
            Err(PoolConfigError::MinIdleAboveMaxSize)
        } else if acquire_timeout == 0 {
            Err(PoolConfigError::ZeroTimeout)
        } else {
            Ok(PoolConfig { max_size, min_idle, acquire_timeout })
        }
    }

    pub fn max_size(&self) -> (r: u32)
        ensures
            r == self.spec_max_size(),
    {
        self.max_size
    }

    pub fn min_idle(&self) -> (r: u32)
        ensures
            r == self.spec_min_idle(),
    {
        self.min_idle
    }

    /// Seconds an acquisition may wait.
    pub fn acquire_timeout(&self) -> (r: u64)
        ensures
            r == self.spec_acquire_timeout(),
    {
        self.acquire_timeout
    }
}

/// Why the pool handed out no connection.
#[derive(Debug)]
pub enum AcquireError {
    /// The timeout elapsed with every connection checked out.
    PoolExhausted,
    /// A connection had to be constructed, and that failed.
    ConstructionFailed(String),
}

impl AcquireError {
    /// The error with which a run that got no connection ends.
    pub fn into_task_error(self) -> (r: TaskError)
        ensures
            r@ == match self {
                AcquireError::PoolExhausted => TaskErrorView::PoolExhausted,
                AcquireError::ConstructionFailed(c) => TaskErrorView::ConstructionFailed(c@),
            },
    {
        match self {
            AcquireError::PoolExhausted => TaskError::PoolExhausted,
            AcquireError::ConstructionFailed(c) => TaskError::ConstructionFailed(c),
        }
    }
}

/// The manager of pooled connections: it knows how to make one, and answers
/// the pool's questions about one.
#[derive(Debug)]
pub struct XxManager<T: UserValidator + Send + Sync + Clone> {
    uv: T,
    proxy_server: Option<String>,
}

impl<T: UserValidator + Send + Sync + Clone> XxManager<T> {
    pub closed spec fn spec_validator(self) -> T {
        self.uv
    }

    pub closed spec fn spec_proxy_server(self) -> Option<String> {
        self.proxy_server
    }

    /// A manager whose connections consult `v` and reach the network through
    /// `proxy_server`, if one is given.
    pub fn new(v: T, proxy_server: Option<String>) -> (r: Self)
        ensures
            r.spec_validator() == v,
            r.spec_proxy_server() == proxy_server,
    {
        XxManager { uv: v, proxy_server }
    }

    pub fn validator(&self) -> (r: &T)
        ensures
            *r == self.spec_validator(),
    {
        &self.uv
    }

    pub fn proxy_server(&self) -> (r: &Option<String>)
        ensures
            *r == self.spec_proxy_server(),
    {
        &self.proxy_server
    }

    /// The test on checkout at `now`: it passes exactly for a connection that
    /// is fit to be handed out then.
    pub fn is_valid_at(&self, conn: &Xx, now: i64) -> (r: Result<(), String>)
        ensures
            r.is_ok() == conn@.valid_at(now),
            r matches Err(e) ==> e@ == "连接已经断开"@,
    {
        if conn.is_valid_at(now) {
            Ok(())
        } else {
            Err(text("连接已经断开"))
        }
    }

    /// The test on return at `now`: a connection is broken exactly when it
    /// is not alive then.
    pub fn has_broken_at(&self, conn: &Xx, now: i64) -> (r: bool)
        ensures
            r == !conn@.alive_at(now),
    {
        !conn.ping_at(now)
    }

    /// The test on checkout at `now`, with what the liveness probe of the
    /// connection's browser found: it passes exactly for a connection that is
    /// fit to be handed out then and whose browser is healthy.
    pub fn is_valid_probed_at(&self, conn: &Xx, probe: Probe, now: i64) -> (r: Result<(), String>)
        ensures
            r.is_ok() == (conn@.valid_at(now) && probe.healthy()),
            r matches Err(e) ==> e@ == "连接已经断开"@,
    {
        if probe.is_healthy() && conn.is_valid_at(now) {
            Ok(())
        } else {
            Err(text("连接已经断开"))
        }
    }

    /// The test on return at `now`, with what the liveness probe of the
    /// connection's browser found: a connection is broken exactly when it is
    /// not alive then or its browser is not healthy.
    pub fn has_broken_probed_at(&self, conn: &Xx, probe: Probe, now: i64) -> (r: bool)
        ensures
            r == !(conn@.alive_at(now) && probe.healthy()),
    {
        !(probe.is_healthy() && conn.ping_at(now))
    }

    /// The test on checkout with the probe's finding, at the current time:
    /// what [`XxManager::is_valid_probed_at`] gives for the time that the
    /// clock gave.
    pub fn is_valid_probed(&self, conn: &Xx, probe: Probe) -> (r: Result<(), String>)
        ensures
            exists|now: i64|
                on_clock(now) && r.is_ok() == (#[trigger] conn@.valid_at(now) && probe.healthy()),
            !probe.healthy() || !(conn@.state is WaitingLogin) ==> r.is_err(),
            r matches Err(e) ==> e@ == "连接已经断开"@,
    {
        let now = now_timestamp();
        let r = self.is_valid_probed_at(conn, probe, now);
        assert(r.is_ok() == (conn@.valid_at(now) && probe.healthy()));
        r
    }

    /// The test on return with the probe's finding, at the current time: what
    /// [`XxManager::has_broken_probed_at`] gives for the time that the clock
    /// gave.
    pub fn has_broken_probed(&self, conn: &Xx, probe: Probe) -> (r: bool)
        ensures
            exists|now: i64|
                on_clock(now) && r == !(#[trigger] conn@.alive_at(now) && probe.healthy()),
            !probe.healthy() || conn@.used_up() ==> r,
    {
        self.has_broken_probed_at(conn, probe, now_timestamp())
    }

    /// The test on checkout, at the current time: what
    /// [`XxManager::is_valid_at`] gives for the time that the clock gave.
    /// Whatever the clock says, a connection that does not wait for a login
    /// fails it.
    pub fn is_valid(&self, conn: &Xx) -> (r: Result<(), String>)
        ensures
            exists|now: i64| on_clock(now) && r.is_ok() == #[trigger] conn@.valid_at(now),
            !(conn@.state is WaitingLogin) ==> r.is_err(),
            r matches Err(e) ==> e@ == "连接已经断开"@,
    {
        self.is_valid_at(conn, now_timestamp())
    }

    /// The test on return, at the current time: what
    /// [`XxManager::has_broken_at`] gives for the time that the clock gave.
    /// Whatever that time is, a connection past authentication is broken.
    pub fn has_broken(&self, conn: &Xx) -> (r: bool)
        ensures
            exists|now: i64| on_clock(now) && r == !#[trigger] conn@.alive_at(now),
            conn@.used_up() ==> r,
    {
        self.has_broken_at(conn, now_timestamp())
    }
}

} // verus!
