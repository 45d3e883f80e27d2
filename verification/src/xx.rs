//! A pooled connection: one browser run with its freshness window and its
//! own lifecycle cell.

use crate::clock::{now_timestamp, on_clock};
use crate::state::{State, StateChange, StateView, LOGIN_WINDOW};
use vstd::prelude::*;

verus! {

/// Seconds after its construction during which a connection can be handed out.
pub const AVAILABLE_FOR: i64 = 200;

/// Most tabs a browser may hold and still count as responsive.
pub const MAX_TABS: usize = 6;

/// A connection as the pool and its consumers see it.
#[derive(Debug)]
pub struct Xx {
    available_before: i64,
    state: State,
}

/// Mathematical value of an [`Xx`].
pub struct XxView {
    pub available_before: i64,
    pub state: StateView,
}

impl XxView {
    /// Still worth keeping at `now`: inside the freshness window, and not yet
    /// past authentication. A ticket counts only strictly before its expiry.
    pub open spec fn alive_at(self, now: i64) -> bool {
        self.available_before > now && match self.state {
            StateView::Init => true,
            StateView::Prepare => true,
            StateView::WaitingLogin(_, expires_at) => expires_at > now,
            _ => false,
        }
    }

    /// Fit to be handed out at `now`: inside the freshness window and holding
    /// a login ticket that has not expired.
    pub open spec fn valid_at(self, now: i64) -> bool {
        self.available_before > now && match self.state {
            StateView::WaitingLogin(_, expires_at) => expires_at > now,
            _ => false,
        }
    }

    /// A connection constructed at `now`: available until
    /// `now + AVAILABLE_FOR`, its cell at `Prepare`.
    pub open spec fn fresh(now: i64) -> XxView {
        XxView { available_before: (now + AVAILABLE_FOR) as i64, state: StateView::Prepare }
    }

    /// The connection has gone through authentication, or has failed.
    pub open spec fn used_up(self) -> bool {
        self.state.rank() > 3
    }
}

/// What the liveness probe of a browser process found.
#[derive(Clone, Copy, Debug)]
pub struct Probe {
    /// Whether the process answered the request for its version.
    pub version_ok: bool,
    /// How many tabs the browser holds.
    pub tabs: usize,
}

impl Probe {
    /// The process is responsive and within its limit of tabs.
    pub open spec fn healthy(self) -> bool {
        spec_is_healthy(self.version_ok, self.tabs)
    }

    /// Whether the process is responsive and within its limit of tabs.
    pub fn is_healthy(&self) -> (r: bool)
        ensures
            r == self.healthy(),
    {
        is_healthy(self.version_ok, self.tabs)
    }
}

/// Whether a browser that answered (or not) a version probe and holds `tabs`
/// tabs counts as responsive.
pub open spec fn spec_is_healthy(version_ok: bool, tabs: usize) -> bool {
    version_ok && tabs < MAX_TABS
}

/// The liveness probe of a browser process, decided from what the probe
/// found: the version request was answered, and fewer than [`MAX_TABS`] tabs
/// are open.
pub fn is_healthy(version_ok: bool, tabs: usize) -> (r: bool)
    ensures
        r == spec_is_healthy(version_ok, tabs),
{
    version_ok && tabs < MAX_TABS
}

impl View for Xx {
    type V = XxView;

    closed spec fn view(&self) -> XxView {
        XxView { available_before: self.available_before, state: self.state@ }
    }
}

impl Xx {
    /// A connection constructed at `now`: available for [`AVAILABLE_FOR`]
    /// seconds, its cell at `Prepare`.
    pub fn new_at(now: i64) -> (r: Self)
        requires
            now + AVAILABLE_FOR <= i64::MAX,
        ensures
            r@ == XxView::fresh(now),
    {
        Xx { available_before: now + AVAILABLE_FOR, state: State::Prepare }
    }

    /// A connection constructed now: the one that [`Xx::new_at`] makes for
    /// the time that the clock gave. It is always there: every time that the
    /// clock gives leaves room for the freshness window.
    pub fn new() -> (r: Option<Self>)
        ensures
            r matches Some(x) && exists|now: i64|
                on_clock(now) && x@ == #[trigger] XxView::fresh(now),
    {
        let now = now_timestamp();
        Some(Xx::new_at(now))
    }

    /// The end of the freshness window.
    pub fn available_before(&self) -> (r: i64)
        ensures
            r == self@.available_before,
    {
        self.available_before
    }

    /// A snapshot of the connection's cell.
    pub fn get_state(&self) -> (r: State)
        ensures
            r@ == self@.state,
    {
        self.state.clone()
    }

    /// Applies one event of the task runner to the connection's cell at time
    /// `now`. Returns whether the relay goes on: `false` once the cell is
    /// terminal.
    pub fn publish_at(&mut self, change: StateChange, now: i64) -> (more: bool)
        requires
            change@ is WaitingLogin ==> now + LOGIN_WINDOW <= i64::MAX,
        ensures
            final(self)@.state == old(self)@.state.apply(change@, now),
            final(self)@.available_before == old(self)@.available_before,
            more == !final(self)@.state.is_terminal(),
    {
        self.state.apply(change, now)
    }

    /// Applies one event of the task runner to the connection's cell at the
    /// current time: what [`Xx::publish_at`] does for the time that the clock
    /// gave. Returns whether the relay goes on.
    pub fn publish(&mut self, change: StateChange) -> (more: bool)
        ensures
            final(self)@.available_before == old(self)@.available_before,
            exists|now: i64|
                on_clock(now) && final(self)@.state == #[trigger] old(self)@.state.apply(
                    change@,
                    now,
                ),
            old(self)@.state.is_terminal() ==> final(self)@ == old(self)@,
            more == !final(self)@.state.is_terminal(),
    {
        let now = now_timestamp();
        self.publish_at(change, now)
    }

    /// Liveness at `now`, as the pool asks when a connection comes back.
    pub fn ping_at(&self, now: i64) -> (r: bool)
        ensures
            r == self@.alive_at(now),
    {
        self.available_before > now && match &self.state {
            State::Init => true,
            State::Prepare => true,
            State::WaitingLogin(w) => w.1 > now,
            _ => false,
        }
    }

    /// Fitness for hand-out at `now`, as the pool asks on checkout.
    pub fn is_valid_at(&self, now: i64) -> (r: bool)
        ensures
            r == self@.valid_at(now),
    {
        self.available_before > now && match &self.state {
            State::WaitingLogin(w) => w.1 > now,
            _ => false,
        }
    }

    /// Liveness at the current time: what [`Xx::ping_at`] gives for the time
    /// that the clock gave. Whatever that time is, a connection past
    /// authentication is not alive.
    pub fn ping(&self) -> (r: bool)
        ensures
            exists|now: i64| on_clock(now) && r == #[trigger] self@.alive_at(now),
            self@.used_up() ==> !r,
    {
        let now = now_timestamp();
        self.ping_at(now)
    }

    /// Fitness for hand-out at the current time: what [`Xx::is_valid_at`]
    /// gives for the time that the clock gave. Whatever that time is, only a
    /// connection that waits for a login is fit.
    pub fn is_valid(&self) -> (r: bool)
        ensures
            exists|now: i64| on_clock(now) && r == #[trigger] self@.valid_at(now),
            !(self@.state is WaitingLogin) ==> !r,
    {
        let now = now_timestamp();
        self.is_valid_at(now)
    }
}

} // verus!
