//! The administrator's connection: one browser run with its freshness window
//! and its lifecycle cell.

use crate::admin::state::{State, StateChange, StateView};
use crate::clock::{now_timestamp, on_clock};
use crate::state::LOGIN_WINDOW;
use crate::xx::AVAILABLE_FOR;
use vstd::prelude::*;

verus! {

/// The administrator's connection.
#[derive(Debug)]
pub struct XxAdmin {
    available_before: i64,
    state: State,
}

/// Mathematical value of an [`XxAdmin`].
pub struct XxAdminView {
    pub available_before: i64,
    pub state: StateView,
}

impl XxAdminView {
    /// A connection constructed at `now`: available until
    /// `now + AVAILABLE_FOR`, its cell at `Prepare`.
    pub open spec fn fresh(now: i64) -> XxAdminView {
        XxAdminView { available_before: (now + AVAILABLE_FOR) as i64, state: StateView::Prepare }
    }

    /// Still worth keeping at `now`: inside the freshness window, and not yet
    /// past authentication. A ticket counts only strictly before its expiry.
    pub open spec fn alive_at(self, now: i64) -> bool {
        self.available_before > now && match self.state {
            StateView::Init => true,
            StateView::Prepare => true,
            StateView::WaitingLogin(_, expires_at) => expires_at > now,
            _ => false,
        }
    }
}

impl View for XxAdmin {
    type V = XxAdminView;

    closed spec fn view(&self) -> XxAdminView {
        XxAdminView { available_before: self.available_before, state: self.state@ }
    }
}

impl XxAdmin {
    /// A connection constructed at `now`: available for
    /// [`AVAILABLE_FOR`] seconds, its cell at `Prepare`.
    pub fn new_at(now: i64) -> (r: Self)
        requires
            now + AVAILABLE_FOR <= i64::MAX,
        ensures
            r@ == XxAdminView::fresh(now),
    {
        XxAdmin { available_before: now + AVAILABLE_FOR, state: State::Prepare }
    }

    /// A connection constructed now: the one that [`XxAdmin::new_at`] makes
    /// for the time that the clock gave. It is always there: every time that
    /// the clock gives leaves room for the freshness window.
    pub fn new() -> (r: Option<Self>)
        ensures
            r matches Some(x) && exists|now: i64|
                on_clock(now) && x@ == #[trigger] XxAdminView::fresh(now),
    {
        let now = now_timestamp();
        Some(XxAdmin::new_at(now))
    }

    /// A snapshot of the connection's cell.
    pub fn get_state(&self) -> (r: State)
        ensures
            r@ == self@.state,
    {
        self.state.clone()
    }

    /// Applies one event of the run to the cell at time `now`. Returns
    /// whether the relay goes on: `false` once the cell is terminal.
    pub fn publish_at(&mut self, change: StateChange, now: i64) -> (more: bool)
        requires
            change@ is WaitingLogin ==> now + LOGIN_WINDOW <= i64::MAX,
        ensures
            final(self)@.state == old(self)@.state.apply(change@, now),
            final(self)@.available_before == old(self)@.available_before,
            more == !final(self)@.state.is_terminal(),
    {
        self.state.apply(change, now)
    }

    /// Applies one event of the run to the cell at the current time: what
    /// [`XxAdmin::publish_at`] does for the time that the clock gave. Returns
    /// whether the relay goes on.
    pub fn publish(&mut self, change: StateChange) -> (more: bool)
        ensures
            final(self)@.available_before == old(self)@.available_before,
            exists|now: i64|
                on_clock(now) && final(self)@.state == #[trigger] old(self)@.state.apply(
                    change@,
                    now,
                ),
            old(self)@.state.is_terminal() ==> final(self)@ == old(self)@,
            more == !final(self)@.state.is_terminal(),
    {
        let now = now_timestamp();
        self.publish_at(change, now)
    }

    /// Liveness at `now`.
    pub fn ping_at(&self, now: i64) -> (r: bool)
        ensures
            r == self@.alive_at(now),
    {
        self.available_before > now && match &self.state {
            State::Init => true,
            State::Prepare => true,
            State::WaitingLogin(w) => w.1 > now,
            _ => false,
        }
    }

    /// Liveness at the current time: what [`XxAdmin::ping_at`] gives for the
    /// time that the clock gave. Whatever that time is, a connection past
    /// authentication is not alive.
    pub fn ping(&self) -> (r: bool)
        ensures
            exists|now: i64| on_clock(now) && r == #[trigger] self@.alive_at(now),
            self@.state.rank() > 3 ==> !r,
    {
        let now = now_timestamp();
        self.ping_at(now)
    }
}

} // verus!
