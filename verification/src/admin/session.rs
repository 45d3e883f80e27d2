//! The administrator's session: one connection at a time, replaced by a new
//! one as soon as a poll has seen it end.

use crate::admin::state::{State, StateChange, StateView};
use crate::admin::xx::{XxAdmin, XxAdminView};
use crate::clock::{now_timestamp, on_clock};
use crate::admin::xxscore::{daily_sends, spec_daily_sends, ScoreSend};
use crate::state::LOGIN_WINDOW;
use crate::xx::AVAILABLE_FOR;
use vstd::prelude::*;

verus! {

/// The administrator's session.
#[derive(Debug)]
pub struct StateSession {
    data: XxAdmin,
    run: u64,
    xx_org_gray_id: String,
    proxy_server: Option<String>,
    wechat_bots: Vec<String>,
    org_id: u64,
    admin_user: String,
}

/// What one poll found and what follows from it.
#[derive(Debug)]
pub struct Poll {
    /// The snapshot of the run.
    pub state: State,
    /// The messages of the daily reports, in the order in which they go out,
    /// where the run has completed; none otherwise. Sending stops at the
    /// first failure.
    pub sends: Vec<ScoreSend>,
    /// Whether the run was over and a new connection took its place, for
    /// which a new run is to be started.
    pub renewed: bool,
}

impl StateSession {
    /// The connection of the current run.
    pub closed spec fn conn(self) -> XxAdminView {
        self.data@
    }

    /// The number of the current run: 0 for the first, one more after every
    /// renewal (it stays where it is once every number has been used).
    pub closed spec fn spec_run(self) -> u64 {
        self.run
    }

    /// The messages that a poll hands out: those of the daily reports where
    /// the run has completed, none otherwise.
    pub open spec fn spec_sends(s: StateSession) -> Seq<crate::admin::xxscore::ScoreSendView> {
        match s.conn().state {
            StateView::Complete(ms) => spec_daily_sends(
                ms,
                s.spec_wechat_bots().deep_view(),
                s.spec_org_id(),
                s.spec_admin_user()@,
            ),
            _ => Seq::empty(),
        }
    }

    /// The number of the run after a renewal.
    pub open spec fn next_run(run: u64) -> u64 {
        if run < u64::MAX {
            (run + 1) as u64
        } else {
            run
        }
    }

    pub closed spec fn spec_org_id(self) -> u64 {
        self.org_id
    }

    pub closed spec fn spec_wechat_bots(self) -> Vec<String> {
        self.wechat_bots
    }

    pub closed spec fn spec_admin_user(self) -> String {
        self.admin_user
    }

    pub closed spec fn spec_xx_org_gray_id(self) -> String {
        self.xx_org_gray_id
    }

    pub closed spec fn spec_proxy_server(self) -> Option<String> {
        self.proxy_server
    }

    /// Nothing but the connection differs between the two sessions.
    pub open spec fn same_settings(self, other: StateSession) -> bool {
        &&& self.spec_org_id() == other.spec_org_id()
        &&& self.spec_wechat_bots() == other.spec_wechat_bots()
        &&& self.spec_admin_user() == other.spec_admin_user()
        &&& self.spec_xx_org_gray_id() == other.spec_xx_org_gray_id()
        &&& self.spec_proxy_server() == other.spec_proxy_server()
    }

    /// A session made at `now`, with a fresh connection.
    pub fn new_at(
        xx_org_gray_id: &str,
        proxy_server: Option<String>,
        wechat_bots: Vec<String>,
        org_id: u64,
        admin_user: String,
        now: i64,
    ) -> (r: Self)
        requires
            now + AVAILABLE_FOR <= i64::MAX,
        ensures
            r.conn() == XxAdminView::fresh(now),
            r.spec_run() == 0,
            r.spec_org_id() == org_id,
            r.spec_wechat_bots() == wechat_bots,
            r.spec_admin_user() == admin_user,
            r.spec_xx_org_gray_id()@ == xx_org_gray_id@,
            r.spec_proxy_server() == proxy_server,
    {
        StateSession {
            data: XxAdmin::new_at(now),
            run: 0,
            xx_org_gray_id: crate::text::text(xx_org_gray_id),
            proxy_server,
            wechat_bots,
            org_id,
            admin_user,
        }
    }

    /// A session made now: the one that [`StateSession::new_at`] makes for
    /// the time that the clock gave. It is always there: every time that the
    /// clock gives leaves room for the freshness window of the connection.
    pub fn new(
        xx_org_gray_id: &str,
        proxy_server: Option<String>,
        wechat_bots: Vec<String>,
        org_id: u64,
        admin_user: String,
    ) -> (r: Option<Self>)
        ensures
            r matches Some(s) && s.spec_run() == 0 && s.spec_org_id() == org_id
                && s.spec_wechat_bots() == wechat_bots && s.spec_admin_user() == admin_user
                && s.spec_xx_org_gray_id()@ == xx_org_gray_id@ && s.spec_proxy_server()
                == proxy_server && exists|now: i64|
                on_clock(now) && s.conn() == #[trigger] XxAdminView::fresh(now),
    {
        let now = now_timestamp();
        Some(
            StateSession::new_at(xx_org_gray_id, proxy_server, wechat_bots, org_id, admin_user, now),
        )
    }

    /// Addresses of the group robots that get the ranking.
    pub fn wechat_bots(&self) -> (r: &Vec<String>)
        ensures
            *r == self.spec_wechat_bots(),
    {
        &self.wechat_bots
    }

    /// The receiver of the full list.
    pub fn admin_user(&self) -> (r: &String)
        ensures
            *r == self.spec_admin_user(),
    {
        &self.admin_user
    }

    pub fn xx_org_gray_id(&self) -> (r: &String)
        ensures
            *r == self.spec_xx_org_gray_id(),
    {
        &self.xx_org_gray_id
    }

    pub fn proxy_server(&self) -> (r: &Option<String>)
        ensures
            *r == self.spec_proxy_server(),
    {
        &self.proxy_server
    }

    /// The number of the current run.
    pub fn run(&self) -> (r: u64)
        ensures
            r == self.spec_run(),
    {
        self.run
    }

    /// Applies one event of run number `run` at `now`. An event of a run
    /// that has been replaced changes nothing. Returns whether the relay of
    /// that run goes on.
    pub fn publish_at(&mut self, run: u64, change: StateChange, now: i64) -> (more: bool)
        requires
            change@ is WaitingLogin ==> now + LOGIN_WINDOW <= i64::MAX,
        ensures
            final(self).same_settings(*old(self)),
            final(self).spec_run() == old(self).spec_run(),
            final(self).conn().available_before == old(self).conn().available_before,
            run == old(self).spec_run() ==> final(self).conn().state == old(
                self,
            ).conn().state.apply(change@, now) && more == !final(self).conn().state.is_terminal(),
            run != old(self).spec_run() ==> final(self).conn() == old(self).conn() && !more,
    {
        if run == self.run {
            self.data.publish_at(change, now)
        } else {
            false
        }
    }

    /// One poll at `now`. It returns the snapshot of the run. Where the run
    /// has completed, the reports of its scores come with it; where the run
    /// is over, in success or not, a fresh connection takes its place.
    pub fn get_at(&mut self, now: i64) -> (r: Poll)
        requires
            now + AVAILABLE_FOR <= i64::MAX,
        ensures
            r.state@ == old(self).conn().state,
            r.renewed == old(self).conn().state.is_terminal(),
            final(self).same_settings(*old(self)),
            final(self).spec_run() == if r.renewed {
                Self::next_run(old(self).spec_run())
            } else {
                old(self).spec_run()
            },
            r.renewed ==> final(self).conn() == XxAdminView::fresh(now),
            !r.renewed ==> final(self).conn() == old(self).conn(),
            r.sends.deep_view() == Self::spec_sends(*old(self)),
    {
        let state = self.data.get_state();
        let sends = match &state {
            State::Complete(ms) => daily_sends(
                ms,
                &self.wechat_bots,
                self.org_id,
                self.admin_user.as_str(),
            ),
            _ => Vec::new(),
        };
        let renewed = state.is_terminal();
        if renewed {
            self.data = XxAdmin::new_at(now);
            if self.run < u64::MAX {
                self.run = self.run + 1;
            }
        }
        Poll { state, sends, renewed }
    }

    /// One poll now: what [`StateSession::get_at`] gives for the time that
    /// the clock gave. The answer is always there. It holds the snapshot of
    /// the run, and the reports where the run has completed; a run that is
    /// over gives way to the connection that [`XxAdmin::new_at`] makes for
    /// that time.
    pub fn get(&mut self) -> (r: Option<Poll>)
        ensures
            final(self).same_settings(*old(self)),
            r matches Some(p) && {
                &&& p.state@ == old(self).conn().state
                &&& p.renewed == old(self).conn().state.is_terminal()
                &&& final(self).spec_run() == if p.renewed {
                    Self::next_run(old(self).spec_run())
                } else {
                    old(self).spec_run()
                }
                &&& p.renewed ==> exists|now: i64|
                    on_clock(now) && final(self).conn() == #[trigger] XxAdminView::fresh(now)
                &&& !p.renewed ==> final(self).conn() == old(self).conn()
                &&& p.sends.deep_view() == Self::spec_sends(*old(self))
            },
    {
        let now = now_timestamp();
        Some(self.get_at(now))
    }
}

} // verus!
