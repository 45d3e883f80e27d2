//! The score data of an organisation, and the lifecycle of the run that
//! fetches it.

use crate::state::LOGIN_WINDOW;
use vstd::prelude::*;

verus! {

/// One member with the scores of the period.
#[derive(Debug)]
pub struct Member {
    pub range_real_score: u64,
    pub dept_names: String,
    pub score_month: u64,
    pub range_score: u64,
    pub dept_ids: String,
    pub user_name: String,
    pub user_id: u64,
    pub total_score: u64,
    pub org_id: i64,
    pub is_activate: i64,
}

/// Mathematical value of a [`Member`].
pub struct MemberView {
    pub range_real_score: u64,
    pub dept_names: Seq<char>,
    pub score_month: u64,
    pub range_score: u64,
    pub dept_ids: Seq<char>,
    pub user_name: Seq<char>,
    pub user_id: u64,
    pub total_score: u64,
    pub org_id: i64,
    pub is_activate: i64,
}

impl View for Member {
    type V = MemberView;

    open spec fn view(&self) -> MemberView {
        MemberView {
            range_real_score: self.range_real_score,
            dept_names: self.dept_names@,
            score_month: self.score_month,
            range_score: self.range_score,
            dept_ids: self.dept_ids@,
            user_name: self.user_name@,
            user_id: self.user_id,
            total_score: self.total_score,
            org_id: self.org_id,
            is_activate: self.is_activate,
        }
    }
}

impl DeepView for Member {
    type V = MemberView;

    open spec fn deep_view(&self) -> MemberView {
        self@
    }
}

impl Clone for Member {
    fn clone(&self) -> (r: Self)
        ensures
            r@ == self@,
    {
        Member {
            range_real_score: self.range_real_score,
            dept_names: self.dept_names.clone(),
            score_month: self.score_month,
            range_score: self.range_score,
            dept_ids: self.dept_ids.clone(),
            user_name: self.user_name.clone(),
            user_id: self.user_id,
            total_score: self.total_score,
            org_id: self.org_id,
            is_activate: self.is_activate,
        }
    }
}

/// The place of one organisation in the ranking. The average score and the
/// distance to the organisation ahead are kept as the texts that a report
/// shows.
#[derive(Debug)]
pub struct OrganizationRank {
    pub rank: u64,
    pub org_name: String,
    pub org_id: u64,
    pub stat_date: String,
    pub avg_score: String,
    pub pre_diff_score: String,
}

/// Mathematical value of an [`OrganizationRank`].
pub struct OrganizationRankView {
    pub rank: u64,
    pub org_name: Seq<char>,
    pub org_id: u64,
    pub stat_date: Seq<char>,
    pub avg_score: Seq<char>,
    pub pre_diff_score: Seq<char>,
}

impl View for OrganizationRank {
    type V = OrganizationRankView;

    open spec fn view(&self) -> OrganizationRankView {
        OrganizationRankView {
            rank: self.rank,
            org_name: self.org_name@,
            org_id: self.org_id,
            stat_date: self.stat_date@,
            avg_score: self.avg_score@,
            pre_diff_score: self.pre_diff_score@,
        }
    }
}

impl DeepView for OrganizationRank {
    type V = OrganizationRankView;

    open spec fn deep_view(&self) -> OrganizationRankView {
        self@
    }
}

impl Clone for OrganizationRank {
    fn clone(&self) -> (r: Self)
        ensures
            r@ == self@,
    {
        OrganizationRank {
            rank: self.rank,
            org_name: self.org_name.clone(),
            org_id: self.org_id,
            stat_date: self.stat_date.clone(),
            avg_score: self.avg_score.clone(),
            pre_diff_score: self.pre_diff_score.clone(),
        }
    }
}

/// The scores of one day.
#[derive(Debug)]
pub struct MemberScore {
    pub date: String,
    pub count: i64,
    pub data: Vec<Member>,
    pub organization_rank: Vec<OrganizationRank>,
}

/// Mathematical value of a [`MemberScore`].
pub struct MemberScoreView {
    pub date: Seq<char>,
    pub count: i64,
    pub data: Seq<MemberView>,
    pub organization_rank: Seq<OrganizationRankView>,
}

impl View for MemberScore {
    type V = MemberScoreView;

    open spec fn view(&self) -> MemberScoreView {
        MemberScoreView {
            date: self.date@,
            count: self.count,
            data: self.data.deep_view(),
            organization_rank: self.organization_rank.deep_view(),
        }
    }
}

/// A copy of a member list.
pub fn clone_members(v: &Vec<Member>) -> (r: Vec<Member>)
    ensures
        r.deep_view() == v.deep_view(),
{
    let mut r: Vec<Member> = Vec::new();
    let mut i: usize = 0;
    while i < v.len()
        invariant
            i <= v.len(),
            r.len() == i,
            forall|j: int| 0 <= j < i ==> (#[trigger] r[j])@ == v[j]@,
        decreases v.len() - i,
    {
        r.push(v[i].clone());
        i = i + 1;
    }
    r
}

fn clone_ranks(v: &Vec<OrganizationRank>) -> (r: Vec<OrganizationRank>)
    ensures
        r.deep_view() == v.deep_view(),
{
    let mut r: Vec<OrganizationRank> = Vec::new();
    let mut i: usize = 0;
    while i < v.len()
        invariant
            i <= v.len(),
            r.len() == i,
            forall|j: int| 0 <= j < i ==> (#[trigger] r[j])@ == v[j]@,
        decreases v.len() - i,
    {
        r.push(v[i].clone());
        i = i + 1;
    }
    r
}

impl Clone for MemberScore {
    fn clone(&self) -> (r: Self)
        ensures
            r@ == self@,
    {
        MemberScore {
            date: self.date.clone(),
            count: self.count,
            data: clone_members(&self.data),
            organization_rank: clone_ranks(&self.organization_rank),
        }
    }
}

impl Default for MemberScore {
    fn default() -> (r: Self)
        ensures
            r@ == (MemberScoreView {
                date: Seq::empty(),
                count: 0,
                data: Seq::empty(),
                organization_rank: Seq::empty(),
            }),
    {
        let data: Vec<Member> = Vec::new();
        let organization_rank: Vec<OrganizationRank> = Vec::new();
        assert(data.deep_view() =~= Seq::<MemberView>::empty());
        assert(organization_rank.deep_view() =~= Seq::<OrganizationRankView>::empty());
        MemberScore { date: String::new(), count: 0, data, organization_rank }
    }
}

/// One step of the administrator's run.
#[derive(Debug)]
pub enum StateChange {
    /// The run failed; the text is the cause.
    BrowserClosed(String),
    Init,
    Ready,
    /// A login ticket is available.
    WaitingLogin(String),
    LoggedIn,
    Complete(MemberScore),
}

/// Mathematical value of a [`StateChange`].
pub enum StateChangeView {
    BrowserClosed(Seq<char>),
    Init,
    Ready,
    WaitingLogin(Seq<char>),
    LoggedIn,
    Complete(MemberScoreView),
}

impl View for StateChange {
    type V = StateChangeView;

    open spec fn view(&self) -> StateChangeView {
        match *self {
            StateChange::BrowserClosed(e) => StateChangeView::BrowserClosed(e@),
            StateChange::Init => StateChangeView::Init,
            StateChange::Ready => StateChangeView::Ready,
            StateChange::WaitingLogin(t) => StateChangeView::WaitingLogin(t@),
            StateChange::LoggedIn => StateChangeView::LoggedIn,
            StateChange::Complete(ms) => StateChangeView::Complete(ms@),
        }
    }
}

impl StateChangeView {
    /// The position, in the lifecycle order, of the value that the event sets.
    pub open spec fn rank(self) -> nat {
        match self {
            StateChangeView::Init => 1,
            StateChangeView::Ready => 2,
            StateChangeView::WaitingLogin(_) => 3,
            StateChangeView::LoggedIn => 4,
            StateChangeView::Complete(_) => 6,
            StateChangeView::BrowserClosed(_) => 6,
        }
    }
}

/// A login ticket as handed to a client.
#[derive(Debug)]
pub struct Ticket {
    pub ticket: String,
}

/// The latest lifecycle value of the administrator's run.
#[derive(Debug)]
pub enum State {
    Broken(String),
    Prepare,
    Init,
    Ready,
    /// Ticket and the time (seconds since the epoch) after which it is stale.
    WaitingLogin((String, i64)),
    Logged,
    Complete(MemberScore),
}

/// Mathematical value of a [`State`].
pub enum StateView {
    Broken(Seq<char>),
    Prepare,
    Init,
    Ready,
    WaitingLogin(Seq<char>, i64),
    Logged,
    Complete(MemberScoreView),
}

impl StateView {
    /// Position in the total order
    /// `Prepare < Init < Ready < WaitingLogin < Logged < {Complete, Broken}`.
    pub open spec fn rank(self) -> nat {
        match self {
            StateView::Prepare => 0,
            StateView::Init => 1,
            StateView::Ready => 2,
            StateView::WaitingLogin(..) => 3,
            StateView::Logged => 4,
            StateView::Complete(_) => 6,
            StateView::Broken(_) => 6,
        }
    }

    /// `Complete` and `Broken` are absorbing.
    pub open spec fn is_terminal(self) -> bool {
        self is Complete || self is Broken
    }

    /// The value a cell holds after one event is applied at time `now`: a
    /// terminal value stays as it is; a ticket is stamped with
    /// `now + LOGIN_WINDOW`; every other event sets its own value.
    pub open spec fn apply(self, change: StateChangeView, now: i64) -> StateView {
        if self.is_terminal() {
            self
        } else {
            match change {
                StateChangeView::BrowserClosed(e) => StateView::Broken(e),
                StateChangeView::Init => StateView::Init,
                StateChangeView::Ready => StateView::Ready,
                StateChangeView::WaitingLogin(t) => StateView::WaitingLogin(
                    t,
                    (now + LOGIN_WINDOW) as i64,
                ),
                StateChangeView::LoggedIn => StateView::Logged,
                StateChangeView::Complete(ms) => StateView::Complete(ms),
            }
        }
    }
}

impl View for State {
    type V = StateView;

    open spec fn view(&self) -> StateView {
        match *self {
            State::Broken(e) => StateView::Broken(e@),
            State::Prepare => StateView::Prepare,
            State::Init => StateView::Init,
            State::Ready => StateView::Ready,
            State::WaitingLogin(w) => StateView::WaitingLogin(w.0@, w.1),
            State::Logged => StateView::Logged,
            State::Complete(ms) => StateView::Complete(ms@),
        }
    }
}

impl Clone for State {
    fn clone(&self) -> (r: Self)
        ensures
            r@ == self@,
    {
        match self {
            State::Broken(e) => State::Broken(e.clone()),
            State::Prepare => State::Prepare,
            State::Init => State::Init,
            State::Ready => State::Ready,
            State::WaitingLogin(w) => State::WaitingLogin((w.0.clone(), w.1)),
            State::Logged => State::Logged,
            State::Complete(ms) => State::Complete(ms.clone()),
        }
    }
}

impl State {
    /// Whether no further event can change a cell that holds this value.
    pub fn is_terminal(&self) -> (r: bool)
        ensures
            r == self@.is_terminal(),
    {
        match self {
            State::Complete(_) => true,
            State::Broken(_) => true,
            _ => false,
        }
    }

    /// Applies one event to the value at time `now`. Returns whether the
    /// stream may go on, that is whether the new value is not terminal.
    pub fn apply(&mut self, change: StateChange, now: i64) -> (more: bool)
        requires
            change@ is WaitingLogin ==> now + LOGIN_WINDOW <= i64::MAX,
        ensures
            final(self)@ == old(self)@.apply(change@, now),
            more == !final(self)@.is_terminal(),
    {
        if self.is_terminal() {
            return false;
        }
        match change {
            StateChange::BrowserClosed(e) => {
                *self = State::Broken(e);
                false
            },
            StateChange::Init => {
                *self = State::Init;
                true
            },
            StateChange::Ready => {
                *self = State::Ready;
                true
            },
            StateChange::WaitingLogin(t) => {
                *self = State::WaitingLogin((t, now + LOGIN_WINDOW));
                true
            },
            StateChange::LoggedIn => {
                *self = State::Logged;
                true
            },
            StateChange::Complete(ms) => {
                *self = State::Complete(ms);
                false
            },
        }
    }
}

} // verus!
