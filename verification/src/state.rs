//! The lifecycle state of one session, and the events that produce it.

use vstd::prelude::*;

verus! {

/// Identity captured once a login is confirmed.
#[derive(Debug)]
pub struct UserInfo {
    pub uid: i64,
    pub nick: String,
}

/// Mathematical value of a [`UserInfo`].
pub struct UserInfoView {
    pub uid: i64,
    pub nick: Seq<char>,
}

impl View for UserInfo {
    type V = UserInfoView;

    open spec fn view(&self) -> UserInfoView {
        UserInfoView { uid: self.uid, nick: self.nick@ }
    }
}

impl Clone for UserInfo {
    fn clone(&self) -> (r: Self)
        ensures
            r@ == self@,
    {
        UserInfo { uid: self.uid, nick: self.nick.clone() }
    }
}

/// A login correlation ticket as handed to a client.
#[derive(Debug)]
pub struct Ticket {
    pub ticket: String,
}

impl View for Ticket {
    type V = Seq<char>;

    open spec fn view(&self) -> Seq<char> {
        self.ticket@
    }
}

impl Clone for Ticket {
    fn clone(&self) -> (r: Self)
        ensures
            r@ == self@,
    {
        Ticket { ticket: self.ticket.clone() }
    }
}

/// Copies a progress list: one `(label, current, target)` entry per sub-task.
pub fn clone_progress(p: &Vec<(String, i64, i64)>) -> (r: Vec<(String, i64, i64)>)
    ensures
        r.deep_view() == p.deep_view(),
{
    let mut r: Vec<(String, i64, i64)> = Vec::new();
    let mut i: usize = 0;
    while i < p.len()
        invariant
            i <= p.len(),
            r.len() == i,
            forall|j: int| 0 <= j < i ==> (#[trigger] r[j]).deep_view() == p[j].deep_view(),
        decreases p.len() - i,
    {
        let e = &p[i];
        r.push((e.0.clone(), e.1, e.2));
        i = i + 1;
    }
    r
}

/// One step of a session's progress, as the task runner reports it.
#[derive(Debug)]
pub enum StateChange {
    /// The run failed; the text is the cause.
    BrowserClosed(String),
    Init,
    Ready,
    /// A login ticket is available.
    WaitingLogin(String),
    LoggedIn(UserInfo),
    StartLearn,
    /// Nickname and the latest progress of each sub-task.
    LearnLog((String, Vec<(String, i64, i64)>)),
    /// Nickname and final score.
    Complete((String, i64)),
}

/// Mathematical value of a [`StateChange`].
pub enum StateChangeView {
    BrowserClosed(Seq<char>),
    Init,
    Ready,
    WaitingLogin(Seq<char>),
    LoggedIn(UserInfoView),
    StartLearn,
    LearnLog(Seq<char>, Seq<(Seq<char>, i64, i64)>),
    Complete(Seq<char>, i64),
}

impl View for StateChange {
    type V = StateChangeView;

    open spec fn view(&self) -> StateChangeView {
        match *self {
            StateChange::BrowserClosed(e) => StateChangeView::BrowserClosed(e@),
            StateChange::Init => StateChangeView::Init,
            StateChange::Ready => StateChangeView::Ready,
            StateChange::WaitingLogin(t) => StateChangeView::WaitingLogin(t@),
            StateChange::LoggedIn(u) => StateChangeView::LoggedIn(u@),
            StateChange::StartLearn => StateChangeView::StartLearn,
            StateChange::LearnLog(l) => StateChangeView::LearnLog(l.0@, l.1.deep_view()),
            StateChange::Complete(c) => StateChangeView::Complete(c.0@, c.1),
        }
    }
}

impl StateChangeView {
    /// The position, in the lifecycle order, of the value that the event
    /// sets. `StartLearn` sets none; it counts with the login it follows.
    pub open spec fn rank(self) -> nat {
        match self {
            StateChangeView::Init => 1,
            StateChangeView::Ready => 2,
            StateChangeView::WaitingLogin(_) => 3,
            StateChangeView::LoggedIn(_) => 4,
            StateChangeView::StartLearn => 4,
            StateChangeView::LearnLog(..) => 5,
            StateChangeView::Complete(..) => 6,
            StateChangeView::BrowserClosed(_) => 6,
        }
    }

    /// An event after which the stream of a session is closed.
    pub open spec fn is_terminal(self) -> bool {
        self is BrowserClosed || self is Complete
    }
}

impl Clone for StateChange {
    fn clone(&self) -> (r: Self)
        ensures
            r@ == self@,
    {
        match self {
            StateChange::BrowserClosed(e) => StateChange::BrowserClosed(e.clone()),
            StateChange::Init => StateChange::Init,
            StateChange::Ready => StateChange::Ready,
            StateChange::WaitingLogin(t) => StateChange::WaitingLogin(t.clone()),
            StateChange::LoggedIn(u) => StateChange::LoggedIn(u.clone()),
            StateChange::StartLearn => StateChange::StartLearn,
            StateChange::LearnLog(l) => StateChange::LearnLog((l.0.clone(), clone_progress(&l.1))),
            StateChange::Complete(c) => StateChange::Complete((c.0.clone(), c.1)),
        }
    }
}

/// The latest lifecycle value of one session.
#[derive(Debug)]
pub enum State {
    /// Terminal failure with its cause.
    Broken(String),
    Prepare,
    Init,
    Ready,
    /// Ticket and the time (seconds since the epoch) after which it is stale.
    WaitingLogin((String, i64)),
    Logged(String),
    /// Nickname and `(label, current, target)` of each sub-task.
    Learning((String, Vec<(String, i64, i64)>)),
    /// Terminal success: nickname and final score.
    Complete((String, i64)),
}

/// Mathematical value of a [`State`].
pub enum StateView {
    Broken(Seq<char>),
    Prepare,
    Init,
    Ready,
    WaitingLogin(Seq<char>, i64),
    Logged(Seq<char>),
    Learning(Seq<char>, Seq<(Seq<char>, i64, i64)>),
    Complete(Seq<char>, i64),
}

/// Seconds for which a published login ticket stays valid.
pub const LOGIN_WINDOW: i64 = 150;

impl StateView {
    /// The value a cell holds after one event is applied at time `now`: a
    /// terminal value stays as it is; `StartLearn` changes nothing; a ticket is
    /// stamped with `now + LOGIN_WINDOW`; every other event sets its own value.
    pub open spec fn apply(self, change: StateChangeView, now: i64) -> StateView {
        if self.is_terminal() {
            self
        } else {
            match change {
                StateChangeView::BrowserClosed(e) => StateView::Broken(e),
                StateChangeView::Init => StateView::Init,
                StateChangeView::Ready => StateView::Ready,
                StateChangeView::WaitingLogin(t) => StateView::WaitingLogin(
                    t,
                    (now + LOGIN_WINDOW) as i64,
                ),
                StateChangeView::LoggedIn(u) => StateView::Logged(u.nick),
                StateChangeView::StartLearn => self,
                StateChangeView::LearnLog(n, l) => StateView::Learning(n, l),
                StateChangeView::Complete(n, s) => StateView::Complete(n, s),
            }
        }
    }

    /// Position in the total order
    /// `Prepare < Init < Ready < WaitingLogin < Logged < Learning < {Complete, Broken}`.
    pub open spec fn rank(self) -> nat {
        match self {
            StateView::Prepare => 0,
            StateView::Init => 1,
            StateView::Ready => 2,
            StateView::WaitingLogin(..) => 3,
            StateView::Logged(_) => 4,
            StateView::Learning(..) => 5,
            StateView::Complete(..) => 6,
            StateView::Broken(_) => 6,
        }
    }

    /// `Complete` and `Broken` are absorbing.
    pub open spec fn is_terminal(self) -> bool {
        self is Complete || self is Broken
    }
}

impl View for State {
    type V = StateView;

    open spec fn view(&self) -> StateView {
        match *self {
            State::Broken(e) => StateView::Broken(e@),
            State::Prepare => StateView::Prepare,
            State::Init => StateView::Init,
            State::Ready => StateView::Ready,
            State::WaitingLogin(w) => StateView::WaitingLogin(w.0@, w.1),
            State::Logged(n) => StateView::Logged(n@),
            State::Learning(l) => StateView::Learning(l.0@, l.1.deep_view()),
            State::Complete(c) => StateView::Complete(c.0@, c.1),
        }
    }
}

impl Clone for State {
    fn clone(&self) -> (r: Self)
        ensures
            r@ == self@,
    {
        match self {
            State::Broken(e) => State::Broken(e.clone()),
            State::Prepare => State::Prepare,
            State::Init => State::Init,
            State::Ready => State::Ready,
            State::WaitingLogin(w) => State::WaitingLogin((w.0.clone(), w.1)),
            State::Logged(n) => State::Logged(n.clone()),
            State::Learning(l) => State::Learning((l.0.clone(), clone_progress(&l.1))),
            State::Complete(c) => State::Complete((c.0.clone(), c.1)),
        }
    }
}

impl State {
    /// Whether no further event can change a cell that holds this value.
    pub fn is_terminal(&self) -> (r: bool)
        ensures
            r == self@.is_terminal(),
    {
        match self {
            State::Complete(_) => true,
            State::Broken(_) => true,
            _ => false,
        }
    }

    /// Applies one event to the value at time `now`. Returns whether the
    /// stream may go on, that is whether the new value is not terminal.
    pub fn apply(&mut self, change: StateChange, now: i64) -> (more: bool)
        requires
            change@ is WaitingLogin ==> now + LOGIN_WINDOW <= i64::MAX,
        ensures
            final(self)@ == old(self)@.apply(change@, now),
            more == !final(self)@.is_terminal(),
    {
        if self.is_terminal() {
            return false;
        }
        match change {
            StateChange::BrowserClosed(e) => {
                *self = State::Broken(e);
                false
            },
            StateChange::Init => {
                *self = State::Init;
                true
            },
            StateChange::Ready => {
                *self = State::Ready;
                true
            },
            StateChange::WaitingLogin(t) => {
                *self = State::WaitingLogin((t, now + LOGIN_WINDOW));
                true
            },
            StateChange::LoggedIn(u) => {
                *self = State::Logged(u.nick);
                true
            },
            StateChange::StartLearn => true,
            StateChange::LearnLog(l) => {
                *self = State::Learning(l);
                true
            },
            StateChange::Complete(c) => {
                *self = State::Complete(c);
                false
            },
        }
    }

    /// Position of this value in the lifecycle order.
    pub fn rank(&self) -> (r: u8)
        ensures
            r == self@.rank(),
    {
        match self {
            State::Prepare => 0,
            State::Init => 1,
            State::Ready => 2,
            State::WaitingLogin(_) => 3,
            State::Logged(_) => 4,
            State::Learning(_) => 5,
            State::Complete(_) => 6,
            State::Broken(_) => 6,
        }
    }
}

} // verus!
