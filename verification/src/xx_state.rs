//! The state cell of one session: the single latest lifecycle value, written
//! by one relay and read by any number of pollers.

use crate::clock::{now_timestamp, on_clock};
use crate::error::{TaskError, TaskErrorView};
use crate::state::{State, StateChange, StateChangeView, StateView, LOGIN_WINDOW};
use crate::text::text;
use vstd::prelude::*;

verus! {

/// Why a question to a cell has no answer yet, or no longer.
#[derive(Clone, Copy, Debug, PartialEq, Eq, Structural)]
pub enum QueryError {
    /// The ticket's expiry lies before the time of asking.
    TicketExpired,
    /// The session is not waiting for a login.
    NoTicket,
    /// The session still waits for a login.
    NotLoggedIn,
    /// The session holds no nickname to show.
    NoNickName,
    /// The login is done, the activity phase has not begun.
    NotStarted,
    /// The session holds no score.
    NoScore,
}

impl QueryError {
    /// The sentence shown to a user.
    pub fn message(&self) -> (r: String)
        ensures
            r@ == match *self {
                QueryError::TicketExpired => "ticket 已经过期"@,
                QueryError::NoTicket => "还没有获取到 ticket"@,
                QueryError::NotLoggedIn => "还没有登陆"@,
                QueryError::NoNickName => "还没有获取到 nick_name"@,
                QueryError::NotStarted => "还没有开始学习"@,
                QueryError::NoScore => "还没有获取到 score"@,
            },
    {
        match self {
            QueryError::TicketExpired => text("ticket 已经过期"),
            QueryError::NoTicket => text("还没有获取到 ticket"),
            QueryError::NotLoggedIn => text("还没有登陆"),
            QueryError::NoNickName => text("还没有获取到 nick_name"),
            QueryError::NotStarted => text("还没有开始学习"),
            QueryError::NoScore => text("还没有获取到 score"),
        }
    }
}

/// How often a client's question is asked again before it is given up.
pub const ASK_ATTEMPTS: u32 = 10;

/// Milliseconds between two askings.
pub const ASK_PAUSE_MS: u64 = 50;

/// What follows from one asking of a question that may have no answer yet.
#[derive(Debug)]
pub enum Asked<T> {
    /// The answer.
    Answer(T),
    /// No answer yet: pause for this many milliseconds and ask again.
    AskAgain(u64),
    /// No answer after the last attempt.
    GiveUp,
}

/// What follows from the `attempt`-th asking (counted from 1) with the
/// outcome `outcome`: an answer ends the asking; without one, the question
/// is asked again until [`ASK_ATTEMPTS`] attempts were made.
pub fn after_attempt<T>(attempt: u32, outcome: Result<T, QueryError>) -> (r: Asked<T>)
    ensures
        r == match outcome {
            Ok(a) => Asked::Answer(a),
            Err(_) => if attempt < ASK_ATTEMPTS {
                Asked::AskAgain(ASK_PAUSE_MS)
            } else {
                Asked::GiveUp
            },
        },
{
    match outcome {
        Ok(a) => Asked::Answer(a),
        Err(_) => {
            if attempt < ASK_ATTEMPTS {
                Asked::AskAgain(ASK_PAUSE_MS)
            } else {
                Asked::GiveUp
            }
        },
    }
}

/// The cell of one session.
#[derive(Debug)]
pub struct XxState {
    state: State,
    updated_at: i64,
}

/// Mathematical value of an [`XxState`].
pub struct XxStateView {
    pub state: StateView,
    /// When the value was last written (at creation, before any write).
    pub updated_at: i64,
}

impl XxStateView {
    /// The cell after the relay applied `change` at `now`. A terminal cell
    /// takes no further write.
    pub open spec fn publish(self, change: StateChangeView, now: i64) -> XxStateView {
        if self.state.is_terminal() {
            self
        } else {
            XxStateView { state: self.state.apply(change, now), updated_at: now }
        }
    }

    /// The cell after it took over the value `conn` of the connection that
    /// serves it, at `now`. A session that is cancelled while it waits for a
    /// login breaks with the reason of `Cancelled`.
    pub open spec fn follow(self, conn: StateView, cancelled: bool, now: i64) -> XxStateView {
        if self.state.is_terminal() {
            self
        } else if conn is WaitingLogin && cancelled {
            XxStateView {
                state: StateView::Broken(TaskErrorView::Cancelled.reason()),
                updated_at: now,
            }
        } else {
            XxStateView { state: conn, updated_at: now }
        }
    }

    /// The ticket that a client asking at `now` gets.
    pub open spec fn ticket_at(self, now: i64) -> Result<Seq<char>, QueryError> {
        match self.state {
            StateView::WaitingLogin(t, expires_at) => if expires_at < now {
                Err(QueryError::TicketExpired)
            } else {
                Ok(t)
            },
            _ => Err(QueryError::NoTicket),
        }
    }

    /// The nickname that a client gets: that of a session that has just
    /// logged in.
    pub open spec fn nick_name(self) -> Result<Seq<char>, QueryError> {
        match self.state {
            StateView::WaitingLogin(..) => Err(QueryError::NotLoggedIn),
            StateView::Logged(n) => Ok(n),
            _ => Err(QueryError::NoNickName),
        }
    }

    /// The score that a client gets: that of a completed session.
    pub open spec fn score(self) -> Result<i64, QueryError> {
        match self.state {
            StateView::WaitingLogin(..) => Err(QueryError::NotLoggedIn),
            StateView::Logged(_) => Err(QueryError::NotStarted),
            StateView::Complete(_, s) => Ok(s),
            _ => Err(QueryError::NoScore),
        }
    }
}

impl View for XxState {
    type V = XxStateView;

    closed spec fn view(&self) -> XxStateView {
        XxStateView { state: self.state@, updated_at: self.updated_at }
    }
}

impl Clone for XxState {
    fn clone(&self) -> (r: Self)
        ensures
            r@ == self@,
    {
        XxState { state: self.state.clone(), updated_at: self.updated_at }
    }
}

/// The text view of a successful answer, the error of a failed one.
pub open spec fn text_result(r: Result<String, QueryError>) -> Result<Seq<char>, QueryError> {
    match r {
        Ok(s) => Ok(s@),
        Err(e) => Err(e),
    }
}

impl XxState {
    /// A cell created at `now`, holding `Prepare`.
    pub fn new_at(now: i64) -> (r: Self)
        ensures
            r@ == (XxStateView { state: StateView::Prepare, updated_at: now }),
    {
        XxState { state: State::Prepare, updated_at: now }
    }

    /// A cell created now, holding `Prepare`: the one that
    /// [`XxState::new_at`] makes for the time that the clock gave.
    pub fn new() -> (r: Self)
        ensures
            r@.state == StateView::Prepare,
            on_clock(r@.updated_at),
    {
        XxState::new_at(now_timestamp())
    }

    /// A snapshot of the cell.
    pub fn get_state(&self) -> (r: State)
        ensures
            r@ == self@.state,
    {
        self.state.clone()
    }

    /// When the cell was last written.
    pub fn updated_at(&self) -> (r: i64)
        ensures
            r == self@.updated_at,
    {
        self.updated_at
    }

    /// Applies one event of the session's stream at `now`. Returns whether
    /// the relay goes on: `false` once the cell is terminal.
    pub fn publish_at(&mut self, change: StateChange, now: i64) -> (more: bool)
        requires
            change@ is WaitingLogin ==> now + LOGIN_WINDOW <= i64::MAX,
        ensures
            final(self)@ == old(self)@.publish(change@, now),
            more == !final(self)@.state.is_terminal(),
    {
        if self.state.is_terminal() {
            false
        } else {
            self.updated_at = now;
            self.state.apply(change, now)
        }
    }

    /// Takes over the value of the serving connection at `now`. Returns
    /// whether the follower goes on.
    pub fn follow_at(&mut self, conn: State, cancelled: bool, now: i64) -> (more: bool)
        ensures
            final(self)@ == old(self)@.follow(conn@, cancelled, now),
            more == !final(self)@.state.is_terminal(),
    {
        if self.state.is_terminal() {
            return false;
        }
        self.updated_at = now;
        let waiting = match &conn {
            State::WaitingLogin(_) => true,
            _ => false,
        };
        if waiting && cancelled {
            self.state = State::Broken(TaskError::Cancelled.reason());
            false
        } else {
            self.state = conn;
            !self.state.is_terminal()
        }
    }

    /// Breaks the session with the reason of `e`, unless it is over already.
    pub fn fail_at(&mut self, e: &TaskError, now: i64)
        ensures
            final(self)@ == old(self)@.publish(StateChangeView::BrowserClosed(e@.reason()), now),
            final(self)@.state.is_terminal(),
    {
        if !self.state.is_terminal() {
            self.updated_at = now;
            self.state = State::Broken(e.reason());
        }
    }

    /// The ticket for a client that asks at `now`: the ticket of a session
    /// that waits for a login, unless its expiry lies before `now`.
    pub fn get_ticket_at(&self, now: i64) -> (r: Result<String, QueryError>)
        ensures
            text_result(r) == self@.ticket_at(now),
    {
        match &self.state {
            State::WaitingLogin(w) => {
                if w.1 < now {
                    Err(QueryError::TicketExpired)
                } else {
                    Ok(w.0.clone())
                }
            },
            _ => Err(QueryError::NoTicket),
        }
    }

    /// The ticket for a client that asks now: what
    /// [`XxState::get_ticket_at`] gives for the time that the clock gave.
    /// Whatever that time is, only a session that waits for a login has a
    /// ticket, and it is that session's.
    pub fn get_ticket(&self) -> (r: Result<String, QueryError>)
        ensures
            exists|now: i64| on_clock(now) && text_result(r) == #[trigger] self@.ticket_at(now),
            !(self@.state is WaitingLogin) ==> r == Err::<String, QueryError>(QueryError::NoTicket),
            self@.state matches StateView::WaitingLogin(t, _) ==> (match r {
                Ok(s) => s@ == t,
                Err(e) => e == QueryError::TicketExpired,
            }),
    {
        self.get_ticket_at(now_timestamp())
    }

    /// The nickname of a session that has just logged in.
    pub fn get_nick_name(&self) -> (r: Result<String, QueryError>)
        ensures
            text_result(r) == self@.nick_name(),
    {
        match &self.state {
            State::WaitingLogin(_) => Err(QueryError::NotLoggedIn),
            State::Logged(n) => Ok(n.clone()),
            _ => Err(QueryError::NoNickName),
        }
    }

    /// The final score of a completed session.
    pub fn get_score(&self) -> (r: Result<i64, QueryError>)
        ensures
            r == self@.score(),
    {
        match &self.state {
            State::WaitingLogin(_) => Err(QueryError::NotLoggedIn),
            State::Logged(_) => Err(QueryError::NotStarted),
            State::Complete(c) => Ok(c.1),
            _ => Err(QueryError::NoScore),
        }
    }
}

} // verus!
