//! The administrator's run as a machine: each report of the outside world is
//! answered with at most one lifecycle event and the next action.

use crate::admin::state::{MemberScore, MemberScoreView, StateChange, StateChangeView};
use crate::error::{TaskError, TaskErrorView};
use crate::task::{MAX_LOGIN_RETRIES, TICKET_WINDOW};
use vstd::prelude::*;

verus! {

/// Where the run stands.
#[derive(Clone, Copy, Debug, PartialEq, Eq, Structural)]
pub enum AdminPhase {
    Idle,
    Launching,
    FetchingTicket,
    WaitingLogin,
    ReadingScore,
    Done,
}

/// What the outside world reports.
#[derive(Debug)]
pub enum AdminEvent {
    Start,
    /// The browser is up.
    Launched,
    Ticket(String),
    /// The wait for the login ended: confirmed, or timed out.
    Login(bool),
    Score(MemberScore),
    Failed(TaskError),
    Cancelled,
}

/// Mathematical value of an [`AdminEvent`].
pub enum AdminEventView {
    Start,
    Launched,
    Ticket(Seq<char>),
    Login(bool),
    Score(MemberScoreView),
    Failed(TaskErrorView),
    Cancelled,
}

impl View for AdminEvent {
    type V = AdminEventView;

    open spec fn view(&self) -> AdminEventView {
        match *self {
            AdminEvent::Start => AdminEventView::Start,
            AdminEvent::Launched => AdminEventView::Launched,
            AdminEvent::Ticket(t) => AdminEventView::Ticket(t@),
            AdminEvent::Login(b) => AdminEventView::Login(b),
            AdminEvent::Score(s) => AdminEventView::Score(s@),
            AdminEvent::Failed(e) => AdminEventView::Failed(e@),
            AdminEvent::Cancelled => AdminEventView::Cancelled,
        }
    }
}

/// What the run asks for next.
#[derive(Clone, Copy, Debug, PartialEq, Eq, Structural)]
pub enum AdminAction {
    Nothing,
    Launch,
    FetchTicket,
    /// Wait this many seconds for the login to be confirmed.
    WaitLogin(i64),
    /// Read the scores of the day before.
    ReadScore,
    Release,
}

/// The answer to one event.
#[derive(Debug)]
pub struct AdminStep {
    pub emit: Option<StateChange>,
    pub action: AdminAction,
}

/// Mathematical value of an [`AdminStep`].
pub struct AdminStepView {
    pub emit: Option<StateChangeView>,
    pub action: AdminAction,
}

impl View for AdminStep {
    type V = AdminStepView;

    open spec fn view(&self) -> AdminStepView {
        AdminStepView {
            emit: match self.emit {
                Some(c) => Some(c@),
                None => None,
            },
            action: self.action,
        }
    }
}

/// The administrator's run.
#[derive(Clone, Copy, Debug)]
pub struct AdminTask {
    phase: AdminPhase,
    retries: u32,
    max_retries: u32,
}

/// Mathematical value of an [`AdminTask`].
pub struct AdminTaskView {
    pub phase: AdminPhase,
    /// Waits for a login that timed out.
    pub retries: u32,
    pub max_retries: u32,
}

impl AdminTaskView {
    /// What holds of every run: no more waits have timed out than the budget
    /// allows, and only a finished run has used the budget up.
    pub open spec fn wf(self) -> bool {
        &&& self.retries <= self.max_retries
        &&& self.phase is Done || self.retries < self.max_retries || self.retries == 0
    }

    /// A bound on the lifecycle rank that the run has reached.
    pub open spec fn level(self) -> nat {
        match self.phase {
            AdminPhase::Idle => 0,
            AdminPhase::Launching => 1,
            AdminPhase::FetchingTicket => if self.retries == 0 {
                1
            } else {
                3
            },
            AdminPhase::WaitingLogin => 3,
            AdminPhase::ReadingScore => 4,
            AdminPhase::Done => 6,
        }
    }

    /// An answer that publishes nothing.
    pub open spec fn quiet(self, action: AdminAction) -> (AdminTaskView, AdminStepView) {
        (self, AdminStepView { emit: None, action })
    }

    /// The run ends in failure with the reason of `e`.
    pub open spec fn fail(self, e: TaskErrorView) -> (AdminTaskView, AdminStepView) {
        (
            AdminTaskView { phase: AdminPhase::Done, ..self },
            AdminStepView {
                emit: Some(StateChangeView::BrowserClosed(e.reason())),
                action: AdminAction::Release,
            },
        )
    }

    /// The answer to `event`, and the run after it. A finished run answers
    /// nothing; cancellation and failure end any other run; a wait for the
    /// login that timed out leads to the next ticket while the budget lasts;
    /// an event that does not fit the phase changes nothing.
    pub open spec fn step(self, event: AdminEventView) -> (AdminTaskView, AdminStepView) {
        if self.phase is Done {
            self.quiet(AdminAction::Nothing)
        } else if event is Cancelled {
            self.fail(TaskErrorView::Cancelled)
        } else if let AdminEventView::Failed(e) = event {
            self.fail(e)
        } else {
            match (self.phase, event) {
                (AdminPhase::Idle, AdminEventView::Start) => (
                    AdminTaskView { phase: AdminPhase::Launching, ..self },
                    AdminStepView {
                        emit: Some(StateChangeView::Init),
                        action: AdminAction::Launch,
                    },
                ),
                (AdminPhase::Launching, AdminEventView::Launched) => AdminTaskView {
                    phase: AdminPhase::FetchingTicket,
                    ..self
                }.quiet(AdminAction::FetchTicket),
                (AdminPhase::FetchingTicket, AdminEventView::Ticket(t)) => (
                    AdminTaskView { phase: AdminPhase::WaitingLogin, ..self },
                    AdminStepView {
                        emit: Some(StateChangeView::WaitingLogin(t)),
                        action: AdminAction::WaitLogin(TICKET_WINDOW),
                    },
                ),
                (AdminPhase::WaitingLogin, AdminEventView::Login(confirmed)) => if confirmed {
                    (
                        AdminTaskView { phase: AdminPhase::ReadingScore, ..self },
                        AdminStepView {
                            emit: Some(StateChangeView::LoggedIn),
                            action: AdminAction::ReadScore,
                        },
                    )
                } else if self.retries + 1 >= self.max_retries {
                    AdminTaskView { retries: self.max_retries, ..self }.fail(
                        TaskErrorView::LoginTimeout(self.max_retries),
                    )
                } else {
                    AdminTaskView {
                        phase: AdminPhase::FetchingTicket,
                        retries: (self.retries + 1) as u32,
                        ..self
                    }.quiet(AdminAction::FetchTicket)
                },
                (AdminPhase::ReadingScore, AdminEventView::Score(s)) => (
                    AdminTaskView { phase: AdminPhase::Done, ..self },
                    AdminStepView {
                        emit: Some(StateChangeView::Complete(s)),
                        action: AdminAction::Release,
                    },
                ),
                _ => self.quiet(AdminAction::Nothing),
            }
        }
    }
}

impl View for AdminTask {
    type V = AdminTaskView;

    closed spec fn view(&self) -> AdminTaskView {
        AdminTaskView { phase: self.phase, retries: self.retries, max_retries: self.max_retries }
    }
}

impl AdminTask {
    /// A run that may wait `max_retries` times in vain for a login.
    pub fn new(max_retries: u32) -> (r: Self)
        ensures
            r@ == (AdminTaskView { phase: AdminPhase::Idle, retries: 0, max_retries }),
            r@.wf(),
    {
        AdminTask { phase: AdminPhase::Idle, retries: 0, max_retries }
    }

    /// A run with the usual budget of [`MAX_LOGIN_RETRIES`].
    pub fn standard() -> (r: Self)
        ensures
            r@ == (AdminTaskView {
                phase: AdminPhase::Idle,
                retries: 0,
                max_retries: MAX_LOGIN_RETRIES,
            }),
    {
        AdminTask::new(MAX_LOGIN_RETRIES)
    }

    /// What the run is waiting for.
    pub fn phase(&self) -> (r: AdminPhase)
        ensures
            r == self@.phase,
    {
        self.phase
    }

    fn fail(&mut self, e: TaskError) -> (out: AdminStep)
        ensures
            final(self)@ == old(self)@.fail(e@).0,
            out@ == old(self)@.fail(e@).1,
    {
        self.phase = AdminPhase::Done;
        AdminStep {
            emit: Some(StateChange::BrowserClosed(e.reason())),
            action: AdminAction::Release,
        }
    }

    /// Answers one event.
    pub fn step(&mut self, event: AdminEvent) -> (out: AdminStep)
        requires
            old(self)@.wf(),
        ensures
            final(self)@ == old(self)@.step(event@).0,
            out@ == old(self)@.step(event@).1,
            final(self)@.wf(),
    {
        if let AdminPhase::Done = self.phase {
            return AdminStep { emit: None, action: AdminAction::Nothing };
        }
        match (self.phase, event) {
            (_, AdminEvent::Cancelled) => self.fail(TaskError::Cancelled),
            (_, AdminEvent::Failed(e)) => self.fail(e),
            (AdminPhase::Idle, AdminEvent::Start) => {
                self.phase = AdminPhase::Launching;
                AdminStep { emit: Some(StateChange::Init), action: AdminAction::Launch }
            },
            (AdminPhase::Launching, AdminEvent::Launched) => {
                self.phase = AdminPhase::FetchingTicket;
                AdminStep { emit: None, action: AdminAction::FetchTicket }
            },
            (AdminPhase::FetchingTicket, AdminEvent::Ticket(t)) => {
                self.phase = AdminPhase::WaitingLogin;
                AdminStep {
                    emit: Some(StateChange::WaitingLogin(t)),
                    action: AdminAction::WaitLogin(TICKET_WINDOW),
                }
            },
            (AdminPhase::WaitingLogin, AdminEvent::Login(confirmed)) => {
                if confirmed {
                    self.phase = AdminPhase::ReadingScore;
                    AdminStep { emit: Some(StateChange::LoggedIn), action: AdminAction::ReadScore }
                } else if self.retries >= self.max_retries || self.retries + 1
                    >= self.max_retries {
                    self.retries = self.max_retries;
                    self.fail(TaskError::LoginTimeout(self.max_retries))
                } else {
                    self.retries = self.retries + 1;
                    self.phase = AdminPhase::FetchingTicket;
                    AdminStep { emit: None, action: AdminAction::FetchTicket }
                }
            },
            (AdminPhase::ReadingScore, AdminEvent::Score(s)) => {
                self.phase = AdminPhase::Done;
                AdminStep { emit: Some(StateChange::Complete(s)), action: AdminAction::Release }
            },
            _ => AdminStep { emit: None, action: AdminAction::Nothing },
        }
    }
}

/// What the administrator's run emits never ranks below what it emitted
/// before; after its terminal event it emits nothing.
pub proof fn lemma_admin_step_rank(task: AdminTaskView, event: AdminEventView)
    requires
        task.wf(),
    ensures
        task.step(event).0.wf(),
        task.level() <= task.step(event).0.level(),
        task.phase is Done ==> task.step(event).1.emit is None,
        task.step(event).1.emit matches Some(c) ==> task.level() <= c.rank() <= task.step(
            event,
        ).0.level(),
{
}

} // verus!
