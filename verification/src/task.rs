//! The task runner of one session, as a machine: each event that the outside
//! world hands back is answered with at most one lifecycle event to publish
//! and the next action to perform.

use crate::error::{TaskError, TaskErrorView};
use crate::eval::{all_done, progress, spec_all_done, spec_progress, TodayTask, TodayTaskView};
use crate::plan::{StudyAction, StudyActionView, StudyPlan, StudyPlanView};
use crate::state::{StateChange, StateChangeView, UserInfo, UserInfoView};
use vstd::prelude::*;

verus! {

/// Seconds a login ticket is waited on before the next one is acquired.
pub const TICKET_WINDOW: i64 = 130;

/// Seconds between two looks for the login marker.
pub const POLL_INTERVAL: u64 = 5;

/// Ticket windows that may elapse without a login before the run fails.
pub const MAX_LOGIN_RETRIES: u32 = 20;

/// Seconds after which a run is given up, whatever its phase.
pub const TASK_TIMEOUT: i64 = 7200;

/// The budgets of one run.
#[derive(Clone, Copy, Debug)]
pub struct TaskConfig {
    pub ticket_window: i64,
    pub poll_interval: u64,
    pub max_retries: u32,
    pub task_timeout: i64,
}

impl TaskConfig {
    /// Budgets whose deadlines can be represented at every time that the
    /// clock gives.
    pub open spec fn fits_clock(self) -> bool {
        self.ticket_window <= i64::MAX - crate::clock::CLOCK_END && self.task_timeout <= i64::MAX
            - crate::clock::CLOCK_END
    }

    /// The budgets a run has unless told otherwise.
    pub fn standard() -> (r: Self)
        ensures
            r == (TaskConfig {
                ticket_window: TICKET_WINDOW,
                poll_interval: POLL_INTERVAL,
                max_retries: MAX_LOGIN_RETRIES,
                task_timeout: TASK_TIMEOUT,
            }),
    {
        TaskConfig {
            ticket_window: TICKET_WINDOW,
            poll_interval: POLL_INTERVAL,
            max_retries: MAX_LOGIN_RETRIES,
            task_timeout: TASK_TIMEOUT,
        }
    }
}

/// Where a run stands: what it is waiting for.
#[derive(Clone, Copy, Debug, PartialEq, Eq, Structural)]
pub enum Phase {
    Idle,
    Acquiring,
    FetchingTicket,
    WaitingLogin,
    ReadingUser,
    Validating,
    FetchingLists,
    ReadingTasks,
    Browsing,
    ReadingScore,
    Done,
}

/// What the outside world reports to the runner.
#[derive(Debug)]
pub enum TaskEvent {
    /// The session was created.
    Start,
    /// A browser is at hand.
    Acquired,
    /// A login ticket was read from the page.
    Ticket(String),
    /// One look for the login marker: found or not.
    LoginChecked(bool),
    /// One look for the login marker could not be made.
    LoginCheckFailed,
    /// A pause that the runner asked for is over.
    Tick,
    User(UserInfo),
    /// The validator's verdict on the identity.
    Validated(bool),
    /// The supplies of article and video addresses.
    Lists(Vec<String>, Vec<String>),
    Tasks(Vec<TodayTask>),
    /// A page visit is over.
    Browsed,
    Score(i64),
    /// An action failed for good.
    Failed(TaskError),
    Cancelled,
}

/// Mathematical value of a [`TaskEvent`].
pub enum TaskEventView {
    Start,
    Acquired,
    Ticket(Seq<char>),
    LoginChecked(bool),
    LoginCheckFailed,
    Tick,
    User(UserInfoView),
    Validated(bool),
    Lists(Seq<Seq<char>>, Seq<Seq<char>>),
    Tasks(Seq<TodayTaskView>),
    Browsed,
    Score(i64),
    Failed(TaskErrorView),
    Cancelled,
}

impl View for TaskEvent {
    type V = TaskEventView;

    open spec fn view(&self) -> TaskEventView {
        match *self {
            TaskEvent::Start => TaskEventView::Start,
            TaskEvent::Acquired => TaskEventView::Acquired,
            TaskEvent::Ticket(t) => TaskEventView::Ticket(t@),
            TaskEvent::LoginChecked(b) => TaskEventView::LoginChecked(b),
            TaskEvent::LoginCheckFailed => TaskEventView::LoginCheckFailed,
            TaskEvent::Tick => TaskEventView::Tick,
            TaskEvent::User(u) => TaskEventView::User(u@),
            TaskEvent::Validated(b) => TaskEventView::Validated(b),
            TaskEvent::Lists(n, v) => TaskEventView::Lists(n.deep_view(), v.deep_view()),
            TaskEvent::Tasks(t) => TaskEventView::Tasks(t.deep_view()),
            TaskEvent::Browsed => TaskEventView::Browsed,
            TaskEvent::Score(s) => TaskEventView::Score(s),
            TaskEvent::Failed(e) => TaskEventView::Failed(e@),
            TaskEvent::Cancelled => TaskEventView::Cancelled,
        }
    }
}

/// What the runner asks the outside world to do next.
#[derive(Debug)]
pub enum TaskAction {
    /// Nothing: the event did not fit the phase, or the run is over.
    Nothing,
    /// Get a browser to work with.
    Acquire,
    /// Open the login surface and read a ticket.
    FetchTicket,
    /// Look once for the login marker.
    CheckLogin,
    /// Pause for this many seconds, then report `Tick`.
    Sleep(u64),
    ReadUser,
    /// Ask the validator about this user id.
    Validate(i64),
    FetchLists,
    ReadTasks,
    BrowseNews(String),
    BrowseVideo(String),
    ReadScore,
    /// The run is over: give the connection back.
    Release,
}

/// Mathematical value of a [`TaskAction`].
pub enum TaskActionView {
    Nothing,
    Acquire,
    FetchTicket,
    CheckLogin,
    Sleep(u64),
    ReadUser,
    Validate(i64),
    FetchLists,
    ReadTasks,
    BrowseNews(Seq<char>),
    BrowseVideo(Seq<char>),
    ReadScore,
    Release,
}

impl View for TaskAction {
    type V = TaskActionView;

    open spec fn view(&self) -> TaskActionView {
        match *self {
            TaskAction::Nothing => TaskActionView::Nothing,
            TaskAction::Acquire => TaskActionView::Acquire,
            TaskAction::FetchTicket => TaskActionView::FetchTicket,
            TaskAction::CheckLogin => TaskActionView::CheckLogin,
            TaskAction::Sleep(s) => TaskActionView::Sleep(s),
            TaskAction::ReadUser => TaskActionView::ReadUser,
            TaskAction::Validate(u) => TaskActionView::Validate(u),
            TaskAction::FetchLists => TaskActionView::FetchLists,
            TaskAction::ReadTasks => TaskActionView::ReadTasks,
            TaskAction::BrowseNews(u) => TaskActionView::BrowseNews(u@),
            TaskAction::BrowseVideo(u) => TaskActionView::BrowseVideo(u@),
            TaskAction::ReadScore => TaskActionView::ReadScore,
            TaskAction::Release => TaskActionView::Release,
        }
    }
}

/// The runner's answer to one event.
#[derive(Debug)]
pub struct TaskStep {
    /// The lifecycle event to publish, if any.
    pub emit: Option<StateChange>,
    /// What to do next.
    pub action: TaskAction,
}

/// Mathematical value of a [`TaskStep`].
pub struct TaskStepView {
    pub emit: Option<StateChangeView>,
    pub action: TaskActionView,
}

impl View for TaskStep {
    type V = TaskStepView;

    open spec fn view(&self) -> TaskStepView {
        TaskStepView {
            emit: match self.emit {
                Some(c) => Some(c@),
                None => None,
            },
            action: self.action@,
        }
    }
}

/// The runner of one session.
#[derive(Debug)]
pub struct XxTask {
    config: TaskConfig,
    phase: Phase,
    retries: u32,
    ticket_deadline: i64,
    task_deadline: i64,
    user: UserInfo,
    plan: StudyPlan,
}

/// Mathematical value of an [`XxTask`].
pub struct XxTaskView {
    pub config: TaskConfig,
    pub phase: Phase,
    /// Ticket windows that elapsed without a login.
    pub retries: u32,
    pub ticket_deadline: i64,
    pub task_deadline: i64,
    pub user: UserInfoView,
    pub plan: StudyPlanView,
}

impl XxTaskView {
    /// What holds of every runner: its plan is sound, no more ticket windows
    /// have elapsed than the budget allows, only a finished run has used the
    /// budget up, and pages are visited only when there are tasks.
    pub open spec fn wf(self) -> bool {
        &&& self.plan.wf()
        &&& self.retries <= self.config.max_retries
        &&& self.phase is Done || self.retries < self.config.max_retries || self.retries == 0
        &&& self.phase is Browsing ==> self.plan.tasks.len() > 0
    }

    /// Whether the answer to `event` is the same at every time: that of a
    /// finished run, that to a cancellation, and that of a run not yet
    /// started to anything but its start.
    pub open spec fn timeless(self, event: TaskEventView) -> bool {
        self.phase is Done || event is Cancelled || (self.phase is Idle && !(event is Start))
    }

    /// A bound on the lifecycle rank that the run has reached: every event
    /// published so far ranks at or below it, every later one at or above.
    pub open spec fn level(self) -> nat {
        match self.phase {
            Phase::Idle => 0,
            Phase::Acquiring => 1,
            Phase::FetchingTicket => if self.retries == 0 {
                1
            } else {
                3
            },
            Phase::WaitingLogin => 3,
            Phase::ReadingUser => 3,
            Phase::Validating => 4,
            Phase::FetchingLists => 4,
            Phase::ReadingTasks => if self.plan.tasks.len() == 0 {
                4
            } else {
                5
            },
            Phase::Browsing => 5,
            Phase::ReadingScore => 5,
            Phase::Done => 6,
        }
    }

    /// The deadlines that `now` gives rise to can be represented.
    pub open spec fn in_range(self, now: i64) -> bool {
        &&& now + self.config.ticket_window <= i64::MAX
        &&& now + self.config.task_timeout <= i64::MAX
        &&& now + self.config.ticket_window >= i64::MIN
        &&& now + self.config.task_timeout >= i64::MIN
    }

    /// A runner that was not started yet.
    pub open spec fn fresh(config: TaskConfig) -> XxTaskView {
        XxTaskView {
            config,
            phase: Phase::Idle,
            retries: 0,
            ticket_deadline: 0,
            task_deadline: 0,
            user: UserInfoView { uid: 0, nick: Seq::empty() },
            plan: StudyPlanView::fresh(Seq::empty(), Seq::empty()),
        }
    }

    /// An answer that publishes nothing.
    pub open spec fn quiet(self, action: TaskActionView) -> (XxTaskView, TaskStepView) {
        (self, TaskStepView { emit: None, action })
    }

    /// The run ends in failure: one `BrowserClosed` with the error's reason,
    /// and the connection is given back.
    pub open spec fn fail(self, e: TaskErrorView) -> (XxTaskView, TaskStepView) {
        (
            XxTaskView { phase: Phase::Done, ..self },
            TaskStepView {
                emit: Some(StateChangeView::BrowserClosed(e.reason())),
                action: TaskActionView::Release,
            },
        )
    }

    /// A ticket window elapsed without a login: the next ticket is acquired,
    /// unless the budget is used up, in which case the run fails.
    pub open spec fn expire(self) -> (XxTaskView, TaskStepView) {
        let r = (self.retries + 1) as u32;
        if r >= self.config.max_retries {
            XxTaskView { retries: self.config.max_retries, ..self }.fail(
                TaskErrorView::LoginTimeout(self.config.max_retries),
            )
        } else {
            XxTaskView { phase: Phase::FetchingTicket, retries: r, ..self }.quiet(
                TaskActionView::FetchTicket,
            )
        }
    }

    /// The activity phase moves on by one decision of the plan.
    pub open spec fn advance(self, emit: Option<StateChangeView>) -> (XxTaskView, TaskStepView) {
        let (plan, act) = self.plan.next();
        match act {
            StudyActionView::BrowseNews(u) => (
                XxTaskView { phase: Phase::Browsing, plan, ..self },
                TaskStepView { emit, action: TaskActionView::BrowseNews(u) },
            ),
            StudyActionView::BrowseVideo(u) => (
                XxTaskView { phase: Phase::Browsing, plan, ..self },
                TaskStepView { emit, action: TaskActionView::BrowseVideo(u) },
            ),
            StudyActionView::ReadTasks => (
                XxTaskView { phase: Phase::ReadingTasks, plan, ..self },
                TaskStepView { emit, action: TaskActionView::ReadTasks },
            ),
            StudyActionView::Finish => (
                XxTaskView { phase: Phase::ReadingScore, plan, ..self },
                TaskStepView { emit, action: TaskActionView::ReadScore },
            ),
        }
    }

    /// The answer to `event` at time `now`, and the runner after it.
    ///
    /// A finished run answers nothing. Cancellation ends any other run with
    /// the reason of `Cancelled`; after that, a started run whose overall
    /// deadline has passed ends with the reason of `DeadlineExceeded`; after
    /// that, a reported failure ends the run with its own reason. Otherwise
    /// the event is answered by the phase it fits, and an event that does not
    /// fit the phase changes nothing.
    pub open spec fn step(self, event: TaskEventView, now: i64) -> (XxTaskView, TaskStepView) {
        if self.phase is Done {
            self.quiet(TaskActionView::Nothing)
        } else if event is Cancelled {
            self.fail(TaskErrorView::Cancelled)
        } else if !(self.phase is Idle) && now >= self.task_deadline {
            self.fail(TaskErrorView::DeadlineExceeded)
        } else if let TaskEventView::Failed(e) = event {
            self.fail(e)
        } else {
            match (self.phase, event) {
                (Phase::Idle, TaskEventView::Start) => (
                    XxTaskView {
                        phase: Phase::Acquiring,
                        task_deadline: (now + self.config.task_timeout) as i64,
                        ..self
                    },
                    TaskStepView {
                        emit: Some(StateChangeView::Init),
                        action: TaskActionView::Acquire,
                    },
                ),
                (Phase::Acquiring, TaskEventView::Acquired) => XxTaskView {
                    phase: Phase::FetchingTicket,
                    ..self
                }.quiet(TaskActionView::FetchTicket),
                (Phase::FetchingTicket, TaskEventView::Ticket(t)) => (
                    XxTaskView {
                        phase: Phase::WaitingLogin,
                        ticket_deadline: (now + self.config.ticket_window) as i64,
                        ..self
                    },
                    TaskStepView {
                        emit: Some(StateChangeView::WaitingLogin(t)),
                        action: TaskActionView::CheckLogin,
                    },
                ),
                (Phase::WaitingLogin, TaskEventView::LoginChecked(found)) => if found {
                    XxTaskView { phase: Phase::ReadingUser, ..self }.quiet(
                        TaskActionView::ReadUser,
                    )
                } else if now >= self.ticket_deadline {
                    self.expire()
                } else {
                    self.quiet(TaskActionView::Sleep(self.config.poll_interval))
                },
                (Phase::WaitingLogin, TaskEventView::LoginCheckFailed) => if now
                    >= self.ticket_deadline {
                    self.expire()
                } else {
                    self.quiet(TaskActionView::CheckLogin)
                },
                (Phase::WaitingLogin, TaskEventView::Tick) => if now >= self.ticket_deadline {
                    self.expire()
                } else {
                    self.quiet(TaskActionView::CheckLogin)
                },
                (Phase::ReadingUser, TaskEventView::User(u)) => (
                    XxTaskView { phase: Phase::Validating, user: u, ..self },
                    TaskStepView {
                        emit: Some(StateChangeView::LoggedIn(u)),
                        action: TaskActionView::Validate(u.uid),
                    },
                ),
                (Phase::Validating, TaskEventView::Validated(allowed)) => if allowed {
                    XxTaskView { phase: Phase::FetchingLists, ..self }.quiet(
                        TaskActionView::FetchLists,
                    )
                } else {
                    self.fail(TaskErrorView::ValidationRejected)
                },
                (Phase::FetchingLists, TaskEventView::Lists(news, videos)) => (
                    XxTaskView {
                        phase: Phase::ReadingTasks,
                        plan: StudyPlanView::fresh(news, videos),
                        ..self
                    },
                    TaskStepView {
                        emit: Some(StateChangeView::StartLearn),
                        action: TaskActionView::ReadTasks,
                    },
                ),
                (Phase::ReadingTasks, TaskEventView::Tasks(tasks)) => {
                    let log = Some(StateChangeView::LearnLog(self.user.nick, spec_progress(tasks)));
                    let begun = XxTaskView { plan: self.plan.begin(tasks), ..self };
                    if spec_all_done(tasks) {
                        (
                            XxTaskView { phase: Phase::ReadingScore, ..begun },
                            TaskStepView { emit: log, action: TaskActionView::ReadScore },
                        )
                    } else {
                        begun.advance(log)
                    }
                },
                (Phase::Browsing, TaskEventView::Browsed) => self.advance(None),
                (Phase::ReadingScore, TaskEventView::Score(score)) => (
                    XxTaskView { phase: Phase::Done, ..self },
                    TaskStepView {
                        emit: Some(StateChangeView::Complete(self.user.nick, score)),
                        action: TaskActionView::Release,
                    },
                ),
                _ => self.quiet(TaskActionView::Nothing),
            }
        }
    }
}

impl View for XxTask {
    type V = XxTaskView;

    closed spec fn view(&self) -> XxTaskView {
        XxTaskView {
            config: self.config,
            phase: self.phase,
            retries: self.retries,
            ticket_deadline: self.ticket_deadline,
            task_deadline: self.task_deadline,
            user: self.user@,
            plan: self.plan@,
        }
    }
}

impl XxTask {
    /// A runner with the given budgets, not yet started.
    pub fn new(config: TaskConfig) -> (r: Self)
        ensures
            r@ == XxTaskView::fresh(config),
            r@.wf(),
    {
        let news: Vec<String> = Vec::new();
        let videos: Vec<String> = Vec::new();
        assert(videos.deep_view() =~= Seq::<Seq<char>>::empty());
        XxTask {
            config,
            phase: Phase::Idle,
            retries: 0,
            ticket_deadline: 0,
            task_deadline: 0,
            user: UserInfo { uid: 0, nick: String::new() },
            plan: StudyPlan::new(news, videos),
        }
    }

    /// What the run is waiting for.
    pub fn phase(&self) -> (r: Phase)
        ensures
            r == self@.phase,
    {
        self.phase
    }

    /// Whether the run is over.
    pub fn is_done(&self) -> (r: bool)
        ensures
            r == (self@.phase is Done),
    {
        match self.phase {
            Phase::Done => true,
            _ => false,
        }
    }

    /// Ticket windows that elapsed without a login so far.
    pub fn retries(&self) -> (r: u32)
        ensures
            r == self@.retries,
    {
        self.retries
    }

    /// Whether the deadlines that a step at `now` sets can be represented.
    pub fn in_range(&self, now: i64) -> (r: bool)
        ensures
            r == self@.in_range(now),
    {
        now.checked_add(self.config.ticket_window).is_some() && now.checked_add(
            self.config.task_timeout,
        ).is_some()
    }

    fn fail(&mut self, e: TaskError) -> (out: TaskStep)
        ensures
            final(self)@ == old(self)@.fail(e@).0,
            out@ == old(self)@.fail(e@).1,
    {
        self.phase = Phase::Done;
        TaskStep { emit: Some(StateChange::BrowserClosed(e.reason())), action: TaskAction::Release }
    }

    fn expire(&mut self) -> (out: TaskStep)
        requires
            old(self)@.wf(),
            old(self)@.phase is WaitingLogin,
        ensures
            final(self)@ == old(self)@.expire().0,
            out@ == old(self)@.expire().1,
    {
        if self.retries >= self.config.max_retries || self.retries + 1 >= self.config.max_retries {
            self.retries = self.config.max_retries;
            self.fail(TaskError::LoginTimeout(self.config.max_retries))
        } else {
            self.retries = self.retries + 1;
            self.phase = Phase::FetchingTicket;
            TaskStep { emit: None, action: TaskAction::FetchTicket }
        }
    }

    fn advance(&mut self, emit: Option<StateChange>) -> (out: TaskStep)
        requires
            old(self)@.plan.wf(),
        ensures
            final(self)@ == old(self)@.advance(
                match emit {
                    Some(c) => Some(c@),
                    None => None,
                },
            ).0,
            out@ == old(self)@.advance(
                match emit {
                    Some(c) => Some(c@),
                    None => None,
                },
            ).1,
    {
        match self.plan.next() {
            StudyAction::BrowseNews(u) => {
                self.phase = Phase::Browsing;
                TaskStep { emit, action: TaskAction::BrowseNews(u) }
            },
            StudyAction::BrowseVideo(u) => {
                self.phase = Phase::Browsing;
                TaskStep { emit, action: TaskAction::BrowseVideo(u) }
            },
            StudyAction::ReadTasks => {
                self.phase = Phase::ReadingTasks;
                TaskStep { emit, action: TaskAction::ReadTasks }
            },
            StudyAction::Finish => {
                self.phase = Phase::ReadingScore;
                TaskStep { emit, action: TaskAction::ReadScore }
            },
        }
    }

    /// Answers one event at time `now`.
    pub fn step(&mut self, event: TaskEvent, now: i64) -> (out: TaskStep)
        requires
            old(self)@.wf(),
            old(self)@.in_range(now),
        ensures
            final(self)@ == old(self)@.step(event@, now).0,
            out@ == old(self)@.step(event@, now).1,
            final(self)@.wf(),
    {
        proof {
            lemma_step_wf(self@, event@, now);
        }
        if self.is_done() {
            return TaskStep { emit: None, action: TaskAction::Nothing };
        }
        if let TaskEvent::Cancelled = event {
            return self.fail(TaskError::Cancelled);
        }
        let idle = match self.phase {
            Phase::Idle => true,
            _ => false,
        };
        if !idle && now >= self.task_deadline {
            return self.fail(TaskError::DeadlineExceeded);
        }
        match (self.phase, event) {
            (_, TaskEvent::Failed(e)) => self.fail(e),
            (Phase::Idle, TaskEvent::Start) => {
                self.phase = Phase::Acquiring;
                self.task_deadline = now + self.config.task_timeout;
                TaskStep { emit: Some(StateChange::Init), action: TaskAction::Acquire }
            },
            (Phase::Acquiring, TaskEvent::Acquired) => {
                self.phase = Phase::FetchingTicket;
                TaskStep { emit: None, action: TaskAction::FetchTicket }
            },
            (Phase::FetchingTicket, TaskEvent::Ticket(t)) => {
                self.phase = Phase::WaitingLogin;
                self.ticket_deadline = now + self.config.ticket_window;
                TaskStep { emit: Some(StateChange::WaitingLogin(t)), action: TaskAction::CheckLogin }
            },
            (Phase::WaitingLogin, TaskEvent::LoginChecked(found)) => {
                if found {
                    self.phase = Phase::ReadingUser;
                    TaskStep { emit: None, action: TaskAction::ReadUser }
                } else if now >= self.ticket_deadline {
                    self.expire()
                } else {
                    TaskStep { emit: None, action: TaskAction::Sleep(self.config.poll_interval) }
                }
            },
            (Phase::WaitingLogin, TaskEvent::LoginCheckFailed) => {
                if now >= self.ticket_deadline {
                    self.expire()
                } else {
                    TaskStep { emit: None, action: TaskAction::CheckLogin }
                }
            },
            (Phase::WaitingLogin, TaskEvent::Tick) => {
                if now >= self.ticket_deadline {
                    self.expire()
                } else {
                    TaskStep { emit: None, action: TaskAction::CheckLogin }
                }
            },
            (Phase::ReadingUser, TaskEvent::User(u)) => {
                self.phase = Phase::Validating;
                self.user = u.clone();
                let uid = u.uid;
                TaskStep { emit: Some(StateChange::LoggedIn(u)), action: TaskAction::Validate(uid) }
            },
            (Phase::Validating, TaskEvent::Validated(allowed)) => {
                if allowed {
                    self.phase = Phase::FetchingLists;
                    TaskStep { emit: None, action: TaskAction::FetchLists }
                } else {
                    self.fail(TaskError::ValidationRejected)
                }
            },
            (Phase::FetchingLists, TaskEvent::Lists(news, videos)) => {
                self.phase = Phase::ReadingTasks;
                self.plan = StudyPlan::new(news, videos);
                TaskStep { emit: Some(StateChange::StartLearn), action: TaskAction::ReadTasks }
            },
            (Phase::ReadingTasks, TaskEvent::Tasks(tasks)) => {
                let log = Some(StateChange::LearnLog((self.user.nick.clone(), progress(&tasks))));
                let done = all_done(&tasks);
                self.plan.begin(tasks);
                if done {
                    self.phase = Phase::ReadingScore;
                    TaskStep { emit: log, action: TaskAction::ReadScore }
                } else {
                    self.advance(log)
                }
            },
            (Phase::Browsing, TaskEvent::Browsed) => self.advance(None),
            (Phase::ReadingScore, TaskEvent::Score(score)) => {
                self.phase = Phase::Done;
                TaskStep {
                    emit: Some(StateChange::Complete((self.user.nick.clone(), score))),
                    action: TaskAction::Release,
                }
            },
            _ => TaskStep { emit: None, action: TaskAction::Nothing },
        }
    }
}

impl XxTask {
    /// Whether the answer to `event` is the same at every time.
    pub fn timeless(&self, event: &TaskEvent) -> (r: bool)
        ensures
            r == self@.timeless(event@),
    {
        match (self.phase, event) {
            (Phase::Done, _) => true,
            (_, TaskEvent::Cancelled) => true,
            (Phase::Idle, TaskEvent::Start) => false,
            (Phase::Idle, _) => true,
            _ => false,
        }
    }

    /// Answers one event at the current time: with the answer that
    /// [`XxTask::step`] gives for the time that the clock gave. A runner
    /// whose budgets fit the clock always answers, and so does every runner
    /// to an event whose answer is the same at every time. Any other event
    /// is left unanswered, with nothing changed, where the deadlines that the
    /// time gives rise to cannot be represented.
    pub fn step_now(&mut self, event: TaskEvent) -> (out: Option<TaskStep>)
        requires
            old(self)@.wf(),
        ensures
            final(self)@.wf(),
            old(self)@.config.fits_clock() ==> out is Some,
            old(self)@.timeless(event@) ==> (out matches Some(o) && forall|now: i64|
                final(self)@ == #[trigger] old(self)@.step(event@, now).0 && o@ == old(
                    self,
                )@.step(event@, now).1),
            out is None ==> final(self)@ == old(self)@ && exists|now: i64|
                crate::clock::on_clock(now) && !#[trigger] old(self)@.in_range(now),
            out matches Some(o) ==> exists|now: i64|
                crate::clock::on_clock(now) && final(self)@ == #[trigger] old(self)@.step(
                    event@,
                    now,
                ).0 && o@ == old(self)@.step(event@, now).1,
    {
        let now = crate::clock::now_timestamp();
        let at = if self.in_range(now) {
            now
        } else if self.timeless(&event) {
            0
        } else {
            return None;
        };
        proof {
            assert forall|other: i64|
                self@.timeless(event@) implies #[trigger] self@.step(event@, other) == self@.step(
                event@,
                at,
            ) by {
                lemma_timeless(self@, event@, other, at);
            }
        }
        Some(self.step(event, at))
    }
}

/// The answer to an event whose answer is timeless is the same at any two
/// times.
pub proof fn lemma_timeless(t: XxTaskView, event: TaskEventView, a: i64, b: i64)
    requires
        t.timeless(event),
    ensures
        t.step(event, a) == t.step(event, b),
{
}

/// A step keeps a well-formed runner well-formed.
pub proof fn lemma_step_wf(t: XxTaskView, event: TaskEventView, now: i64)
    requires
        t.wf(),
    ensures
        t.step(event, now).0.wf(),
        t.step(event, now).0.config == t.config,
{
    crate::plan::lemma_next_consumes(t.plan);
    if let TaskEventView::Tasks(tasks) = event {
        let begun = t.plan.begin(tasks);
        crate::plan::lemma_next_consumes(begun);
        crate::plan::lemma_first_pending_bounds(tasks, 0);
    }
}

} // verus!
