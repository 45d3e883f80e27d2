//! Laws of the session lifecycle, proved from the definitions that the
//! contracts of the library use.

use crate::admin::fetcher::{lemma_admin_step_rank, AdminEventView, AdminTaskView};
use crate::admin::state as admin;
use crate::error::TaskErrorView;
use crate::plan::{lemma_first_pending_bounds, lemma_next_consumes};
use crate::session_state::StateSessionView;
use crate::state::{StateChangeView, StateView, LOGIN_WINDOW};
use crate::task::{lemma_step_wf, Phase, TaskConfig, TaskEventView, XxTaskView};
use crate::xx::XxView;
use crate::xx_state::XxStateView;
use vstd::prelude::*;

verus! {

/// One thing that happens to a session: an event for its runner, the time at
/// which the runner handles it, and the time at which the relay publishes what
/// the runner emits in answer.
pub struct Input {
    pub event: TaskEventView,
    pub handled_at: i64,
    pub published_at: i64,
}

/// The snapshots that a poller can observe: the value of the cell after each
/// of `inputs`, where the runner `task` answers the events in order and the
/// relay applies to `cell` what it emits.
pub open spec fn snapshots(cell: StateView, task: XxTaskView, inputs: Seq<Input>) -> Seq<StateView>
    decreases inputs.len(),
{
    if inputs.len() == 0 {
        Seq::empty()
    } else {
        let i = inputs[0];
        let (task2, out) = task.step(i.event, i.handled_at);
        let cell2 = match out.emit {
            Some(c) => cell.apply(c, i.published_at),
            None => cell,
        };
        seq![cell2] + snapshots(cell2, task2, inputs.drop_first())
    }
}

/// A terminal cell is absorbing: no event changes it.
pub proof fn lemma_terminal_absorbing(cell: StateView, change: StateChangeView, now: i64)
    requires
        cell.is_terminal(),
    ensures
        cell.apply(change, now) == cell,
{
}

/// A published ticket expires strictly after the time of publication.
pub proof fn lemma_ticket_expires_later(cell: StateView, ticket: Seq<char>, now: i64)
    requires
        !cell.is_terminal(),
        now + LOGIN_WINDOW <= i64::MAX,
    ensures
        cell.apply(StateChangeView::WaitingLogin(ticket), now) == StateView::WaitingLogin(
            ticket,
            (now + LOGIN_WINDOW) as i64,
        ),
        now < (now + LOGIN_WINDOW) as i64,
{
}

/// What a runner emits never ranks below what it emitted before, and after
/// its terminal event it emits nothing.
pub proof fn lemma_step_rank(task: XxTaskView, event: TaskEventView, now: i64)
    requires
        task.wf(),
    ensures
        task.step(event, now).0.wf(),
        task.level() <= task.step(event, now).0.level(),
        task.phase is Done ==> task.step(event, now).1.emit is None,
        task.step(event, now).1.emit matches Some(c) ==> (c is StartLearn || (task.level()
            <= c.rank() <= task.step(event, now).0.level())),
        task.step(event, now).1.emit matches Some(c) ==> (c.is_terminal() <==> task.step(
            event,
            now,
        ).0.phase is Done),
        task.step(event, now).1.emit is None && !(task.phase is Done) ==> !(task.step(event, now).0.phase is Done),
{
    lemma_step_wf(task, event, now);
    lemma_next_consumes(task.plan);
    if let TaskEventView::Tasks(tasks) = event {
        lemma_next_consumes(task.plan.begin(tasks));
        lemma_first_pending_bounds(tasks, 0);
    }
}

/// What a runner emits in answer to each of `inputs`, in order.
pub open spec fn emissions(task: XxTaskView, inputs: Seq<Input>) -> Seq<Option<StateChangeView>>
    decreases inputs.len(),
{
    if inputs.len() == 0 {
        Seq::empty()
    } else {
        let (task2, out) = task.step(inputs[0].event, inputs[0].handled_at);
        seq![out.emit] + emissions(task2, inputs.drop_first())
    }
}

/// A run emits at most one terminal event, and nothing after it.
pub proof fn lemma_one_terminal_event(task: XxTaskView, inputs: Seq<Input>)
    requires
        task.wf(),
    ensures
        emissions(task, inputs).len() == inputs.len(),
        task.phase is Done ==> forall|j: int|
            0 <= j < inputs.len() ==> #[trigger] emissions(task, inputs)[j] is None,
        forall|i: int, j: int|
            0 <= i < j < inputs.len() && (#[trigger] emissions(task, inputs)[i] matches Some(c)
                && c.is_terminal()) ==> #[trigger] emissions(task, inputs)[j] is None,
    decreases inputs.len(),
{
    if inputs.len() > 0 {
        let (task2, out) = task.step(inputs[0].event, inputs[0].handled_at);
        lemma_step_rank(task, inputs[0].event, inputs[0].handled_at);
        let rest = emissions(task2, inputs.drop_first());
        lemma_one_terminal_event(task2, inputs.drop_first());
        let all = emissions(task, inputs);
        assert forall|j: int| 1 <= j < inputs.len() implies #[trigger] all[j] == rest[j - 1] by {}
    }
}

/// The activity phase cannot go on for ever: a round over progress that is
/// not complete either visits a page, which uses up one page of the
/// supplies, or ends the phase; and between two readings of the progress at
/// least one page is visited.
pub proof fn lemma_round_makes_progress(task: XxTaskView, tasks: Seq<crate::eval::TodayTaskView>, now: i64)
    requires
        task.wf(),
        task.phase is ReadingTasks,
        now < task.task_deadline,
    ensures
        ({
            let (next, out) = task.step(TaskEventView::Tasks(tasks), now);
            &&& next.config == task.config
            &&& next.plan.news == task.plan.news && next.plan.videos == task.plan.videos
            &&& crate::eval::spec_all_done(tasks) ==> out.action is ReadScore
            &&& out.action is ReadScore ==> next.phase is ReadingScore && next.plan.supply_left()
                == task.plan.supply_left()
            &&& !(out.action is ReadScore) ==> (out.action is BrowseNews || out.action
                is BrowseVideo) && next.phase is Browsing && next.plan.supply_left() + 1
                == task.plan.supply_left()
        }),
{
    let begun = task.plan.begin(tasks);
    lemma_next_consumes(begun);
    lemma_first_pending_bounds(tasks, 0);
}

/// A page visit is followed by another visit, which uses up one more page,
/// by a new reading of the progress, or by the end of the phase.
pub proof fn lemma_visit_makes_progress(task: XxTaskView, now: i64)
    requires
        task.wf(),
        task.phase is Browsing,
        now < task.task_deadline,
    ensures
        ({
            let (next, out) = task.step(TaskEventView::Browsed, now);
            &&& out.emit is None
            &&& (out.action is BrowseNews || out.action is BrowseVideo) ==> next.phase is Browsing
                && next.plan.supply_left() + 1 == task.plan.supply_left()
            &&& out.action is ReadTasks ==> next.phase is ReadingTasks && next.plan.supply_left()
                == task.plan.supply_left()
            &&& out.action is ReadScore ==> next.phase is ReadingScore
            &&& out.action is BrowseNews || out.action is BrowseVideo || out.action is ReadTasks
                || out.action is ReadScore
        }),
{
    lemma_next_consumes(task.plan);
}

/// The cell and the runner of one session agree: the cell is terminal, or it
/// ranks no higher than what the runner has reached.
pub open spec fn coupled(cell: StateView, task: XxTaskView) -> bool {
    cell.is_terminal() || cell.rank() <= task.level()
}

proof fn lemma_snapshots_from(cell: StateView, task: XxTaskView, inputs: Seq<Input>)
    requires
        task.wf(),
        coupled(cell, task),
    ensures
        snapshots(cell, task, inputs).len() == inputs.len(),
        forall|j: int|
            0 <= j < inputs.len() ==> cell.rank() <= (#[trigger] snapshots(
                cell,
                task,
                inputs,
            )[j]).rank(),
        forall|j: int|
            0 <= j < inputs.len() && cell.is_terminal() ==> #[trigger] snapshots(
                cell,
                task,
                inputs,
            )[j] == cell,
        forall|i: int, j: int|
            0 <= i <= j < inputs.len() ==> (#[trigger] snapshots(cell, task, inputs)[i]).rank() <= (
            #[trigger] snapshots(cell, task, inputs)[j]).rank(),
        forall|i: int, j: int|
            0 <= i <= j < inputs.len() && (#[trigger] snapshots(
                cell,
                task,
                inputs,
            )[i]).is_terminal() ==> #[trigger] snapshots(cell, task, inputs)[j] == snapshots(
                cell,
                task,
                inputs,
            )[i],
    decreases inputs.len(),
{
    if inputs.len() > 0 {
        let i = inputs[0];
        let (task2, out) = task.step(i.event, i.handled_at);
        let cell2 = match out.emit {
            Some(c) => cell.apply(c, i.published_at),
            None => cell,
        };
        lemma_step_rank(task, i.event, i.handled_at);
        let rest = snapshots(cell2, task2, inputs.drop_first());
        lemma_snapshots_from(cell2, task2, inputs.drop_first());
        let all = snapshots(cell, task, inputs);
        assert forall|j: int| 1 <= j < inputs.len() implies #[trigger] all[j] == rest[j - 1] by {}
    }
}

/// The snapshots of a session, from its creation on, never go down in the
/// order `Prepare < Init < Ready < WaitingLogin < Logged < Learning <
/// {Complete, Broken}`, whatever happens to the session and whenever; and
/// once a snapshot is `Complete` or `Broken`, every later one is that same
/// value.
pub proof fn lemma_snapshots_monotone(config: TaskConfig, inputs: Seq<Input>)
    ensures
        snapshots(StateView::Prepare, XxTaskView::fresh(config), inputs).len() == inputs.len(),
        forall|i: int, j: int|
            0 <= i <= j < inputs.len() ==> (#[trigger] snapshots(
                StateView::Prepare,
                XxTaskView::fresh(config),
                inputs,
            )[i]).rank() <= (#[trigger] snapshots(
                StateView::Prepare,
                XxTaskView::fresh(config),
                inputs,
            )[j]).rank(),
        forall|i: int, j: int|
            0 <= i <= j < inputs.len() && (#[trigger] snapshots(
                StateView::Prepare,
                XxTaskView::fresh(config),
                inputs,
            )[i]).is_terminal() ==> #[trigger] snapshots(
                StateView::Prepare,
                XxTaskView::fresh(config),
                inputs,
            )[j] == snapshots(StateView::Prepare, XxTaskView::fresh(config), inputs)[i],
{
    lemma_snapshots_from(StateView::Prepare, XxTaskView::fresh(config), inputs);
}

/// One look of a session's follower at the connection that serves it: the
/// value found there, whether the session was cancelled by then, and the
/// time of the look.
pub struct Look {
    pub conn: StateView,
    pub cancelled: bool,
    pub at: i64,
}

/// The values of a session cell after each of `looks`.
pub open spec fn followed(cell: XxStateView, looks: Seq<Look>) -> Seq<XxStateView>
    decreases looks.len(),
{
    if looks.len() == 0 {
        Seq::empty()
    } else {
        let next = cell.follow(looks[0].conn, looks[0].cancelled, looks[0].at);
        seq![next] + followed(next, looks.drop_first())
    }
}

/// The values that the looks find never go down in the lifecycle order.
pub open spec fn rising(looks: Seq<Look>) -> bool {
    forall|i: int, j: int|
        0 <= i <= j < looks.len() ==> (#[trigger] looks[i]).conn.rank() <= (
        #[trigger] looks[j]).conn.rank()
}

/// A session cell that follows a connection never goes down in the lifecycle
/// order, and stays as it is once it is `Complete` or `Broken`, provided
/// that the connection's own value never goes down and does not start below
/// the cell.
pub proof fn lemma_follower_monotone(cell: XxStateView, looks: Seq<Look>)
    requires
        rising(looks),
        cell.state.is_terminal() || forall|k: int|
            0 <= k < looks.len() ==> cell.state.rank() <= (#[trigger] looks[k]).conn.rank(),
    ensures
        followed(cell, looks).len() == looks.len(),
        forall|j: int|
            0 <= j < looks.len() ==> cell.state.rank() <= (#[trigger] followed(
                cell,
                looks,
            )[j]).state.rank(),
        forall|j: int|
            0 <= j < looks.len() && cell.state.is_terminal() ==> #[trigger] followed(cell, looks)[j]
                == cell,
        forall|i: int, j: int|
            0 <= i <= j < looks.len() ==> (#[trigger] followed(cell, looks)[i]).state.rank() <= (
            #[trigger] followed(cell, looks)[j]).state.rank(),
        forall|i: int, j: int|
            0 <= i <= j < looks.len() && (#[trigger] followed(
                cell,
                looks,
            )[i]).state.is_terminal() ==> #[trigger] followed(cell, looks)[j] == followed(
                cell,
                looks,
            )[i],
    decreases looks.len(),
{
    if looks.len() > 0 {
        let next = cell.follow(looks[0].conn, looks[0].cancelled, looks[0].at);
        let rest_looks = looks.drop_first();
        assert forall|i: int, j: int| 0 <= i <= j < rest_looks.len() implies (
        #[trigger] rest_looks[i]).conn.rank() <= (#[trigger] rest_looks[j]).conn.rank() by {}
        assert(next.state.is_terminal() || forall|k: int|
            0 <= k < rest_looks.len() ==> next.state.rank() <= (
            #[trigger] rest_looks[k]).conn.rank());
        lemma_follower_monotone(next, rest_looks);
        let rest = followed(next, rest_looks);
        let all = followed(cell, looks);
        assert forall|j: int| 1 <= j < looks.len() implies #[trigger] all[j] == rest[j - 1] by {}
    }
}

/// A liveness check at or after the expiry of a login ticket reports the
/// connection as neither alive nor fit for hand-out.
pub proof fn lemma_expired_ticket_not_usable(conn: XxView, t: i64)
    requires
        conn.state matches StateView::WaitingLogin(_, expires_at) && t >= expires_at,
    ensures
        !conn.alive_at(t),
        !conn.valid_at(t),
{
}

/// What passes the test on checkout is alive, inside its freshness window,
/// and not yet past authentication.
pub proof fn lemma_valid_is_alive(conn: XxView, t: i64)
    requires
        conn.valid_at(t),
    ensures
        conn.alive_at(t),
        t < conn.available_before,
        !conn.used_up(),
{
}

/// The id of a new session was never issued before, and creating it leaves
/// every earlier session as it was.
pub proof fn lemma_created_id_is_new(s: StateSessionView, now: i64)
    requires
        s.wf(),
        s.counter < u64::MAX,
    ensures
        !s.cells.contains_key(s.counter),
        s.created(now).wf(),
        s.created(now).counter > s.counter,
        forall|id: u64| #[trigger]
            s.cells.contains_key(id) ==> id != s.counter && s.created(now).cells[id] == s.cells[id],
{
}

/// Two sessions created one after the other have different ids.
pub proof fn lemma_ids_distinct(s: StateSessionView, now1: i64, now2: i64)
    requires
        s.wf(),
        s.counter < u64::MAX - 1,
    ensures
        s.created(now1).counter != s.counter,
        s.created(now1).created(now2).cells.contains_key(s.counter),
        s.created(now1).created(now2).cells.contains_key(s.created(now1).counter),
{
}

/// An event of one session is not observed by any other session.
pub proof fn lemma_sessions_isolated(
    s: StateSessionView,
    id: u64,
    other: u64,
    change: StateChangeView,
    now: i64,
)
    requires
        s.wf(),
        id < s.counter,
        other != id,
    ensures
        s.published(id, change, now).wf(),
        s.published(id, change, now).cells.contains_key(other) == s.cells.contains_key(other),
        s.published(id, change, now).cells[other] == s.cells[other],
{
}

/// Cancelling a run that is not over ends it with exactly one event,
/// `BrowserClosed` with the reason `cancelled`; a cell that is not terminal,
/// such as one that waits for a login, then shows `Broken` with that reason.
pub proof fn lemma_cancel_breaks(task: XxTaskView, cell: StateView, handled_at: i64, published_at: i64)
    requires
        !(task.phase is Done),
        !cell.is_terminal(),
    ensures
        task.step(TaskEventView::Cancelled, handled_at).0.phase is Done,
        task.step(TaskEventView::Cancelled, handled_at).1.emit == Some(
            StateChangeView::BrowserClosed("cancelled"@),
        ),
        cell.apply(StateChangeView::BrowserClosed("cancelled"@), published_at)
            == StateView::Broken("cancelled"@),
{
}

/// A verdict against the user ends the run without the activity phase: the
/// one event emitted is `BrowserClosed` with the reason `validation
/// rejected`, and the connection is given back.
pub proof fn lemma_rejection_breaks(task: XxTaskView, now: i64)
    requires
        task.phase is Validating,
        now < task.task_deadline,
    ensures
        task.step(TaskEventView::Validated(false), now).0.phase is Done,
        task.step(TaskEventView::Validated(false), now).1.emit == Some(
            StateChangeView::BrowserClosed("validation rejected"@),
        ),
        task.step(TaskEventView::Validated(false), now).1.action is Release,
{
}

/// One thing that happens to the administrator's run: an event for it, and
/// the time at which the relay publishes what the run emits in answer.
pub struct AdminInput {
    pub event: AdminEventView,
    pub published_at: i64,
}

/// The value of the administrator's cell after each of `inputs`.
pub open spec fn admin_snapshots(
    cell: admin::StateView,
    task: AdminTaskView,
    inputs: Seq<AdminInput>,
) -> Seq<admin::StateView>
    decreases inputs.len(),
{
    if inputs.len() == 0 {
        Seq::empty()
    } else {
        let (task2, out) = task.step(inputs[0].event);
        let cell2 = match out.emit {
            Some(c) => cell.apply(c, inputs[0].published_at),
            None => cell,
        };
        seq![cell2] + admin_snapshots(cell2, task2, inputs.drop_first())
    }
}

proof fn lemma_admin_snapshots_from(
    cell: admin::StateView,
    task: AdminTaskView,
    inputs: Seq<AdminInput>,
)
    requires
        task.wf(),
        cell.is_terminal() || cell.rank() <= task.level(),
    ensures
        admin_snapshots(cell, task, inputs).len() == inputs.len(),
        forall|j: int|
            0 <= j < inputs.len() ==> cell.rank() <= (#[trigger] admin_snapshots(
                cell,
                task,
                inputs,
            )[j]).rank(),
        forall|j: int|
            0 <= j < inputs.len() && cell.is_terminal() ==> #[trigger] admin_snapshots(
                cell,
                task,
                inputs,
            )[j] == cell,
        forall|i: int, j: int|
            0 <= i <= j < inputs.len() ==> (#[trigger] admin_snapshots(
                cell,
                task,
                inputs,
            )[i]).rank() <= (#[trigger] admin_snapshots(cell, task, inputs)[j]).rank(),
        forall|i: int, j: int|
            0 <= i <= j < inputs.len() && (#[trigger] admin_snapshots(
                cell,
                task,
                inputs,
            )[i]).is_terminal() ==> #[trigger] admin_snapshots(cell, task, inputs)[j]
                == admin_snapshots(cell, task, inputs)[i],
    decreases inputs.len(),
{
    if inputs.len() > 0 {
        let (task2, out) = task.step(inputs[0].event);
        let cell2 = match out.emit {
            Some(c) => cell.apply(c, inputs[0].published_at),
            None => cell,
        };
        lemma_admin_step_rank(task, inputs[0].event);
        let rest = admin_snapshots(cell2, task2, inputs.drop_first());
        lemma_admin_snapshots_from(cell2, task2, inputs.drop_first());
        let all = admin_snapshots(cell, task, inputs);
        assert forall|j: int| 1 <= j < inputs.len() implies #[trigger] all[j] == rest[j - 1] by {}
    }
}

/// The snapshots of the administrator's run never go down in the order
/// `Prepare < Init < Ready < WaitingLogin < Logged < {Complete, Broken}`,
/// and stay the same from the first `Complete` or `Broken` on.
pub proof fn lemma_admin_snapshots_monotone(max_retries: u32, inputs: Seq<AdminInput>)
    ensures
        ({
            let s = admin_snapshots(
                admin::StateView::Prepare,
                AdminTaskView { phase: crate::admin::fetcher::AdminPhase::Idle, retries: 0, max_retries },
                inputs,
            );
            &&& s.len() == inputs.len()
            &&& forall|i: int, j: int|
                0 <= i <= j < inputs.len() ==> (#[trigger] s[i]).rank() <= (#[trigger] s[j]).rank()
            &&& forall|i: int, j: int|
                0 <= i <= j < inputs.len() && (#[trigger] s[i]).is_terminal() ==> #[trigger] s[j]
                    == s[i]
        }),
{
    lemma_admin_snapshots_from(
        admin::StateView::Prepare,
        AdminTaskView { phase: crate::admin::fetcher::AdminPhase::Idle, retries: 0, max_retries },
        inputs,
    );
}

/// A login that is found leads on to the reading of the user; the user, once
/// read, is published as `Logged` with the nickname, the validator is asked
/// about the user's id, and the runner keeps the user.
pub proof fn lemma_login_captures_user(
    task: XxTaskView,
    user: crate::state::UserInfoView,
    found_at: i64,
    read_at: i64,
    cell: StateView,
    published_at: i64,
)
    requires
        task.phase is WaitingLogin,
        found_at < task.task_deadline,
        read_at < task.task_deadline,
        !cell.is_terminal(),
    ensures
        ({
            let (reading, first) = task.step(TaskEventView::LoginChecked(true), found_at);
            let (asked, second) = reading.step(TaskEventView::User(user), read_at);
            &&& first.emit is None && first.action is ReadUser && reading.phase is ReadingUser
            &&& second.emit == Some(StateChangeView::LoggedIn(user))
            &&& second.action == crate::task::TaskActionView::Validate(user.uid)
            &&& asked.phase is Validating && asked.user == user
            &&& cell.apply(StateChangeView::LoggedIn(user), published_at) == StateView::Logged(
                user.nick,
            )
        }),
{
}

/// Only the reading of the user changes the user that a runner holds.
pub proof fn lemma_user_kept(task: XxTaskView, event: TaskEventView, now: i64)
    requires
        !(task.phase is ReadingUser && event is User),
    ensures
        task.step(event, now).0.user == task.user,
{
}

/// A run whose sub-tasks have all reached their targets ends in success,
/// provided that its overall deadline has not passed: when such progress is
/// read, it is published and the score is asked for; the score, once read,
/// is published as `Complete` with the nickname captured at the login, the
/// connection is given back and the run is over. A cell that is not terminal
/// then shows that `Complete`.
pub proof fn lemma_completion(
    task: XxTaskView,
    tasks: Seq<crate::eval::TodayTaskView>,
    score: i64,
    read_at: i64,
    scored_at: i64,
    cell: StateView,
    published_at: i64,
)
    requires
        task.phase is ReadingTasks,
        crate::eval::spec_all_done(tasks),
        read_at < task.task_deadline,
        scored_at < task.task_deadline,
        !cell.is_terminal(),
    ensures
        ({
            let (reading, first) = task.step(TaskEventView::Tasks(tasks), read_at);
            let (done, last) = reading.step(TaskEventView::Score(score), scored_at);
            &&& first.emit == Some(
                StateChangeView::LearnLog(task.user.nick, crate::eval::spec_progress(tasks)),
            )
            &&& first.action is ReadScore && reading.phase is ReadingScore
            &&& last.emit == Some(StateChangeView::Complete(task.user.nick, score))
            &&& last.action is Release && done.phase is Done
            &&& cell.apply(StateChangeView::Complete(task.user.nick, score), published_at)
                == StateView::Complete(task.user.nick, score)
        }),
{
}

/// The cell of a session after the relay published what a step emitted.
pub open spec fn relayed(cell: StateView, emit: Option<StateChangeView>, at: i64) -> StateView {
    match emit {
        Some(c) => cell.apply(c, at),
        None => cell,
    }
}

/// The last snapshot of a session that is created, gets a browser and a
/// ticket, sees the login, reads and validates the user, fetches the
/// supplies, finds all sub-tasks at their targets and reads the score; each
/// step is handled and published at the time `at`.
pub open spec fn completed_run(
    config: TaskConfig,
    at: i64,
    ticket: Seq<char>,
    user: crate::state::UserInfoView,
    news: Seq<Seq<char>>,
    videos: Seq<Seq<char>>,
    tasks: Seq<crate::eval::TodayTaskView>,
    score: i64,
) -> StateView {
    let t0 = XxTaskView::fresh(config);
    let c0 = StateView::Prepare;
    let (t1, o1) = t0.step(TaskEventView::Start, at);
    let c1 = relayed(c0, o1.emit, at);
    let (t2, o2) = t1.step(TaskEventView::Acquired, at);
    let c2 = relayed(c1, o2.emit, at);
    let (t3, o3) = t2.step(TaskEventView::Ticket(ticket), at);
    let c3 = relayed(c2, o3.emit, at);
    let (t4, o4) = t3.step(TaskEventView::LoginChecked(true), at);
    let c4 = relayed(c3, o4.emit, at);
    let (t5, o5) = t4.step(TaskEventView::User(user), at);
    let c5 = relayed(c4, o5.emit, at);
    let (t6, o6) = t5.step(TaskEventView::Validated(true), at);
    let c6 = relayed(c5, o6.emit, at);
    let (t7, o7) = t6.step(TaskEventView::Lists(news, videos), at);
    let c7 = relayed(c6, o7.emit, at);
    let (t8, o8) = t7.step(TaskEventView::Tasks(tasks), at);
    let c8 = relayed(c7, o8.emit, at);
    let (t9, o9) = t8.step(TaskEventView::Score(score), at);
    relayed(c8, o9.emit, at)
}

/// A session whose login completes and whose sub-tasks are at their targets
/// ends with the snapshot `Complete` that holds the user's nickname and the
/// score, for every budget with a task timeout above zero.
pub proof fn lemma_completed_run(
    config: TaskConfig,
    at: i64,
    ticket: Seq<char>,
    user: crate::state::UserInfoView,
    news: Seq<Seq<char>>,
    videos: Seq<Seq<char>>,
    tasks: Seq<crate::eval::TodayTaskView>,
    score: i64,
)
    requires
        XxTaskView::fresh(config).in_range(at),
        config.task_timeout > 0,
        crate::eval::spec_all_done(tasks),
    ensures
        completed_run(config, at, ticket, user, news, videos, tasks, score) == StateView::Complete(
            user.nick,
            score,
        ),
{
}

/// The last snapshot of a session like that of [`completed_run`] up to the
/// validator's verdict, which goes against the user.
pub open spec fn rejected_run(
    config: TaskConfig,
    at: i64,
    ticket: Seq<char>,
    user: crate::state::UserInfoView,
) -> StateView {
    let t0 = XxTaskView::fresh(config);
    let c0 = StateView::Prepare;
    let (t1, o1) = t0.step(TaskEventView::Start, at);
    let c1 = relayed(c0, o1.emit, at);
    let (t2, o2) = t1.step(TaskEventView::Acquired, at);
    let c2 = relayed(c1, o2.emit, at);
    let (t3, o3) = t2.step(TaskEventView::Ticket(ticket), at);
    let c3 = relayed(c2, o3.emit, at);
    let (t4, o4) = t3.step(TaskEventView::LoginChecked(true), at);
    let c4 = relayed(c3, o4.emit, at);
    let (t5, o5) = t4.step(TaskEventView::User(user), at);
    let c5 = relayed(c4, o5.emit, at);
    let (t6, o6) = t5.step(TaskEventView::Validated(false), at);
    relayed(c5, o6.emit, at)
}

/// A session whose user the validator rejects ends with the snapshot
/// `Broken` with the reason `validation rejected`, for every budget with a
/// task timeout above zero.
pub proof fn lemma_rejected_run(
    config: TaskConfig,
    at: i64,
    ticket: Seq<char>,
    user: crate::state::UserInfoView,
)
    requires
        XxTaskView::fresh(config).in_range(at),
        config.task_timeout > 0,
    ensures
        rejected_run(config, at, ticket, user) == StateView::Broken("validation rejected"@),
{
}

/// The looks of a follower at a connection that waits for a login, for a
/// session that counts as cancelled from the time `t` on.
pub open spec fn watched(looks: Seq<Look>, t: i64) -> bool {
    forall|k: int|
        0 <= k < looks.len() ==> (#[trigger] looks[k]).conn is WaitingLogin && looks[k].cancelled
            == (looks[k].at >= t)
}

/// Every look at or after the time of cancellation leaves the session
/// `Broken` with the reason `cancelled`.
pub proof fn lemma_cancel_seen(cell: XxStateView, looks: Seq<Look>, t: i64, j: int)
    requires
        !cell.state.is_terminal(),
        watched(looks, t),
        0 <= j < looks.len(),
        looks[j].at >= t,
    ensures
        followed(cell, looks).len() == looks.len(),
        followed(cell, looks)[j].state == StateView::Broken("cancelled"@),
    decreases looks.len(),
{
    let next = cell.follow(looks[0].conn, looks[0].cancelled, looks[0].at);
    let rest_looks = looks.drop_first();
    let rest = followed(next, rest_looks);
    let all = followed(cell, looks);
    assert(all =~= seq![next] + rest);
    assert forall|k: int| 0 <= k < rest_looks.len() implies (
    #[trigger] rest_looks[k]).conn is WaitingLogin && rest_looks[k].cancelled == (rest_looks[k].at
        >= t) by {
        assert(rest_looks[k] == looks[k + 1]);
    }
    assert forall|a: int, b: int| 0 <= a <= b < rest_looks.len() implies (
    #[trigger] rest_looks[a]).conn.rank() <= (#[trigger] rest_looks[b]).conn.rank() by {}
    lemma_follower_monotone(next, rest_looks);
    if j > 0 {
        assert(all[j] == rest[j - 1]);
        if next.state.is_terminal() {
            assert(looks[0].cancelled);
        } else {
            assert(rest_looks[j - 1] == looks[j]);
            lemma_cancel_seen(next, rest_looks, t, j - 1);
        }
    }
}

/// Looks that begin no later than `t`, reach `t`, and lie at most `poll`
/// apart: one of them falls between `t` and `t + poll`.
pub proof fn lemma_look_within_interval(looks: Seq<Look>, t: i64, poll: int) -> (j: int)
    requires
        poll >= 0,
        looks.len() > 0,
        looks[0].at <= t,
        looks.last().at >= t,
        forall|k: int|
            0 <= k < looks.len() - 1 ==> (#[trigger] looks[k]).at <= looks[k + 1].at && looks[k
                + 1].at - looks[k].at <= poll,
    ensures
        0 <= j < looks.len(),
        t <= looks[j].at <= t + poll,
    decreases looks.len(),
{
    if looks[0].at == t {
        0
    } else {
        assert(looks.len() > 1);
        assert(looks[0].at <= looks[1].at && looks[1].at - looks[0].at <= poll);
        if looks[1].at >= t {
            1
        } else {
            let rest = looks.drop_first();
            assert(rest.last() == looks.last());
            assert forall|k: int| 0 <= k < rest.len() - 1 implies (#[trigger] rest[k]).at <= rest[k
                + 1].at && rest[k + 1].at - rest[k].at <= poll by {
                assert(rest[k] == looks[k + 1]);
                assert(rest[k + 1] == looks[k + 2]);
            }
            let i = lemma_look_within_interval(rest, t, poll);
            assert(rest[i] == looks[i + 1]);
            i + 1
        }
    }
}

/// A session that waits for a login and is cancelled at the time `t` shows
/// `Broken` with the reason `cancelled` within one interval of its follower:
/// where the follower looks at least every `poll` seconds, some look falls
/// between `t` and `t + poll`, and from that look on every snapshot is that
/// `Broken`.
pub proof fn lemma_cancel_within_one_interval(
    cell: XxStateView,
    looks: Seq<Look>,
    t: i64,
    poll: int,
) -> (j: int)
    requires
        !cell.state.is_terminal(),
        watched(looks, t),
        poll >= 0,
        looks.len() > 0,
        looks[0].at <= t,
        looks.last().at >= t,
        forall|k: int|
            0 <= k < looks.len() - 1 ==> (#[trigger] looks[k]).at <= looks[k + 1].at && looks[k
                + 1].at - looks[k].at <= poll,
    ensures
        0 <= j < looks.len(),
        t <= looks[j].at <= t + poll,
        forall|i: int|
            j <= i < looks.len() ==> (#[trigger] followed(cell, looks)[i]).state
                == StateView::Broken("cancelled"@),
{
    let j = lemma_look_within_interval(looks, t, poll);
    lemma_times_rise(looks, j);
    assert forall|i: int| j <= i < looks.len() implies (#[trigger] followed(
        cell,
        looks,
    )[i]).state == StateView::Broken("cancelled"@) by {
        lemma_times_rise(looks, j);
        lemma_cancel_seen(cell, looks, t, i);
    }
    j
}

/// In looks whose times never go down, no look lies before an earlier one.
proof fn lemma_times_rise(looks: Seq<Look>, j: int)
    requires
        0 <= j < looks.len(),
        forall|k: int| 0 <= k < looks.len() - 1 ==> (#[trigger] looks[k]).at <= looks[k + 1].at,
    ensures
        forall|i: int| j <= i < looks.len() ==> looks[j].at <= (#[trigger] looks[i]).at,
    decreases looks.len() - j,
{
    if j < looks.len() - 1 {
        lemma_times_rise(looks, j + 1);
        assert(looks[j].at <= looks[j + 1].at);
    }
}

/// What passes the test on checkout with the probe's finding is healthy,
/// alive and not yet past authentication at that time.
pub proof fn lemma_handed_out_is_healthy(conn: XxView, probe: crate::xx::Probe, t: i64)
    requires
        conn.valid_at(t) && probe.healthy(),
    ensures
        probe.version_ok,
        probe.tabs < crate::xx::MAX_TABS,
        conn.alive_at(t),
        !conn.used_up(),
{
}

} // verus!
