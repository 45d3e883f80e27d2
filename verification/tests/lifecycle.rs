use study::error::TaskError;
use study::eval::TodayTask;
use study::state::{State, StateChange, UserInfo};
use study::task::{Phase, TaskAction, TaskConfig, TaskEvent, XxTask};
use study::xx_state::XxState;

fn task(title: &str, current: i64, max: i64) -> TodayTask {
    TodayTask { title: title.to_string(), current_score: current, day_max_score: max }
}

fn relay(cell: &mut XxState, emit: Option<StateChange>, now: i64) {
    if let Some(c) = emit {
        cell.publish_at(c, now);
    }
}

fn logged_in_runner(cell: &mut XxState) -> XxTask {
    let mut t = XxTask::new(TaskConfig::standard());
    let s = t.step(TaskEvent::Start, 1000);
    assert!(matches!(s.emit, Some(StateChange::Init)));
    assert!(matches!(s.action, TaskAction::Acquire));
    relay(cell, s.emit, 1000);
    let s = t.step(TaskEvent::Acquired, 1001);
    assert!(s.emit.is_none());
    assert!(matches!(s.action, TaskAction::FetchTicket));
    let s = t.step(TaskEvent::Ticket("qr:abc".to_string()), 1002);
    assert!(matches!(s.action, TaskAction::CheckLogin));
    relay(cell, s.emit, 1002);
    match cell.get_state() {
        State::WaitingLogin((ticket, expires_at)) => {
            assert_eq!(ticket, "qr:abc");
            assert_eq!(expires_at, 1152);
        }
        other => panic!("unexpected state {:?}", other),
    }
    let s = t.step(TaskEvent::LoginChecked(false), 1003);
    assert!(matches!(s.action, TaskAction::Sleep(5)));
    let s = t.step(TaskEvent::Tick, 1008);
    assert!(matches!(s.action, TaskAction::CheckLogin));
    let s = t.step(TaskEvent::LoginChecked(true), 1009);
    assert!(matches!(s.action, TaskAction::ReadUser));
    let s = t.step(TaskEvent::User(UserInfo { uid: 42, nick: "lin".to_string() }), 1010);
    assert!(matches!(s.action, TaskAction::Validate(42)));
    relay(cell, s.emit, 1010);
    assert!(matches!(cell.get_state(), State::Logged(n) if n == "lin"));
    t
}

#[test]
fn login_then_three_sub_tasks_complete() {
    let mut cell = XxState::new_at(999);
    let mut t = logged_in_runner(&mut cell);
    let s = t.step(TaskEvent::Validated(true), 1011);
    assert!(matches!(s.action, TaskAction::FetchLists));
    let s = t.step(
        TaskEvent::Lists(
            vec!["n1".to_string(), "n2".to_string()],
            vec!["v1".to_string()],
        ),
        1012,
    );
    assert!(matches!(s.emit, Some(StateChange::StartLearn)));
    assert!(matches!(s.action, TaskAction::ReadTasks));
    relay(&mut cell, s.emit, 1012);
    assert!(matches!(cell.get_state(), State::Logged(_)));

    let round1 = vec![
        task("登录", 1, 1),
        task("我要选读文章", 10, 12),
        task("我要视听学习", 5, 6),
    ];
    let s = t.step(TaskEvent::Tasks(round1), 1013);
    assert!(matches!(&s.action, TaskAction::BrowseNews(u) if u == "n1"));
    relay(&mut cell, s.emit, 1013);
    match cell.get_state() {
        State::Learning((nick, progress)) => {
            assert_eq!(nick, "lin");
            assert_eq!(
                progress,
                vec![
                    ("登录".to_string(), 1, 1),
                    ("我要选读文章".to_string(), 10, 12),
                    ("我要视听学习".to_string(), 5, 6),
                ]
            );
        }
        other => panic!("unexpected state {:?}", other),
    }
    let s = t.step(TaskEvent::Browsed, 1100);
    assert!(s.emit.is_none());
    assert!(matches!(&s.action, TaskAction::BrowseVideo(u) if u == "v1"));
    let s = t.step(TaskEvent::Browsed, 1300);
    assert!(matches!(s.action, TaskAction::ReadTasks));
    assert_eq!(t.phase(), Phase::ReadingTasks);

    let round2 = vec![
        task("登录", 1, 1),
        task("我要选读文章", 12, 12),
        task("我要视听学习", 6, 6),
    ];
    let s = t.step(TaskEvent::Tasks(round2), 1301);
    assert!(matches!(s.action, TaskAction::ReadScore));
    relay(&mut cell, s.emit, 1301);
    let s = t.step(TaskEvent::Score(19), 1302);
    assert!(matches!(s.action, TaskAction::Release));
    relay(&mut cell, s.emit, 1302);
    assert!(t.is_done());
    match cell.get_state() {
        State::Complete((nick, score)) => {
            assert_eq!(nick, "lin");
            assert_eq!(score, 19);
        }
        other => panic!("unexpected state {:?}", other),
    }
    assert_eq!(cell.get_score(), Ok(19));
    // nothing follows the terminal event
    let s = t.step(TaskEvent::Tick, 1303);
    assert!(s.emit.is_none());
    assert!(matches!(s.action, TaskAction::Nothing));
    assert!(!cell.publish_at(StateChange::Init, 1304));
    assert!(matches!(cell.get_state(), State::Complete(_)));
    assert_eq!(cell.updated_at(), 1302);
}

#[test]
fn twenty_elapsed_ticket_windows_break_the_session() {
    let mut cell = XxState::new_at(0);
    let mut t = XxTask::new(TaskConfig::standard());
    let mut now: i64 = 10;
    let s = t.step(TaskEvent::Start, now);
    relay(&mut cell, s.emit, now);
    let s = t.step(TaskEvent::Acquired, now);
    assert!(matches!(s.action, TaskAction::FetchTicket));
    for attempt in 0..20u32 {
        let s = t.step(TaskEvent::Ticket(format!("t{}", attempt)), now);
        assert!(matches!(s.emit, Some(StateChange::WaitingLogin(_))));
        relay(&mut cell, s.emit, now);
        assert!(matches!(cell.get_state(), State::WaitingLogin(_)));
        // one second before the window ends the runner still polls
        now += 129;
        let s = t.step(TaskEvent::LoginChecked(false), now);
        assert!(matches!(s.action, TaskAction::Sleep(5)));
        now += 5;
        let s = t.step(TaskEvent::Tick, now);
        if attempt < 19 {
            assert!(s.emit.is_none());
            assert!(matches!(s.action, TaskAction::FetchTicket));
            assert_eq!(t.retries(), attempt + 1);
            assert!(matches!(cell.get_state(), State::WaitingLogin(_)));
        } else {
            assert!(matches!(s.action, TaskAction::Release));
            relay(&mut cell, s.emit, now);
        }
    }
    assert!(t.is_done());
    match cell.get_state() {
        State::Broken(reason) => assert_eq!(reason, "exceeded 20 retries without login"),
        other => panic!("unexpected state {:?}", other),
    }
}

#[test]
fn rejected_identity_breaks_without_activity() {
    let mut cell = XxState::new_at(999);
    let mut t = logged_in_runner(&mut cell);
    let s = t.step(TaskEvent::Validated(false), 1011);
    assert!(matches!(s.action, TaskAction::Release));
    relay(&mut cell, s.emit, 1011);
    assert!(t.is_done());
    match cell.get_state() {
        State::Broken(reason) => assert_eq!(reason, "validation rejected"),
        other => panic!("unexpected state {:?}", other),
    }
}

#[test]
fn cancel_while_waiting_for_login() {
    let mut cell = XxState::new_at(0);
    let mut t = XxTask::new(TaskConfig::standard());
    let s = t.step(TaskEvent::Start, 1);
    relay(&mut cell, s.emit, 1);
    t.step(TaskEvent::Acquired, 2);
    let s = t.step(TaskEvent::Ticket("t".to_string()), 3);
    relay(&mut cell, s.emit, 3);
    assert!(matches!(cell.get_state(), State::WaitingLogin(_)));
    let s = t.step(TaskEvent::Cancelled, 4);
    assert!(matches!(s.action, TaskAction::Release));
    relay(&mut cell, s.emit, 4);
    match cell.get_state() {
        State::Broken(reason) => assert_eq!(reason, "cancelled"),
        other => panic!("unexpected state {:?}", other),
    }
    // a second cancellation is not answered
    let s = t.step(TaskEvent::Cancelled, 5);
    assert!(s.emit.is_none());
    assert!(matches!(s.action, TaskAction::Nothing));
}

#[test]
fn overall_deadline_wins_over_the_event() {
    let mut t = XxTask::new(TaskConfig::standard());
    t.step(TaskEvent::Start, 100);
    let s = t.step(TaskEvent::Acquired, 100 + 7200);
    match s.emit {
        Some(StateChange::BrowserClosed(reason)) => assert_eq!(reason, "task deadline exceeded"),
        other => panic!("unexpected emission {:?}", other),
    }
    assert!(t.is_done());
}

#[test]
fn failure_reasons() {
    assert_eq!(TaskError::ConstructionFailed("no chrome".to_string()).reason(), "construction failed: no chrome");
    assert_eq!(TaskError::NavigationFailed("dns".to_string()).reason(), "navigation failed: dns");
    assert_eq!(TaskError::ElementTimeout(".login".to_string()).reason(), "element timeout: .login");
    assert_eq!(TaskError::ScriptFailed("null".to_string()).reason(), "script failed: null");
    assert_eq!(TaskError::LoginTimeout(0).reason(), "exceeded 0 retries without login");
    assert_eq!(TaskError::LoginTimeout(4294967295).reason(), "exceeded 4294967295 retries without login");
    assert_eq!(TaskError::ValidationRejected.reason(), "validation rejected");
    assert_eq!(TaskError::PoolExhausted.reason(), "pool exhausted");
    assert_eq!(TaskError::Cancelled.reason(), "cancelled");
    assert_eq!(TaskError::DeadlineExceeded.reason(), "task deadline exceeded");
}

#[test]
fn supply_exhausted_ends_activity_early() {
    let mut cell = XxState::new_at(999);
    let mut t = logged_in_runner(&mut cell);
    t.step(TaskEvent::Validated(true), 1011);
    t.step(TaskEvent::Lists(vec![], vec!["v1".to_string()]), 1012);
    let s = t.step(
        TaskEvent::Tasks(vec![task("我要视听学习", 0, 6), task("我要选读文章", 0, 12)]),
        1013,
    );
    assert!(matches!(&s.action, TaskAction::BrowseVideo(u) if u == "v1"));
    let s = t.step(TaskEvent::Browsed, 1014);
    assert!(matches!(s.action, TaskAction::ReadScore));
    assert_eq!(t.phase(), Phase::ReadingScore);
}

#[test]
fn failed_action_breaks_with_its_reason() {
    let mut t = XxTask::new(TaskConfig::standard());
    t.step(TaskEvent::Start, 1);
    let s = t.step(TaskEvent::Failed(TaskError::PoolExhausted), 2);
    match s.emit {
        Some(StateChange::BrowserClosed(reason)) => assert_eq!(reason, "pool exhausted"),
        other => panic!("unexpected emission {:?}", other),
    }
    assert!(matches!(s.action, TaskAction::Release));
}

#[test]
fn event_out_of_phase_changes_nothing() {
    let mut t = XxTask::new(TaskConfig::standard());
    let s = t.step(TaskEvent::Score(3), 1);
    assert!(s.emit.is_none());
    assert!(matches!(s.action, TaskAction::Nothing));
    assert_eq!(t.phase(), Phase::Idle);
}

#[test]
fn failed_look_for_the_login_is_tried_again() {
    let mut t = XxTask::new(TaskConfig::standard());
    t.step(TaskEvent::Start, 0);
    t.step(TaskEvent::Acquired, 0);
    t.step(TaskEvent::Ticket("t".to_string()), 0);
    let s = t.step(TaskEvent::LoginCheckFailed, 10);
    assert!(s.emit.is_none());
    assert!(matches!(s.action, TaskAction::CheckLogin));
    // a login that is found counts even after the window has passed
    let s = t.step(TaskEvent::LoginChecked(true), 500);
    assert!(matches!(s.action, TaskAction::ReadUser));
    // at the end of the window a failed look ends the attempt
    let mut t = XxTask::new(TaskConfig::standard());
    t.step(TaskEvent::Start, 0);
    t.step(TaskEvent::Acquired, 0);
    t.step(TaskEvent::Ticket("t".to_string()), 0);
    let s = t.step(TaskEvent::LoginCheckFailed, 130);
    assert!(matches!(s.action, TaskAction::FetchTicket));
    assert_eq!(t.retries(), 1);
    assert_eq!(t.phase(), Phase::FetchingTicket);
}

#[test]
fn runner_by_the_wall_clock() {
    let mut t = XxTask::new(TaskConfig::standard());
    let s = t.step_now(TaskEvent::Start).unwrap();
    assert!(matches!(s.emit, Some(StateChange::Init)));
    assert!(matches!(s.action, TaskAction::Acquire));
    assert!(t.in_range(0));
    assert!(!t.in_range(i64::MAX));
    // budgets that no time can carry
    let mut t = XxTask::new(TaskConfig {
        ticket_window: i64::MAX,
        poll_interval: 5,
        max_retries: 1,
        task_timeout: i64::MAX,
    });
    assert!(t.step_now(TaskEvent::Start).is_none());
    assert_eq!(t.phase(), Phase::Idle);
    // an answer that is the same at every time is given all the same
    assert!(!t.timeless(&TaskEvent::Start));
    assert!(t.timeless(&TaskEvent::Tick));
    let s = t.step_now(TaskEvent::Tick).unwrap();
    assert!(s.emit.is_none());
    assert!(matches!(s.action, TaskAction::Nothing));
    assert!(t.timeless(&TaskEvent::Cancelled));
    let s = t.step_now(TaskEvent::Cancelled).unwrap();
    assert!(matches!(s.emit, Some(StateChange::BrowserClosed(r)) if r == "cancelled"));
    assert!(matches!(s.action, TaskAction::Release));
    assert!(t.is_done());
    assert!(t.timeless(&TaskEvent::Start));
    let s = t.step_now(TaskEvent::Start).unwrap();
    assert!(s.emit.is_none());
    assert!(matches!(s.action, TaskAction::Nothing));
    // a started run answers by the time
    let mut t = XxTask::new(TaskConfig::standard());
    t.step_now(TaskEvent::Start).unwrap();
    assert!(!t.timeless(&TaskEvent::Acquired));
    assert!(t.timeless(&TaskEvent::Cancelled));
    let s = t.step_now(TaskEvent::Acquired).unwrap();
    assert!(matches!(s.action, TaskAction::FetchTicket));
}

#[test]
fn a_budget_of_one_attempt() {
    let mut t = XxTask::new(TaskConfig { max_retries: 1, ..TaskConfig::standard() });
    t.step(TaskEvent::Start, 0);
    t.step(TaskEvent::Acquired, 0);
    t.step(TaskEvent::Ticket("t".to_string()), 0);
    let s = t.step(TaskEvent::Tick, 130);
    assert!(matches!(s.emit, Some(StateChange::BrowserClosed(r)) if r == "exceeded 1 retries without login"));
    let mut t = XxTask::new(TaskConfig { max_retries: 0, ..TaskConfig::standard() });
    t.step(TaskEvent::Start, 0);
    t.step(TaskEvent::Acquired, 0);
    t.step(TaskEvent::Ticket("t".to_string()), 0);
    let s = t.step(TaskEvent::Tick, 130);
    assert!(matches!(s.emit, Some(StateChange::BrowserClosed(r)) if r == "exceeded 0 retries without login"));
}
