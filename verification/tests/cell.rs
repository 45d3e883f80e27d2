use study::error::TaskError;
use study::state::{State, StateChange, UserInfo};
use study::xx_state::{after_attempt, Asked, QueryError, XxState};

fn waiting(ticket: &str, published_at: i64) -> XxState {
    let mut c = XxState::new_at(0);
    assert!(c.publish_at(StateChange::Init, published_at));
    assert!(c.publish_at(StateChange::WaitingLogin(ticket.to_string()), published_at));
    c
}

#[test]
fn fresh_cell_is_prepare() {
    let c = XxState::new_at(77);
    assert!(matches!(c.get_state(), State::Prepare));
    assert_eq!(c.updated_at(), 77);
    assert_eq!(c.get_ticket_at(77), Err(QueryError::NoTicket));
    assert_eq!(c.get_nick_name(), Err(QueryError::NoNickName));
    assert_eq!(c.get_score(), Err(QueryError::NoScore));
    let c = XxState::new();
    assert!(matches!(c.get_state(), State::Prepare));
}

#[test]
fn ticket_expires_150_seconds_after_publication() {
    let c = waiting("qr:1", 1000);
    match c.get_state() {
        State::WaitingLogin((t, expires_at)) => {
            assert_eq!(t, "qr:1");
            assert_eq!(expires_at, 1150);
        }
        other => panic!("unexpected state {:?}", other),
    }
    assert_eq!(c.get_ticket_at(1000), Ok("qr:1".to_string()));
    // at the expiry itself the ticket is still handed out, after it no more
    assert_eq!(c.get_ticket_at(1150), Ok("qr:1".to_string()));
    assert_eq!(c.get_ticket_at(1151), Err(QueryError::TicketExpired));
    assert_eq!(c.get_nick_name(), Err(QueryError::NotLoggedIn));
    assert_eq!(c.get_score(), Err(QueryError::NotLoggedIn));
}

#[test]
fn ticket_of_the_current_time() {
    let mut c = XxState::new();
    c.publish_at(StateChange::WaitingLogin("old".to_string()), 0);
    // published in 1970: long expired by the wall clock
    assert_eq!(c.get_ticket(), Err(QueryError::TicketExpired));
    let mut c = XxState::new();
    c.publish_at(StateChange::WaitingLogin("new".to_string()), i64::MAX - 150);
    assert_eq!(c.get_ticket(), Ok("new".to_string()));
    let c = XxState::new();
    assert_eq!(c.get_ticket(), Err(QueryError::NoTicket));
}

#[test]
fn nick_name_and_score_by_state() {
    let mut c = waiting("t", 10);
    c.publish_at(StateChange::LoggedIn(UserInfo { uid: 7, nick: "wang".to_string() }), 11);
    assert_eq!(c.get_nick_name(), Ok("wang".to_string()));
    assert_eq!(c.get_score(), Err(QueryError::NotStarted));
    assert_eq!(c.get_ticket_at(11), Err(QueryError::NoTicket));
    // StartLearn changes no value
    assert!(c.publish_at(StateChange::StartLearn, 12));
    assert!(matches!(c.get_state(), State::Logged(_)));
    c.publish_at(StateChange::LearnLog(("wang".to_string(), vec![("a".to_string(), 1, 2)])), 13);
    assert_eq!(c.get_nick_name(), Err(QueryError::NoNickName));
    assert_eq!(c.get_score(), Err(QueryError::NoScore));
    assert!(!c.publish_at(StateChange::Complete(("wang".to_string(), 31)), 14));
    assert_eq!(c.get_score(), Ok(31));
    assert_eq!(c.get_nick_name(), Err(QueryError::NoNickName));
}

#[test]
fn terminal_values_are_absorbing() {
    let mut c = waiting("t", 10);
    assert!(!c.publish_at(StateChange::BrowserClosed("boom".to_string()), 20));
    for change in [
        StateChange::Init,
        StateChange::Ready,
        StateChange::WaitingLogin("x".to_string()),
        StateChange::LoggedIn(UserInfo { uid: 1, nick: "n".to_string() }),
        StateChange::StartLearn,
        StateChange::LearnLog(("n".to_string(), vec![])),
        StateChange::Complete(("n".to_string(), 1)),
        StateChange::BrowserClosed("again".to_string()),
    ] {
        assert!(!c.publish_at(change, 30));
        assert!(matches!(c.get_state(), State::Broken(r) if r == "boom"));
        assert_eq!(c.updated_at(), 20);
    }
    c.fail_at(&TaskError::Cancelled, 40);
    assert!(matches!(c.get_state(), State::Broken(r) if r == "boom"));
    assert!(!c.follow_at(State::Init, false, 50));
    assert!(matches!(c.get_state(), State::Broken(r) if r == "boom"));
}

#[test]
fn ranks_follow_the_lifecycle_order() {
    let states = [
        State::Prepare,
        State::Init,
        State::Ready,
        State::WaitingLogin(("t".to_string(), 1)),
        State::Logged("n".to_string()),
        State::Learning(("n".to_string(), vec![])),
        State::Complete(("n".to_string(), 1)),
    ];
    for (i, s) in states.iter().enumerate() {
        assert_eq!(s.rank() as usize, i);
        assert_eq!(s.is_terminal(), i == 6);
    }
    assert_eq!(State::Broken("x".to_string()).rank(), 6);
    assert!(State::Broken("x".to_string()).is_terminal());
}

#[test]
fn follower_takes_over_the_connection_value() {
    let mut c = XxState::new_at(0);
    assert!(c.follow_at(State::Init, false, 1));
    assert!(matches!(c.get_state(), State::Init));
    assert!(c.follow_at(State::WaitingLogin(("t".to_string(), 500)), false, 2));
    assert_eq!(c.get_ticket_at(3), Ok("t".to_string()));
    assert_eq!(c.updated_at(), 2);
    // cancellation only counts while the session waits for a login
    assert!(c.follow_at(State::Logged("n".to_string()), true, 4));
    assert!(matches!(c.get_state(), State::Logged(_)));
    assert!(!c.follow_at(State::Complete(("n".to_string(), 9)), false, 5));
    assert_eq!(c.get_score(), Ok(9));
}

#[test]
fn cancelled_follower_breaks_while_waiting() {
    let mut c = XxState::new_at(0);
    assert!(!c.follow_at(State::WaitingLogin(("t".to_string(), 500)), true, 301));
    assert!(matches!(c.get_state(), State::Broken(r) if r == "cancelled"));
    assert_eq!(c.updated_at(), 301);
}

#[test]
fn failing_a_session_sets_the_reason() {
    let mut c = XxState::new_at(0);
    c.fail_at(&TaskError::PoolExhausted, 5);
    assert!(matches!(c.get_state(), State::Broken(r) if r == "pool exhausted"));
    let mut c = XxState::new_at(0);
    c.fail_at(&TaskError::ConstructionFailed("no browser".to_string()), 5);
    assert!(matches!(c.get_state(), State::Broken(r) if r == "construction failed: no browser"));
}

#[test]
fn query_error_messages() {
    assert_eq!(QueryError::TicketExpired.message(), "ticket 已经过期");
    assert_eq!(QueryError::NoTicket.message(), "还没有获取到 ticket");
    assert_eq!(QueryError::NotLoggedIn.message(), "还没有登陆");
    assert_eq!(QueryError::NoNickName.message(), "还没有获取到 nick_name");
    assert_eq!(QueryError::NotStarted.message(), "还没有开始学习");
    assert_eq!(QueryError::NoScore.message(), "还没有获取到 score");
}

#[test]
fn snapshots_never_go_down() {
    let mut c = XxState::new_at(0);
    let changes = vec![
        StateChange::Init,
        StateChange::WaitingLogin("a".to_string()),
        StateChange::WaitingLogin("b".to_string()),
        StateChange::LoggedIn(UserInfo { uid: 1, nick: "n".to_string() }),
        StateChange::StartLearn,
        StateChange::LearnLog(("n".to_string(), vec![("x".to_string(), 0, 1)])),
        StateChange::LearnLog(("n".to_string(), vec![("x".to_string(), 1, 1)])),
        StateChange::Complete(("n".to_string(), 1)),
        StateChange::Init,
    ];
    let mut last = c.get_state().rank();
    for (i, change) in changes.into_iter().enumerate() {
        c.publish_at(change, i as i64);
        let r = c.get_state().rank();
        assert!(r >= last);
        last = r;
    }
    assert_eq!(last, 6);
}

#[test]
fn asking_again_until_the_tenth_attempt() {
    assert!(matches!(after_attempt(1, Ok::<u8, QueryError>(7)), Asked::Answer(7)));
    assert!(matches!(after_attempt(10, Ok::<u8, QueryError>(7)), Asked::Answer(7)));
    for attempt in 1..10 {
        assert!(matches!(
            after_attempt(attempt, Err::<u8, QueryError>(QueryError::NoTicket)),
            Asked::AskAgain(50)
        ));
    }
    assert!(matches!(after_attempt(10, Err::<u8, QueryError>(QueryError::NoTicket)), Asked::GiveUp));
    assert!(matches!(after_attempt(11, Err::<u8, QueryError>(QueryError::NoScore)), Asked::GiveUp));
}
