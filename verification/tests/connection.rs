use study::error::TaskError;
use study::pool::{AcquireError, PoolConfig, PoolConfigError, XxManager};
use study::state::{State, StateChange, UserInfo};
use study::user_validator::{contains, BaseConf, UserValidator, WBList};
use study::xx::{is_healthy, Probe, Xx};

#[derive(Clone)]
struct MockUV {}

impl UserValidator for MockUV {
    fn validate(&self, _uid: i64) -> Result<bool, String> {
        Ok(true)
    }
}

fn waiting_conn(made_at: i64, ticket_at: i64) -> Xx {
    let mut x = Xx::new_at(made_at);
    assert!(x.publish_at(StateChange::Init, ticket_at));
    assert!(x.publish_at(StateChange::WaitingLogin("t".to_string()), ticket_at));
    x
}

#[test]
fn fresh_connection_is_alive_but_not_valid() {
    let x = Xx::new_at(1000);
    assert_eq!(x.available_before(), 1200);
    assert!(matches!(x.get_state(), State::Prepare));
    assert!(x.ping_at(1000));
    assert!(x.ping_at(1199));
    assert!(!x.ping_at(1200));
    assert!(!x.is_valid_at(1000));
}

#[test]
fn connection_is_valid_only_with_a_fresh_ticket() {
    let x = waiting_conn(1000, 1010);
    // ticket expires at 1160, the connection at 1200
    assert!(x.is_valid_at(1010));
    assert!(x.is_valid_at(1159));
    assert!(!x.is_valid_at(1160));
    assert!(!x.is_valid_at(5000));
    assert!(x.ping_at(1159));
    assert!(!x.ping_at(1160));
}

#[test]
fn freshness_window_ends_before_the_ticket() {
    let x = waiting_conn(1000, 1100);
    // ticket expires at 1250, the connection at 1200
    assert!(x.is_valid_at(1199));
    assert!(!x.is_valid_at(1200));
    assert!(!x.ping_at(1200));
}

#[test]
fn logged_in_connection_is_used_up() {
    let mut x = waiting_conn(1000, 1010);
    x.publish_at(StateChange::LoggedIn(UserInfo { uid: 1, nick: "n".to_string() }), 1020);
    assert!(!x.ping_at(1021));
    assert!(!x.is_valid_at(1021));
    assert!(!x.ping());
    assert!(!x.is_valid());
    let mut x = waiting_conn(1000, 1010);
    assert!(!x.publish_at(StateChange::BrowserClosed("gone".to_string()), 1020));
    assert!(!x.ping_at(1021));
    assert!(!x.publish_at(StateChange::Init, 1022));
    assert!(matches!(x.get_state(), State::Broken(r) if r == "gone"));
}

#[test]
fn connection_is_made_at_the_time_of_the_clock() {
    let before = std::time::SystemTime::now()
        .duration_since(std::time::UNIX_EPOCH)
        .unwrap()
        .as_secs() as i64;
    let x = Xx::new().unwrap();
    let after = std::time::SystemTime::now()
        .duration_since(std::time::UNIX_EPOCH)
        .unwrap()
        .as_secs() as i64;
    assert!(before + 200 <= x.available_before());
    assert!(x.available_before() <= after + 200);
    assert!(x.available_before() < (1i64 << 48) + 200);
    // a connection that outlives every time of the clock is alive whenever it is asked
    let lasting = Xx::new_at(1i64 << 48);
    assert!(lasting.ping());
    assert!(!lasting.is_valid());
    let m = XxManager::new(MockUV {}, None);
    assert!(!m.has_broken(&lasting));
    assert!(m.is_valid(&lasting).is_err());
    let mut lasting = lasting;
    lasting.publish_at(StateChange::WaitingLogin("t".to_string()), 1i64 << 48);
    assert!(lasting.is_valid());
    assert_eq!(m.is_valid(&lasting), Ok(()));
}

#[test]
fn connection_by_the_wall_clock() {
    let mut x = Xx::new().expect("the clock is in range");
    assert!(x.ping());
    assert!(!x.is_valid());
    assert!(x.publish(StateChange::WaitingLogin("t".to_string())));
    assert!(x.is_valid());
    assert!(x.ping());
    assert!(!x.publish(StateChange::Complete(("n".to_string(), 3))));
    assert!(!x.ping());
    assert!(!x.publish(StateChange::Init));
    assert!(matches!(x.get_state(), State::Complete(_)));
}

#[test]
fn browser_probe() {
    assert!(is_healthy(true, 0));
    assert!(is_healthy(true, 5));
    assert!(!is_healthy(true, 6));
    assert!(!is_healthy(false, 0));
}

#[test]
fn manager_gates_checkout_and_return() {
    let m = XxManager::new(MockUV {}, Some("http://proxy:1".to_string()));
    assert_eq!(m.proxy_server(), &Some("http://proxy:1".to_string()));
    assert_eq!(m.validator().validate(5), Ok(true));
    let fresh = Xx::new_at(1000);
    assert_eq!(m.is_valid_at(&fresh, 1001), Err("连接已经断开".to_string()));
    assert!(!m.has_broken_at(&fresh, 1001));
    assert!(m.has_broken_at(&fresh, 1200));
    let ready = waiting_conn(1000, 1010);
    assert_eq!(m.is_valid_at(&ready, 1011), Ok(()));
    assert_eq!(m.is_valid_at(&ready, 1160), Err("连接已经断开".to_string()));
    assert!(!m.has_broken_at(&ready, 1011));
    assert!(m.has_broken_at(&ready, 1160));
    // by the wall clock: a connection made in 1970 is long gone
    assert_eq!(m.is_valid(&ready), Err("连接已经断开".to_string()));
    assert!(m.has_broken(&ready));
    let mut now_ready = Xx::new().unwrap();
    now_ready.publish(StateChange::WaitingLogin("t".to_string()));
    assert!(m.is_valid(&now_ready).is_ok());
    assert!(!m.has_broken(&now_ready));
}

#[test]
fn pool_settings() {
    let c = PoolConfig::new(2, 1, 60).unwrap();
    assert_eq!((c.max_size(), c.min_idle(), c.acquire_timeout()), (2, 1, 60));
    assert!(PoolConfig::new(10, 10, 1).is_ok());
    assert_eq!(PoolConfig::new(0, 0, 60), Err(PoolConfigError::ZeroMaxSize));
    assert_eq!(PoolConfig::new(0, 1, 0), Err(PoolConfigError::ZeroMaxSize));
    assert_eq!(PoolConfig::new(2, 3, 60), Err(PoolConfigError::MinIdleAboveMaxSize));
    assert_eq!(PoolConfig::new(2, 3, 0), Err(PoolConfigError::MinIdleAboveMaxSize));
    assert_eq!(PoolConfig::new(2, 2, 0), Err(PoolConfigError::ZeroTimeout));
}

#[test]
fn acquire_errors_keep_their_kind() {
    assert!(matches!(AcquireError::PoolExhausted.into_task_error(), TaskError::PoolExhausted));
    match AcquireError::ConstructionFailed("no chrome".to_string()).into_task_error() {
        TaskError::ConstructionFailed(c) => assert_eq!(c, "no chrome"),
        other => panic!("unexpected error {:?}", other),
    }
}

#[test]
fn black_and_white_lists() {
    let open = BaseConf { white_list: None, black_list: None };
    assert!(open.validate(1));
    let black = BaseConf { white_list: None, black_list: Some(vec![1, 2]) };
    assert!(!black.validate(1));
    assert!(black.validate(3));
    let white = BaseConf { white_list: Some(vec![4, 5]), black_list: None };
    assert!(white.validate(4));
    assert!(!white.validate(6));
    let both = BaseConf { white_list: Some(vec![4, 5]), black_list: Some(vec![5]) };
    assert!(both.validate(4));
    assert!(!both.validate(5));
    assert!(!both.validate(6));
    let empty_white = BaseConf { white_list: Some(vec![]), black_list: None };
    assert!(!empty_white.validate(1));
    assert!(contains(&vec![3, 1, 2], 2));
    assert!(!contains(&vec![], 2));
    let readable = BaseConf { white_list: None, black_list: None };
    let w = WBList::new("./config.toml", Ok(readable)).unwrap();
    assert_eq!(w.conf_path(), "./config.toml");
    assert!(!w.validate_with(&both, 5));
    assert!(w.clone().validate_with(&both, 4));
}

#[test]
fn no_validator_for_a_file_that_cannot_be_read() {
    match WBList::new("./missing.toml", Err("No such file or directory".to_string())) {
        Err(e) => assert_eq!(e, "读取配置文件失败: No such file or directory"),
        Ok(w) => panic!("unexpected validator {:?}", w),
    }
    match WBList::new("", Err("".to_string())) {
        Err(e) => assert_eq!(e, "读取配置文件失败: "),
        Ok(w) => panic!("unexpected validator {:?}", w),
    }
    let conf = BaseConf { white_list: Some(vec![1]), black_list: None };
    assert_eq!(WBList::new("a", Ok(conf)).unwrap().conf_path(), "a");
}

#[test]
fn checkout_and_return_with_the_probe() {
    let m = XxManager::new(MockUV {}, None);
    let healthy = Probe { version_ok: true, tabs: 1 };
    let crowded = Probe { version_ok: true, tabs: 6 };
    let silent = Probe { version_ok: false, tabs: 1 };
    assert!(healthy.is_healthy());
    assert!(!crowded.is_healthy());
    assert!(!silent.is_healthy());
    let ready = waiting_conn(1000, 1010);
    assert_eq!(m.is_valid_probed_at(&ready, healthy, 1011), Ok(()));
    assert_eq!(m.is_valid_probed_at(&ready, crowded, 1011), Err("连接已经断开".to_string()));
    assert_eq!(m.is_valid_probed_at(&ready, silent, 1011), Err("连接已经断开".to_string()));
    assert_eq!(m.is_valid_probed_at(&ready, healthy, 1160), Err("连接已经断开".to_string()));
    assert!(!m.has_broken_probed_at(&ready, healthy, 1011));
    assert!(m.has_broken_probed_at(&ready, crowded, 1011));
    assert!(m.has_broken_probed_at(&ready, silent, 1011));
    assert!(m.has_broken_probed_at(&ready, healthy, 1160));
    let fresh = Xx::new_at(1000);
    assert!(m.is_valid_probed_at(&fresh, healthy, 1001).is_err());
    assert!(!m.has_broken_probed_at(&fresh, healthy, 1001));
    // by the wall clock
    let mut now_ready = Xx::new().unwrap();
    now_ready.publish(StateChange::WaitingLogin("t".to_string()));
    assert_eq!(m.is_valid_probed(&now_ready, healthy), Ok(()));
    assert!(m.is_valid_probed(&now_ready, silent).is_err());
    assert!(!m.has_broken_probed(&now_ready, healthy));
    assert!(m.has_broken_probed(&now_ready, crowded));
    assert!(m.is_valid_probed(&ready, healthy).is_err());
    assert!(m.has_broken_probed(&ready, healthy));
}

#[test]
fn published_ticket_expires_after_the_login_window() {
    let before = std::time::SystemTime::now()
        .duration_since(std::time::UNIX_EPOCH)
        .unwrap()
        .as_secs() as i64;
    let mut x = Xx::new().unwrap();
    assert!(x.publish(StateChange::Init));
    assert!(matches!(x.get_state(), State::Init));
    assert!(x.publish(StateChange::WaitingLogin("t".to_string())));
    let after = std::time::SystemTime::now()
        .duration_since(std::time::UNIX_EPOCH)
        .unwrap()
        .as_secs() as i64;
    match x.get_state() {
        State::WaitingLogin((t, expires_at)) => {
            assert_eq!(t, "t");
            assert!(before + 150 <= expires_at && expires_at <= after + 150);
        }
        other => panic!("unexpected state {:?}", other),
    }
}
