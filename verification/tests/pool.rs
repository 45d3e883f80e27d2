use std::future::Future;
use std::pin::Pin;
use std::sync::atomic::{AtomicUsize, Ordering};
use std::sync::Arc;
use std::time::{Duration, Instant, SystemTime, UNIX_EPOCH};

use study::pool::{AcquireError, PoolConfig, XxManager};
use study::state::{StateChange, UserInfo};
use study::user_validator::UserValidator;
use study::xx::{Probe, Xx};

#[derive(Clone)]
struct AllowAll {}

impl UserValidator for AllowAll {
    fn validate(&self, _uid: i64) -> Result<bool, String> {
        Ok(true)
    }
}

fn now() -> i64 {
    SystemTime::now().duration_since(UNIX_EPOCH).unwrap().as_secs() as i64
}

/// A connection with what the probe of its browser finds.
struct Probed {
    xx: Xx,
    probe: Probe,
}

/// Connections that hold a ticket from the start and whose browser answers,
/// so that they pass the test on checkout.
struct ReadyConnections {
    rules: XxManager<AllowAll>,
    made: Arc<AtomicUsize>,
}

impl bb8::ManageConnection for ReadyConnections {
    type Connection = Probed;
    type Error = String;

    fn connect<'life0, 'async_trait>(
        &'life0 self,
    ) -> Pin<Box<dyn Future<Output = Result<Probed, String>> + Send + 'async_trait>>
    where
        'life0: 'async_trait,
        Self: 'async_trait,
    {
        Box::pin(async move {
            self.made.fetch_add(1, Ordering::SeqCst);
            let mut xx = Xx::new_at(now());
            xx.publish_at(StateChange::WaitingLogin("ticket".to_string()), now());
            Ok(Probed { xx, probe: Probe { version_ok: true, tabs: 1 } })
        })
    }

    fn is_valid<'life0, 'life1, 'async_trait>(
        &'life0 self,
        conn: &'life1 mut Probed,
    ) -> Pin<Box<dyn Future<Output = Result<(), String>> + Send + 'async_trait>>
    where
        'life0: 'async_trait,
        'life1: 'async_trait,
        Self: 'async_trait,
    {
        Box::pin(async move { self.rules.is_valid_probed_at(&conn.xx, conn.probe, now()) })
    }

    fn has_broken(&self, conn: &mut Probed) -> bool {
        self.rules.has_broken_probed_at(&conn.xx, conn.probe, now())
    }
}

fn acquire_error(e: bb8::RunError<String>) -> AcquireError {
    match e {
        bb8::RunError::TimedOut => AcquireError::PoolExhausted,
        bb8::RunError::User(cause) => AcquireError::ConstructionFailed(cause),
    }
}

#[test]
fn third_acquire_of_a_pool_of_two_times_out() {
    let settings = PoolConfig::new(2, 0, 1).unwrap();
    let made = Arc::new(AtomicUsize::new(0));
    let manager = ReadyConnections { rules: XxManager::new(AllowAll {}, None), made: made.clone() };
    let runtime = tokio::runtime::Builder::new_current_thread().enable_all().build().unwrap();
    runtime.block_on(async move {
        let pool = bb8::Pool::builder()
            .max_size(settings.max_size())
            .min_idle(Some(settings.min_idle()))
            .connection_timeout(Duration::from_secs(settings.acquire_timeout()))
            .build(manager)
            .await
            .unwrap();
        let mut first = pool.get().await.unwrap();
        let mut second = pool.get().await.unwrap();
        // what the pool hands out passed the test on checkout
        assert!(first.xx.is_valid_at(now()) && first.probe.is_healthy());
        assert!(second.xx.is_valid_at(now()) && second.probe.is_healthy());
        // while checked out one logs in, which uses it up, and the browser of the other
        // stops answering
        first.xx.publish_at(StateChange::LoggedIn(UserInfo { uid: 1, nick: "n".to_string() }), now());
        assert!(!first.xx.ping_at(now()));
        second.probe = Probe { version_ok: false, tabs: 1 };
        assert!(!second.probe.is_healthy());
        let started = Instant::now();
        let third = pool.get().await;
        let waited = started.elapsed();
        let error = acquire_error(third.err().expect("no connection is free"));
        assert!(matches!(error, AcquireError::PoolExhausted));
        assert_eq!(error.into_task_error().reason(), "pool exhausted");
        assert!(waited >= Duration::from_millis(900), "gave up after {:?}", waited);
        assert!(waited < Duration::from_secs(10), "gave up after {:?}", waited);
        assert_eq!(made.load(Ordering::SeqCst), 2);
        // a used up connection that comes back is destroyed, and a new one is made
        drop(first);
        let fresh = pool.get().await.unwrap();
        assert!(fresh.xx.is_valid_at(now()) && fresh.probe.is_healthy());
        assert_eq!(made.load(Ordering::SeqCst), 3);
        // so is one whose browser no longer answers
        drop(second);
        let other = pool.get().await.unwrap();
        assert!(other.probe.is_healthy());
        assert_eq!(made.load(Ordering::SeqCst), 4);
        drop(fresh);
        drop(other);
    });
}

#[test]
fn construction_failure_is_its_own_kind() {
    let error = acquire_error(bb8::RunError::User("no browser".to_string()));
    assert!(matches!(&error, AcquireError::ConstructionFailed(c) if c == "no browser"));
    assert_eq!(error.into_task_error().reason(), "construction failed: no browser");
}
