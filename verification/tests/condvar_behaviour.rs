use antidote::{Condvar, Mutex};
use std::time::Duration;

#[test]
fn notify_without_waiters_is_a_no_op() {
    let cv = Condvar::new();
    cv.notify_one();
    cv.notify_all();
}

#[test]
fn a_waiter_observes_notify_one_and_reacquires_its_guard() {
    let m = Mutex::new(false);
    let cv = Condvar::new();
    crossbeam_utils::thread::scope(|s| {
        s.spawn(|_| {
            let mut g = m.lock();
            g.set(true);
            drop(g);
            cv.notify_one();
        });
        let mut g = m.lock();
        while !*g.get() {
            g = cv.wait(g);
        }
        assert!(*g.get());
    })
    .unwrap();
}

#[test]
fn wait_timeout_reports_elapsed_without_notification() {
    let m = Mutex::new(0);
    let cv = Condvar::new();
    let mut g = m.lock();
    let mut elapsed = false;
    let mut tries: usize = 0;
    while !elapsed && tries < 20 {
        let (g2, timed_out) = cv.wait_timeout(g, Duration::from_millis(10));
        g = g2;
        elapsed = timed_out;
        tries += 1;
    }
    assert!(elapsed);
    drop(g);
}

#[test]
fn wait_timeout_observes_a_notification_within_a_generous_bound() {
    let m = Mutex::new(false);
    let cv = Condvar::new();
    crossbeam_utils::thread::scope(|s| {
        s.spawn(|_| {
            let mut g = m.lock();
            g.set(true);
            drop(g);
            cv.notify_all();
        });
        let mut g = m.lock();
        while !*g.get() {
            let (g2, _timed_out) = cv.wait_timeout(g, Duration::from_secs(5));
            g = g2;
        }
        assert!(*g.get());
    })
    .unwrap();
}

#[test]
fn wait_recovers_when_the_notifier_abandons_the_lock() {
    let m = Mutex::new(0);
    let cv = Condvar::new();
    crossbeam_utils::thread::scope(|s| {
        let mut g = m.lock();
        let h = s.spawn(|_| {
            let mut g2 = m.lock();
            g2.set(2);
            cv.notify_one();
            panic!("holder fails while holding the lock");
        });
        while *g.get() == 0 {
            g = cv.wait(g);
        }
        assert_eq!(*g.get(), 2);
        drop(g);
        assert!(h.join().is_err());
    })
    .unwrap();
}
