use antidote::RwLock;
use std::sync::atomic::{AtomicUsize, Ordering};

#[test]
fn rwlock_new_then_into_inner_round_trips() {
    assert_eq!(RwLock::new(9).into_inner(), 9);
    let l = RwLock::new(String::from("abc"));
    assert_eq!(l.into_inner(), "abc");
}

#[test]
fn readers_coexist_and_all_see_the_value() {
    let l = RwLock::new(4);
    let r1 = l.read();
    let r2 = l.read();
    assert_eq!(*r1.get(), 4);
    assert_eq!(*r2.get(), 4);
    assert!(l.try_read().is_ok());
}

#[test]
fn a_write_guard_excludes_readers_and_writers() {
    let l = RwLock::new(0);
    let w = l.write();
    assert!(l.try_read().is_err());
    assert!(l.try_write().is_err());
    drop(w);
    assert!(l.try_read().is_ok());
    assert!(l.try_write().is_ok());
}

#[test]
fn readers_refuse_try_write_but_not_try_read() {
    let l = RwLock::new(0);
    let r = l.read();
    assert!(l.try_write().is_err());
    assert!(l.try_read().is_ok());
    drop(r);
}

#[test]
fn write_guard_set_is_seen_by_readers_and_into_inner() {
    let l = RwLock::new(1);
    {
        let mut w = l.write();
        assert_eq!(*w.get(), 1);
        w.set(8);
        assert_eq!(*w.get(), 8);
    }
    assert_eq!(*l.read().get(), 8);
    assert_eq!(l.into_inner(), 8);
}

#[test]
fn rwlock_get_mut_reaches_the_value_without_locking() {
    let mut l = RwLock::new(2);
    *l.get_mut() = 3;
    assert_eq!(*l.read().get(), 3);
    assert_eq!(l.into_inner(), 3);
}

#[test]
fn writer_count_and_reader_count_never_conflict() {
    let l = RwLock::new(0usize);
    let readers = AtomicUsize::new(0);
    let writers = AtomicUsize::new(0);
    crossbeam_utils::thread::scope(|s| {
        for _ in 0usize..4 {
            s.spawn(|_| {
                for _ in 0usize..50 {
                    let g = l.read();
                    readers.fetch_add(1, Ordering::SeqCst);
                    assert_eq!(writers.load(Ordering::SeqCst), 0);
                    let _v: usize = *g.get();
                    readers.fetch_sub(1, Ordering::SeqCst);
                    drop(g);
                }
            });
            s.spawn(|_| {
                for _ in 0usize..50 {
                    let mut g = l.write();
                    let w: usize = writers.fetch_add(1, Ordering::SeqCst) + 1;
                    assert!(w <= 1);
                    assert_eq!(readers.load(Ordering::SeqCst), 0);
                    let v: usize = *g.get();
                    g.set(v + 1);
                    writers.fetch_sub(1, Ordering::SeqCst);
                    drop(g);
                }
            });
        }
    })
    .unwrap();
    assert_eq!(l.into_inner(), 200);
}

#[test]
fn abandoned_writer_leaves_the_lock_usable_and_the_value_intact() {
    let l = RwLock::new(1);
    crossbeam_utils::thread::scope(|s| {
        let h = s.spawn(|_| {
            let mut w = l.write();
            w.set(6);
            panic!("holder fails while holding the lock");
        });
        assert!(h.join().is_err());
    })
    .unwrap();
    assert_eq!(*l.read().get(), 6);
    assert_eq!(*l.write().get(), 6);
    assert!(l.try_read().is_ok());
    assert!(l.try_write().is_ok());
    assert_eq!(l.into_inner(), 6);
}
