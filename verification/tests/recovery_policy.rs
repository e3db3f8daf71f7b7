use antidote::{recover, try_recover, Acquired, TryAcquired, TryLockError};

#[test]
fn recover_clean_returns_the_value() {
    let r: i32 = recover(Acquired::Clean(5));
    assert_eq!(r, 5);
}

#[test]
fn recover_reclaimed_returns_the_value_the_abandoned_holder_left() {
    let r: String = recover(Acquired::Reclaimed(String::from("left behind")));
    assert_eq!(r, "left behind");
}

#[test]
fn try_recover_grants_a_clean_outcome() {
    let r = try_recover(TryAcquired::Clean(5));
    assert_eq!(r.unwrap(), 5);
}

#[test]
fn try_recover_grants_a_reclaimed_outcome() {
    let r = try_recover(TryAcquired::Reclaimed(7));
    assert_eq!(r.unwrap(), 7);
}

#[test]
fn try_recover_refuses_only_contention() {
    let r: Result<i32, TryLockError> = try_recover(TryAcquired::Contended);
    assert!(r.is_err());
}

#[test]
fn refusal_renders_the_fixed_message() {
    let e = TryLockError;
    assert_eq!(e.message(), "lock call failed because the operation would block");
}
