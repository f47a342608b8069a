use blake3_digest::guard::ReentryGuard;

#[test]
fn fresh_guard_grants_either_kind() {
    let mut g = ReentryGuard::new();
    assert!(g.try_begin_read().is_ok());
    g.end_read();
    assert!(g.try_begin_write().is_ok());
    g.end_write();
}

#[test]
fn readers_may_coexist() {
    let mut g = ReentryGuard::new();
    assert!(g.try_begin_read().is_ok());
    assert!(g.try_begin_read().is_ok());
    assert!(g.try_begin_read().is_ok());
    g.end_read();
    g.end_read();
    g.end_read();
}

#[test]
fn write_rejected_while_reading() {
    let mut g = ReentryGuard::new();
    assert!(g.try_begin_read().is_ok());
    assert!(g.try_begin_write().is_err());
    g.end_read();
    assert!(g.try_begin_write().is_ok());
}

#[test]
fn read_rejected_while_writing() {
    let mut g = ReentryGuard::new();
    assert!(g.try_begin_write().is_ok());
    assert!(g.try_begin_read().is_err());
    assert!(g.try_begin_write().is_err());
    g.end_write();
    assert!(g.try_begin_read().is_ok());
}

#[test]
fn rejected_borrow_reports_message() {
    let mut g = ReentryGuard::new();
    g.try_begin_write().unwrap();
    let err = g.try_begin_read().unwrap_err();
    assert_eq!(err.message(), "already borrowed");
}
