use stellar_send::reentrancy::ReentrancyGuard;

#[test]
fn lock_refuses_entry_only_while_held() {
    assert!(!ReentrancyGuard::is_locked(None));
    assert!(!ReentrancyGuard::is_locked(Some(false)));
    assert!(ReentrancyGuard::is_locked(Some(true)));
    let g = ReentrancyGuard::new(None);
    let held = g.stored_flag();
    assert!(held);
    assert!(ReentrancyGuard::is_locked(Some(held)));
    let released = g.release();
    assert!(!ReentrancyGuard::is_locked(Some(released)));
}
