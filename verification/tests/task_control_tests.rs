use bargozin::task_control::TaskControl;

#[test]
fn cancel_is_read_back() {
    let mut t = TaskControl::new();
    assert!(!t.is_cancelled());
    t.request_cancel();
    assert!(t.is_cancelled());
    t.request_cancel();
    assert!(t.is_cancelled());
    t.reset_cancel();
    assert!(!t.is_cancelled());
}
