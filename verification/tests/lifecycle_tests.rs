use iup::lifecycle::InitTracker;

#[test]
fn first_request_initializes() {
    let mut t = InitTracker::new();
    assert!(t.request());
}

#[test]
fn later_requests_reuse() {
    let mut t = InitTracker::new();
    assert!(t.request());
    assert!(!t.request());
    assert!(!t.request());
    assert!(!t.request());
}

#[test]
fn exactly_one_initialization_over_many_requests() {
    let mut t = InitTracker::new();
    let mut inits = 0;
    for _ in 0..100 {
        if t.request() {
            inits += 1;
        }
    }
    assert_eq!(inits, 1);
}
