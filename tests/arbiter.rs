use http_rp::arbiter::Arbiter;

#[test]
fn two_led_writes_hold_access_in_turn() {
    let mut a = Arbiter::new();
    assert!(a.request(1));
    assert!(!a.request(2));
    assert!(a.holds(1));
    assert!(!a.holds(2));
    assert_eq!(a.release(1), Some(2));
    assert!(a.holds(2));
    assert_eq!(a.release(2), None);
    assert_eq!(a.holder(), None);
}

#[test]
fn waiters_are_granted_in_arrival_order() {
    let mut a = Arbiter::new();
    for w in 0..5usize {
        assert_eq!(a.request(w), w == 0);
    }
    assert_eq!(a.position(3), Some(2));
    for w in 0..5usize {
        assert!(a.holds(w));
        let next = a.release(w);
        assert_eq!(next, if w < 4 { Some(w + 1) } else { None });
    }
}

#[test]
fn repeated_requests_from_many_workers_never_share_access() {
    let n: usize = 6;
    let mut a = Arbiter::new();
    let mut grants = vec![0usize; n];
    let mut round: usize = 0;
    while round < 50 {
        for w in 0..n {
            a.request(w);
        }
        if let Some(h) = a.holder() {
            let holders = (0..n).filter(|&w| a.holds(w)).count();
            assert_eq!(holders, 1);
            grants[h] += 1;
            a.release(h);
        }
        round += 1;
    }
    for w in 0..n {
        assert!(grants[w] >= 50 / n);
    }
}

#[test]
fn repeated_request_changes_nothing() {
    let mut a = Arbiter::new();
    assert!(a.request(7));
    assert!(a.request(7));
    assert!(!a.request(8));
    assert!(!a.request(8));
    assert_eq!(a.position(8), Some(0));
    assert_eq!(a.release(7), Some(8));
    assert_eq!(a.position(8), None);
}

#[test]
fn waiter_that_gives_up_leaves_the_queue() {
    let mut a = Arbiter::new();
    a.request(1);
    a.request(2);
    a.request(3);
    assert_eq!(a.release(2), Some(1));
    assert_eq!(a.position(2), None);
    assert_eq!(a.position(3), Some(0));
    assert_eq!(a.release(9), Some(1));
    assert_eq!(a.release(1), Some(3));
}
