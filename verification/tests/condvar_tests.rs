use syncprims::condvar::Condvar;
use syncprims::mutex::Mutex;

#[test]
fn test_condvar() {
    // The classic wait loop: a waiter holds the lock, finds the value
    // short of 100, waits; another thread stores 123 and notifies; the
    // waiter wakes, rechecks, and finishes with few wakeups.
    let mut mutex = Mutex::new(0i32);
    let mut condvar = Condvar::new();

    let mut wakeups = 0;

    let mut m = mutex.lock().expect("uncontended");
    while *m.value(&mutex) < 100 {
        // Waiter: register, capture the generation, release the lock.
        let observed = condvar.wait_prepare();
        mutex.unlock(m);

        // Meanwhile, the other thread stores 123 and notifies.
        let g = mutex.lock().expect("uncontended");
        g.set(&mut mutex, 123);
        mutex.unlock(g);
        let wake = condvar.notify_one();
        assert!(wake);

        // Waiter: the notification changed the generation, so the park
        // returns immediately instead of blocking; reacquire and recheck.
        assert!(!condvar.should_park(observed));
        condvar.wait_finish();
        m = mutex.lock().expect("uncontended");
        wakeups += 1;
    }

    assert_eq!(*m.value(&mutex), 123);
    assert!(wakeups < 10);
    mutex.unlock(m);
}

#[test]
fn condvar_opt_test_condvar() {
    // Same wait loop through the one-piece `wait`, which registers,
    // releases, parks, and reacquires.
    let mut mutex = Mutex::new(0i32);
    let mut condvar = Condvar::new();

    let mut wakeups = 0;

    let mut m = mutex.lock().expect("uncontended");
    while *m.value(&mutex) < 100 {
        m = condvar.wait(&mut mutex, m);
        wakeups += 1;
        // The notifying thread stores 123 between our release and
        // reacquisition; with nobody to interleave here, store it before
        // the recheck.
        if *m.value(&mutex) < 100 {
            m.set(&mut mutex, 123);
        }
    }

    assert_eq!(*m.value(&mutex), 123);
    assert!(wakeups < 10);
    mutex.unlock(m);
}

#[test]
fn notify_without_waiters_is_skipped() {
    let mut condvar = Condvar::new();
    assert_eq!(condvar.waiter_count(), 0);
    // Nobody is parked: the wake (and the counter bump) is skipped.
    assert!(!condvar.notify_one());
    assert!(!condvar.notify_all());

    let observed = condvar.wait_prepare();
    assert_eq!(condvar.waiter_count(), 1);
    // Nothing has happened since the capture: parking is correct.
    assert!(condvar.should_park(observed));
    assert!(condvar.notify_all());
    assert!(!condvar.should_park(observed));
    condvar.wait_finish();
    assert_eq!(condvar.waiter_count(), 0);
}

#[test]
fn notify_between_release_and_park_is_not_lost() {
    // A waiter captures the generation while holding the lock. However
    // many notifications land after the capture, the park call sees a
    // changed generation and falls through: the wakeup cannot be lost.
    let mut mutex = Mutex::new(false);
    let mut condvar = Condvar::new();

    let m = mutex.lock().expect("uncontended");
    let observed = condvar.wait_prepare();
    mutex.unlock(m);

    // The notifier slips in right here, before the waiter parks.
    let g = mutex.lock().expect("uncontended");
    g.set(&mut mutex, true);
    mutex.unlock(g);
    assert!(condvar.notify_one());

    assert!(!condvar.should_park(observed));
    condvar.wait_finish();
    let m = mutex.lock().expect("uncontended");
    assert!(*m.value(&mutex));
    mutex.unlock(m);
}
