use syncprims::mutex::should_spin;
use syncprims::mutex::Mutex;
use syncprims::mutex::CONTENDED;
use syncprims::mutex::LOCKED;
use syncprims::mutex::SPIN_LIMIT;
use syncprims::mutex::UNLOCKED;

#[test]
fn lock_and_unlock() {
    let mut m = Mutex::new(7u32);
    assert!(!m.is_locked());
    let g = m.lock().expect("uncontended");
    assert!(m.is_locked());
    assert_eq!(*g.value(&m), 7);
    g.set(&mut m, 8);
    let wake = m.unlock(g);
    // The uncontended path never wakes anybody.
    assert!(!wake);
    assert!(!m.is_locked());
    let g = m.lock().expect("uncontended");
    assert_eq!(*g.value(&m), 8);
    assert!(!m.unlock(g));
}

#[test]
fn contended_path_marks_waiters_and_wakes() {
    let mut m = Mutex::new(0u8);
    let g = m.lock().expect("uncontended");

    // A second locker loses the fast-path CAS ...
    assert!(m.lock().is_none());
    // ... and falls back to swapping in the contended state, then parks.
    assert!(m.lock_contended().is_none());

    // The holder's release sees the contended mark and wakes one waiter.
    let wake = m.unlock(g);
    assert!(wake);

    // The woken waiter retries the swap and now acquires.
    let g2 = m.lock_contended().expect("lock was free");
    // Its own release came from the contended state, so it also wakes.
    assert!(m.unlock(g2));
}

#[test]
fn spin_only_briefly_and_only_while_plainly_locked() {
    assert!(should_spin(LOCKED, 0));
    assert!(should_spin(LOCKED, SPIN_LIMIT - 1));
    assert!(!should_spin(LOCKED, SPIN_LIMIT));
    // A contended word means parking is already the right move.
    assert!(!should_spin(CONTENDED, 0));
    assert!(!should_spin(UNLOCKED, 0));
}

#[test]
fn serialized_increments_are_all_counted() {
    // Four lockers, a thousand increments each, all through the lock: the
    // final value is exactly their product.
    let mut m = Mutex::new(0u64);
    for _ in 0..4 {
        for _ in 0..1000 {
            let g = m.lock().expect("uncontended");
            let v = g.value_mut(&mut m);
            *v += 1;
            m.unlock(g);
        }
    }
    let g = m.lock().expect("uncontended");
    assert_eq!(*g.value(&m), 4000);
    m.unlock(g);
}
