use syncprims::rwlock::RwLock;

#[test]
fn readers_share_writer_excludes() {
    let mut l = RwLock::new(10u64);
    let r1 = l.read().expect("no writer announced");
    let r2 = l.read().expect("readers share");
    assert_eq!(l.reader_count(), 2);
    assert_eq!(*r1.value(&l), 10);
    assert_eq!(*r2.value(&l), 10);

    // A writer cannot enter while readers hold the lock.
    assert!(l.write().is_none());

    assert!(!l.read_unlock(r1));
    // The last reader out signals the announced writer.
    assert!(l.read_unlock(r2));

    let w = l.write().expect("drained");
    assert!(l.writer_held());
    assert_eq!(l.reader_count(), 0);
    // No reader can enter while the writer holds the lock.
    assert!(l.read().is_none());
    l.write_unlock(w);
    assert!(!l.writer_held());
}

#[test]
fn write_then_read_round_trip() {
    let mut l = RwLock::new(0u32);
    let w = l.write().expect("unlocked");
    *w.value_mut(&mut l) = 99;
    assert_eq!(*w.value(&l), 99);
    l.write_unlock(w);

    let r = l.read().expect("unlocked");
    assert_eq!(*r.value(&l), 99);
    assert!(!l.read_unlock(r));
}

#[test]
fn waiting_writer_blocks_new_readers() {
    // The starvation fix: once a writer has announced itself, arriving
    // readers queue behind it instead of being admitted, so the writer
    // waits for at most the readers that were already in.
    let mut l = RwLock::new(0u8);
    let r1 = l.read().expect("unlocked");
    let r2 = l.read().expect("readers share");

    // The writer finds readers, announces itself, and goes to park.
    assert!(l.write().is_none());
    assert!(l.writer_announced());
    let before = l.wake_counter();

    // New readers now bounce, however many times they retry.
    for _ in 0..100 {
        assert!(l.read().is_none());
    }
    assert_eq!(l.reader_count(), 2);

    // The two old readers leave; the last one bumps the wake counter.
    assert!(!l.read_unlock(r1));
    assert!(l.read_unlock(r2));
    assert_ne!(l.wake_counter(), before);

    // The woken writer enters; its release wakes the queued readers.
    let w = l.write().expect("drained");
    l.write_unlock(w);
    let r = l.read().expect("writer gone");
    assert!(!l.read_unlock(r));
}

#[test]
fn interleaved_counter_is_exact_and_nondecreasing() {
    // Eight reader slots and two writer slots take turns over a hundred
    // thousand operations: writers increment, readers observe a value
    // that never decreases, and the final value is exactly the number of
    // writer operations.
    let mut l = RwLock::new(0u64);
    let mut last_seen = 0u64;
    let mut increments = 0u64;
    for i in 0..100_000u32 {
        if i % 10 < 8 {
            let r = l.read().expect("no writer waiting");
            let v = *r.value(&l);
            assert!(v >= last_seen);
            last_seen = v;
            l.read_unlock(r);
        } else {
            let w = l.write().expect("no readers in");
            *w.value_mut(&mut l) += 1;
            increments += 1;
            l.write_unlock(w);
        }
    }
    assert_eq!(increments, 20_000);
    let r = l.read().expect("unlocked");
    assert_eq!(*r.value(&l), 20_000);
    l.read_unlock(r);
}
