use syncprims::arc::Arc;

#[test]
fn arc_test() {
    // One strong handle, cloned once: the value stays live until the last
    // handle drops, and is handed out exactly once.
    let (mut block, x) = Arc::new(("hello", 0u8));
    let y = x.clone(&mut block);
    assert_eq!(block.strong_count(), 2);
    assert_eq!(x.value(&block).0, "hello");
    assert_eq!(y.value(&block).0, "hello");
    let first = y.drop_handle(&mut block);
    assert!(first.is_none());
    assert_eq!(block.strong_count(), 1);
    let last = x.drop_handle(&mut block);
    assert_eq!(last.map(|v| v.0), Some("hello"));
    assert_eq!(block.strong_count(), 0);
    assert_eq!(block.alloc_count(), 0);
}

#[test]
fn arc_optimization_test() {
    // The weak-reference protocol: upgrades succeed while the value is
    // live, the destructor runs exactly once when the last strong handle
    // drops, and upgrades fail from then on.
    let mut drops = 0;
    let (mut block, x) = Arc::new(("hello", 0u8));
    let y = x.downgrade(&mut block);
    let z = x.downgrade(&mut block);
    assert_eq!(block.alloc_count(), 3);

    let upgraded = y.upgrade(&mut block).expect("value is live");
    assert_eq!(upgraded.value(&block).0, "hello");
    assert_eq!(x.value(&block).0, "hello");
    if upgraded.drop_handle(&mut block).is_some() {
        drops += 1;
    }

    // Not dropped yet: a strong handle remains.
    assert_eq!(drops, 0);
    let still = z.upgrade(&mut block);
    assert!(still.is_some());
    if still.unwrap().drop_handle(&mut block).is_some() {
        drops += 1;
    }
    assert_eq!(drops, 0);

    if x.drop_handle(&mut block).is_some() {
        drops += 1;
    }

    // Dropped exactly once, and death is final.
    assert_eq!(drops, 1);
    assert!(z.upgrade(&mut block).is_none());
    assert!(y.upgrade(&mut block).is_none());
    assert!(!y.drop_handle(&mut block));
    assert!(z.drop_handle(&mut block));
    assert_eq!(block.alloc_count(), 0);
}

#[test]
fn arc_weak_test() {
    // Weak handles keep the block alive but not the value.
    let mut drops = 0;
    let (mut block, x) = Arc::new(("hello", 0u8));
    let y = x.downgrade(&mut block);
    let z = x.downgrade(&mut block);

    let t = y.upgrade(&mut block).expect("value is live");
    assert_eq!(t.value(&block).0, "hello");
    if t.drop_handle(&mut block).is_some() {
        drops += 1;
    }
    assert_eq!(x.value(&block).0, "hello");

    assert_eq!(drops, 0);
    let s = z.upgrade(&mut block);
    assert!(s.is_some());
    if s.unwrap().drop_handle(&mut block).is_some() {
        drops += 1;
    }

    if x.drop_handle(&mut block).is_some() {
        drops += 1;
    }

    assert_eq!(drops, 1);
    assert!(z.upgrade(&mut block).is_none());
    let freed_y = y.drop_handle(&mut block);
    let freed_z = z.drop_handle(&mut block);
    assert!(!freed_y);
    assert!(freed_z);
}

#[test]
fn get_mut_only_for_sole_owner() {
    let (mut block, x) = Arc::new(41u64);
    {
        let v = x.get_mut(&mut block).expect("sole owner");
        *v += 1;
    }
    assert_eq!(*x.value(&block), 42);

    // Another strong handle forbids exclusive access.
    let y = x.clone(&mut block);
    assert!(x.get_mut(&mut block).is_none());
    assert!(y.drop_handle(&mut block).is_none());

    // A weak handle forbids it too: an upgrade could appear at any time.
    let w = x.downgrade(&mut block);
    assert!(x.get_mut(&mut block).is_none());
    assert!(!w.drop_handle(&mut block));

    // Sole again.
    assert!(x.get_mut(&mut block).is_some());
    assert!(x.drop_handle(&mut block).is_some());
}

#[test]
fn clone_drop_storm_leaves_one_handle() {
    // Four rounds of a thousand clone/drop pairs: the live-handle count
    // ends at exactly one and the value's destructor has not run.
    let (mut block, x) = Arc::new(String::from("hello"));
    let mut drops = 0;
    for _ in 0..4 {
        let mut handles = Vec::new();
        for _ in 0..1000 {
            handles.push(x.clone(&mut block));
        }
        for h in handles {
            if h.drop_handle(&mut block).is_some() {
                drops += 1;
            }
        }
    }
    assert_eq!(drops, 0);
    assert_eq!(block.strong_count(), 1);
    assert_eq!(x.value(&block).as_str(), "hello");
    assert_eq!(x.drop_handle(&mut block).as_deref(), Some("hello"));
}

#[test]
fn weak_clone_counts_allocation() {
    let (mut block, x) = Arc::new(5u8);
    let w1 = x.downgrade(&mut block);
    let w2 = w1.clone(&mut block);
    assert_eq!(block.alloc_count(), 3);
    assert!(!w1.drop_handle(&mut block));
    assert!(!w2.drop_handle(&mut block));
    assert_eq!(block.alloc_count(), 1);
    assert_eq!(x.drop_handle(&mut block), Some(5u8));
}
