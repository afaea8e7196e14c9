use concurrency::spinlock::{push_run, SpinLock};

#[test]
fn spinlock_test() {
    let size = 1000;
    let part1 = Vec::from_iter(0..size);
    let part2 = Vec::from_iter(size..size + size);
    let mut expected1 = Vec::new();
    expected1.extend(part2.clone());
    expected1.extend(part1.clone());
    let mut expected2 = Vec::new();
    expected2.extend(part1.clone());
    expected2.extend(part2.clone());

    for round in 0..10 {
        let lock = SpinLock::new(Vec::new());
        // Two critical sections; either may come first.
        let (first, second) = if round % 2 == 0 { (0, size) } else { (size, 0) };
        let mut guard = lock.lock();
        for i in first..first + size {
            guard.deref_mut().push(i);
        }
        let lock = guard.drop();
        let mut guard = lock.lock();
        for i in second..second + size {
            guard.deref_mut().push(i);
        }
        let lock = guard.drop();
        let value = lock.lock();

        assert!(*value.deref() == expected1 || *value.deref() == expected2);
    }
}

// Each critical section appends its whole run contiguously: the final
// contents are exactly one serial concatenation of the two runs, of
// full length.
#[test]
fn two_runs_never_interleave() {
    let lock = SpinLock::new(Vec::new());
    let lock = push_run(lock, 0, 1000);
    let lock = push_run(lock, 1000, 1000);
    let guard = lock.lock();
    let content = guard.deref();
    assert_eq!(content.len(), 2000);
    let expected = Vec::from_iter(0..2000);
    assert_eq!(content, &expected);
}

// The guard hands the payload back exactly as the critical section
// left it, and the lock comes back clear and lockable.
#[test]
fn guard_round_trip() {
    let lock = SpinLock::new(41);
    let mut guard = lock.lock();
    assert_eq!(*guard.deref(), 41);
    *guard.deref_mut() = 42;
    let lock = guard.drop();
    let guard = lock.lock();
    assert_eq!(*guard.deref(), 42);
}
