use xargo::home::SysrootHome;
use xargo::invoke::acquire_build_locks;
use xargo::locks::{LockMode, LockTable};
use xargo::paths::AbsPath;

fn root() -> AbsPath {
    AbsPath::from_segments(vec!["home".to_string(), "me".to_string()])
}

#[test]
fn shared_locks_coexist_on_one_triple() {
    let mut table = LockTable::new();
    let a = table.acquire_shared("thumbv7m-none-eabi").expect("first shared grant");
    let b = table.acquire_shared("thumbv7m-none-eabi").expect("second shared grant");
    assert_eq!(table.shared_holders("thumbv7m-none-eabi"), 2);
    assert!(!table.has_exclusive("thumbv7m-none-eabi"));
    table.release(a);
    table.release(b);
    assert_eq!(table.shared_holders("thumbv7m-none-eabi"), 0);
}

#[test]
fn exclusive_waits_for_all_shared_holders() {
    let mut table = LockTable::new();
    let a = table.acquire_shared("t").expect("shared grant");
    let b = table.acquire_shared("t").expect("shared grant");
    assert!(table.acquire_exclusive("t").is_none());
    table.release(a);
    assert!(table.acquire_exclusive("t").is_none());
    table.release(b);
    let w = table.acquire_exclusive("t").expect("exclusive grant once idle");
    assert_eq!(w.mode, LockMode::Exclusive);
    assert!(table.has_exclusive("t"));
    assert!(table.acquire_shared("t").is_none());
    assert!(table.acquire_exclusive("t").is_none());
    table.release(w);
    assert!(table.acquire_shared("t").is_some());
}

#[test]
fn distinct_triples_are_independent() {
    let mut table = LockTable::new();
    let shared = table.acquire_shared("t1").expect("shared grant on t1");
    let excl = table
        .acquire_exclusive("t2")
        .expect("exclusive grant on t2 while t1 is read-locked");
    assert_eq!(table.shared_holders("t1"), 1);
    assert!(table.has_exclusive("t2"));
    let again = table.acquire_shared("t1").expect("t2's writer does not block t1");
    table.release(shared);
    table.release(again);
    table.release(excl);
}

#[test]
fn home_lock_methods_follow_the_table() {
    let home = SysrootHome::resolve(Some(root()), None, false).expect("home resolves");
    let mut table = LockTable::new();
    let r = home.lock_shared(&mut table, "t").expect("shared grant");
    assert_eq!(r.mode, LockMode::Shared);
    assert_eq!(r.triple, "t");
    assert!(home.lock_exclusive(&mut table, "t").is_none());
    table.release(r);
    let w = home.lock_exclusive(&mut table, "t").expect("exclusive grant");
    assert!(home.lock_shared(&mut table, "t").is_none());
    table.release(w);
}

#[test]
fn build_locks_blocked_by_writer_then_granted() {
    let mut table = LockTable::new();
    let writer = table.acquire_exclusive("target-triple").expect("writer grant");
    match acquire_build_locks(&mut table, "host-triple", "target-triple") {
        Err(xargo::errors::Error::LockError { triple }) => {
            assert_eq!(triple, "target-triple");
        }
        other => panic!("expected a lock refusal naming the target, got {:?}", other.is_ok()),
    }
    // A refusal gives the host lock back: nothing stays held.
    assert_eq!(table.shared_holders("host-triple"), 0);
    table.release(writer);
    let (h, t) = acquire_build_locks(&mut table, "host-triple", "target-triple")
        .expect("both shared grants after the writer leaves");
    assert_eq!(table.shared_holders("host-triple"), 1);
    assert_eq!(table.shared_holders("target-triple"), 1);
    table.release(h);
    table.release(t);
}

#[test]
fn build_locks_on_native_build_count_twice() {
    let mut table = LockTable::new();
    let (h, t) = acquire_build_locks(&mut table, "same", "same").expect("both grants");
    assert_eq!(table.shared_holders("same"), 2);
    table.release(h);
    table.release(t);
    assert_eq!(table.shared_holders("same"), 0);
}
