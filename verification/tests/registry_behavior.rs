use std::sync::Arc;
use std::sync::Mutex;

use etp::registry::Label;
use etp::registry::Registry;
use etp::registry::RegistryError;

#[test]
fn register_hands_out_sequential_handles() {
    let mut reg = Registry::new();
    let a = reg.register(String::from("etp_bad_request"), String::from("bad elk request"), Vec::new());
    let b = reg.register(String::from("orders_total"), String::from("matched orders"), Vec::new());
    assert_eq!(a, Ok(0));
    assert_eq!(b, Ok(1));
    assert_eq!(reg.len(), 2);
}

#[test]
fn register_refuses_duplicate_names() {
    let mut reg = Registry::new();
    let first = reg.register(String::from("orders_total"), String::from("one"), Vec::new());
    assert_eq!(first, Ok(0));
    let second = reg.register(String::from("orders_total"), String::from("two"), Vec::new());
    assert_eq!(second, Err(RegistryError::DuplicateName));
    assert_eq!(reg.len(), 1);
}

#[test]
fn snapshot_before_any_poll_is_all_zero() {
    let mut reg = Registry::new();
    reg.register(String::from("etp_bad_request"), String::from("bad elk request"), Vec::new())
        .unwrap();
    for name in ["a_total", "b_total"] {
        let labels = vec![Label { key: String::from("period"), value: String::from("5") }];
        reg.register(String::from(name), String::from("help"), labels).unwrap();
    }
    assert_eq!(reg.len(), 3);
    let snapshot = reg.snapshot();
    assert_eq!(snapshot.len(), 3);
    for entry in &snapshot {
        assert_eq!(entry.value, 0);
    }
}

#[test]
fn increment_accumulates() {
    let mut reg = Registry::new();
    let h = reg.register(String::from("orders_total"), String::from("help"), Vec::new()).unwrap();
    reg.increment(h, 42);
    assert_eq!(reg.entries[h].value, 42);
    reg.increment(h, 8);
    assert_eq!(reg.entries[h].value, 50);
}

#[test]
fn increment_saturates_at_the_top() {
    let mut reg = Registry::new();
    let h = reg.register(String::from("orders_total"), String::from("help"), Vec::new()).unwrap();
    reg.increment(h, u64::MAX);
    reg.increment(h, 5);
    assert_eq!(reg.entries[h].value, u64::MAX);
}

#[test]
fn concurrent_increments_lose_nothing() {
    let runtime = tokio::runtime::Builder::new_multi_thread()
        .worker_threads(8)
        .build()
        .unwrap();
    let mut reg = Registry::new();
    let h = reg.register(String::from("orders_total"), String::from("help"), Vec::new()).unwrap();
    let shared = Arc::new(Mutex::new(reg));
    let n: u64 = 1000;
    let amount: u64 = 1;
    runtime.block_on(async {
        let mut children = Vec::new();
        for _ in 0..n {
            let shared = shared.clone();
            children.push(tokio::spawn(async move {
                shared.lock().unwrap().increment(h, amount);
            }));
        }
        for child in children {
            child.await.unwrap();
        }
    });
    assert_eq!(shared.lock().unwrap().entries[h].value, n * amount);
}
