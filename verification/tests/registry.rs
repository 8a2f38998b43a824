use http_proxy::registry::ClientRegistry;
use std::cell::Cell;
use std::sync::Arc;

/// A stand-in for an upstream client: bound to one token.
#[derive(Debug, PartialEq, Eq)]
struct Handle {
    token: String,
}

fn handle(token: &str) -> Arc<Handle> {
    Arc::new(Handle { token: token.to_string() })
}

#[test]
fn a_new_registry_is_empty() {
    let registry: ClientRegistry<Arc<Handle>> = ClientRegistry::new();
    assert_eq!(registry.len(), 0);
    assert!(registry.get(123).is_none());
    assert_eq!(registry.slot(123), None);
}

#[test]
fn the_first_call_makes_the_client_from_the_credential() {
    let mut registry = ClientRegistry::new();
    let made = registry.get_or_create(123, "MTIz.a.b", handle).clone();
    assert_eq!(made.token, "MTIz.a.b");
    assert_eq!(registry.len(), 1);
    assert_eq!(registry.slot(123), Some(0));
    assert!(Arc::ptr_eq(&made, registry.get(123).unwrap()));
}

#[test]
fn repeated_calls_return_the_same_handle() {
    let mut registry = ClientRegistry::new();
    let first = registry.get_or_create(123, "MTIz.a.b", handle).clone();
    let second = registry.get_or_create(123, "MTIz.a.b", handle).clone();
    let third = registry.get_or_create(123, "MTIz.other.signature", handle).clone();
    assert!(Arc::ptr_eq(&first, &second));
    assert!(Arc::ptr_eq(&first, &third));
    assert_eq!(third.token, "MTIz.a.b");
    assert_eq!(registry.len(), 1);
}

#[test]
fn a_known_bot_makes_no_new_client() {
    let made = Cell::new(0);
    let mut registry = ClientRegistry::new();
    for _ in 0..5 {
        registry.get_or_create(7, "Nw.a.b", |token| {
            made.set(made.get() + 1);
            handle(token)
        });
    }
    assert_eq!(made.get(), 1);
    registry.get_or_create(8, "OA.a.b", |token| {
        made.set(made.get() + 1);
        handle(token)
    });
    assert_eq!(made.get(), 2);
}

#[test]
fn distinct_bots_have_distinct_handles() {
    let mut registry = ClientRegistry::new();
    let first = registry.get_or_create(1, "MQ.a.b", handle).clone();
    let second = registry.get_or_create(2, "Mg.a.b", handle).clone();
    assert!(!Arc::ptr_eq(&first, &second));
    assert_eq!(first.token, "MQ.a.b");
    assert_eq!(second.token, "Mg.a.b");
    assert_eq!(registry.slot(1), Some(0));
    assert_eq!(registry.slot(2), Some(1));
    assert_eq!(registry.len(), 2);
}

#[test]
fn equal_credentials_do_not_merge_bots() {
    let mut registry = ClientRegistry::new();
    let first = registry.get_or_create(1, "same", handle).clone();
    let second = registry.get_or_create(2, "same", handle).clone();
    assert!(!Arc::ptr_eq(&first, &second));
    assert_ne!(registry.slot(1), registry.slot(2));
}

#[test]
fn a_call_for_one_bot_leaves_the_others_alone() {
    let mut registry = ClientRegistry::new();
    let first = registry.get_or_create(1, "MQ.a.b", handle).clone();
    for identity in 2..50u64 {
        registry.get_or_create(identity, "x", handle);
    }
    assert!(Arc::ptr_eq(&first, registry.get(1).unwrap()));
    assert_eq!(registry.slot(1), Some(0));
    assert_eq!(registry.slot(49), Some(48));
    assert_eq!(registry.len(), 49);
    assert!(Arc::ptr_eq(&first, registry.get_or_create(1, "y", handle)));
    assert_eq!(registry.len(), 49);
}

#[test]
fn the_largest_identity_is_an_identity_like_any_other() {
    let mut registry = ClientRegistry::new();
    registry.get_or_create(u64::MAX, "a", handle);
    registry.get_or_create(0, "b", handle);
    assert_eq!(registry.get(u64::MAX).unwrap().token, "a");
    assert_eq!(registry.get(0).unwrap().token, "b");
}

#[test]
fn concurrent_first_calls_agree_on_one_handle() {
    let registry = Arc::new(parking_lot::Mutex::new(ClientRegistry::new()));
    let start = Arc::new(std::sync::Barrier::new(8));
    let runtime = tokio::runtime::Runtime::new().unwrap();
    let handles: Vec<Arc<Handle>> = runtime.block_on(async {
        let workers: Vec<_> = (0..8)
            .map(|_| {
                let registry = Arc::clone(&registry);
                let start = Arc::clone(&start);
                tokio::task::spawn_blocking(move || {
                    start.wait();
                    registry.lock().get_or_create(123, "MTIz.a.b", handle).clone()
                })
            })
            .collect();
        let mut handles = Vec::new();
        for worker in workers {
            handles.push(worker.await.unwrap());
        }
        handles
    });
    assert_eq!(handles.len(), 8);
    for other in &handles {
        assert!(Arc::ptr_eq(&handles[0], other));
    }
    assert_eq!(registry.lock().len(), 1);
}

#[test]
fn a_slow_upstream_for_one_bot_does_not_hold_up_another() {
    let registry = Arc::new(parking_lot::Mutex::new(ClientRegistry::new()));
    let (answer, upstream) = std::sync::mpsc::channel::<()>();
    let (started, has_started) = std::sync::mpsc::channel::<()>();
    let runtime = tokio::runtime::Runtime::new().unwrap();
    let (slow, quick) = runtime.block_on(async {
        let slow = {
            let registry = Arc::clone(&registry);
            tokio::task::spawn_blocking(move || {
                let client = registry.lock().get_or_create(1, "MQ.a.b", handle).clone();
                started.send(()).unwrap();
                // The call upstream: it lasts until the other bot is done.
                upstream.recv().unwrap();
                client
            })
        };
        let quick = {
            let registry = Arc::clone(&registry);
            tokio::task::spawn_blocking(move || {
                has_started.recv().unwrap();
                let client = registry.lock().get_or_create(2, "Mg.a.b", handle).clone();
                answer.send(()).unwrap();
                client
            })
        };
        let quick = quick.await.unwrap();
        (slow.await.unwrap(), quick)
    });
    assert_eq!(slow.token, "MQ.a.b");
    assert_eq!(quick.token, "Mg.a.b");
    assert!(!Arc::ptr_eq(&slow, &quick));
    assert_eq!(registry.lock().slot(1), Some(0));
    assert_eq!(registry.lock().slot(2), Some(1));
}
