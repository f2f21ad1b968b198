use ngrok::socket::{socket_forward_addr, SocketCache, SocketHandle, SocketKind};

fn tcp_handle(token: u64, port: u16) -> SocketHandle {
    SocketHandle {
        token,
        kind: SocketKind::TcpPort(port),
    }
}

#[test]
fn cache_returns_the_same_capability_until_release() {
    let mut cache = SocketCache::new();
    let id = "tn_1".to_string();
    assert!(cache.lookup(&id).is_none());
    let first = cache.get_or_create_socket(&id, tcp_handle(1, 40001));
    assert_eq!(first.token, 1);
    // a second call returns the identical cached capability, not the fresh one
    let second = cache.get_or_create_socket(&id, tcp_handle(2, 40002));
    assert_eq!(second.token, 1);
    assert_eq!(cache.len(), 1);
    // after release, a subsequent call creates a new one
    let released = cache.release(&id).expect("the cached socket comes back");
    assert_eq!(released.token, 1);
    let third = cache.get_or_create_socket(&id, tcp_handle(3, 40003));
    assert_eq!(third.token, 3);
}

#[test]
fn release_is_idempotent() {
    let mut cache = SocketCache::new();
    let id = "tn_1".to_string();
    cache.get_or_create_socket(&id, tcp_handle(1, 40001));
    assert!(cache.release(&id).is_some());
    assert!(cache.release(&id).is_none());
    assert_eq!(cache.len(), 0);
}

#[test]
fn distinct_ids_have_distinct_entries() {
    let mut cache = SocketCache::new();
    let a = "tn_a".to_string();
    let b = "tn_b".to_string();
    cache.get_or_create_socket(&a, tcp_handle(1, 40001));
    cache.get_or_create_socket(&b, tcp_handle(2, 40002));
    assert_eq!(cache.len(), 2);
    assert_eq!(cache.lookup(&a).unwrap().token, 1);
    assert_eq!(cache.lookup(&b).unwrap().token, 2);
    cache.release(&a);
    assert!(cache.lookup(&a).is_none());
    assert_eq!(cache.lookup(&b).unwrap().token, 2);
}

#[test]
fn socket_forward_addr_follows_the_domain() {
    assert_eq!(
        socket_forward_addr(&SocketKind::UnixPath("/tmp/tun-1.sock".to_string())),
        "unix:/tmp/tun-1.sock"
    );
    assert_eq!(
        socket_forward_addr(&SocketKind::TcpPort(40001)),
        "localhost:40001"
    );
}
