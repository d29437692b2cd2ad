use enclave_proc::listener::ConnectionListener;

#[test]
fn stop_clears_registrations_and_rendezvous() {
    // After stop() the listener holds no registered endpoints and no
    // rendezvous socket path; the path is handed back for removal.
    let mut l = ConnectionListener::new();
    l.handle_new_connection(5);
    l.add_stream_to_epoll(7);
    l.add_stream_to_epoll(9);
    assert_eq!(l.endpoint_count(), 3);
    let path = l.start(&b"i-abc-enc777".to_vec());
    assert_eq!(path, b"i-abc-enc777.sock".to_vec());
    assert!(l.has_rendezvous());

    let removed = l.stop();
    assert_eq!(removed, Some(b"i-abc-enc777.sock".to_vec()));
    assert_eq!(l.endpoint_count(), 0);
    assert!(!l.has_rendezvous());
}

#[test]
fn stop_without_rendezvous() {
    let mut l = ConnectionListener::new();
    l.handle_new_connection(4);
    assert_eq!(l.stop(), None);
    assert_eq!(l.endpoint_count(), 0);
}

#[test]
fn deregister_removes_one_occurrence() {
    let mut l = ConnectionListener::new();
    l.handle_new_connection(5);
    l.add_stream_to_epoll(7);
    l.add_stream_to_epoll(5);
    l.deregister(5);
    assert_eq!(l.endpoint_count(), 2);
    // An unregistered descriptor leaves the wait set unchanged.
    l.deregister(99);
    assert_eq!(l.endpoint_count(), 2);
    l.deregister(5);
    l.deregister(7);
    assert_eq!(l.endpoint_count(), 0);
}

#[test]
fn registrations_accumulate() {
    let mut l = ConnectionListener::new();
    assert_eq!(l.endpoint_count(), 0);
    l.handle_new_connection(3);
    assert_eq!(l.endpoint_count(), 1);
    l.add_stream_to_epoll(8);
    assert_eq!(l.endpoint_count(), 2);
    assert_eq!(l.rendezvous_path_bytes(), None);
}
