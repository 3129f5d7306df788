use buildsys::broker::Server;
use buildsys::error::Error;
use buildsys::fetch::duplicate_received_fds;

#[test]
fn broker_admits_only_expected_uid() {
    // A broker expecting UID 1000 closes a connection from UID 0 without
    // a send, and remains available for later clients.
    let server = Server::for_fds("buildsys-jobserver-test", 1000, vec![3, 4]);
    assert!(!server.admit_peer(0));
    assert!(server.admit_peer(1000));
    assert!(!server.admit_peer(1001));
}

#[test]
fn fd_mode_serves_raw_descriptors_in_order() {
    let server = Server::for_fds("sock", 1000, vec![7, 5]);
    let opened: Vec<i32> = Vec::new();
    assert_eq!(server.served_fds(&opened), vec![7, 5]);
    assert!(server.paths.is_none());
    assert_eq!(server.client_uid, 1000);
    assert_eq!(server.socket, "sock");
}

#[test]
fn path_mode_serves_opened_descriptors_first() {
    let server = Server::for_paths("sock", 0, vec!["/bypass".to_string()]);
    let opened = vec![9];
    assert_eq!(server.served_fds(&opened), vec![9]);
    assert!(server.fds.is_none());
}

#[test]
fn fetch_rejects_wrong_descriptor_count() {
    let fds = vec![3];
    let result = duplicate_received_fds(&fds, 2);
    assert_eq!(result, Err(Error::FileDescriptorCount { expected: 2, actual: 1 }));
}

#[test]
fn fetch_rejects_stdio_descriptors() {
    let fds = vec![0, 4];
    let result = duplicate_received_fds(&fds, 2);
    assert_eq!(result, Err(Error::FileDescriptorBelowMinimum { fd: 0 }));
}

#[test]
fn fetch_reports_duplication_failure() {
    // Descriptor 9999 is not open in the test process, so duplication
    // fails with the duplicate error, not a panic.
    let fds = vec![9999];
    let result = duplicate_received_fds(&fds, 1);
    assert_eq!(result, Err(Error::FileDescriptorDuplicate { fd: 9999 }));
}

#[test]
fn fetch_duplicates_clear_of_stdio_range() {
    // Duplicate stdout twice over: every returned descriptor must be
    // numerically at or above three.
    let base = nix::fcntl::fcntl(1, nix::fcntl::FcntlArg::F_DUPFD(3)).unwrap();
    assert!(base >= 3);
    let fds = vec![base, base];
    let dups = duplicate_received_fds(&fds, 2).unwrap();
    assert_eq!(dups.len(), 2);
    for fd in &dups {
        assert!(*fd >= 3);
        assert_ne!(*fd, base);
    }
}
