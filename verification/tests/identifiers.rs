use enclave_proc::ids::{default_logger_id, get_logger_id};
use enclave_proc::listener::socket_path_for;

#[test]
fn logger_id_basic() {
    // An identifier ending in `-enc1234` derives the logging id `enc-1234`.
    assert_eq!(get_logger_id(&b"i-abc-enc1234".to_vec()), b"enc-1234".to_vec());
}

#[test]
fn logger_id_takes_last_separator() {
    assert_eq!(get_logger_id(&b"i-enc1-enc2".to_vec()), b"enc-2".to_vec());
}

#[test]
fn logger_id_without_separator() {
    assert_eq!(get_logger_id(&b"abc".to_vec()), b"enc-abc".to_vec());
}

#[test]
fn logger_id_empty_suffix() {
    assert_eq!(get_logger_id(&b"i-abc-enc".to_vec()), b"enc-".to_vec());
}

#[test]
fn logger_id_empty_identifier() {
    assert_eq!(get_logger_id(&Vec::new()), b"enc-".to_vec());
}

#[test]
fn default_logger_id_placeholder() {
    assert_eq!(default_logger_id(), b"enc-xxxxxxxxxxxx".to_vec());
}

#[test]
fn socket_path_from_identifier() {
    assert_eq!(socket_path_for(&b"i-abc-enc777".to_vec()), b"i-abc-enc777.sock".to_vec());
}
