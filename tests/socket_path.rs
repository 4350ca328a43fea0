use niri_layout::{contains_infix, first_socket_path, runtime_dir, RETRY_INTERVAL_SECS};

#[test]
fn first_matching_entry_is_taken() {
    let entries = vec![
        "/run/user/1000/wayland-1".to_string(),
        "/run/user/1000/niri.wayland-1.42.sock".to_string(),
        "/run/user/1000/niri.wayland-1.43.sock".to_string(),
    ];
    assert_eq!(first_socket_path(&entries), Some("/run/user/1000/niri.wayland-1.42.sock".to_string()));
}

#[test]
fn no_matching_entry_means_retry() {
    let entries = vec!["/run/user/1000/wayland-1".to_string(), "/run/user/1000/nir".to_string()];
    assert_eq!(first_socket_path(&entries), None);
    assert_eq!(first_socket_path(&[]), None);
    assert_eq!(RETRY_INTERVAL_SECS, 1);
}

#[test]
fn runtime_dir_falls_back() {
    assert_eq!(runtime_dir(None), "/tmp");
    assert_eq!(runtime_dir(Some("/run/user/1000".to_string())), "/run/user/1000");
}

#[test]
fn infix_search() {
    assert!(contains_infix("abcniri", "niri"));
    assert!(contains_infix("niri", "niri"));
    assert!(contains_infix("x", ""));
    assert!(!contains_infix("nir", "niri"));
    assert!(!contains_infix("", "niri"));
    assert!(!contains_infix("ninrii", "niri"));
}
