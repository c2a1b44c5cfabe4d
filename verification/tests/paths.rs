use mediasync::paths::{
    advance_marker_path, join_path, pause_marker_path, socket_cli_form, socket_connect_form,
    socket_needs_cleanup, Platform,
};

#[test]
fn join_inserts_exactly_one_separator() {
    assert_eq!(join_path("/tmp", "a"), "/tmp/a");
    assert_eq!(join_path("/tmp/", "a"), "/tmp/a");
    assert_eq!(join_path("", "a"), "/a");
}

#[test]
fn marker_paths_live_in_the_temp_dir() {
    assert_eq!(pause_marker_path("/tmp"), "/tmp/obs_mpv_toggle_pause");
    assert_eq!(advance_marker_path("/tmp"), "/tmp/obs_mpv_next");
}

#[test]
fn unix_socket_forms_agree() {
    assert_eq!(socket_cli_form(Platform::Unix, "/tmp"), "/tmp/mpv.sock");
    assert_eq!(socket_connect_form(Platform::Unix, "/tmp"), "/tmp/mpv.sock");
}

#[test]
fn windows_socket_forms_differ() {
    assert_eq!(socket_cli_form(Platform::Windows, "C:/Temp"), "\\\\.\\pipe\\mpv.sock");
    assert_eq!(socket_connect_form(Platform::Windows, "C:/Temp"), "mpv.sock");
}

#[test]
fn only_unix_leaves_a_socket_artifact() {
    assert!(socket_needs_cleanup(Platform::Unix));
    assert!(!socket_needs_cleanup(Platform::Windows));
}
