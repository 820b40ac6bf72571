use zwd::zed::{zed_args, OpenTarget};

#[test]
fn folders_mode_uses_new_window_by_default() {
    let args = zed_args(OpenTarget::Folders(vec!["/tmp/api".to_string()]), false);

    assert_eq!(args, vec!["-n".to_string(), "/tmp/api".to_string()]);
}

#[test]
fn reuse_mode_omits_new_window_flag() {
    let args = zed_args(OpenTarget::Dock("/tmp/dock".to_string()), true);

    assert_eq!(args, vec!["/tmp/dock".to_string()]);
}

#[test]
fn folders_keep_their_order_after_the_flag() {
    let args = zed_args(
        OpenTarget::Folders(vec!["/w/api".to_string(), "/w/web".to_string(), "/w/docs".to_string()]),
        false,
    );

    assert_eq!(
        args,
        vec![
            "-n".to_string(),
            "/w/api".to_string(),
            "/w/web".to_string(),
            "/w/docs".to_string()
        ]
    );
}

#[test]
fn dock_in_new_window() {
    let args = zed_args(OpenTarget::Dock("/cache/dock".to_string()), false);

    assert_eq!(args, vec!["-n".to_string(), "/cache/dock".to_string()]);
}

#[test]
fn reused_window_with_no_folders_gets_no_arguments() {
    let args = zed_args(OpenTarget::Folders(vec![]), true);

    assert!(args.is_empty());
}
