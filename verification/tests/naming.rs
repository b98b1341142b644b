use xplane_reload::naming::{
    staged_file_name, staged_path, with_file_name, working_file_name, working_path,
};

#[test]
fn artifact_names_are_the_convention() {
    assert_eq!(staged_file_name(), b"plugin.reload".to_vec());
    assert_eq!(working_file_name(), b"_plugin.reload".to_vec());
}

#[test]
fn file_name_is_replaced_after_last_separator() {
    let path = b"/sim/plugins/reload/reload.xpl".to_vec();
    let name = b"plugin.reload".to_vec();
    assert_eq!(
        with_file_name(&path, &name),
        b"/sim/plugins/reload/plugin.reload".to_vec()
    );
}

#[test]
fn path_without_separator_becomes_the_name() {
    let path = b"reload.xpl".to_vec();
    let name = b"plugin.reload".to_vec();
    assert_eq!(with_file_name(&path, &name), b"plugin.reload".to_vec());
}

#[test]
fn trailing_separator_keeps_the_whole_directory() {
    let path = b"/sim/plugins/".to_vec();
    let name = b"x".to_vec();
    assert_eq!(with_file_name(&path, &name), b"/sim/plugins/x".to_vec());
}

#[test]
fn staged_and_working_paths_are_siblings_and_distinct() {
    let own = b"/sim/plugins/reload/reload.xpl".to_vec();
    let staged = staged_path(&own);
    let working = working_path(&own);
    assert_eq!(staged, b"/sim/plugins/reload/plugin.reload".to_vec());
    assert_eq!(working, b"/sim/plugins/reload/_plugin.reload".to_vec());
    assert_ne!(staged, working);
}
