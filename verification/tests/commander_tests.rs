use trdelnik::Commander;

#[test]
fn the_default_root_is_two_directories_up() {
    let commander = Commander::new();
    assert_eq!(commander.root().as_str(), "../../");
}

#[test]
fn with_root_keeps_the_given_root() {
    let commander = Commander::with_root("/tmp/workspace/".to_string());
    assert_eq!(commander.root().as_str(), "/tmp/workspace/");
}

#[test]
fn config_path_appends_without_a_separator() {
    let commander = Commander::new();
    assert_eq!(commander.config_path(), "../../config.yml");
}

#[test]
fn client_lib_path_under_a_slash_terminated_root() {
    let commander = Commander::new();
    assert_eq!(commander.client_lib_rs_path(), "../../program_client/src/lib.rs");
}

#[test]
fn client_lib_path_inserts_a_separator_when_needed() {
    let commander = Commander::with_root("workspace".to_string());
    assert_eq!(commander.client_lib_rs_path(), "workspace/program_client/src/lib.rs");
}

#[test]
fn client_lib_path_under_an_empty_root_is_relative() {
    let commander = Commander::with_root(String::new());
    assert_eq!(commander.client_lib_rs_path(), "program_client/src/lib.rs");
}
