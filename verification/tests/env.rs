use nebo_sdk::env::or_empty;
use nebo_sdk::env::DATA_VARIABLE;
use nebo_sdk::env::DIR_VARIABLE;
use nebo_sdk::env::ID_VARIABLE;
use nebo_sdk::env::NAME_VARIABLE;
use nebo_sdk::env::SOCK_VARIABLE;
use nebo_sdk::env::VERSION_VARIABLE;
use nebo_sdk::AppEnv;

#[test]
fn the_variables_have_their_names() {
    assert_eq!(DIR_VARIABLE, "NEBO_APP_DIR");
    assert_eq!(SOCK_VARIABLE, "NEBO_APP_SOCK");
    assert_eq!(ID_VARIABLE, "NEBO_APP_ID");
    assert_eq!(NAME_VARIABLE, "NEBO_APP_NAME");
    assert_eq!(VERSION_VARIABLE, "NEBO_APP_VERSION");
    assert_eq!(DATA_VARIABLE, "NEBO_APP_DATA");
}

#[test]
fn an_absent_setting_is_empty() {
    assert_eq!(or_empty(None), "");
    assert_eq!(or_empty(Some("x".to_string())), "x");
}

#[test]
fn the_environment_holds_what_was_found() {
    let env = AppEnv::assemble(
        Some("/apps/calc".to_string()),
        Some("/run/calc.sock".to_string()),
        None,
        Some("calc".to_string()),
        Some("1.2.3".to_string()),
        None,
    );
    assert_eq!(env.dir, "/apps/calc");
    assert_eq!(env.sock_path, "/run/calc.sock");
    assert_eq!(env.id, "");
    assert_eq!(env.name, "calc");
    assert_eq!(env.version, "1.2.3");
    assert_eq!(env.data_dir, "");
    assert_eq!(env.duplicate(), env);
}
