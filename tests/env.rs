use marathon_cloud::env::{env_field_name, parse_env_arg};
use marathon_cloud::errors::EnvArgError;

#[test]
fn key_value_splits() {
    assert_eq!(parse_env_arg("KEY=VALUE"), Ok(("KEY".to_string(), "VALUE".to_string())));
}

#[test]
fn empty_value_is_rejected() {
    assert_eq!(
        parse_env_arg("KEY="),
        Err(EnvArgError::MissingValue { env_arg: "KEY=".to_string() })
    );
}

#[test]
fn missing_separator_is_rejected() {
    assert_eq!(
        parse_env_arg("KEYONLY"),
        Err(EnvArgError::InvalidKeyValue { env_arg: "KEYONLY".to_string() })
    );
}

#[test]
fn split_is_on_first_separator_only() {
    assert_eq!(parse_env_arg("K=V=V2"), Ok(("K".to_string(), "V=V2".to_string())));
}

#[test]
fn empty_key_is_rejected() {
    assert_eq!(
        parse_env_arg("=V"),
        Err(EnvArgError::InvalidKeyValue { env_arg: "=V".to_string() })
    );
    assert_eq!(parse_env_arg("="), Err(EnvArgError::MissingValue { env_arg: "=".to_string() }));
}

#[test]
fn env_field_names() {
    assert_eq!(env_field_name("FOO"), "env_args[FOO]");
}

#[test]
fn env_error_messages() {
    let e = EnvArgError::MissingValue { env_arg: "A=".to_string() };
    assert_eq!(
        e.message(),
        "Invalid environment variable. Value can not be empty \nvalue = A="
    );
    let e = EnvArgError::InvalidKeyValue { env_arg: "A".to_string() };
    assert_eq!(
        e.message(),
        "Invalid environment variable. Double check you've supplied correct value\nvalue = A"
    );
}
