use margin_engine::args::{load_and_parse_arg, ConfigError, NAMESPACE};

fn number(text: String) -> Result<u64, String> {
    text.parse::<u64>().map_err(|e| e.to_string())
}

#[test]
fn a_setting_that_is_there_is_parsed() {
    let r = load_and_parse_arg("LIMIT", Some("8080".to_string()), number);
    assert!(matches!(r, Ok(8080)));
}

#[test]
fn a_setting_that_is_not_there_is_missing() {
    let r = load_and_parse_arg("RPC_URL", None, number);
    match r {
        Err(ConfigError::MissingArgument(name)) => assert_eq!(name, "RPC_URL"),
        _ => panic!("the setting should be missing"),
    }
}

#[test]
fn a_setting_that_cannot_be_read_is_invalid() {
    let r = load_and_parse_arg("LIMIT", Some("eighty".to_string()), number);
    match r {
        Err(ConfigError::InvalidArgument(name)) => assert_eq!(name, "LIMIT"),
        _ => panic!("the setting should be invalid"),
    }
}

#[test]
fn a_closure_may_read_the_setting() {
    let suffix = "/v1";
    let r = load_and_parse_arg("URL", Some("http://host".to_string()), |url: String| {
        Ok::<String, String>(format!("{}{}", url, suffix))
    });
    assert!(matches!(r, Ok(ref s) if s == "http://host/v1"));
}

#[test]
fn messages_begin_with_the_namespace() {
    assert_eq!(NAMESPACE, "[CONFIG_ERROR]:");
}

#[test]
fn an_error_says_what_is_wrong_with_which_setting() {
    let missing = ConfigError::MissingArgument("RPC_URL".to_string());
    assert_eq!(missing.message(), "[CONFIG_ERROR]: Argument RPC_URL is missing");
    let invalid = ConfigError::InvalidArgument("WS_URL".to_string());
    assert_eq!(invalid.message(), "[CONFIG_ERROR]: Could not parse WS_URL argument");
    let r = load_and_parse_arg("LIMIT", None, number);
    assert_eq!(r.err().unwrap().message(), "[CONFIG_ERROR]: Argument LIMIT is missing");
    let r = load_and_parse_arg("LIMIT", Some("x".to_string()), number);
    assert_eq!(r.err().unwrap().message(), "[CONFIG_ERROR]: Could not parse LIMIT argument");
}
