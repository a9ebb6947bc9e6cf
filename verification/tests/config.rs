use portfolio_api::config::{listener_address, root, setting, Missing, Setting};

fn s(text: &str) -> String {
    text.to_string()
}

#[test]
fn a_configured_setting_is_used_as_it_is() {
    assert_eq!(
        setting("USER_EMAIL", Some(s("user@example.com"))),
        Setting { value: s("user@example.com"), notice: None }
    );
    assert_eq!(setting("USER_EMAIL", Some(s(""))), Setting { value: s(""), notice: None });
}

#[test]
fn a_setting_that_is_not_set_falls_back_to_the_placeholder() {
    assert_eq!(
        setting("USER_EMAIL", None),
        Setting {
            value: s("default_value"),
            notice: Some(s("USER_EMAIL is not set, using default value")),
        }
    );
    assert_eq!(
        setting("MONGO_DB_URI", None),
        Setting {
            value: s("default_value"),
            notice: Some(s("MONGO_DB_URI is not set, using default value")),
        }
    );
}

#[test]
fn the_listener_address_is_host_colon_port() {
    assert_eq!(listener_address(Some(s("0.0.0.0")), Some(s("3000"))), Ok(s("0.0.0.0:3000")));
    assert_eq!(listener_address(Some(s("")), Some(s(""))), Ok(s(":")));
}

#[test]
fn the_listener_address_needs_host_and_port() {
    assert_eq!(listener_address(None, Some(s("3000"))), Err(Missing::Address));
    assert_eq!(listener_address(Some(s("0.0.0.0")), None), Err(Missing::Port));
    assert_eq!(listener_address(None, None), Err(Missing::Address));
}

#[test]
fn the_root_path_greets() {
    assert_eq!(root(), "Hello, JM AAcera man!");
}
