use do_client::Config;
use do_client::Error;
use do_client::config::mask_token;

#[test]
fn validate_accepts_valid_config() {
    let c = Config::new(String::from("tok")).with_base_url(String::from(
        "https://api.example.com",
    ));
    assert!(c.validate().is_ok());
}

#[test]
fn validate_accepts_default_base_url() {
    let c = Config::new(String::from("tok"));
    assert_eq!(c.base_url, "https://api.digitalocean.com");
    assert!(c.validate().is_ok());
}

#[test]
fn validate_rejects_empty_token() {
    let c = Config::new(String::new());
    assert!(matches!(c.validate(), Err(Error::MissingToken)));
}

#[test]
fn validate_rejects_malformed_base_url() {
    let c = Config::new(String::from("tok")).with_base_url(String::from("not a url"));
    match c.validate() {
        Err(Error::Config(m)) => assert_eq!(m, "Invalid base URL"),
        other => panic!("expected a config error, got {:?}", other.is_ok()),
    }
}

#[test]
fn resolve_env_token_wins_over_file() {
    let file = Config::new(String::from("filetok")).with_base_url(String::from(
        "https://file.example.com",
    ));
    let r = Config::resolve(Some(String::from("envtok")), None, Some(file)).unwrap();
    assert_eq!(r.token, "envtok");
    assert_eq!(r.base_url, "https://api.digitalocean.com");
}

#[test]
fn resolve_env_base_url_overrides_file_field_only() {
    let file = Config::new(String::from("filetok")).with_base_url(String::from(
        "https://file.example.com",
    ));
    let r = Config::resolve(None, Some(String::from("https://alt.example.com")), Some(file))
        .unwrap();
    assert_eq!(r.token, "filetok");
    assert_eq!(r.base_url, "https://alt.example.com");
}

#[test]
fn resolve_file_alone_is_taken_as_is() {
    let file = Config::new(String::from("filetok")).with_base_url(String::from(
        "https://file.example.com",
    ));
    let r = Config::resolve(None, None, Some(file)).unwrap();
    assert_eq!(r.token, "filetok");
    assert_eq!(r.base_url, "https://file.example.com");
}

#[test]
fn resolve_without_any_source_fails() {
    match Config::resolve(None, None, None) {
        Err(Error::Config(m)) => assert_eq!(
            m,
            "No configuration found. Set DIGITALOCEAN_TOKEN environment variable or create config file."
        ),
        _ => panic!("expected a config error"),
    }
}

#[test]
fn from_env_values_requires_token() {
    match Config::from_env_values(None, Some(String::from("https://x.example.com"))) {
        Err(Error::Config(m)) => {
            assert_eq!(m, "DIGITALOCEAN_TOKEN environment variable not set")
        },
        _ => panic!("expected a config error"),
    }
}

#[test]
fn from_env_values_defaults_base_url() {
    let r = Config::from_env_values(Some(String::from("tok")), None).unwrap();
    assert_eq!(r.base_url, "https://api.digitalocean.com");
    assert_eq!(r.token, "tok");
}

#[test]
fn document_round_trip_preserves_config() {
    let c = Config::new(String::from("secret-token-123")).with_base_url(String::from(
        "https://api.example.com",
    ));
    let doc = c.to_document();
    let reloaded = Config::from_document(&doc).unwrap();
    assert_eq!(reloaded.token, c.token);
    assert_eq!(reloaded.base_url, c.base_url);
}

#[test]
fn document_round_trip_with_awkward_characters() {
    let c = Config::new(String::from("to\"k#en\\weird")).with_base_url(String::from(
        "https://api.example.com/base",
    ));
    let doc = c.to_document();
    let reloaded = Config::from_document(&doc).unwrap();
    assert_eq!(reloaded.token, c.token);
    assert_eq!(reloaded.base_url, c.base_url);
}

#[test]
fn from_document_defaults_empty_base_url() {
    let doc = "token = \"abc\"\nbase_url = \"\"\n";
    let r = Config::from_document(doc).unwrap();
    assert_eq!(r.token, "abc");
    assert_eq!(r.base_url, "https://api.digitalocean.com");
}

#[test]
fn from_document_rejects_malformed_text() {
    match Config::from_document("this is [[[ not a config") {
        Err(Error::Config(m)) => assert_eq!(m, "Invalid config file"),
        _ => panic!("expected a config error"),
    }
}

#[test]
fn from_document_defaults_absent_base_url() {
    let r = Config::from_document("token = \"abc\"\n").unwrap();
    assert_eq!(r.token, "abc");
    assert_eq!(r.base_url, "https://api.digitalocean.com");
}

#[test]
fn from_document_rejects_missing_token() {
    assert!(Config::from_document("base_url = \"https://api.example.com\"\n").is_err());
}

#[test]
fn set_key_updates_recognized_keys() {
    let mut c = Config::new(String::from("tok"));
    c.set_key("token", String::from("other")).unwrap();
    assert_eq!(c.token, "other");
    c.set_key("base-url", String::from("https://alt.example.com")).unwrap();
    assert_eq!(c.base_url, "https://alt.example.com");
    assert_eq!(c.token, "other");
}

#[test]
fn set_key_rejects_unknown_key() {
    let mut c = Config::new(String::from("tok"));
    match c.set_key("color", String::from("blue")) {
        Err(Error::Config(m)) => assert_eq!(m, "Unknown config key: color"),
        _ => panic!("expected a config error"),
    }
    assert_eq!(c.token, "tok");
}

#[test]
fn get_key_masks_token_and_returns_base_url() {
    let c = Config::new(String::from("dop_v1_abcdefghij")).with_base_url(String::from(
        "https://api.example.com",
    ));
    assert_eq!(c.get_key("token").unwrap(), "dop_...ghij");
    assert_eq!(c.get_key("base-url").unwrap(), "https://api.example.com");
    assert!(c.get_key("nope").is_err());
}

#[test]
fn mask_token_empty_is_not_set() {
    assert_eq!(mask_token(""), "<not set>");
}

#[test]
fn mask_token_short_is_stars() {
    assert_eq!(mask_token("abc"), "***");
    assert_eq!(mask_token("abcdefgh"), "***");
}

#[test]
fn mask_token_long_keeps_ends() {
    assert_eq!(mask_token("abcdefghi"), "abcd...fghi");
    assert_eq!(mask_token("dop_v1_abcdefghij"), "dop_...ghij");
}
