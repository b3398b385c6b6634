use do_client::Client;
use do_client::Config;
use do_client::Error;
use do_client::Method;
use do_client::client::{interpret_delete_response, interpret_response};

fn example_client() -> Client {
    let config = Config::new(String::from("tok")).with_base_url(String::from(
        "https://api.example.com",
    ));
    Client::new(config).unwrap()
}

#[test]
fn new_rejects_invalid_config() {
    assert!(matches!(
        Client::new(Config::new(String::new())),
        Err(Error::MissingToken)
    ));
    let bad_url = Config::new(String::from("tok")).with_base_url(String::from("::::"));
    assert!(Client::new(bad_url).is_err());
}

#[test]
fn update_config_validates_and_replaces() {
    let mut client = example_client();
    let next = Config::new(String::from("other"));
    client.update_config(next).unwrap();
    assert_eq!(client.config().token, "other");
    assert!(client.update_config(Config::new(String::new())).is_err());
    assert_eq!(client.config().token, "other");
}

#[test]
fn get_droplet_request_resolves_url() {
    let client = example_client();
    let p = client.get_droplet_request(42).unwrap();
    assert_eq!(p.url, "https://api.example.com/v2/droplets/42");
    assert!(matches!(p.method, Method::Get));
    assert_eq!(p.authorization, "Bearer tok");
    assert_eq!(p.content_type, "application/json");
    assert!(p.body.is_none());
}

#[test]
fn droplet_ids_render_in_decimal() {
    let client = example_client();
    assert_eq!(
        client.get_droplet_request(0).unwrap().url,
        "https://api.example.com/v2/droplets/0"
    );
    assert_eq!(
        client.get_droplet_request(4294967295).unwrap().url,
        "https://api.example.com/v2/droplets/4294967295"
    );
}

#[test]
fn account_and_list_requests_use_fixed_paths() {
    let client = example_client();
    let account = client.get_account_request().unwrap();
    assert_eq!(account.url, "https://api.example.com/v2/account");
    assert!(matches!(account.method, Method::Get));
    let list = client.list_droplets_request().unwrap();
    assert_eq!(list.url, "https://api.example.com/v2/droplets");
    assert!(matches!(list.method, Method::Get));
    let delete = client.delete_droplet_request(7).unwrap();
    assert_eq!(delete.url, "https://api.example.com/v2/droplets/7");
    assert!(matches!(delete.method, Method::Delete));
}

#[test]
fn build_request_reports_invalid_url() {
    let client = Client {
        config: Config::new(String::from("tok")).with_base_url(String::from("not a url")),
    };
    assert!(matches!(
        client.build_request(Method::Get, "/v2/account", None),
        Err(Error::InvalidUrl(_))
    ));
}

#[test]
fn empty_success_body_reads_as_empty_object() {
    let r = interpret_response(204, String::new()).unwrap();
    assert_eq!(r, "{}");
}

#[test]
fn success_body_passes_through() {
    let r = interpret_response(200, String::from("{\"account\":{}}")).unwrap();
    assert_eq!(r, "{\"account\":{}}");
}

#[test]
fn error_envelope_message_is_surfaced() {
    let body = String::from("{\"errors\":[{\"message\":\"m\"}]}");
    match interpret_response(404, body) {
        Err(Error::Api { status, message }) => {
            assert_eq!(status, 404);
            assert_eq!(message, "m");
        },
        _ => panic!("expected an API error"),
    }
}

#[test]
fn unparseable_error_body_is_surfaced_raw() {
    let body = String::from("oops, not json");
    match interpret_response(500, body) {
        Err(Error::Api { status, message }) => {
            assert_eq!(status, 500);
            assert_eq!(message, "oops, not json");
        },
        _ => panic!("expected an API error"),
    }
}

#[test]
fn empty_errors_array_falls_back_to_raw_body() {
    let body = String::from("{\"errors\":[]}");
    match interpret_response(400, body) {
        Err(Error::Api { status, message }) => {
            assert_eq!(status, 400);
            assert_eq!(message, "{\"errors\":[]}");
        },
        _ => panic!("expected an API error"),
    }
}

#[test]
fn droplet_not_found_scenario() {
    let client = example_client();
    let p = client.get_droplet_request(42).unwrap();
    assert_eq!(p.url, "https://api.example.com/v2/droplets/42");
    assert!(matches!(p.method, Method::Get));
    let body = String::from(
        "{\"errors\":[{\"id\":\"not_found\",\"message\":\"droplet not found\"}]}",
    );
    match interpret_response(404, body) {
        Err(Error::Api { status, message }) => {
            assert_eq!(status, 404);
            assert_eq!(message, "droplet not found");
        },
        _ => panic!("expected an API error"),
    }
}

#[test]
fn delete_success_discards_body() {
    assert!(interpret_delete_response(204, String::new()).is_ok());
    assert!(interpret_delete_response(200, String::from("not json at all")).is_ok());
}

#[test]
fn delete_error_maps_to_api_error() {
    let body = String::from("{\"errors\":[{\"message\":\"still locked\"}]}");
    match interpret_delete_response(409, body) {
        Err(Error::Api { status, message }) => {
            assert_eq!(status, 409);
            assert_eq!(message, "still locked");
        },
        _ => panic!("expected an API error"),
    }
}

#[test]
fn error_constructors_wrap_messages() {
    match Error::config(String::from("broken")) {
        Error::Config(m) => assert_eq!(m, "broken"),
        _ => panic!("expected a config error"),
    }
    match Error::other(String::from("odd")) {
        Error::Other(m) => assert_eq!(m, "odd"),
        _ => panic!("expected an unclassified error"),
    }
}
