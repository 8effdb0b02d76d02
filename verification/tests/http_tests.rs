use delivery::config::Config;
use delivery::errors::{DeliveryError, Kind};
use delivery::http::change::Description;
use delivery::http::token::{verify_outcome, verify_target, TokenRequest, TokenResponse};
use delivery::http::{APIAuth, APIClient, AuthPlan, HProto};
use delivery::token::TokenStore;

#[test]
fn description_payload_test() {
    let payload = Description::payload("a title", "so descriptive!");
    let expect = "{\"title\":\"a title\",\"description\":\"so descriptive!\"}";
    assert_eq!(expect, payload.unwrap());
}

#[test]
fn description_to_json_test() {
    let desc = Description { title: "a title".to_string(), description: "so descriptive!".to_string() };
    let payload = desc.to_json().unwrap();
    let expect = "{\"title\":\"a title\",\"description\":\"so descriptive!\"}";
    assert_eq!(expect, payload);
}

#[test]
fn description_payload_escapes_text() {
    let payload = Description::payload("say \"hi\"", "a\\b\nc\td\u{1}").unwrap();
    let expect = "{\"title\":\"say \\\"hi\\\"\",\"description\":\"a\\\\b\\nc\\td\\u0001\"}";
    assert_eq!(expect, payload);
}

#[test]
fn description_parse_text_1_test() {
    let text = "Just a title";
    let expect = Description { title: text.to_string(), description: "".to_string() };
    let desc = Description::parse_text(text).unwrap();
    assert_eq!(expect, desc);
}

#[test]
fn description_parse_text_2_test() {
    let text = "Just a title\n\nWith some description";
    let expect = Description { title: "Just a title".to_string(), description: "With some description".to_string() };
    let desc = Description::parse_text(text).unwrap();
    assert_eq!(expect, desc);
}

#[test]
fn description_parse_text_3_test() {
    let text = "Just a title\n\nL1\nL2\nL3\n";
    let expect = Description { title: "Just a title".to_string(), description: "L1\nL2\nL3".to_string() };
    let desc = Description::parse_text(text).unwrap();
    assert_eq!(expect, desc);
}

#[test]
fn from_config_no_auth_test() {
    let config = Config::default().set_enterprise("ncc-1701").set_server("earth");
    let client = APIClient::from_config_no_auth(&config).unwrap();
    let url = client.api_url("foo");
    assert_eq!("https://earth/api/v0/e/ncc-1701/foo", url)
}

#[test]
fn from_config_no_auth_override_api_version_test() {
    let config = Config::default().set_enterprise("ncc-1701").set_server("earth");
    let mut client = APIClient::from_config_no_auth(&config).unwrap();
    client.set_api_version("v1");
    let url = client.api_url("foo");
    assert_eq!("https://earth/api/v1/e/ncc-1701/foo", url)
}

#[test]
fn from_config_with_basic_routing_test() {
    let config = Config::default().set_server("earth");
    let client = APIClient::from_config_with_basic_routing(&config).unwrap();
    let url = client.api_url("api/_status");
    assert_eq!("https://earth/api/_status", url)
}

#[test]
fn from_config_needs_user() {
    let mut config = Config::default().set_enterprise("ncc-1701").set_server("earth");
    config.non_interactive = Some(true);
    let verified = verify_target(&config).map(|_| true);
    let auth = match APIAuth::from_config(&config, verified, Ok(TokenStore::from_file("", ""))) {
        AuthPlan::Ready(a) => a,
        AuthPlan::RequestToken => panic!("no token request expected"),
    };
    match APIClient::from_config(&config, auth) {
        Ok(_) => assert!(false),
        Err(e) => {
            let m = e.detail().unwrap();
            assert_eq!("User not set; try --user or set it in your .toml config file", &m);
        }
    };
}

#[test]
fn api_auth_from_config_when_missing_test() {
    let mut config = Config::default().set_enterprise("ncc-1701").set_server("earth");
    config.non_interactive = Some(true);
    let verified = verify_target(&config).map(|_| true);
    match APIAuth::from_config(&config, verified, Ok(TokenStore::from_file("", ""))) {
        AuthPlan::Ready(Err(e)) => {
            let detail = &e.detail.unwrap();
            let expect = "User not set; try --user or set it in your .toml config file";
            assert_eq!(expect, detail);
        }
        _ => panic!("expected an error"),
    }
}

#[test]
fn api_auth_from_config_test() {
    let mut config = Config::default()
        .set_enterprise("ncc-1701")
        .set_server("earth")
        .set_user("kirk")
        .set_token_file("/tmp/api-tokens");
    config.non_interactive = Some(true);
    let mut tstore = TokenStore::from_file("/tmp/api-tokens", "");
    let _ = tstore.write_token("earth", "ncc-1701", "kirk", "cafecafe");
    match APIAuth::from_config(&config, Ok(true), Ok(tstore)) {
        AuthPlan::Ready(Ok(a)) => {
            assert_eq!("kirk", a.user());
            assert_eq!("cafecafe", a.token());
        }
        _ => panic!("expected stored credentials"),
    }
}

#[test]
fn rejected_token_is_requested_again() {
    let mut config = Config::default().set_enterprise("e").set_server("s").set_user("u");
    config.non_interactive = Some(false);
    assert!(matches!(APIAuth::from_config(&config, Ok(false), Ok(TokenStore::from_file("", ""))), AuthPlan::RequestToken));
    config.non_interactive = Some(true);
    match APIAuth::from_config(&config, Ok(false), Ok(TokenStore::from_file("", ""))) {
        AuthPlan::Ready(Err(e)) => assert!(matches!(e.kind, Kind::NoToken)),
        _ => panic!("expected an error"),
    }
}

#[test]
fn from_empty_token_store_test() {
    let tstore = TokenStore::from_file("/tmp/api-tokens", "");
    let from_empty = APIAuth::from_token_store(tstore, "127.0.0.1", "acme", "bob");
    let e = from_empty.unwrap_err();
    assert_eq!("server: 127.0.0.1, ent: acme, user: bob", e.detail().unwrap());
}

#[test]
fn from_non_empty_token_store_test() {
    let mut tstore = TokenStore::from_file("/tmp/api-tokens", "");
    let _ = tstore.write_token("127.0.0.1", "acme", "bob", "beefbeef");
    let a = APIAuth::from_token_store(tstore, "127.0.0.1", "acme", "bob").unwrap();
    assert_eq!("bob", a.user());
    assert_eq!("beefbeef", a.token());
}

#[test]
fn http_api_url_test() {
    let mut client = APIClient::new_http("localhost:4343", "Chef");
    client.set_auth(APIAuth::new("pete", "deadbeefcafe"));
    let url = client.api_url("foo/bar");
    assert_eq!("http://localhost:4343/api/v0/e/Chef/foo/bar", url)
}

#[test]
fn https_api_url_test() {
    let mut client = APIClient::new_https("localhost:4343", "Chef");
    client.set_auth(APIAuth::new("pete", "deadbeefcafe"));
    let url = client.api_url("foo/bar");
    assert_eq!("https://localhost:4343/api/v0/e/Chef/foo/bar", url)
}

#[test]
fn protocol_is_read_in_any_case() {
    assert_eq!(HProto::HTTPS, HProto::from_str("HTTPS").unwrap());
    assert_eq!(HProto::HTTP, HProto::from_str("Http").unwrap());
    let e = HProto::from_str("ftp").unwrap_err();
    assert!(matches!(e.kind, Kind::UnsupportedProtocol));
    assert_eq!(Some("unknown protocal: ftp".to_string()), e.detail);
}

#[test]
fn protocol_from_lowercase_is_exact() {
    assert_eq!(HProto::HTTP, HProto::from_lowercase("HTTP", "http").unwrap());
    assert!(HProto::from_lowercase("HTTP", "HTTP").is_err());
}

#[test]
fn unknown_protocol_in_config() {
    let config = Config::default().set_server("earth").set_api_protocol("gopher");
    let e = APIClient::from_config_with_basic_routing(&config).unwrap_err();
    assert!(matches!(e.kind, Kind::UnsupportedProtocol));
}

#[test]
fn auth_headers_carry_user_and_token() {
    let a = APIAuth::new("pete", "cafe");
    let (u, t) = a.auth_headers();
    assert_eq!("pete", u.0);
    assert_eq!("cafe", t.0);
}

#[test]
fn token_request_payload_test() {
    let payload = TokenRequest::payload("alice", "sesame123");
    let expect = "{\"username\":\"alice\",\"password\":\"sesame123\"}";
    assert_eq!(expect, payload.unwrap());
}

#[test]
fn token_response_parse_token_expired_test() {
    let r_token_expired = "{\"error\":\"token_expired\"}";
    assert!(TokenResponse::parse_token_expired(r_token_expired));
    let r_token_denied = "{\"error\":\"token_denied\"}";
    assert!(!TokenResponse::parse_token_expired(r_token_denied));
    let r_other = "{\"orgs\":\"[]\"}";
    assert!(!TokenResponse::parse_token_expired(r_other))
}

fn client() -> APIClient {
    APIClient::new_http("127.0.0.1:1234", "gamer")
}

#[test]
fn ok() {
    let tuple = APIClient::parse_response(200, "200 OK", "", Ok("{}".to_string()));
    assert!(tuple.is_ok());
    let (code, content) = tuple.unwrap();
    assert!(content.is_some());
    assert_eq!(content.unwrap(), "{}");
    assert_eq!(code, 200);
}

#[test]
fn no_content() {
    let (code, content) = APIClient::parse_response(204, "204 No Content", "", Err("unreadable".to_string())).unwrap();
    assert!(content.is_none());
    assert_eq!(code, 204);
}

#[test]
fn created() {
    let (code, content) = APIClient::parse_response(201, "201 Created", "", Err("unreadable".to_string())).unwrap();
    assert!(content.is_none());
    assert_eq!(code, 201);
}

#[test]
fn conflict_that_we_consider_as_ok() {
    let (code, content) = APIClient::parse_response(409, "409 Conflict", "", Err("unreadable".to_string())).unwrap();
    assert!(content.is_none());
    assert_eq!(code, 409);
}

#[test]
fn not_found() {
    let url = client().api_url("not_found");
    let error = APIClient::parse_response(404, "404 Not Found", &url, Err("unreadable".to_string())).unwrap_err();
    assert_eq!(error.detail, Some(format!("Unable to access endpoint: {}", client().api_url("not_found"))));
    assert!(matches!(error.kind, Kind::EndpointNotFound));
}

#[test]
fn unauthorized_token_expired() {
    let body = "{\"error\":\"token_expired\"}".to_string();
    let error = APIClient::parse_response(401, "401 Unauthorized", "", Ok(body)).unwrap_err();
    assert!(error.detail.is_none());
    assert!(matches!(error.kind, Kind::TokenExpired));
}

#[test]
fn unauthorized() {
    let body = "{\"error\":\"unauthorized\"}".to_string();
    let error = APIClient::parse_response(401, "401 Unauthorized", "", Ok(body)).unwrap_err();
    let msg = "Request lacks valid authentication credentials.\nDetail:\n{\n  \"error\": \"unauthorized\"\n}".to_string();
    assert_eq!(error.detail, Some(msg));
    assert!(matches!(error.kind, Kind::AuthenticationFailed));
}

#[test]
fn any_other_request() {
    let error = APIClient::parse_response(501, "501 Not Implemented", "", Ok(String::new())).unwrap_err();
    assert_eq!(error.detail, Some("Request returned: \'501 Not Implemented\'".to_string()));
    match error.kind {
        Kind::ApiError(code, _) => assert_eq!(code, 501),
        _ => panic!("Wrong kind of error!"),
    };
}

#[test]
fn forbidden() {
    let error = APIClient::parse_response(403, "403 Forbidden", "", Err("unreadable".to_string())).unwrap_err();
    assert!(matches!(error.kind, Kind::ForbiddenRequest));
}

#[test]
fn create_pipeline_payload_defaults_to_master() {
    let (path, payload) = APIClient::create_pipeline_request("o", "p", "pipe", None);
    assert_eq!("orgs/o/projects/p/pipelines", path);
    assert_eq!("{\"name\":\"pipe\",\"base\":\"master\"}", payload);
}

#[test]
fn create_github_project_payload() {
    let (path, payload) = APIClient::create_github_project_request("o", "p", "r", "g", "master", true);
    assert_eq!("orgs/o/github-projects", path);
    assert_eq!(
        "{\"name\":\"p\",\"scm\":{\"type\":\"github\",\"project\":\"r\",\"organization\":\"g\",\"branch\":\"master\",\"verify_ssl\": true}}",
        payload
    );
}

#[test]
fn change_description_not_found() {
    let e = delivery::http::change::get_outcome("org", 404, "404 Not Found", Err(delivery::errors::DeliveryError::throw(Kind::JsonError, None)), Ok(String::new())).unwrap_err();
    assert!(matches!(e.kind, Kind::ChangeNotFound));
    assert!(e.detail.unwrap().contains("Your organization is current set to:\n\norg"));
}

#[test]
fn saml_lookup_without_endpoint_is_disabled() {
    let r = delivery::http::saml::enabled_outcome(404, "404 Not Found", Ok(true), Ok(String::new())).unwrap();
    assert_eq!(false, r);
}

#[test]
fn verify_outcome_reads_expiry() {
    assert_eq!(true, verify_outcome(200, &Err("unread".to_string())).unwrap());
    assert_eq!(false, verify_outcome(401, &Ok("{\"error\":\"token_expired\"}".to_string())).unwrap());
    assert_eq!(true, verify_outcome(401, &Ok("{\"error\":\"denied\"}".to_string())).unwrap());
    let e = verify_outcome(500, &Ok("[\"oops\"]".to_string())).unwrap_err();
    assert_eq!(e.detail.unwrap(), "[\n  \"oops\"\n]");
}

#[test]
fn from_config_test() {
    let tempdir = tempdir::TempDir::new("t1").ok().expect("TempDir failed");
    let token_path = tempdir.path().join("api-tokens");
    let token_file = token_path.to_str().unwrap();
    let mut config = Config::default()
        .set_enterprise("ncc-1701")
        .set_server("earth")
        .set_user("kirk")
        .set_token_file(token_file);
    config.non_interactive = Some(true);

    let mut tstore = TokenStore::from_file(token_file, "");
    let (_, content) = tstore.write_token("earth", "ncc-1701", "kirk", "cafecafe");
    assert_eq!(content, "earth,ncc-1701,kirk|cafecafe\n");

    // The stored token is checked with the server before use; no server
    // answers here, so the check fails and so does the client.
    let unreachable = Err(DeliveryError::throw(Kind::IoError, None));
    let auth = match APIAuth::from_config(&config, unreachable, Ok(tstore)) {
        AuthPlan::Ready(r) => r,
        AuthPlan::RequestToken => panic!("no token should be requested"),
    };
    let client = APIClient::from_config(&config, auth);
    assert!(client.is_err());

    // Instead we use `from_config_no_auth` that doesn't validate the token
    let client_from_store = APIClient::from_config_no_auth(&config).unwrap();
    let url = client_from_store.api_url("foo");
    assert_eq!("https://earth/api/v0/e/ncc-1701/foo", url)
}

#[test]
fn pretty_json_of_reply() {
    assert_eq!(APIClient::extract_pretty_json(&Ok("{\"a\":1}".to_string())).unwrap(), "{\n  \"a\": 1\n}");
    let e = APIClient::extract_pretty_json(&Ok("not json".to_string())).unwrap_err();
    assert!(matches!(e.kind, Kind::JsonParseError));
    assert!(e.detail.unwrap().starts_with("description() is deprecated; use Display: "));
    let e = APIClient::extract_pretty_json(&Err("connection reset".to_string())).unwrap_err();
    assert!(matches!(e.kind, Kind::IoError));
    assert_eq!(e.detail.unwrap(), "connection reset");
    let e = APIClient::parse_response(200, "200 OK", "", Ok("{".to_string())).unwrap_err();
    assert!(matches!(e.kind, Kind::JsonParseError));
}

#[test]
fn scm_server_config_counts_setup_configs() {
    let body = r#"[{"name":"Bitbucket","scmSetupConfigs":[]},{"name":"GitHub","scmSetupConfigs":[{"a":1},{"b":2}]}]"#;
    assert_eq!(APIClient::get_scm_server_config(body, "GitHub").unwrap(), Some(2));
    assert_eq!(APIClient::get_scm_server_config(body, "Bitbucket").unwrap(), Some(0));
    let e = APIClient::get_scm_server_config(body, "Gitlab").unwrap_err();
    assert!(matches!(e.kind, Kind::ExpectedJsonString));
    assert!(e.detail.unwrap().starts_with("Unable to find \"Gitlab\" SCM Config in Delivery Server.\nJSON Output: Array ["));
    assert_eq!(APIClient::get_scm_server_config(r#"[{"scmSetupConfigs":[]}]"#, "GitHub").unwrap(), None);
    assert!(matches!(APIClient::get_scm_server_config("{", "GitHub").unwrap_err().kind, Kind::JsonParseError));
    let providers = vec![None, Some((Some("GitHub".to_string()), Some(3)))];
    assert_eq!(APIClient::scm_server_config(&providers, "[]", "GitHub").unwrap(), 3);
}

#[test]
fn https_in_any_case_is_https() {
    assert_eq!(HProto::from_str("https").unwrap(), HProto::HTTPS);
    assert_eq!(HProto::from_str("HTTP").unwrap(), HProto::HTTP);
    assert!(HProto::from_str("ftp").is_err());
}

#[test]
fn parse_text_round_trip() {
    let title = "A title";
    let desc = "First line.\n\nSecond line.";
    let d = Description::parse_text(&format!("{}\n\n{}\n", title, desc)).unwrap();
    assert_eq!(d.title, title);
    assert_eq!(d.description, desc);
}
