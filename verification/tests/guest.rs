use space_game_client::guest::{
    configured_endpoint, validate_endpoint, validate_response, EndpointUrl, HostKind,
};

#[test]
fn https_endpoints_are_accepted() {
    let url = validate_endpoint("https://play.example.com/connect", false).unwrap();
    assert_eq!(url.serialized, "https://play.example.com/connect");
    assert_eq!(url.scheme, "https");
    assert!(matches!(url.host, HostKind::Domain(ref d) if d == "play.example.com"));
}

#[test]
fn loopback_http_needs_the_development_switch() {
    assert!(validate_endpoint("http://127.0.0.1:5001/connect", true).is_ok());
    assert!(validate_endpoint("http://localhost:5001/connect", true).is_ok());
    assert!(validate_endpoint("http://[::1]:5001/connect", true).is_ok());
    let refusal = "Guest endpoint requires HTTPS (HTTP loopback is development-only)";
    assert_eq!(validate_endpoint("http://127.0.0.1:5001/connect", false).err().unwrap(), refusal);
    assert_eq!(validate_endpoint("http://example.com/connect", true).err().unwrap(), refusal);
    assert_eq!(validate_endpoint("http://128.0.0.1/connect", true).err().unwrap(), refusal);
}

#[test]
fn credentials_and_fragments_are_refused() {
    let refusal = "Guest endpoint requires HTTPS (HTTP loopback is development-only)";
    assert_eq!(validate_endpoint("https://user@example.com/connect", false).err().unwrap(), refusal);
    assert_eq!(validate_endpoint("https://:secret@example.com/connect", false).err().unwrap(), refusal);
    assert_eq!(validate_endpoint("https://example.com/connect#x", false).err().unwrap(), refusal);
    assert_eq!(validate_endpoint("ftp://example.com/connect", true).err().unwrap(), refusal);
}

#[test]
fn unparsable_endpoints_report_the_parser() {
    assert_eq!(
        validate_endpoint("not a url", false).err().unwrap(),
        "Invalid guest endpoint URL: relative URL without a base"
    );
}

fn endpoint(text: &str) -> EndpointUrl {
    validate_endpoint(text, true).unwrap()
}

#[test]
fn runtime_endpoint_wins() {
    let chosen = configured_endpoint(
        Ok(Some(endpoint("https://a.example/connect"))),
        Ok(Some(endpoint("https://b.example/connect"))),
        Err("none".to_owned()),
    );
    assert_eq!(chosen.unwrap().serialized, "https://a.example/connect");
    let chosen = configured_endpoint(
        Ok(None),
        Ok(Some(endpoint("https://b.example/connect"))),
        Err("none".to_owned()),
    );
    assert_eq!(chosen.unwrap().serialized, "https://b.example/connect");
    let chosen = configured_endpoint(Ok(None), Ok(None), Err("none".to_owned()));
    assert_eq!(chosen.err().unwrap(), "none");
    let chosen = configured_endpoint(
        Err("bad".to_owned()),
        Ok(Some(endpoint("https://b.example/connect"))),
        Ok(endpoint("https://c.example/connect")),
    );
    assert_eq!(chosen.err().unwrap(), "bad");
}

#[test]
fn responses_are_checked() {
    let url = "https://play.example.com/connect";
    assert!(validate_response(url, url, 200, 300).is_ok());
    assert_eq!(
        validate_response("http://play.example.com/connect", url, 200, 300).err().unwrap(),
        "Guest endpoint redirected; connection refused"
    );
    assert_eq!(
        validate_response(url, url, 404, 300).err().unwrap(),
        "Guest endpoint returned HTTP 404"
    );
    assert!(validate_response(url, url, 200, 8192).is_ok());
    assert_eq!(
        validate_response(url, url, 200, 8193).err().unwrap(),
        "Guest response is too large"
    );
}
