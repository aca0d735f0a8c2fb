use looker::axe::contexter::location_endpoint;
use looker::axe::requester::{forward_endpoint, BRAN_DEFAULT};
use looker::axe::urls::EndpointError;

#[test]
fn context_endpoint_joins_app_path() {
    assert_eq!(
        location_endpoint(Some("http://bran:8014"), "campus"),
        Ok("http://bran:8014/apps/campus".to_string())
    );
}

#[test]
fn context_endpoint_keeps_base_directory() {
    assert_eq!(
        location_endpoint(Some("http://registry.local/api/"), "campus"),
        Ok("http://registry.local/api/apps/campus".to_string())
    );
}

#[test]
fn context_endpoint_needs_a_base_url() {
    assert_eq!(location_endpoint(None, "campus"), Err(EndpointError::BaseUrlMissing));
}

#[test]
fn context_endpoint_needs_a_valid_base_url() {
    assert_eq!(
        location_endpoint(Some("not a url"), "campus"),
        Err(EndpointError::BaseUrlInvalid)
    );
}

#[test]
fn forward_endpoint_uses_absolute_path() {
    assert_eq!(
        forward_endpoint(Some("http://registry.local/api/"), "campus"),
        Ok("http://registry.local/apps/campus".to_string())
    );
}

#[test]
fn forward_endpoint_falls_back_to_default() {
    assert_eq!(BRAN_DEFAULT, "http://bran:8014");
    assert_eq!(
        forward_endpoint(None, "campus"),
        Ok("http://bran:8014/apps/campus".to_string())
    );
}

#[test]
fn forward_endpoint_falls_back_on_invalid_base() {
    assert_eq!(
        forward_endpoint(Some("::"), "campus"),
        Ok("http://bran:8014/apps/campus".to_string())
    );
}

#[test]
fn forward_endpoint_encodes_app_name() {
    assert_eq!(
        forward_endpoint(None, "a b:c"),
        Ok("http://bran:8014/apps/a%20b:c".to_string())
    );
}

#[test]
fn context_endpoint_needs_a_base_that_takes_paths() {
    assert_eq!(
        location_endpoint(Some("mailto:ops@campus.edu"), "campus"),
        Err(EndpointError::PathInvalid)
    );
}

#[test]
fn forward_endpoint_needs_a_base_that_takes_paths() {
    assert_eq!(
        forward_endpoint(Some("mailto:ops@campus.edu"), "campus"),
        Err(EndpointError::PathInvalid)
    );
}
