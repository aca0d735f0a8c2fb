use looker::eyes::redis::{redis_client, ClientError};

#[test]
fn missing_redis_url_is_reported() {
    assert!(matches!(redis_client(None), Err(ClientError::UrlMissing)));
}

#[test]
fn redis_url_is_accepted_without_connecting() {
    assert!(redis_client(Some("redis://127.0.0.1:6379/0")).is_ok());
}

#[test]
fn text_that_is_no_url_is_refused() {
    assert!(matches!(redis_client(Some("not a url")), Err(ClientError::UrlInvalid(_))));
}

#[test]
fn url_of_another_scheme_is_refused() {
    assert!(matches!(redis_client(Some("http://cache.local")), Err(ClientError::UrlInvalid(_))));
}

#[test]
fn bad_database_number_is_refused() {
    assert!(matches!(redis_client(Some("redis://cache.local/first")), Err(ClientError::UrlInvalid(_))));
}
