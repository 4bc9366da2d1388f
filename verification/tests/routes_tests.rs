use session_auth::routes::{path, API_PREFIX};

#[test]
fn path_puts_the_prefix_before_the_endpoint() {
    assert_eq!(path("/healthcheck"), "/api/v1/healthcheck");
    assert_eq!(path("/auth/login"), "/api/v1/auth/login");
    assert_eq!(path("/auth/logout"), "/api/v1/auth/logout");
}

#[test]
fn path_of_nothing_is_the_prefix() {
    assert_eq!(path(""), API_PREFIX);
    assert_eq!(API_PREFIX, "/api/v1");
}

#[test]
fn path_does_not_normalise() {
    assert_eq!(path("auth"), "/api/v1auth");
    assert_eq!(path("//x"), "/api/v1//x");
}
