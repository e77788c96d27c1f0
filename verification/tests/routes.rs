use healthd::routes::Endpoint;
use healthd::routes::route_for;
use healthd::routes::route_path;

#[test]
fn route_path_inverts_the_route_table() {
    assert_eq!(route_path(Endpoint::Health), "/health");
    assert_eq!(route_path(Endpoint::HealthDb), "/health/db");
    assert_eq!(route_for(route_path(Endpoint::Health)), Some(Endpoint::Health));
    assert_eq!(route_for(route_path(Endpoint::HealthDb)), Some(Endpoint::HealthDb));
}

#[test]
fn route_for_health() {
    assert_eq!(route_for("/health"), Some(Endpoint::Health));
}

#[test]
fn route_for_health_db() {
    assert_eq!(route_for("/health/db"), Some(Endpoint::HealthDb));
}

#[test]
fn route_for_unknown_paths() {
    assert_eq!(route_for(""), None);
    assert_eq!(route_for("/"), None);
    assert_eq!(route_for("/healthz"), None);
    assert_eq!(route_for("/health/"), None);
    assert_eq!(route_for("/health/db/"), None);
    assert_eq!(route_for("health"), None);
}
