use healthd::health::HealthStatus;
use healthd::health::health_check;
use healthd::health::health_check_db;

#[test]
fn health_check_works() {
    let status_code = health_check();
    assert_eq!(status_code, HealthStatus::Success);
    assert_eq!(status_code.code(), 200);
}

#[test]
fn health_check_db_works() {
    let status_code = health_check_db(Ok(()));
    assert_eq!(status_code, HealthStatus::Success);
    assert_eq!(status_code.code(), 200);
}

#[test]
fn health_check_db_reports_query_failure() {
    let status_code = health_check_db(Err(sqlx::Error::RowNotFound));
    assert_eq!(status_code, HealthStatus::ServerError);
    assert_eq!(status_code.code(), 500);
}

#[test]
fn health_check_db_reports_pool_failure() {
    let status_code = health_check_db(Err(sqlx::Error::PoolClosed));
    assert_eq!(status_code, HealthStatus::ServerError);
}

#[test]
fn health_check_is_idempotent() {
    for _ in 0..100 {
        assert_eq!(health_check(), HealthStatus::Success);
    }
}

#[test]
fn status_codes_are_exact() {
    assert_eq!(HealthStatus::Success.code(), 200);
    assert_eq!(HealthStatus::ServerError.code(), 500);
    assert!(HealthStatus::Success.is_success());
    assert!(!HealthStatus::ServerError.is_success());
}
