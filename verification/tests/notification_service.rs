use rate_limited_notification_service::NotificationService;

const MINUTE: u64 = 60_000;
const SECOND: u64 = 1_000;

#[test]
fn test_notification_service_creation() {
    let service = NotificationService::new();
    assert!(service.is_empty());
}

#[test]
fn test_send_notification_within_rate_limit() {
    let mut service = NotificationService::new();

    // Three notifications of a type that has no limit.
    for _ in 0..3 {
        let result = service.decide("test_type", "test_recipient", 0);
        assert!(result.is_ok());
    }
}

#[test]
fn test_send_notification_exceeds_rate_limit() {
    let mut service = NotificationService::new();

    // Two per minute for "test_type".
    service.set_rate_limit("test_type", NotificationService::create_rate_limit(2, MINUTE));

    for _ in 0..2 {
        let success_result = service.decide("test_type", "test_recipient", 0);
        assert_eq!(success_result, Ok(()));
    }

    let exceed_limit_result = service.decide("test_type", "test_recipient", 0);
    assert!(exceed_limit_result.is_err());
}

#[test]
fn test_send_notification_after_rate_limit_duration() {
    let mut service = NotificationService::new();

    // One per second for "test_type".
    service.set_rate_limit("test_type", NotificationService::create_rate_limit(1, SECOND));

    let success_result = service.decide("test_type", "test_recipient", 0);
    assert_eq!(success_result, Ok(()));

    let exceed_limit_result = service.decide("test_type", "test_recipient", 0);
    assert!(exceed_limit_result.is_err());

    // A clock read after a wait of one second shows a little more than that.
    let result_after_elapsed_time = service.decide("test_type", "test_recipient", SECOND + 1);
    assert_eq!(result_after_elapsed_time, Ok(()));
}
