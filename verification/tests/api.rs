use espressia::api::{
    default_pressure, default_temperature, default_time_seconds, ExtractionParams,
};
use espressia::notifier::Client;

fn params(temperature: u64, pressure: u64, time_seconds: u64) -> ExtractionParams {
    ExtractionParams {
        temperature,
        pressure,
        time_seconds,
        coffee_type: None,
        roast_level: None,
        grind_size: None,
    }
}

#[test]
fn test_validate_accepts_in_range() {
    assert!(params(9300, 900, 25).validate().is_ok());
    assert!(params(9000, 800, 20).validate().is_ok());
    assert!(params(9600, 1000, 30).validate().is_ok());
}

#[test]
fn test_validate_rejects_temperature() {
    let err = params(8900, 900, 25).validate().unwrap_err();
    assert_eq!(err.message, "Temperature must be between 90.0 and 96.0");
    assert_eq!(err.status, 400);
}

#[test]
fn test_validate_rejects_pressure() {
    let err = params(9300, 1100, 25).validate().unwrap_err();
    assert_eq!(err.message, "Pressure must be between 8.0 and 10.0");
    assert_eq!(err.status, 400);
}

#[test]
fn test_validate_rejects_time() {
    let err = params(9300, 900, 31).validate().unwrap_err();
    assert_eq!(err.message, "Time must be between 20 and 30 seconds");
    assert_eq!(err.status, 400);
}

#[test]
fn test_validate_reports_first_violation() {
    // Everything out of range: the temperature check decides.
    let err = params(0, 0, 0).validate().unwrap_err();
    assert_eq!(err.message, "Temperature must be between 90.0 and 96.0");
}

#[test]
fn test_request_defaults() {
    assert_eq!(default_temperature(), 9300);
    assert_eq!(default_pressure(), 900);
    assert_eq!(default_time_seconds(), 25);
    // The request-layer defaults pass validation.
    let p = params(
        default_temperature(),
        default_pressure(),
        default_time_seconds(),
    );
    assert!(p.validate().is_ok());
}

#[test]
fn test_client_stub() {
    let client = Client::new();
    let _ = client.post("https://example.invalid/webhook");
}
