use microservice::adapters::{getGrpcStatusCode, verify_email_answer, AuthenticationServiceImpl, StatusCode};
use microservice::config::{binding_address, getEnv, Config};
use microservice::domain::Usecases;

static USECASES: Usecases = Usecases {};

#[test]
fn server_error_message_is_internal() {
    assert_eq!(getGrpcStatusCode("Server error occurred"), StatusCode::Internal);
    assert_eq!(getGrpcStatusCode("Email is invalid"), StatusCode::InvalidArgument);
    assert_eq!(getGrpcStatusCode("Server error occurred "), StatusCode::InvalidArgument);
    assert_eq!(getGrpcStatusCode(""), StatusCode::InvalidArgument);
}

#[test]
fn valid_registration_is_answered_with_success() {
    let service = AuthenticationServiceImpl::new(&USECASES);
    assert!(service.start_registration("jane@example.com", "jane_doe", "secret123").is_ok());
}

#[test]
fn refused_registration_is_an_invalid_argument() {
    let service = AuthenticationServiceImpl::new(&USECASES);
    let status = service.start_registration("jane@example.com", "jane-doe", "secret123").unwrap_err();
    assert_eq!(status.code, StatusCode::InvalidArgument);
    assert_eq!(
        status.message,
        "Only English alphabets, numbers and underscores are allowed in the username"
    );
    let status = service.start_registration("x", "y", "z").unwrap_err();
    assert_eq!(status.code, StatusCode::InvalidArgument);
    assert_eq!(status.message.split(" | ").count(), 3);
}

#[test]
fn env_values_are_passed_through() {
    assert_eq!(getEnv("GRPC_PORT", Some("4000".to_string())), Ok("4000".to_string()));
    assert_eq!(getEnv("GRPC_PORT", None), Err("Error getting env GRPC_PORT".to_string()));
}

#[test]
fn config_is_built_from_all_values() {
    let config = Config::init(
        Some("4000".to_string()),
        Some("./tls".to_string()),
        Some("http://localhost:14268".to_string()),
        Some("9000".to_string()),
    )
    .ok()
    .unwrap();
    assert_eq!(config.GRPC_PORT, "4000");
    assert_eq!(config.TLS_DIR, "./tls");
    assert_eq!(config.JAEGER_COLLECTOR_URL, "http://localhost:14268");
    assert_eq!(config.METRICS_SERVER_PORT, "9000");
}

#[test]
fn first_missing_value_is_reported() {
    let missing = |a: bool, b: bool, c: bool, d: bool| {
        let v = |present: bool| if present { Some("x".to_string()) } else { None };
        match Config::init(v(a), v(b), v(c), v(d)) {
            Ok(_) => String::new(),
            Err(message) => message,
        }
    };
    assert_eq!(missing(false, false, true, true), "Error getting env GRPC_PORT");
    assert_eq!(missing(true, false, false, true), "Error getting env TLS_DIR");
    assert_eq!(missing(true, true, false, false), "Error getting env JAEGER_COLLECTOR_URL");
    assert_eq!(missing(true, true, true, false), "Error getting env METRICS_SERVER_PORT");
}

#[test]
fn verify_email_errors_are_internal() {
    assert_eq!(verify_email_answer::<u32>(Ok(7)).ok(), Some(7));
    let status = verify_email_answer::<u32>(Err("token expired".to_string())).err().unwrap();
    assert_eq!(status.code, StatusCode::Internal);
    assert_eq!(status.message, "Server error occurred");
}

#[test]
fn binding_address_covers_every_interface() {
    assert_eq!(binding_address("50051"), "[::]:50051");
}
