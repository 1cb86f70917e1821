use aion_server::api_types::{ApiResponse, OperationMode};
use aion_server::key_mapping::{is_valid_key, parse_mouse_button};
use aion_server::mouse_algorithms::{calculate_smooth_movement, validate_coordinates};

#[test]
fn test_api_response_success() {
    let response: ApiResponse<String> = ApiResponse::success("Test message", Some("data".to_string()));
    assert!(response.success);
    assert_eq!(response.message, "Test message");
    assert_eq!(response.data, Some("data".to_string()));
    assert!(response.timestamp > 0);
}

#[test]
fn test_api_response_success_no_data() {
    let response: ApiResponse<()> = ApiResponse::success("Test", None);
    assert!(response.success);
    assert_eq!(response.message, "Test");
    assert_eq!(response.data, None);
}

#[test]
fn test_api_response_error() {
    let response: ApiResponse<()> = ApiResponse::error("Error message");
    assert!(!response.success);
    assert_eq!(response.message, "Error message");
    assert_eq!(response.data, None);
    assert!(response.timestamp > 0);
}

#[test]
fn test_smooth_movement_calculation() {
    let movements = calculate_smooth_movement(0, 0, 100, 100, 10);
    assert_eq!(movements.len(), 10);
    assert_eq!(movements[0], (0, 0));
    assert_eq!(movements[9], (90, 90));
}

#[test]
fn test_smooth_movement_negative_direction() {
    let movements = calculate_smooth_movement(100, 100, 0, 0, 5);
    assert_eq!(movements.len(), 5);
    assert_eq!(movements[0], (100, 100));
    assert!(movements[4].0 < movements[0].0);
    assert!(movements[4].1 < movements[0].1);
}

#[test]
fn test_smooth_movement_single_step() {
    let movements = calculate_smooth_movement(50, 50, 100, 100, 1);
    assert_eq!(movements.len(), 1);
    assert_eq!(movements[0], (50, 50));
}

#[test]
fn test_validate_coordinates_valid() {
    assert!(validate_coordinates(500, 300, 1920, 1080));
    assert!(validate_coordinates(0, 0, 1920, 1080));
    assert!(validate_coordinates(1920, 1080, 1920, 1080));
}

#[test]
fn test_validate_coordinates_invalid() {
    assert!(!validate_coordinates(-10, 300, 1920, 1080));
    assert!(!validate_coordinates(500, -10, 1920, 1080));
    assert!(!validate_coordinates(2000, 300, 1920, 1080));
    assert!(!validate_coordinates(500, 1200, 1920, 1080));
}

#[test]
fn test_valid_keys() {
    assert!(is_valid_key("enter"));
    assert!(is_valid_key("return"));
    assert!(is_valid_key("tab"));
    assert!(is_valid_key("escape"));
    assert!(is_valid_key("esc"));
    assert!(is_valid_key("space"));
    assert!(is_valid_key("backspace"));
    assert!(is_valid_key("delete"));
    assert!(is_valid_key("del"));
    assert!(is_valid_key("up"));
    assert!(is_valid_key("down"));
    assert!(is_valid_key("left"));
    assert!(is_valid_key("right"));
    assert!(is_valid_key("home"));
    assert!(is_valid_key("end"));
    assert!(is_valid_key("pageup"));
    assert!(is_valid_key("pagedown"));
}

#[test]
fn test_valid_keys_case_insensitive() {
    assert!(is_valid_key("ENTER"));
    assert!(is_valid_key("Enter"));
    assert!(is_valid_key("TAB"));
    assert!(is_valid_key("EsCaPe"));
}

#[test]
fn test_invalid_keys() {
    assert!(!is_valid_key("f1"));
    assert!(!is_valid_key("ctrl"));
    assert!(!is_valid_key("alt"));
    assert!(!is_valid_key("invalid"));
    assert!(!is_valid_key(""));
}

#[test]
fn test_parse_mouse_button_valid() {
    assert_eq!(parse_mouse_button("left"), Some("left"));
    assert_eq!(parse_mouse_button("right"), Some("right"));
    assert_eq!(parse_mouse_button("middle"), Some("middle"));
}

#[test]
fn test_parse_mouse_button_case_insensitive() {
    assert_eq!(parse_mouse_button("LEFT"), Some("left"));
    assert_eq!(parse_mouse_button("Right"), Some("right"));
    assert_eq!(parse_mouse_button("MIDDLE"), Some("middle"));
}

#[test]
fn test_parse_mouse_button_invalid() {
    assert_eq!(parse_mouse_button("invalid"), None);
    assert_eq!(parse_mouse_button(""), None);
    assert_eq!(parse_mouse_button("button4"), None);
}

#[test]
fn test_operation_mode_equality() {
    assert_eq!(OperationMode::Assistant, OperationMode::Assistant);
    assert_eq!(OperationMode::Production, OperationMode::Production);
    assert_ne!(OperationMode::Assistant, OperationMode::Production);
}

#[test]
fn test_operation_mode_clone() {
    let mode = OperationMode::Assistant;
    let cloned = mode;
    assert_eq!(mode, cloned);
}
