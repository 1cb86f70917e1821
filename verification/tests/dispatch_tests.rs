use aion_server::api_types::{
    BrowserOpenRequest, KeyboardPressRequest, KeyboardTypeRequest, ModeChangeRequest,
    MouseClickRequest, MouseMoveRequest, OperationMode,
};
use aion_server::dispatch::{
    click_mouse, get_status, move_mouse, open_browser, press_key, set_mode, type_text,
    DeviceCommand,
};
use aion_server::key_mapping::{KeyCode, MouseButton};

#[test]
fn test_default_mode_is_assistant() {
    assert_eq!(OperationMode::default(), OperationMode::Assistant);
}

#[test]
fn test_status_payload() {
    let response = get_status(OperationMode::Assistant);
    assert!(response.success);
    assert_eq!(response.message, "AION Server Online");
    let data = response.data.unwrap();
    assert_eq!(data.status, "running");
    assert_eq!(data.port, 8080);
    assert_eq!(data.version, "1.1.0");
    assert_eq!(data.mode, "assistant");

    let response = get_status(OperationMode::Production);
    assert_eq!(response.data.unwrap().mode, "production");
}

#[test]
fn test_set_mode_production() {
    let req = ModeChangeRequest { mode: "production".to_string() };
    let (mode, response) = set_mode(OperationMode::Assistant, &req);
    assert_eq!(mode, OperationMode::Production);
    assert!(response.success);
    assert_eq!(response.message, "Mode changed to: production");
}

#[test]
fn test_set_mode_case_insensitive() {
    let req = ModeChangeRequest { mode: "PrOdUcTiOn".to_string() };
    let (mode, response) = set_mode(OperationMode::Assistant, &req);
    assert_eq!(mode, OperationMode::Production);
    assert!(response.success);

    let req = ModeChangeRequest { mode: "ASSISTANT".to_string() };
    let (mode, _) = set_mode(OperationMode::Production, &req);
    assert_eq!(mode, OperationMode::Assistant);
}

#[test]
fn test_set_mode_invalid_token_keeps_mode() {
    let req = ModeChangeRequest { mode: "turbo".to_string() };
    let (mode, response) = set_mode(OperationMode::Production, &req);
    assert_eq!(mode, OperationMode::Production);
    assert!(!response.success);
    assert_eq!(response.message, "Invalid mode. Use 'assistant' or 'production'");

    let (mode, response) = set_mode(OperationMode::Assistant, &req);
    assert_eq!(mode, OperationMode::Assistant);
    assert!(!response.success);
}

#[test]
fn test_production_move_is_one_direct_call() {
    // Setting mode to production and then moving must perform exactly
    // one device move with no intermediate steps and no delay.
    let req = ModeChangeRequest { mode: "production".to_string() };
    let (mode, _) = set_mode(OperationMode::Assistant, &req);

    let move_req = MouseMoveRequest { x: 500, y: 300 };
    let (commands, response) = move_mouse(mode, Some((0, 0)), &move_req);
    assert_eq!(commands, vec![DeviceCommand::MoveCursor(500, 300)]);
    assert!(response.success);
    assert_eq!(response.message, "Mouse moved to (500, 300)");
}

#[test]
fn test_assistant_move_animates_then_snaps() {
    // In the default assistant mode, a move from (0, 0) to (10, 10)
    // issues 20 intermediate move calls plus one final exact-target call.
    let mode = OperationMode::default();
    let move_req = MouseMoveRequest { x: 10, y: 10 };
    let (commands, response) = move_mouse(mode, Some((0, 0)), &move_req);
    assert_eq!(commands.len(), 41);
    let moves: Vec<&DeviceCommand> = commands
        .iter()
        .filter(|c| matches!(c, DeviceCommand::MoveCursor(_, _)))
        .collect();
    assert_eq!(moves.len(), 21);
    assert_eq!(commands[0], DeviceCommand::MoveCursor(0, 0));
    assert_eq!(commands[1], DeviceCommand::Sleep(10));
    assert_eq!(commands[40], DeviceCommand::MoveCursor(10, 10));
    assert!(response.success);
    assert_eq!(response.message, "Mouse moved to (10, 10)");
}

#[test]
fn test_assistant_move_without_position_is_direct() {
    // When the position read failed, the animation is skipped and only
    // the final direct move is issued.
    let move_req = MouseMoveRequest { x: 7, y: -3 };
    let (commands, response) = move_mouse(OperationMode::Assistant, None, &move_req);
    assert_eq!(commands, vec![DeviceCommand::MoveCursor(7, -3)]);
    assert_eq!(response.message, "Mouse moved to (7, -3)");
}

#[test]
fn test_assistant_move_truncates_toward_zero() {
    let move_req = MouseMoveRequest { x: 10, y: 10 };
    let (commands, _) = move_mouse(OperationMode::Assistant, Some((0, 0)), &move_req);
    // step 1 of 20 toward (10, 10): trunc(10 * 1 / 20) == 0 on each axis
    assert_eq!(commands[2], DeviceCommand::MoveCursor(0, 0));
    // step 19 of 20: trunc(10 * 19 / 20) == 9
    assert_eq!(commands[38], DeviceCommand::MoveCursor(9, 9));
}

#[test]
fn test_click_with_coordinates() {
    let req = MouseClickRequest { x: Some(500), y: Some(300), button: Some("left".to_string()) };
    let (commands, response) = click_mouse(&req);
    assert_eq!(
        commands,
        vec![
            DeviceCommand::MoveCursor(500, 300),
            DeviceCommand::Sleep(50),
            DeviceCommand::ClickButton(MouseButton::Left),
        ]
    );
    assert!(response.success);
    assert_eq!(response.message, "Clicked at (500, 300) with Left button");
}

#[test]
fn test_click_without_coordinates() {
    let req = MouseClickRequest { x: None, y: None, button: Some("RIGHT".to_string()) };
    let (commands, response) = click_mouse(&req);
    assert_eq!(commands, vec![DeviceCommand::ClickButton(MouseButton::Right)]);
    assert_eq!(response.message, "Clicked with Right button");
}

#[test]
fn test_click_unknown_button_defaults_to_left() {
    let req = MouseClickRequest { x: None, y: None, button: Some("button4".to_string()) };
    let (commands, _) = click_mouse(&req);
    assert_eq!(commands, vec![DeviceCommand::ClickButton(MouseButton::Left)]);

    let req = MouseClickRequest { x: None, y: None, button: None };
    let (commands, _) = click_mouse(&req);
    assert_eq!(commands, vec![DeviceCommand::ClickButton(MouseButton::Left)]);

    let req = MouseClickRequest { x: Some(1), y: Some(2), button: Some("MiDdLe".to_string()) };
    let (commands, _) = click_mouse(&req);
    assert_eq!(commands[2], DeviceCommand::ClickButton(MouseButton::Middle));
}

#[test]
fn test_type_text_assistant_per_character() {
    let req = KeyboardTypeRequest { text: "hi".to_string(), interval: Some(25) };
    let (commands, response) = type_text(OperationMode::Assistant, &req);
    assert_eq!(
        commands,
        vec![
            DeviceCommand::InjectChar('h'),
            DeviceCommand::Sleep(25),
            DeviceCommand::InjectChar('i'),
            DeviceCommand::Sleep(25),
        ]
    );
    assert!(response.success);
    assert_eq!(response.message, "Typed: hi");
}

#[test]
fn test_type_text_default_interval() {
    let req = KeyboardTypeRequest { text: "a".to_string(), interval: None };
    let (commands, _) = type_text(OperationMode::Assistant, &req);
    assert_eq!(commands, vec![DeviceCommand::InjectChar('a'), DeviceCommand::Sleep(50)]);
}

#[test]
fn test_type_text_production_single_call() {
    let req = KeyboardTypeRequest { text: "Hello World".to_string(), interval: Some(50) };
    let (commands, response) = type_text(OperationMode::Production, &req);
    assert_eq!(commands, vec![DeviceCommand::InjectText("Hello World".to_string())]);
    assert_eq!(response.message, "Typed: Hello World");
}

#[test]
fn test_type_text_empty_is_noop() {
    let req = KeyboardTypeRequest { text: String::new(), interval: None };
    let (commands, response) = type_text(OperationMode::Assistant, &req);
    assert!(commands.is_empty());
    assert!(response.success);
}

#[test]
fn test_press_key_known() {
    let req = KeyboardPressRequest { key: "Enter".to_string() };
    let (commands, response) = press_key(&req);
    assert_eq!(commands, vec![DeviceCommand::PressKey(KeyCode::Return)]);
    assert!(response.success);
    assert_eq!(response.message, "Pressed key: Enter");
}

#[test]
fn test_press_key_unknown_rejected() {
    let req = KeyboardPressRequest { key: "invalid_key".to_string() };
    let (commands, response) = press_key(&req);
    assert!(commands.is_empty());
    assert!(!response.success);
    assert_eq!(response.message, "Unknown key: invalid_key");
}

#[test]
fn test_press_key_aliases() {
    let (commands, _) = press_key(&KeyboardPressRequest { key: "del".to_string() });
    assert_eq!(commands, vec![DeviceCommand::PressKey(KeyCode::Delete)]);
    let (commands, _) = press_key(&KeyboardPressRequest { key: "DELETE".to_string() });
    assert_eq!(commands, vec![DeviceCommand::PressKey(KeyCode::Delete)]);
    let (commands, _) = press_key(&KeyboardPressRequest { key: "esc".to_string() });
    assert_eq!(commands, vec![DeviceCommand::PressKey(KeyCode::Escape)]);
}

#[test]
fn test_open_browser_always_succeeds() {
    let req = BrowserOpenRequest { url: "https://www.example.com".to_string() };
    let response = open_browser(&req);
    assert!(response.success);
    assert_eq!(response.message, "Browser opened: https://www.example.com");
}

#[test]
fn test_move_message_negative_coordinates() {
    let move_req = MouseMoveRequest { x: -120, y: -2147483648 };
    let (_, response) = move_mouse(OperationMode::Production, None, &move_req);
    assert_eq!(response.message, "Mouse moved to (-120, -2147483648)");
}
