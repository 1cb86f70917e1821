//! The per-action dispatch logic.
//!
//! Each handler turns a request body plus the relevant shared state
//! (the current operation mode, and for moves the cursor position read
//! from the device) into the exact ordered sequence of input-device
//! commands to perform and the response envelope to send back.  The
//! caller executes the commands against the real device while holding
//! the device lock for the whole sequence, so concurrent actions never
//! interleave their steps; device failures are ignored by design and
//! never change a response.

use vstd::prelude::*;
use vstd::string::*;

use crate::api_types::{
    ApiResponse, BrowserOpenRequest, KeyboardPressRequest, KeyboardTypeRequest, ModeChangeRequest,
    MouseClickRequest, MouseMoveRequest, OperationMode, StatusData,
};
use crate::api_types::{mode_label, mode_from_token, spec_mode_label, spec_mode_of};
use crate::key_mapping::{
    key_from_token, resolve_button, spec_button_or_left, spec_key_of, KeyCode, MouseButton,
};
use crate::mouse_algorithms::{
    calculate_smooth_movement, lemma_plan_coord_in_range, plan_coord,
};
use crate::text::{fold_lower, i32_to_string, int_rep};

verus! {

/// Number of interpolated steps of an animated cursor move.
pub const SMOOTH_MOVE_STEPS: usize = 20;

/// Delay between the steps of an animated cursor move, in milliseconds.
pub const SMOOTH_MOVE_DELAY_MS: u64 = 10;

/// Delay between a click's preparatory move and the click itself, in
/// milliseconds.
pub const CLICK_SETTLE_DELAY_MS: u64 = 50;

/// Default delay between typed characters, in milliseconds.
pub const DEFAULT_TYPE_INTERVAL_MS: u64 = 50;

/// One primitive operation against the input device.  A handler answers
/// a request with the ordered sequence of these that the caller must
/// perform.
#[derive(Debug, PartialEq)]
pub enum DeviceCommand {
    /// Move the cursor to the absolute position (x, y).
    MoveCursor(i32, i32),
    /// Block for the given number of milliseconds.
    Sleep(u64),
    /// Click a mouse button.
    ClickButton(MouseButton),
    /// Inject a single character.
    InjectChar(char),
    /// Inject a whole string in one call.
    InjectText(String),
    /// Press and release a key.
    PressKey(KeyCode),
}

/// Answer the status request: a success envelope whose payload names
/// the fixed port and version and the currently active mode.
pub fn get_status(mode: OperationMode) -> (r: ApiResponse<StatusData>)
    ensures
        r.success,
        r.message@ == "AION Server Online"@,
        r.data matches Some(d) && d.status@ == "running"@ && d.port == 8080 && d.version@
            == "1.1.0"@ && d.mode@ == spec_mode_label(mode),
{
    let data = StatusData {
        status: "running".to_owned(),
        port: 8080,
        version: "1.1.0".to_owned(),
        mode: mode_label(mode).to_owned(),
    };
    ApiResponse::success("AION Server Online", Some(data))
}

/// Answer a mode change request.  A recognized token, case-insensitively
/// "assistant" or "production", becomes the new mode; any other token
/// leaves the previous mode in force and yields a failure envelope.
pub fn set_mode(current: OperationMode, req: &ModeChangeRequest) -> (r: (
    OperationMode,
    ApiResponse<()>,
))
    ensures
        spec_mode_of(fold_lower(req.mode@)) matches Some(m) ==> r.0 == m && r.1.success
            && r.1.message@ == "Mode changed to: "@ + req.mode@,
        spec_mode_of(fold_lower(req.mode@)) is None ==> r.0 == current && !r.1.success
            && r.1.message@ == "Invalid mode. Use 'assistant' or 'production'"@,
{
    match mode_from_token(req.mode.as_str()) {
        Some(new_mode) => {
            let msg = "Mode changed to: ".to_owned().concat(req.mode.as_str());
            let resp = ApiResponse::<()>::success(msg.as_str(), None);
            (new_mode, resp)
        },
        None => {
            let resp = ApiResponse::<()>::error("Invalid mode. Use 'assistant' or 'production'");
            (current, resp)
        },
    }
}

/// Answer a browser open request.  The spawn itself is fire-and-forget
/// and performed by the caller; the action is reported as succeeded
/// regardless of the spawn's outcome.
pub fn open_browser(req: &BrowserOpenRequest) -> (r: ApiResponse<()>)
    ensures
        r.success,
        r.message@ == "Browser opened: "@ + req.url@,
{
    let msg = "Browser opened: ".to_owned().concat(req.url.as_str());
    ApiResponse::success(msg.as_str(), None)
}

/// The display name of a button, as the click acknowledgement prints
/// it.
pub open spec fn spec_button_label(b: MouseButton) -> Seq<char> {
    match b {
        MouseButton::Left => "Left"@,
        MouseButton::Right => "Right"@,
        MouseButton::Middle => "Middle"@,
    }
}

/// Exec form of `spec_button_label`.
fn button_label(b: MouseButton) -> (r: &'static str)
    ensures
        r@ == spec_button_label(b),
{
    match b {
        MouseButton::Left => "Left",
        MouseButton::Right => "Right",
        MouseButton::Middle => "Middle",
    }
}

/// The button a click request resolves to: its token's button when the
/// token is recognized, case-insensitively, and the left button when
/// the token is unknown or absent.
pub open spec fn spec_click_button(button: Option<String>) -> MouseButton {
    match button {
        Some(s) => spec_button_or_left(fold_lower(s@)),
        None => MouseButton::Left,
    }
}

/// The command sequence of a click: when both coordinates are present
/// the cursor first moves there directly (never animated, whatever the
/// mode) and settles, then the button is clicked; otherwise the click
/// happens in place.
pub open spec fn spec_click_commands(x: Option<i32>, y: Option<i32>, b: MouseButton) -> Seq<
    DeviceCommand,
> {
    match (x, y) {
        (Some(xv), Some(yv)) => seq![
            DeviceCommand::MoveCursor(xv, yv),
            DeviceCommand::Sleep(CLICK_SETTLE_DELAY_MS),
            DeviceCommand::ClickButton(b),
        ],
        _ => seq![DeviceCommand::ClickButton(b)],
    }
}

/// Answer a mouse click request.  The mode has no effect on clicks.
pub fn click_mouse(req: &MouseClickRequest) -> (r: (Vec<DeviceCommand>, ApiResponse<()>))
    ensures
        r.0@ == spec_click_commands(req.x, req.y, spec_click_button(req.button)),
        r.1.success,
        req.x is Some && req.y is Some ==> r.1.message@ == "Clicked at ("@ + int_rep(
            req.x->0 as int,
        ) + ", "@ + int_rep(req.y->0 as int) + ") with "@ + spec_button_label(
            spec_click_button(req.button),
        ) + " button"@,
        !(req.x is Some && req.y is Some) ==> r.1.message@ == "Clicked with "@
            + spec_button_label(spec_click_button(req.button)) + " button"@,
{
    let button = match &req.button {
        Some(s) => resolve_button(Some(s.as_str())),
        None => resolve_button(None),
    };
    let mut cmds: Vec<DeviceCommand> = Vec::new();
    let msg: String;
    match (req.x, req.y) {
        (Some(xv), Some(yv)) => {
            cmds.push(DeviceCommand::MoveCursor(xv, yv));
            cmds.push(DeviceCommand::Sleep(CLICK_SETTLE_DELAY_MS));
            cmds.push(DeviceCommand::ClickButton(button));
            proof {
                assert(cmds@ =~= spec_click_commands(req.x, req.y, button));
            }
            msg = "Clicked at (".to_owned().concat(i32_to_string(xv).as_str()).concat(
                ", ",
            ).concat(i32_to_string(yv).as_str()).concat(") with ").concat(button_label(button))
                .concat(" button");
        },
        _ => {
            cmds.push(DeviceCommand::ClickButton(button));
            proof {
                assert(cmds@ =~= spec_click_commands(req.x, req.y, button));
            }
            msg = "Clicked with ".to_owned().concat(button_label(button)).concat(" button");
        },
    }
    let resp = ApiResponse::<()>::success(msg.as_str(), None);
    (cmds, resp)
}

/// The interval between typed characters: the requested one, or the
/// default when the request names none.
pub open spec fn spec_type_interval(interval: Option<u64>) -> u64 {
    match interval {
        Some(v) => v,
        None => DEFAULT_TYPE_INTERVAL_MS,
    }
}

/// The device command at position `k` of an animated typing sequence:
/// even positions inject one character of the text, odd positions hold
/// the inter-character delay.
pub open spec fn spec_type_step(text: Seq<char>, interval: u64, k: int) -> DeviceCommand {
    if k % 2 == 0 {
        DeviceCommand::InjectChar(text[k / 2])
    } else {
        DeviceCommand::Sleep(interval)
    }
}

/// The device command at position `k` of an animated move from the
/// current position `p` toward the target (x, y): even positions up to
/// the last apply the interpolated plan points, odd positions hold the
/// inter-step delay, and the final position is the direct move that
/// lands exactly on the target whatever the interpolation rounding did.
pub open spec fn spec_move_step(p: (i32, i32), x: i32, y: i32, k: int) -> DeviceCommand {
    if k == 2 * (SMOOTH_MOVE_STEPS as int) {
        DeviceCommand::MoveCursor(x, y)
    } else if k % 2 == 0 {
        DeviceCommand::MoveCursor(
            plan_coord(p.0 as int, x as int, k / 2, SMOOTH_MOVE_STEPS as int) as i32,
            plan_coord(p.1 as int, y as int, k / 2, SMOOTH_MOVE_STEPS as int) as i32,
        )
    } else {
        DeviceCommand::Sleep(SMOOTH_MOVE_DELAY_MS)
    }
}

/// Answer a cursor move request.  In assistant mode with a readable
/// cursor position the move is animated: every interpolated step is
/// applied with the inter-step delay after it, then one final direct
/// move guarantees the cursor ends exactly at the target.  In
/// production mode, or when the position read failed (a failure that is
/// swallowed by design), the move is a single direct command.
pub fn move_mouse(mode: OperationMode, current: Option<(i32, i32)>, req: &MouseMoveRequest) -> (r:
    (Vec<DeviceCommand>, ApiResponse<()>))
    ensures
        match (mode, current) {
            (OperationMode::Assistant, Some(p)) => r.0@.len() == 2 * SMOOTH_MOVE_STEPS + 1
                && forall|k: int|
                0 <= k < r.0@.len() ==> #[trigger] r.0@[k] == spec_move_step(p, req.x, req.y, k),
            _ => r.0@ == seq![DeviceCommand::MoveCursor(req.x, req.y)],
        },
        r.1.success,
        r.1.message@ == "Mouse moved to ("@ + int_rep(req.x as int) + ", "@ + int_rep(
            req.y as int,
        ) + ")"@,
{
    let mut cmds: Vec<DeviceCommand> = Vec::new();
    match (mode, current) {
        (OperationMode::Assistant, Some(p)) => {
            let points = calculate_smooth_movement(p.0, p.1, req.x, req.y, SMOOTH_MOVE_STEPS);
            let mut i: usize = 0;
            while i < SMOOTH_MOVE_STEPS
                invariant
                    points@.len() == SMOOTH_MOVE_STEPS,
                    forall|j: int|
                        0 <= j < SMOOTH_MOVE_STEPS ==> (#[trigger] points@[j]).0 as int
                            == plan_coord(
                            p.0 as int,
                            req.x as int,
                            j,
                            SMOOTH_MOVE_STEPS as int,
                        ),
                    forall|j: int|
                        0 <= j < SMOOTH_MOVE_STEPS ==> (#[trigger] points@[j]).1 as int
                            == plan_coord(
                            p.1 as int,
                            req.y as int,
                            j,
                            SMOOTH_MOVE_STEPS as int,
                        ),
                    i <= SMOOTH_MOVE_STEPS,
                    cmds@.len() == 2 * i,
                    forall|k: int|
                        0 <= k < 2 * i ==> #[trigger] cmds@[k] == spec_move_step(
                            p,
                            req.x,
                            req.y,
                            k,
                        ),
                decreases SMOOTH_MOVE_STEPS - i,
            {
                let pt = points[i];
                cmds.push(DeviceCommand::MoveCursor(pt.0, pt.1));
                cmds.push(DeviceCommand::Sleep(SMOOTH_MOVE_DELAY_MS));
                proof {
                    assert((2 * i as int) % 2 == 0 && (2 * i as int) / 2 == i as int);
                    lemma_plan_coord_in_range(
                        p.0 as int,
                        req.x as int,
                        i as int,
                        SMOOTH_MOVE_STEPS as int,
                    );
                    lemma_plan_coord_in_range(
                        p.1 as int,
                        req.y as int,
                        i as int,
                        SMOOTH_MOVE_STEPS as int,
                    );
                }
                i = i + 1;
            }
            cmds.push(DeviceCommand::MoveCursor(req.x, req.y));
        },
        _ => {
            cmds.push(DeviceCommand::MoveCursor(req.x, req.y));
            proof {
                assert(cmds@ =~= seq![DeviceCommand::MoveCursor(req.x, req.y)]);
            }
        },
    }
    let msg = "Mouse moved to (".to_owned().concat(i32_to_string(req.x).as_str()).concat(
        ", ",
    ).concat(i32_to_string(req.y).as_str()).concat(")");
    let resp = ApiResponse::<()>::success(msg.as_str(), None);
    (cmds, resp)
}

/// Answer a typing request.  In assistant mode every character is
/// injected on its own with the inter-character delay after it; in
/// production mode the whole text is injected in one call with no
/// delay.  Empty text is a valid no-op.
pub fn type_text(mode: OperationMode, req: &KeyboardTypeRequest) -> (r: (
    Vec<DeviceCommand>,
    ApiResponse<()>,
))
    ensures
        mode == OperationMode::Assistant ==> r.0@.len() == 2 * req.text@.len(),
        mode == OperationMode::Assistant ==> forall|k: int|
            0 <= k < r.0@.len() ==> #[trigger] r.0@[k] == spec_type_step(
                req.text@,
                spec_type_interval(req.interval),
                k,
            ),
        mode == OperationMode::Production ==> r.0@.len() == 1 && (r.0@[0] matches
            DeviceCommand::InjectText(t) && t@ == req.text@),
        r.1.success,
        r.1.message@ == "Typed: "@ + req.text@,
{
    let interval = match req.interval {
        Some(v) => v,
        None => DEFAULT_TYPE_INTERVAL_MS,
    };
    let mut cmds: Vec<DeviceCommand> = Vec::new();
    match mode {
        OperationMode::Assistant => {
            let text = req.text.as_str();
            let n = text.unicode_len();
            let mut i: usize = 0;
            while i < n
                invariant
                    n == text@.len(),
                    text@ == req.text@,
                    i <= n,
                    cmds@.len() == 2 * i,
                    forall|k: int|
                        0 <= k < 2 * i ==> #[trigger] cmds@[k] == spec_type_step(
                            text@,
                            interval,
                            k,
                        ),
                decreases n - i,
            {
                let c = text.get_char(i);
                cmds.push(DeviceCommand::InjectChar(c));
                cmds.push(DeviceCommand::Sleep(interval));
                proof {
                    assert((2 * i as int) % 2 == 0 && (2 * i as int) / 2 == i as int);
                }
                i = i + 1;
            }
        },
        OperationMode::Production => {
            cmds.push(DeviceCommand::InjectText(req.text.clone()));
        },
    }
    let msg = "Typed: ".to_owned().concat(req.text.as_str());
    let resp = ApiResponse::<()>::success(msg.as_str(), None);
    (cmds, resp)
}

/// Answer a key press request.  A token naming a supported key yields
/// exactly one press-and-release command; an unknown token is rejected
/// with no device command at all.  The mode has no effect on presses.
pub fn press_key(req: &KeyboardPressRequest) -> (r: (Vec<DeviceCommand>, ApiResponse<()>))
    ensures
        spec_key_of(fold_lower(req.key@)) matches Some(k) ==> r.0@ == seq![
            DeviceCommand::PressKey(k),
        ] && r.1.success && r.1.message@ == "Pressed key: "@ + req.key@,
        spec_key_of(fold_lower(req.key@)) is None ==> r.0@.len() == 0 && !r.1.success
            && r.1.message@ == "Unknown key: "@ + req.key@,
{
    match key_from_token(req.key.as_str()) {
        Some(k) => {
            let mut cmds: Vec<DeviceCommand> = Vec::new();
            cmds.push(DeviceCommand::PressKey(k));
            proof {
                assert(cmds@ =~= seq![DeviceCommand::PressKey(k)]);
            }
            let msg = "Pressed key: ".to_owned().concat(req.key.as_str());
            let resp = ApiResponse::<()>::success(msg.as_str(), None);
            (cmds, resp)
        },
        None => {
            let msg = "Unknown key: ".to_owned().concat(req.key.as_str());
            let resp = ApiResponse::<()>::error(msg.as_str());
            (Vec::new(), resp)
        },
    }
}

} // verus!
