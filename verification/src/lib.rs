//! Verified core of a local HTTP control plane for synthesized mouse and
//! keyboard input.
//!
//! The library holds the pure logic of the server: motion planning for
//! animated cursor movement, case-insensitive key, button and mode token
//! resolution, and the per-action dispatch that turns a request plus the
//! current operation mode into an exact sequence of input-device commands
//! and a response envelope.  The HTTP layer, the JSON codecs and the
//! OS-level input device live outside and call into this crate.

pub mod api_types;
pub mod dispatch;
pub mod key_mapping;
pub mod mouse_algorithms;
pub mod text;

pub use api_types::ApiResponse;
pub use api_types::OperationMode;
pub use key_mapping::is_valid_key;
pub use key_mapping::parse_mouse_button;
pub use mouse_algorithms::calculate_smooth_movement;
pub use mouse_algorithms::validate_coordinates;
