//! Decisions of an input relay that turns presses on two bound controls into a
//! steady stream of synthetic left and right clicks, and forwards every other
//! input event unchanged.

pub mod click_toggle;
pub mod relay;
pub mod status;

pub use click_toggle::ClickToggle;
pub use relay::{apply_click, wait_mode, Capture, Click, Cycle, RawEvent, State, WaitMode};
pub use status::{active_line, code_line, decimal_string, describe_code, reprint_text, ANSI_BEEP};
