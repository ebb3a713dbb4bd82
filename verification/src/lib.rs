//! Power state of a display backlight, as mirrored in the one-line text file
//! that the backlight driver exposes, and the debounce rule that turns the
//! edges of a push button into flips of that state.
//!
//! The library decides and never touches the file, the pin or the clock:
//! its caller reads the file into a [`StateStore`], reads the clock for the
//! [`TriggerDebouncer`], and carries out what they decide.

pub mod debounce;
pub mod state;
pub mod store;

pub use debounce::{TriggerDebouncer, TRIGGER_DELAY_MS};
pub use state::{ScreenState, StateError, OFF_VALUE, ON_VALUE};
pub use store::{
    check_and_flip, check_screen_state, flip_screen_state, screen_off, screen_on, FlipReport,
    StateStore,
};
