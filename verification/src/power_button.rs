//! Power button handling.

pub mod debounce;
