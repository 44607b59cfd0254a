//! Helpers for trying the system out.

pub mod util;
