//! Theme change events and the debounce rule for processing them.
//!
//! The filesystem watcher that produces the raw notifications runs outside
//! the library; events arrive here as plain paths, and the debounce window
//! keeps rapid successive saves from triggering repeated reloads.

use vstd::prelude::*;
use vstd::string::StringExecFns;

verus! {

/// Debounce window to avoid multiple reloads on rapid saves, in
/// milliseconds.
pub const DEBOUNCE_MS: u64 = 50;

/// Theme change event
#[derive(Debug, Clone)]
pub enum ThemeEvent {
    /// Theme file was modified
    Modified(String),
    /// New theme file was created
    Created(String),
    /// Theme file was deleted
    Deleted(String),
    /// Error watching files
    Error(String),
}

/// Error types for the theme watcher
#[derive(Debug, Clone)]
pub enum ThemeWatcherError {
    /// Failed to initialize the watcher
    InitError(String),
    /// Failed to watch a specific path
    WatchError(String, String),
}

impl ThemeWatcherError {
    /// A human-readable description of the error.
    pub fn message(&self) -> (r: String)
        ensures
            *self matches ThemeWatcherError::InitError(m) ==> r@
                == "Failed to initialize theme watcher: "@ + m@,
            *self matches ThemeWatcherError::WatchError(path, m) ==> r@ == "Failed to watch "@
                + path@ + ": "@ + m@,
    {
        match self {
            ThemeWatcherError::InitError(m) => String::from_str(
                "Failed to initialize theme watcher: ",
            ).concat(m.as_str()),
            ThemeWatcherError::WatchError(path, m) => {
                let mut s = String::from_str("Failed to watch ");
                s.append(path.as_str());
                s.append(": ");
                s.append(m.as_str());
                s
            },
        }
    }
}

/// Whether freshly collected events are still inside the debounce window
/// and must wait: they are cleared and re-gathered on a later poll.
pub fn within_debounce_window(elapsed_ms: u64) -> (r: bool)
    ensures
        r == (elapsed_ms < DEBOUNCE_MS),
{
    elapsed_ms < DEBOUNCE_MS
}

} // verus!
