//! Window identity as the profile matcher consumes it.
//!
//! The desktop query that fills this in runs outside the library.

use vstd::prelude::*;

verus! {

/// Information about the currently focused window.
#[derive(Debug, Clone)]
pub struct WindowInfo {
    /// Window resource class (e.g. a browser's or terminal's class name)
    pub resource_class: String,
    /// Window caption/title (optional)
    pub caption: Option<String>,
}

impl Default for WindowInfo {
    fn default() -> (r: Self)
        ensures
            r.resource_class@.len() == 0,
            r.caption is None,
    {
        WindowInfo { resource_class: String::new(), caption: None }
    }
}

} // verus!
