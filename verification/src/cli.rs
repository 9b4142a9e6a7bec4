//! Configuration handed in from the command line of the developer
//! tooling around the engine.
//!
//! Parsing the command line is the caller's business; the library only
//! holds the parsed values and the small decisions made on them, such as
//! which widget style applies when none was named.

use vstd::prelude::*;

verus! {

/// The command-line options of the tooling process.
pub struct Cli {
    /// Additional include paths for import resolution.
    pub include_paths: Vec<String>,
    /// The style name for the preview; empty means the platform default.
    pub style: String,
    /// The backend or renderer to use for the preview; empty means
    /// automatic.
    pub backend: String,
    /// Start the preview full screen.
    pub fullscreen: bool,
    /// Hide the preview toolbar.
    pub no_toolbar: bool,
}

/// The style that applies: the named one, or `"native"` when none was
/// given.
pub open spec fn spec_effective_style(c: Cli) -> Seq<char> {
    if c.style@.len() == 0 {
        "native"@
    } else {
        c.style@
    }
}

impl Default for Cli {
    /// All options off, all names empty.
    fn default() -> (r: Cli)
        ensures
            r.include_paths@.len() == 0,
            r.style@.len() == 0,
            r.backend@.len() == 0,
            !r.fullscreen,
            !r.no_toolbar,
    {
        Cli {
            include_paths: Vec::new(),
            style: String::new(),
            backend: String::new(),
            fullscreen: false,
            no_toolbar: false,
        }
    }
}

impl Cli {
    /// The style the preview runs with: the requested one, defaulting to
    /// `"native"` when the option was left empty.
    pub fn effective_style(&self) -> (r: &str)
        ensures
            r@ == spec_effective_style(*self),
    {
        if self.style.as_str().unicode_len() == 0 {
            "native"
        } else {
            self.style.as_str()
        }
    }

    /// Whether the backend option names a backend to force.
    pub fn has_backend_override(&self) -> (r: bool)
        ensures
            r == (self.backend@.len() != 0),
    {
        self.backend.as_str().unicode_len() != 0
    }
}

} // verus!
