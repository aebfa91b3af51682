//! The error taxonomy of the loading subsystem.

use vstd::prelude::*;

verus! {

/// An error raised by a plugin itself, out of its `on_load` or `trigger`
/// hooks. Carries a human-readable message; its view is that message's
/// character sequence.
#[derive(Debug)]
pub struct PluginError {
    message: String,
}

impl View for PluginError {
    type V = Seq<char>;

    closed spec fn view(&self) -> Seq<char> {
        self.message@
    }
}

impl PluginError {
    pub fn new(message: String) -> (e: Self)
        ensures
            e@ == message@,
    {
        PluginError { message }
    }

    pub fn message(&self) -> (m: &str)
        ensures
            m@ == self@,
    {
        self.message.as_str()
    }
}

/// The two independent compatibility axes checked during the handshake.
#[derive(Debug, Clone, Copy, PartialEq, Eq, Structural)]
pub enum VersionComponent {
    Toolchain,
    Package,
}

/// Why a load operation was refused. Every variant is returned to the
/// immediate caller and leaves the manager's registry unchanged.
#[derive(Debug)]
pub enum LoadError {
    /// The module file is missing or unreadable.
    ModuleNotFound,
    /// The file exists but is not a valid loadable module.
    ModuleInvalid,
    /// A required export-surface symbol is absent: the file is not a
    /// conforming plugin module.
    MissingHandshake,
    /// A version string of the module differs from the host's own.
    VersionMismatch { component: VersionComponent, expected: String, found: String },
    /// The plugin's own `on_load` hook failed; nothing was registered.
    OnLoadFailure(PluginError),
}

} // verus!
