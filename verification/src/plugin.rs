//! The capability interface every plugin satisfies.

use vstd::prelude::*;

use crate::errors::PluginError;

verus! {

/// A runtime-loadable unit of behaviour. Implemented by plugin authors;
/// the manager drives the lifecycle hooks.
///
/// A plugin is identified by a display name, stable across its whole
/// lifetime (`spec_name`): neither hook changes it. The name is not
/// guaranteed unique across a registry. Registered plugin instances must be
/// safe to share between threads, since callers may invoke `trigger`
/// concurrently once a plugin is registered.
pub trait Plugin: Send + Sync {
    /// The plugin's display name, as an abstract character sequence. A
    /// verified implementation defines it to the name it actually
    /// carries; the default leaves an unverified implementation's name
    /// unmodelled.
    open spec fn spec_name(&self) -> Seq<char> {
        Seq::empty()
    }

    /// Returns the display name; side-effect-free, callable at any time
    /// after construction.
    fn name(&self) -> (r: &'static str)
        ensures
            r@ == self.spec_name(),
    ;

    /// Called exactly once, immediately after construction and before the
    /// plugin becomes visible to the rest of the manager. Failure aborts
    /// the registration: the instance is discarded and `on_unload` is never
    /// called on it.
    fn on_load(&mut self) -> (r: Result<(), PluginError>)
        ensures
            final(self).spec_name() == old(self).spec_name(),
    {
        Ok(())
    }

    /// Data-path callback; default no-op. The manager does not serialize
    /// calls made by other callers once the plugin is registered.
    fn trigger(&self, val: usize) -> (r: Result<(), PluginError>) {
        let _ = val;
        Ok(())
    }

    /// Best-effort cleanup, called exactly once per registered plugin
    /// during drain. It reports no error and must not panic: teardown is
    /// unconditional and never halted by one plugin.
    fn on_unload(&mut self)
        ensures
            final(self).spec_name() == old(self).spec_name(),
        opens_invariants none
        no_unwind
    {
    }
}

} // verus!
