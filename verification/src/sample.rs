//! The smallest conforming plugin, compiled into the library.
//!
//! It does nothing beyond carrying its name: the lifecycle hooks keep
//! their default behaviour. A host can register it statically, and the
//! hand-written export surface of a module build can hand it out from
//! `create_plugin`.

use vstd::prelude::*;

use crate::plugin::Plugin;

verus! {

/// A plugin that answers to the name `test` and accepts every hook.
#[derive(Debug)]
pub struct TestPlugin;

impl Default for TestPlugin {
    /// The zero-argument constructor the export surface convention wants.
    fn default() -> (d: Self)
        ensures
            d.spec_name() == "test"@,
    {
        TestPlugin
    }
}

impl Plugin for TestPlugin {
    open spec fn spec_name(&self) -> Seq<char> {
        "test"@
    }

    fn name(&self) -> (r: &'static str)
        ensures
            r@ == self.spec_name(),
    {
        "test"
    }
}

} // verus!
