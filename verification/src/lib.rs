//! Runtime plugin loading and lifecycle management.
//!
//! A host process extends its behaviour at run time by registering plugins
//! with a [`manager::PluginManager`]: either values compiled into the host
//! itself, or instances constructed by an independently compiled module.
//! Before any code of such a module is trusted, the manager checks a version
//! handshake ([`handshake::evaluate_handshake`]): the module's toolchain and
//! interface-package version strings must equal the host's own exactly.
//! On mismatch the module's constructor is never invoked, turning a
//! latent memory-corruption hazard into the recoverable errors of
//! [`errors::LoadError`].

use vstd::prelude::*;

pub mod errors;
pub mod handshake;
pub mod laws;
pub mod manager;
pub mod plugin;
pub mod sample;

verus! {

/// The sum of two sizes.
pub fn add(left: usize, right: usize) -> (sum: usize)
    requires
        left + right <= usize::MAX,
    ensures
        sum == left + right,
{
    left + right
}

} // verus!
