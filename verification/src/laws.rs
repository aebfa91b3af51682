//! Laws of the loading subsystem, stated and proved once for all inputs.

use vstd::prelude::*;

use crate::errors::LoadError;
use crate::handshake::{handshake_ok, handshake_refusal, ModuleProbe, VersionToken};
use crate::plugin::Plugin;

verus! {

/// Law: the handshake's verdict is exclusive — a probe it accepts is not
/// refused with any error. Together with the contract of
/// [`crate::handshake::evaluate_handshake`], a module whose version token
/// equals the host's is always admitted, never rejected.
pub proof fn lemma_handshake_verdict_exclusive(
    host: VersionToken,
    probe: ModuleProbe,
    e: LoadError,
)
    ensures
        handshake_ok(host, probe) ==> !handshake_refusal(host, probe, e),
{
}

/// Law: the handshake admits only a module that presents both version
/// entry points and returns the host's own strings from each. Since a
/// dynamic load constructs a plugin only from an admitted module, no
/// object is ever built from one whose layout could disagree with the
/// host's.
pub proof fn lemma_handshake_admits_only_matching(host: VersionToken, probe: ModuleProbe)
    requires
        handshake_ok(host, probe),
    ensures
        probe matches ModuleProbe::Symbols { toolchain: Some(t), package: Some(p) }
            && t@ == host.toolchain@ && p@ == host.package@,
{
}

/// Law: a static registration that succeeds on an empty registry leaves a
/// registry of exactly one plugin, and that plugin carries the registered
/// plugin's name — what
/// [`crate::manager::PluginManager::load_static_plugin`] ensures of the
/// registry's view, read back through
/// [`crate::manager::PluginManager::plugins`].
pub proof fn lemma_static_registration_visible<P: Plugin>(before: Seq<P>, after: Seq<P>, p: P)
    requires
        before.len() == 0,
        after.len() == before.len() + 1,
        after.drop_last() == before,
        after.last().spec_name() == p.spec_name(),
    ensures
        after.len() == 1,
        after[0].spec_name() == p.spec_name(),
{
}

} // verus!
