//! The version handshake performed before trusting a loaded module.
//!
//! A loadable module and the host are compiled independently; a polymorphic
//! object's in-memory layout is only safe to use if both sides were built by
//! the same toolchain against the same interface-package version. The host
//! therefore probes the module's export surface — the fixed entry points
//! every conforming module provides — and refuses to construct a plugin
//! unless both version strings equal its own, byte for byte.
//!
//! Opening the module and resolving its symbols is dynamic-linker work that
//! the host performs outside this library; what it observed is handed in as
//! a [`ModuleProbe`], and [`evaluate_handshake`] decides.

use vstd::prelude::*;

use crate::errors::{LoadError, VersionComponent};

verus! {

/// A pair of version strings baked in at compile time of one binary: the
/// toolchain that built it and the version of the shared capability
/// interface it was built against. Two tokens are compatible only if both
/// components compare equal character for character.
#[derive(Debug)]
pub struct VersionToken {
    pub toolchain: String,
    pub package: String,
}

/// What probing a module file for its export surface observed. Each version
/// entry point is `Some` string it returned, or `None` where the symbol is
/// absent.
#[derive(Debug)]
pub enum ModuleProbe {
    /// The file is missing or unreadable.
    NotFound,
    /// The file exists but is not a valid loadable module.
    Invalid,
    /// The module was opened; these are its version entry points.
    Symbols { toolchain: Option<String>, package: Option<String> },
}

/// The handshake accepts a probe exactly when both version entry points are
/// present and return the host's own strings.
pub open spec fn handshake_ok(host: VersionToken, probe: ModuleProbe) -> bool {
    probe matches ModuleProbe::Symbols { toolchain: Some(t), package: Some(p) }
        && t@ == host.toolchain@ && p@ == host.package@
}

/// The error a probe is refused with. The toolchain component is examined
/// first: a module whose toolchain string differs is rejected with that
/// mismatch even where its package entry point is also absent or different.
pub open spec fn handshake_refusal(host: VersionToken, probe: ModuleProbe, e: LoadError) -> bool {
    match probe {
        ModuleProbe::NotFound => e == LoadError::ModuleNotFound,
        ModuleProbe::Invalid => e == LoadError::ModuleInvalid,
        ModuleProbe::Symbols { toolchain, package } => match toolchain {
            None => e == LoadError::MissingHandshake,
            Some(t) => if t@ != host.toolchain@ {
                version_mismatch(e, VersionComponent::Toolchain, host.toolchain@, t@)
            } else {
                match package {
                    None => e == LoadError::MissingHandshake,
                    Some(p) => p@ != host.package@
                        && version_mismatch(e, VersionComponent::Package, host.package@, p@),
                }
            },
        },
    }
}

/// `e` reports a mismatch of `component`, with exactly these expected and
/// found strings.
pub open spec fn version_mismatch(
    e: LoadError,
    component: VersionComponent,
    expected: Seq<char>,
    found: Seq<char>,
) -> bool {
    e matches LoadError::VersionMismatch { component: c, expected: x, found: f }
        && c == component && x@ == expected && f@ == found
}

/// Decides the handshake: compares what a module probe observed against the
/// host's own version token, component by component, toolchain first.
///
/// Returns `Ok` exactly when the module is safe to construct a plugin from;
/// otherwise the precise refusal of the taxonomy, with the expected and
/// found strings of the first component that differs.
pub fn evaluate_handshake(host: &VersionToken, probe: &ModuleProbe) -> (r: Result<(), LoadError>)
    ensures
        r is Ok <==> handshake_ok(*host, *probe),
        r matches Err(e) ==> handshake_refusal(*host, *probe, e),
{
    match probe {
        ModuleProbe::NotFound => Err(LoadError::ModuleNotFound),
        ModuleProbe::Invalid => Err(LoadError::ModuleInvalid),
        ModuleProbe::Symbols { toolchain, package } => {
            let t = match toolchain {
                None => {
                    return Err(LoadError::MissingHandshake);
                },
                Some(t) => t,
            };
            if !(*t == host.toolchain) {
                return Err(LoadError::VersionMismatch {
                    component: VersionComponent::Toolchain,
                    expected: host.toolchain.clone(),
                    found: t.clone(),
                });
            }
            let p = match package {
                None => {
                    return Err(LoadError::MissingHandshake);
                },
                Some(p) => p,
            };
            if !(*p == host.package) {
                return Err(LoadError::VersionMismatch {
                    component: VersionComponent::Package,
                    expected: host.package.clone(),
                    found: p.clone(),
                });
            }
            Ok(())
        },
    }
}

} // verus!
