//! The plugin manager: an ordered registry of handles, driving the
//! load/unload lifecycle.
//!
//! A handle couples one constructed plugin with the loaded module that
//! supplies its code, if any. The plugin's code and dispatch table live in
//! the module's mapped memory, so the plugin value must be destroyed
//! strictly before the module is released. The handle fixes that order at
//! construction: its teardown first runs the plugin's `on_unload` hook,
//! then its fields are dropped in declaration order — the plugin before
//! the module — however the handle itself goes away.
//!
//! The manager's view is the sequence of registered plugins, in load order.
//! No handle is ever removed individually: only the full drain of
//! [`PluginManager::unload`], which a manager discarded without an explicit
//! call performs all the same, handle by handle, in the same order.

use vstd::prelude::*;

use crate::errors::{LoadError, PluginError};
use crate::handshake::{evaluate_handshake, handshake_ok, handshake_refusal, ModuleProbe,
    VersionToken};
use crate::plugin::Plugin;

verus! {

/// One registered handle: a plugin that ran its `on_load` hook
/// successfully and, where an independently compiled module constructed
/// it, that module, kept alive for the plugin's whole lifetime. Created
/// only as the successful outcome of a load operation, destroyed only by
/// the manager's drain.
///
/// The `plugin` field stands before `module` so that the plugin value is
/// dropped strictly before the module is released.
struct PluginType<P: Plugin, M> {
    plugin: P,
    module: Option<M>,
}

impl<P: Plugin, M> Drop for PluginType<P, M> {
    /// Releasing a handle is the last lifecycle step of its plugin: the
    /// `on_unload` hook runs exactly once, here, before the plugin value
    /// and then its module are destroyed.
    fn drop(&mut self)
        opens_invariants none
        no_unwind
    {
        self.plugin.on_unload();
    }
}

/// An ordered registry of plugin handles, owned by the hosting application.
/// Its view is the sequence of registered plugins in load order.
pub struct PluginManager<P: Plugin, M> {
    plugins: Vec<PluginType<P, M>>,
}

impl<P: Plugin, M> View for PluginManager<P, M> {
    type V = Seq<P>;

    closed spec fn view(&self) -> Seq<P> {
        self.plugins@.map_values(|h: PluginType<P, M>| h.plugin)
    }
}

/// A load request is approved exactly when the handshake accepts the probe
/// and the module's constructor entry point is present.
pub open spec fn load_approved(host: VersionToken, probe: ModuleProbe, has_create: bool) -> bool {
    handshake_ok(host, probe) && has_create
}

/// The error a dynamic load fails with: the handshake's own refusal;
/// `MissingHandshake` where the versions match but the constructor entry
/// point is absent; and otherwise only the plugin's own `on_load` failure.
pub open spec fn load_refusal(
    host: VersionToken,
    probe: ModuleProbe,
    has_create: bool,
    e: LoadError,
) -> bool {
    if !handshake_ok(host, probe) {
        handshake_refusal(host, probe, e)
    } else if !has_create {
        e == LoadError::MissingHandshake
    } else {
        e matches LoadError::OnLoadFailure(_)
    }
}

impl<P: Plugin, M> PluginManager<P, M> {
    /// A manager with an empty registry.
    pub fn new() -> (m: Self)
        ensures
            m@ == Seq::<P>::empty(),
    {
        let m = PluginManager { plugins: Vec::new() };
        proof {
            assert(m@ =~= Seq::<P>::empty());
        }
        m
    }

    /// Registers a plugin whose `on_load` hook just produced `outcome`:
    /// appends it on success, and on failure reports the hook's error with
    /// the registry unchanged and nothing retained.
    ///
    /// The parameters stand in this order so that, where the outcome is a
    /// failure, the discarded plugin is dropped before the module that
    /// supplied its code.
    fn install(&mut self, module: Option<M>, plugin: P, outcome: Result<(), PluginError>) -> (r:
        Result<(), LoadError>)
        ensures
            r is Ok <==> outcome is Ok,
            outcome is Ok ==> final(self)@ == old(self)@.push(plugin),
            r is Err ==> *final(self) == *old(self),
            outcome matches Err(inner) ==> r == Err::<(), LoadError>(
                LoadError::OnLoadFailure(inner),
            ),
    {
        match outcome {
            Ok(()) => {
                self.plugins.push(PluginType { plugin, module });
                proof {
                    assert(self@ =~= old(self)@.push(plugin));
                }
                Ok(())
            },
            Err(inner) => Err(LoadError::OnLoadFailure(inner)),
        }
    }

    /// Registers a plugin compiled into the host: no module, no handshake —
    /// host and plugin share a compile unit by construction. Runs the
    /// plugin's `on_load` hook first; on failure nothing is registered and
    /// the instance is discarded without `on_unload`.
    ///
    /// On success the registry has grown by exactly this plugin, at the
    /// end of the load order, still carrying its name.
    pub fn load_static_plugin(&mut self, plugin: P) -> (r: Result<(), LoadError>)
        ensures
            r is Err ==> *final(self) == *old(self) && r matches Err(
                LoadError::OnLoadFailure(_),
            ),
            r is Ok ==> final(self)@.len() == old(self)@.len() + 1,
            r is Ok ==> final(self)@.drop_last() == old(self)@,
            r is Ok ==> final(self)@.last().spec_name() == plugin.spec_name(),
    {
        let mut plugin = plugin;
        let outcome = plugin.on_load();
        let r = self.install(None, plugin, outcome);
        proof {
            if r is Ok {
                assert(final(self)@.drop_last() =~= old(self)@);
            }
        }
        r
    }

    /// Registers a plugin from an independently compiled module, given
    /// what probing that module observed. The handshake is decided first;
    /// `create` — the module's constructor entry point, or `None` where
    /// that symbol is absent — is invoked only after the probe is
    /// accepted, since constructing an object from a mismatched module
    /// would be unsafe. The fresh plugin then runs its `on_load` hook and
    /// is bundled with `module` into one handle; on any failure nothing is
    /// registered, the registry is unchanged, and whatever was constructed
    /// is discarded — the plugin before its module.
    pub fn load_plugin<F: FnOnce() -> P>(
        &mut self,
        host: &VersionToken,
        probe: ModuleProbe,
        create: Option<F>,
        module: M,
    ) -> (r: Result<(), LoadError>)
        requires
            create matches Some(f) ==> call_requires(f, ()),
        ensures
            r is Err ==> *final(self) == *old(self),
            r matches Err(e) ==> load_refusal(*host, probe, create is Some, e),
            r is Ok ==> load_approved(*host, probe, create is Some),
            r is Ok ==> final(self)@.len() == old(self)@.len() + 1,
            r is Ok ==> final(self)@.drop_last() == old(self)@,
            create matches Some(f) ==> (r is Ok ==> exists|q: P|
                #[trigger] call_ensures(f, (), q) && final(self)@.last().spec_name()
                    == q.spec_name()),
    {
        match evaluate_handshake(host, &probe) {
            Err(e) => Err(e),
            Ok(()) => match create {
                None => Err(LoadError::MissingHandshake),
                Some(f) => {
                    let mut plugin = f();
                    let ghost fresh = plugin;
                    let outcome = plugin.on_load();
                    let r = self.install(Some(module), plugin, outcome);
                    proof {
                        if r is Ok {
                            assert(final(self)@.drop_last() =~= old(self)@);
                            assert(call_ensures(f, (), fresh));
                        }
                    }
                    r
                },
            },
        }
    }

    /// The registered plugins, in load order, without exposing the handle
    /// representation.
    pub fn plugins(&self) -> (r: Vec<&P>)
        ensures
            r@.len() == self@.len(),
            forall|i: int| 0 <= i < r@.len() ==> *r@[i] == self@[i],
    {
        let mut out: Vec<&P> = Vec::new();
        let mut idx: usize = 0;
        while idx < self.plugins.len()
            invariant
                idx <= self.plugins@.len(),
                out@.len() == idx,
                forall|j: int| 0 <= j < idx ==> *out@[j] == self@[j],
            decreases self.plugins@.len() - idx,
        {
            out.push(&self.plugins[idx].plugin);
            idx = idx + 1;
        }
        out
    }

    /// Drains every handle in load order and leaves the registry empty:
    /// each plugin's `on_unload` hook runs exactly once, then the handle
    /// is released — plugin destroyed first, module released after.
    /// Teardown is unconditional: no plugin can halt the drain of those
    /// behind it.
    pub fn unload(&mut self)
        ensures
            final(self)@ == Seq::<P>::empty(),
    {
        while self.plugins.len() > 0
            decreases self.plugins@.len(),
        {
            // releasing the removed handle runs its plugin's `on_unload`
            let _handle = self.plugins.remove(0);
        }
        proof {
            assert(self@ =~= Seq::<P>::empty());
        }
    }
}

} // verus!
