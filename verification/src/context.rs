use vstd::prelude::*;
use std::sync::Arc;
use crate::component::{Component, Injected};
use crate::config::{ComponentConfig, Config};
use crate::error::Error;
use crate::registry::Registry;
use crate::table::Table;

verus! {

/// One cache entry: a type-erased shared handle paired with the interface
/// identity it was constructed against, so a later retrieval can check that
/// the caller asks for the interface the instance was built for.
pub struct Instance<H> {
    /// The interface the wiring key was resolved under when the instance
    /// was built.
    pub interface: String,
    /// The shared handle to the built component.
    pub handle: Injected<H>,
}

/// The resolution context: shared references to the immutable configuration
/// and registry, plus this context's own cache of already-built instances,
/// keyed by wiring key.
pub struct Context<H> {
    pub config: Arc<Config>,
    pub registry: Arc<Registry>,
    pub instances: Table<Instance<H>>,
}

/// Everything `Context::get` guarantees of one call: `pre` the context
/// before, `post` the context after, `iface` the interface identity
/// requested, `key` the wiring key, `r` the outcome.
pub open spec fn get_post<H>(
    pre: Context<H>,
    post: Context<H>,
    iface: Seq<char>,
    key: Seq<char>,
    r: Result<Injected<H>, Error>,
) -> bool {
    &&& post.config == pre.config
    &&& post.registry == pre.registry
    &&& post.preserves(pre)
    &&& match pre.cfg(key) {
        None => {
            &&& post == pre
            &&& r matches Err(e) && e matches Error::ComponentConfigNotFound { name }
                && name@ == key
        },
        Some(cc) => match pre.cached(key) {
            Some(inst) => {
                &&& post == pre
                &&& if inst.interface@ == iface {
                    r == Ok::<Injected<H>, Error>(inst.handle)
                } else {
                    r matches Err(e) && e matches Error::NotImplemented {
                        trait_name,
                        component_name,
                    } && trait_name@ == iface && component_name@ == cc.name@
                }
            },
            None => {
                if !pre.reg().has_interface(iface) {
                    &&& post == pre
                    &&& r matches Err(e) && e matches Error::TraitNotDefined { name }
                        && name@ == iface
                } else if !pre.reg().has_component(iface, cc.name@) {
                    &&& post == pre
                    &&& r matches Err(e) && e matches Error::ComponentNotFound { name }
                        && name@ == key
                } else {
                    match r {
                        Ok(i) => post.cached(key) matches Some(inst) && inst.interface@ == iface
                            && inst.handle == i,
                        Err(_) => true,
                    }
                }
            },
        },
    }
}

impl<H> Context<H> {
    /// The shared pieces are well formed and the cache keys are distinct.
    pub open spec fn wf(self) -> bool {
        &&& (*self.config).wf()
        &&& (*self.registry).wf()
        &&& self.instances.wf()
    }

    /// The component configuration under wiring key `key`.
    pub open spec fn cfg(self, key: Seq<char>) -> Option<ComponentConfig> {
        (*self.config).components.spec_get(key)
    }

    /// The cached instance under wiring key `key`.
    pub open spec fn cached(self, key: Seq<char>) -> Option<Instance<H>> {
        self.instances.spec_get(key)
    }

    /// The shared registry.
    pub open spec fn reg(self) -> Registry {
        *self.registry
    }

    /// What every resolution step preserves of the context: the shared
    /// configuration and registry stay what they were, and an instance once
    /// cached stays cached, unchanged.
    pub open spec fn preserves(self, pre: Context<H>) -> bool {
        &&& self.config == pre.config
        &&& self.registry == pre.registry
        &&& forall|k: Seq<char>| pre.cached(k) is Some ==> self.cached(k) == pre.cached(k)
    }

    /// The retrieval-time type check: hand out the cached handle when it
    /// was built for the requested interface, and report which component
    /// the key is wired to when it was not.
    fn downcast_component(
        instance: &Instance<H>,
        requested: &str,
        component_name: &str,
    ) -> (r: Result<Injected<H>, Error>)
        ensures
            instance.interface@ == requested@ ==> r == Ok::<Injected<H>, Error>(instance.handle),
            instance.interface@ != requested@ ==> (r matches Err(e) && e
                matches Error::NotImplemented { trait_name, component_name: cn }
                && trait_name@ == requested@ && cn@ == component_name@),
    {
        let req: String = requested.to_owned();
        if instance.interface == req {
            Ok(instance.handle.clone())
        } else {
            Err(Error::NotImplemented {
                trait_name: req,
                component_name: component_name.to_owned(),
            })
        }
    }

    /// Resolves the wiring key `name` under the interface identity
    /// `interface`: the cached instance if this context already built one,
    /// else the configured component, built by `F::create` and cached
    /// before it is returned.  Every failure is the typed error that names
    /// the wiring mistake; nothing is cached on failure by this call
    /// itself.
    pub fn get<F: Component<Handle = H>>(&mut self, interface: &str, name: &str) -> (r: Result<
        Injected<H>,
        Error,
    >)
        requires
            old(self).wf(),
        ensures
            final(self).wf(),
            get_post(*old(self), *final(self), interface@, name@, r),
    {
        let config = self.config.clone();
        match (&*config).components.get(name) {
            None => Err(Error::ComponentConfigNotFound { name: name.to_owned() }),
            Some(component_config) => {
                if let Some(instance) = self.instances.get(name) {
                    return Self::downcast_component(
                        instance,
                        interface,
                        component_config.name.as_str(),
                    );
                }
                let registry = self.registry.clone();
                if !(&*registry).contains_interface(interface) {
                    return Err(Error::TraitNotDefined { name: interface.to_owned() });
                }
                if !(&*registry).contains_component(interface, component_config.name.as_str()) {
                    return Err(Error::ComponentNotFound { name: name.to_owned() });
                }
                match F::create(self, interface, component_config.name.as_str(), &component_config.props) {
                    Ok(handle) => {
                        let ghost mid = *self;
                        let instance = Instance { interface: interface.to_owned(), handle: Injected(handle) };
                        let result = instance.handle.clone();
                        let ghost cached_instance = instance;
                        self.instances.insert(name.to_owned(), instance);
                        proof {
                            assert(self.cached(name@) == Some(cached_instance));
                            assert forall|k: Seq<char>| old(self).cached(k) is Some
                                implies self.cached(k) == old(self).cached(k) by {
                                assert(mid.cached(k) == old(self).cached(k));
                                assert(k != name@);
                            }
                        }
                        Ok(result)
                    },
                    Err(e) => Err(e),
                }
            },
        }
    }
}

/// After a successful resolution, the wiring key is cached: the cache holds
/// an instance built for the requested interface whose handle is exactly
/// the returned one, and the key is configured.
pub proof fn lemma_resolved_is_cached<H>(
    pre: Context<H>,
    post: Context<H>,
    iface: Seq<char>,
    key: Seq<char>,
    handle: Injected<H>,
)
    requires
        get_post(pre, post, iface, key, Ok(handle)),
    ensures
        post.cached(key) matches Some(inst) && inst.interface@ == iface && inst.handle
            == handle,
        post.cfg(key) is Some,
{
}

/// Singleton per key: once a wiring key has resolved successfully under an
/// interface in some context, resolving the same key under the same
/// interface in that context returns the very same handle, builds nothing
/// new, and leaves the context exactly as it was.
pub proof fn lemma_singleton_per_key<H>(
    s0: Context<H>,
    s1: Context<H>,
    s2: Context<H>,
    iface: Seq<char>,
    key: Seq<char>,
    first: Injected<H>,
    second: Result<Injected<H>, Error>,
)
    requires
        get_post(s0, s1, iface, key, Ok(first)),
        get_post(s1, s2, iface, key, second),
    ensures
        second == Ok::<Injected<H>, Error>(first),
        s2 == s1,
{
    lemma_resolved_is_cached(s0, s1, iface, key, first);
}

/// Type-mismatch detection: a wiring key resolved under one interface and
/// then requested under a different one yields `NotImplemented` naming the
/// newly requested interface, without rebuilding or disturbing the first
/// instance - the context does not change at all.
pub proof fn lemma_type_mismatch_detected<H>(
    s0: Context<H>,
    s1: Context<H>,
    s2: Context<H>,
    iface_first: Seq<char>,
    iface_second: Seq<char>,
    key: Seq<char>,
    first: Injected<H>,
    second: Result<Injected<H>, Error>,
)
    requires
        get_post(s0, s1, iface_first, key, Ok(first)),
        iface_second != iface_first,
        get_post(s1, s2, iface_second, key, second),
    ensures
        s2 == s1,
        second matches Err(e) && e matches Error::NotImplemented { trait_name, .. }
            && trait_name@ == iface_second,
        s1.cached(key) matches Some(inst) && inst.handle == first && inst.interface@
            == iface_first,
{
    lemma_resolved_is_cached(s0, s1, iface_first, key, first);
}

/// Missing wiring key: resolving a key absent from the configuration fails
/// with `ComponentConfigNotFound`, deterministically and with no effect on
/// the context, whatever was resolved before.
pub proof fn lemma_missing_wiring_key<H>(
    pre: Context<H>,
    post: Context<H>,
    iface: Seq<char>,
    key: Seq<char>,
    r: Result<Injected<H>, Error>,
)
    requires
        pre.cfg(key) is None,
        get_post(pre, post, iface, key, r),
    ensures
        post == pre,
        r matches Err(e) && e matches Error::ComponentConfigNotFound { name } && name@ == key,
{
}

/// Unknown interface: a configured, not yet built wiring key requested
/// under an interface with no registrations at all fails with
/// `TraitNotDefined`, and the context does not change.
pub proof fn lemma_interface_not_registered<H>(
    pre: Context<H>,
    post: Context<H>,
    iface: Seq<char>,
    key: Seq<char>,
    r: Result<Injected<H>, Error>,
)
    requires
        pre.cached(key) is None,
        pre.cfg(key) is Some,
        !pre.reg().has_interface(iface),
        get_post(pre, post, iface, key, r),
    ensures
        post == pre,
        r matches Err(e) && e matches Error::TraitNotDefined { name } && name@ == iface,
{
}

/// Unregistered component: a configured, not yet built wiring key whose
/// configured component name has no factory under the requested interface
/// fails with `ComponentNotFound`, and the context does not change.
pub proof fn lemma_component_not_found<H>(
    pre: Context<H>,
    post: Context<H>,
    iface: Seq<char>,
    key: Seq<char>,
    r: Result<Injected<H>, Error>,
)
    requires
        pre.cached(key) is None,
        pre.cfg(key) matches Some(cc) && pre.reg().has_interface(iface)
            && !pre.reg().has_component(iface, cc.name@),
        get_post(pre, post, iface, key, r),
    ensures
        post == pre,
        r matches Err(e) && e matches Error::ComponentNotFound { name } && name@ == key,
{
}

} // verus!
