use vstd::prelude::*;
use std::sync::Arc;
use crate::config::Config;
use crate::context::Context;
use crate::registry::Registry;
use crate::table::Table;

verus! {

/// The finished system: the configuration and registry built once at
/// bootstrap, immutable from then on and shared by every context minted
/// from them.
pub struct System {
    pub config: Arc<Config>,
    pub registry: Arc<Registry>,
}

impl System {
    pub open spec fn wf(self) -> bool {
        &&& (*self.config).wf()
        &&& (*self.registry).wf()
    }

    /// Mints a fresh resolution context over this system's shared
    /// configuration and registry.  Each context starts with its own empty
    /// instance cache, so what one context builds never leaks into another.
    pub fn create_context<H>(&self) -> (c: Context<H>)
        requires
            self.wf(),
        ensures
            c.wf(),
            c.config == self.config,
            c.registry == self.registry,
            forall|k: Seq<char>| c.cached(k) is None,
    {
        Context {
            config: self.config.clone(),
            registry: self.registry.clone(),
            instances: Table::new(),
        }
    }
}

/// Collects registrations and the configuration file path, then completes
/// bootstrap exactly once by handing over the finished `System`.
pub struct SystemBuilder {
    /// Where the configuration document is to be read from, if anywhere.
    pub config_file: Option<String>,
    pub registry: Registry,
}

impl SystemBuilder {
    /// A builder with nothing registered and no configuration file chosen.
    pub fn new() -> (b: SystemBuilder)
        ensures
            b.config_file is None,
            b.registry.wf(),
            forall|i: Seq<char>| !b.registry.has_interface(i),
            forall|i: Seq<char>, n: Seq<char>| !b.registry.has_component(i, n),
    {
        SystemBuilder { config_file: None, registry: Registry::new() }
    }

    /// Remembers the path the configuration document is to be loaded from.
    pub fn config_file(self, path: &str) -> (b: SystemBuilder)
        ensures
            b.config_file matches Some(p) && p@ == path@,
            b.registry == self.registry,
    {
        SystemBuilder { config_file: Some(path.to_owned()), registry: self.registry }
    }

    /// Registers a factory for `interface` under component type name
    /// `name`; the last registration for a pair wins and no other pair is
    /// touched.
    pub fn register(self, interface: &str, name: &str) -> (b: SystemBuilder)
        requires
            self.registry.wf(),
        ensures
            b.config_file == self.config_file,
            b.registry.wf(),
            b.registry.has_component(interface@, name@),
            forall|i: Seq<char>|
                i != interface@ ==> b.registry.types.spec_get(i) == self.registry.types.spec_get(
                    i,
                ),
            forall|i: Seq<char>|
                b.registry.has_interface(i) == (self.registry.has_interface(i) || i
                    == interface@),
            forall|n: Seq<char>|
                b.registry.has_component(interface@, n) == (self.registry.has_component(
                    interface@,
                    n,
                ) || n == name@),
    {
        let mut b = self;
        b.registry.register(interface, name);
        b
    }

    /// Completes bootstrap with the loaded configuration and the collected
    /// registrations: the immutable system that every later context shares.
    pub fn run(self, config: Config) -> (s: System)
        requires
            config.wf(),
            self.registry.wf(),
        ensures
            s.wf(),
            *s.config == config,
            *s.registry == self.registry,
    {
        System { config: Arc::new(config), registry: Arc::new(self.registry) }
    }
}

} // verus!
