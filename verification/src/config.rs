use vstd::prelude::*;
use crate::table::Table;
use crate::value::PropsMap;

verus! {

/// What the configuration says about one wiring key: which component type
/// to build and with which properties.
pub struct ComponentConfig {
    /// The component type name to look up in the registry.
    pub name: String,
    /// The property bag handed to the component's factory.
    pub props: PropsMap,
}

/// The immutable wiring configuration: wiring key to component
/// configuration, loaded whole once at bootstrap.
pub struct Config {
    pub components: Table<ComponentConfig>,
}

impl Config {
    /// The keys of the wiring table are distinct.
    pub open spec fn wf(self) -> bool {
        self.components.wf()
    }

    /// An empty configuration: no wiring key resolves.
    pub fn new() -> (c: Config)
        ensures
            c.wf(),
            forall|k: Seq<char>| c.components.spec_get(k) is None,
    {
        Config { components: Table::new() }
    }
}

impl Default for Config {
    /// The empty configuration.
    fn default() -> (c: Config)
        ensures
            c.wf(),
            forall|k: Seq<char>| c.components.spec_get(k) is None,
    {
        Config::new()
    }
}

} // verus!
