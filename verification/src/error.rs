use vstd::prelude::*;

verus! {

/// Every way a bootstrap or a resolution can fail.  Each failure is a typed,
/// recoverable value that names the piece of wiring it concerns; the engine
/// never panics on bad configuration.
#[derive(Debug)]
pub enum Error {
    /// The configuration document could not be read.
    ReadConfig(String),
    /// The configuration document could not be parsed.
    ParseConfig(String),
    /// Retrieval was attempted before the system finished bootstrapping.
    SystemNotRunning,
    /// A configuration entry that was looked up by name is absent.
    ConfigureNotFound { name: String },
    /// No factory at all is registered for the requested interface.
    TraitNotDefined { name: String },
    /// The interface is known, but no factory is registered under the
    /// component name that the configuration picked.
    ComponentNotFound { name: String },
    /// A cached instance exists under the wiring key, but it was built for a
    /// different interface than the one now requested.
    NotImplemented { trait_name: String, component_name: String },
    /// The wiring key is absent from the configuration.
    ComponentConfigNotFound { name: String },
    /// A required property has no entry in the property bag.
    MissingProperty { component_name: String, property_name: String },
    /// A present property does not have the expected shape.
    InvalidProperty { component_name: String, property_name: String, message: String },
    /// A failure a component's own construction or initialization surfaced.
    Other(String),
}

} // verus!
