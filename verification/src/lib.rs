//! A dependency-injection runtime: a registry of named component factories
//! keyed by the interface they implement, and a resolution context that
//! turns a configuration-driven wiring graph into live, lazily-built,
//! cached component instances.  A caller asks the context for the component
//! wired under a key that implements an interface; the engine finds the
//! matching factory, hands it the configured properties and recursively
//! resolved dependencies, and returns a shared, tag-checked handle.  Every
//! resolution is singleton-per-key within one context, and every failure is
//! a typed error naming the wiring mistake.

mod component;
mod config;
mod context;
mod error;
mod registry;
mod system;
mod table;
mod value;

pub use component::{Component, Injected, dependency_key, required_value};
pub use config::{ComponentConfig, Config};
pub use context::{Context, Instance, get_post};
pub use error::Error;
pub use registry::Registry;
pub use system::{System, SystemBuilder};
pub use table::Table;
pub use value::{PropsMap, Value};
