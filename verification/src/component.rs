use vstd::prelude::*;
use std::sync::Arc;
use crate::context::Context;
use crate::error::Error;
use crate::value::{PropsMap, Value};

verus! {

/// A shared handle to a resolved component instance.  Handles are cheap to
/// clone and every clone refers to the same underlying instance, which lives
/// as long as any handle to it.
pub struct Injected<T>(pub Arc<T>);

impl<T> Injected<T> {
    /// A second handle to the same underlying instance.
    pub fn clone(&self) -> (r: Injected<T>)
        ensures
            r == *self,
    {
        Injected(self.0.clone())
    }
}

/// The factory contract: the one dispatcher a program hands the resolution
/// engine.  `create` receives the interface identity the wiring key is being
/// resolved under, the configured component type name, and the configured
/// property bag, and builds the named component, reading its value
/// properties from the bag and resolving its component properties through
/// recursive `Context::get` calls on the same context.
///
/// Whatever it builds, a factory leaves the context it was handed usable:
/// the shared configuration and registry as they were, and every instance
/// already cached still cached unchanged.
pub trait Component: Sized {
    /// The type-erased payload a resolved instance carries, shared by every
    /// component this factory can build.
    type Handle;

    fn create(
        ctx: &mut Context<Self::Handle>,
        interface: &str,
        name: &str,
        props: &PropsMap,
    ) -> (r: Result<Arc<Self::Handle>, Error>)
        requires
            old(ctx).wf(),
        ensures
            final(ctx).wf(),
            final(ctx).preserves(*old(ctx)),
    ;
}

/// Reads the value property `property_name` from the bag: the configured
/// value if one is present, and `MissingProperty` if none is, for a field
/// whose default policy is to fail.
pub fn required_value<'a>(
    props: &'a PropsMap,
    component_name: &str,
    property_name: &str,
) -> (r: Result<&'a Value, Error>)
    ensures
        match props.spec_get(property_name@) {
            Some(v) => r matches Ok(rv) && *rv == v,
            None => r matches Err(e) && e matches Error::MissingProperty {
                component_name: c,
                property_name: p,
            } && c@ == component_name@ && p@ == property_name@,
        },
{
    match props.get(property_name) {
        Some(v) => Ok(v),
        None => Err(Error::MissingProperty {
            component_name: component_name.to_owned(),
            property_name: property_name.to_owned(),
        }),
    }
}

/// Reads the component property `property_name` from the bag: the wiring
/// key of the dependency to resolve.  Absent entries are `MissingProperty`;
/// a present entry that is not a string is `InvalidProperty`.
pub fn dependency_key<'a>(
    props: &'a PropsMap,
    component_name: &str,
    property_name: &str,
) -> (r: Result<&'a String, Error>)
    ensures
        match props.spec_get(property_name@) {
            Some(v) => match v {
                Value::Str(s) => r matches Ok(k) && *k == s,
                _ => r matches Err(e) && e matches Error::InvalidProperty {
                    component_name: c,
                    property_name: p,
                    message: m,
                } && c@ == component_name@ && p@ == property_name@ && m@ == "Expect string"@,
            },
            None => r matches Err(e) && e matches Error::MissingProperty {
                component_name: c,
                property_name: p,
            } && c@ == component_name@ && p@ == property_name@,
        },
{
    match props.get(property_name) {
        Some(v) => match v {
            Value::Str(s) => Ok(s),
            _ => Err(Error::InvalidProperty {
                component_name: component_name.to_owned(),
                property_name: property_name.to_owned(),
                message: "Expect string".to_owned(),
            }),
        },
        None => Err(Error::MissingProperty {
            component_name: component_name.to_owned(),
            property_name: property_name.to_owned(),
        }),
    }
}

} // verus!
