use vstd::prelude::*;
use crate::table::Table;

verus! {

/// A structured configuration value: the generic, JSON-like payload a
/// property bag holds.  Numbers are carried as signed integers; what a
/// component makes of a value beyond its shape is the component's business.
#[derive(Debug)]
pub enum Value {
    Null,
    Bool(bool),
    Int(i64),
    Str(String),
    Arr(Vec<Value>),
    Obj(Vec<(String, Value)>),
}

/// The property bag of one configured component: property name to value,
/// order irrelevant.
pub type PropsMap = Table<Value>;

impl Value {
    /// The string this value holds, if it is a string.
    pub fn as_str(&self) -> (r: Option<&String>)
        ensures
            match r {
                Some(s) => self matches Value::Str(v) && v == s,
                None => !(self matches Value::Str(_)),
            },
    {
        match self {
            Value::Str(s) => Some(s),
            _ => None,
        }
    }

    /// The integer this value holds, if it is a number.
    pub fn as_int(&self) -> (r: Option<i64>)
        ensures
            match r {
                Some(n) => self matches Value::Int(v) && v == n,
                None => !(self matches Value::Int(_)),
            },
    {
        match self {
            Value::Int(n) => Some(*n),
            _ => None,
        }
    }

    /// The boolean this value holds, if it is a boolean.
    pub fn as_bool(&self) -> (r: Option<bool>)
        ensures
            match r {
                Some(b) => self matches Value::Bool(v) && v == b,
                None => !(self matches Value::Bool(_)),
            },
    {
        match self {
            Value::Bool(b) => Some(*b),
            _ => None,
        }
    }
}

} // verus!
