//! Values handed in by a loosely typed caller, and their truthiness.
use vstd::prelude::*;

verus! {

/// A caller's value as far as truthiness depends on it: the canonical
/// "nothing", a boolean, or anything else (numbers, strings, containers...).
#[derive(Debug, Clone, Copy, PartialEq, Eq, Structural)]
pub enum Value {
    Nil,
    Bool(bool),
    Other,
}

/// Only "nothing" and `false` are false; every other value is true.
pub open spec fn is_truthy(v: Value) -> bool {
    match v {
        Value::Nil => false,
        Value::Bool(b) => b,
        Value::Other => true,
    }
}

/// The boolean that `v` coerces to.
pub fn truthiness(v: &Value) -> (r: bool)
    ensures
        r == is_truthy(*v),
        r == !(*v == Value::Nil || *v == Value::Bool(false)),
{
    match v {
        Value::Nil => false,
        Value::Bool(b) => *b,
        Value::Other => true,
    }
}

} // verus!
