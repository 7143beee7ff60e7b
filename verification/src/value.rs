//! Generic structured property values.
//!
//! Property values cross the component interface in a JSON-compatible
//! structured form. The value domains of this crate only ever accept
//! booleans, integers and string tokens; every other structured form
//! (arrays, objects, non-integral numbers) is grouped under
//! [`PropValue::Other`], which no value domain accepts.

use vstd::prelude::*;

verus! {

/// Mathematical model of a structured property value.
pub enum ValueV {
    Null,
    Bool(bool),
    Int(int),
    Text(Seq<char>),
    Other,
}

/// A structured property value, as exchanged with a host editor.
#[derive(Debug, Clone, PartialEq, Eq)]
pub enum PropValue {
    /// The JSON null value.
    Null,
    /// A boolean.
    Bool(bool),
    /// An integral number.
    Int(i64),
    /// A string.
    Text(String),
    /// Any other structured form (array, object, non-integral number);
    /// no value domain of this crate accepts such a value.
    Other,
}

impl View for PropValue {
    type V = ValueV;

    open spec fn view(&self) -> ValueV {
        match self {
            PropValue::Null => ValueV::Null,
            PropValue::Bool(b) => ValueV::Bool(*b),
            PropValue::Int(i) => ValueV::Int(*i as int),
            PropValue::Text(s) => ValueV::Text(s@),
            PropValue::Other => ValueV::Other,
        }
    }
}

} // verus!
