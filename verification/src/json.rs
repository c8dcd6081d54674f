//! A JSON value, as the codec sees it.
//!
//! The transport hands the codec a structured value rather than text: the
//! driver maps real JSON text to and from this shape (objects with their
//! fields sorted by key, which is how they arrive), and the codec proves how
//! typed messages map to and from it.  Numbers on this wire are unsigned
//! integers.

use vstd::prelude::*;

verus! {

#[derive(Debug, PartialEq, Eq)]
pub enum JsonVal {
    Null,
    Bool(bool),
    UInt(u64),
    Str(String),
    Arr(Vec<JsonVal>),
    Obj(Vec<(String, JsonVal)>),
}

} // verus!
