use vstd::prelude::*;

verus! {

/// A scalar that the wire schema writes either as an integer or as a
/// string.
pub enum IntOrString {
    Int(i64),
    String(String),
}

} // verus!
