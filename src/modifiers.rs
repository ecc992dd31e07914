use vstd::prelude::*;

verus! {

/// A one-child wrapper that alters its child's shape.
#[derive(Debug)]
pub enum Modifier<T> {
    /// Inflates the child by the radius.
    Rounding(Box<T>, i32),
}

} // verus!
