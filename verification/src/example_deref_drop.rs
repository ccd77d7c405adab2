//! A one-field box: the smart-pointer demonstration type.

use vstd::prelude::*;

verus! {

/// Prints a greeting for `name`.
pub fn say_hello(name: &str) {
    let mut line = String::from_str("hello ");
    line.append(name);
    crate::function_like::emit_line(line.as_str());
}

/// A box around one value.
pub struct MyBox<T>(pub T);

impl<T> MyBox<T> {
    /// Wraps a value.
    pub fn new(x: T) -> (r: MyBox<T>)
        ensures
            r.0 == x,
    {
        MyBox(x)
    }

    /// A borrow of the boxed value, as dereferencing yields it.
    pub fn inner(&self) -> (r: &T)
        ensures
            *r == self.0,
    {
        &self.0
    }
}

} // verus!
