//! Small function items used by the closure and function-pointer
//! demonstrations: two zero-sized function items with fixed results, a
//! type-name probe, and two greeters behind one output wrapper.

use std::io::Write;
use vstd::prelude::*;

verus! {

/// A plain function pointer to a greeter.
pub type MyFunctionPointer = fn();

/// A zero-sized function item: always 42.
pub fn foo() -> (r: i32)
    ensures
        r == 42,
{
    42
}

/// A zero-sized function item: always 35.
pub fn bar() -> (r: i32)
    ensures
        r == 35,
{
    35
}

/// Relies on std::io::Stdout::write_fmt (through `writeln`): prints
/// one line to standard output.
#[verifier::external_body]
pub(crate) fn emit_line(s: &str) {
    let _ = writeln!(std::io::stdout(), "{}", s);
}

/// Prints `hi`.
pub fn hi() {
    emit_line("hi");
}

/// Prints `hello`.
pub fn hello() {
    emit_line("hello");
}

} // verus!
