use vstd::prelude::*;

verus! {

/// The Rust side of an object with properties; it holds no state of its own.
#[derive(Default)]
pub struct RustObj;

} // verus!
