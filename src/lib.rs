use vstd::prelude::*;

pub mod call;
pub mod codec;
pub mod error;
pub mod lifecycle;
pub mod size_hint;

verus! {

} // verus!
