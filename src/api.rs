//! The metadata versions that can be produced.
use vstd::prelude::*;

verus! {

/// The metadata versions this library can produce: the newer shape.
pub fn supported_versions() -> (r: Vec<u32>)
    ensures
        r@ == seq![14u32],
{
    let mut v: Vec<u32> = Vec::new();
    v.push(14);
    v
}

} // verus!
