//! A value that is written in one form and read back in another.
use vstd::prelude::*;

verus! {

/// A value that encodes from one type and decodes to another: a static
/// form, and the owned form that decoding gives.
#[derive(Clone, Debug)]
pub enum DecodeDifferent<B, O> {
    /// The form the value is encoded from.
    Encode(B),
    /// The form decoding gives.
    Decoded(O),
}

/// A list held either as a static slice or as an owned vector.
pub type DecodeDifferentArray<B> = DecodeDifferent<&'static [B], Vec<B>>;

/// A string held either as a static slice or as an owned string.
pub type DecodeDifferentStr = DecodeDifferent<&'static str, String>;

impl<B> DecodeDifferent<&'static [B], Vec<B>> {
    /// The items, whichever form holds them.
    pub fn as_slice(&self) -> (r: &[B])
        ensures
            r@ == match self {
                DecodeDifferent::Encode(e) => e@,
                DecodeDifferent::Decoded(d) => d@,
            },
    {
        match self {
            DecodeDifferent::Encode(e) => e,
            DecodeDifferent::Decoded(d) => d.as_slice(),
        }
    }
}

impl DecodeDifferent<&'static str, String> {
    /// An owned copy of the string, whichever form holds it.
    pub fn to_string(&self) -> (r: String)
        ensures
            r@ == match self {
                DecodeDifferent::Encode(e) => e@,
                DecodeDifferent::Decoded(d) => d@,
            },
    {
        match self {
            DecodeDifferent::Encode(e) => String::from_str(e),
            DecodeDifferent::Decoded(d) => d.clone(),
        }
    }
}

} // verus!
