//! Lookups over the pallets of metadata in the older shape.
use vstd::prelude::*;
use crate::error::Error;
use crate::runtime::RuntimeMetadata;
use crate::v13;

verus! {

/// Whether `c` is an ASCII capital letter.
pub open spec fn is_ascii_upper(c: char) -> bool {
    'A' <= c && c <= 'Z'
}

/// Whether two characters are equal once ASCII capitals are made small.
pub open spec fn char_eq_ignore_ascii_case(a: char, b: char) -> bool {
    ||| a == b
    ||| is_ascii_upper(a) && a as u32 + 32 == b as u32
    ||| is_ascii_upper(b) && b as u32 + 32 == a as u32
}

/// Whether two strings are equal once ASCII capitals are made small.
pub open spec fn eq_ignore_ascii_case(a: Seq<char>, b: Seq<char>) -> bool {
    &&& a.len() == b.len()
    &&& forall|i: int| 0 <= i < a.len() ==> char_eq_ignore_ascii_case(#[trigger] a[i], b[i])
}

fn char_eq_ignore_case(a: char, b: char) -> (r: bool)
    ensures
        r == char_eq_ignore_ascii_case(a, b),
{
    let x = a as u32;
    let y = b as u32;
    x == y || ('A' <= a && a <= 'Z' && x + 32 == y) || ('A' <= b && b <= 'Z' && y + 32 == x)
}

/// Whether `a` and `b` are equal once ASCII capitals are made small.
pub fn str_eq_ignore_ascii_case(a: &str, b: &str) -> (r: bool)
    ensures
        r == eq_ignore_ascii_case(a@, b@),
{
    let n = a.unicode_len();
    if n != b.unicode_len() {
        return false;
    }
    let mut i: usize = 0;
    while i < n
        invariant
            n == a@.len(),
            n == b@.len(),
            i <= n,
            forall|j: int| 0 <= j < i ==> char_eq_ignore_ascii_case(#[trigger] a@[j], b@[j]),
        decreases n - i,
    {
        if !char_eq_ignore_case(a.get_char(i), b.get_char(i)) {
            return false;
        }
        i = i + 1;
    }
    true
}

/// Metadata in the older shape, for lookups by pallet.
pub struct Metadata {
    metadata: v13::RuntimeMetadataV13,
}

impl Metadata {
    /// The metadata these lookups read.
    pub closed spec fn spec_metadata(&self) -> v13::RuntimeMetadataV13View {
        self.metadata@
    }

    /// The names of the pallets, in order.
    pub open spec fn spec_pallets(&self) -> Seq<Seq<char>> {
        self.spec_metadata().modules.map_values(|m: v13::ModuleMetadataView| m.name)
    }

    /// Lookups over `metadata`, which must be of the older shape.
    pub fn new(metadata: RuntimeMetadata) -> (r: Result<Self, Error>)
        ensures
            match metadata {
                RuntimeMetadata::V13(m) => r matches Ok(md) && md.spec_metadata() == m@,
                _ => r == Err::<Self, Error>(
                    Error::InvalidMetadataVersion { expected: 13, got: metadata.spec_version() },
                ),
            },
    {
        match metadata {
            RuntimeMetadata::V13(m) => Ok(Metadata { metadata: m }),
            other => Err(Error::InvalidMetadataVersion { expected: 13, got: other.version() }),
        }
    }

    /// All pallet names in order.
    pub fn pallets(&self) -> (r: Vec<String>)
        ensures
            r@.len() == self.spec_pallets().len(),
            forall|i: int| 0 <= i < r@.len() ==> #[trigger] r@[i]@ == self.spec_pallets()[i],
    {
        let modules = &self.metadata.modules;
        let mut out: Vec<String> = Vec::new();
        let mut i: usize = 0;
        while i < modules.len()
            invariant
                i <= modules@.len(),
                modules@ == self.metadata.modules@,
                out@.len() == i,
                forall|j: int| 0 <= j < i ==> #[trigger] out@[j]@ == modules@[j].name@,
            decreases modules@.len() - i,
        {
            out.push(modules[i].name.clone());
            i = i + 1;
        }
        out
    }

    /// The position of the first pallet whose name equals `name` up to
    /// ASCII case, if any.
    pub fn pallet_index(&self, name: &str) -> (r: Option<usize>)
        ensures
            match r {
                Some(i) => {
                    &&& i < self.spec_pallets().len()
                    &&& eq_ignore_ascii_case(self.spec_pallets()[i as int], name@)
                    &&& forall|j: int| 0 <= j < i ==> !eq_ignore_ascii_case(#[trigger] self.spec_pallets()[j], name@)
                },
                None => forall|j: int|
                    0 <= j < self.spec_pallets().len() ==> !eq_ignore_ascii_case(#[trigger] self.spec_pallets()[j], name@),
            },
    {
        let names = self.pallets();
        let mut i: usize = 0;
        while i < names.len()
            invariant
                i <= names@.len(),
                names@.len() == self.spec_pallets().len(),
                forall|j: int| 0 <= j < names@.len() ==> #[trigger] names@[j]@ == self.spec_pallets()[j],
                forall|j: int| 0 <= j < i ==> !eq_ignore_ascii_case(#[trigger] self.spec_pallets()[j], name@),
            decreases names@.len() - i,
        {
            if str_eq_ignore_ascii_case(names[i].as_str(), name) {
                return Some(i);
            }
            i = i + 1;
        }
        None
    }
}

} // verus!
