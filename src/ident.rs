//! How a type of the registry is rendered as a name, stated over the
//! registry's contents, and the text helpers that rendering uses.
use vstd::prelude::*;
use crate::error::ConvertError;
use crate::registry::{Type, TypeDef, TypeDefPrimitive};

verus! {

/// The last segment of a type's path: the name it was declared under.
pub open spec fn path_ident(t: Type) -> Option<Seq<char>> {
    if t.path@.len() == 0 {
        None
    } else {
        Some(t.path@.last()@)
    }
}

/// `parts` with `sep` between each two neighbours.
pub open spec fn join(parts: Seq<Seq<char>>, sep: Seq<char>) -> Seq<char>
    decreases parts.len(),
{
    if parts.len() == 0 {
        Seq::empty()
    } else if parts.len() == 1 {
        parts[0]
    } else {
        join(parts.drop_last(), sep) + sep + parts.last()
    }
}

pub open spec fn digit(d: nat) -> Seq<char> {
    if d == 0 { "0"@ }
    else if d == 1 { "1"@ }
    else if d == 2 { "2"@ }
    else if d == 3 { "3"@ }
    else if d == 4 { "4"@ }
    else if d == 5 { "5"@ }
    else if d == 6 { "6"@ }
    else if d == 7 { "7"@ }
    else if d == 8 { "8"@ }
    else { "9"@ }
}

/// The decimal notation of `n`, without leading zeros.
pub open spec fn decimal(n: nat) -> Seq<char>
    decreases n,
{
    if n < 10 {
        digit(n)
    } else {
        decimal(n / 10) + digit(n % 10)
    }
}

pub open spec fn primitive_name(p: TypeDefPrimitive) -> Seq<char> {
    match p {
        TypeDefPrimitive::Bool => "bool"@,
        TypeDefPrimitive::Char => "char"@,
        TypeDefPrimitive::Str => "str"@,
        TypeDefPrimitive::U8 => "u8"@,
        TypeDefPrimitive::U16 => "u16"@,
        TypeDefPrimitive::U32 => "u32"@,
        TypeDefPrimitive::U64 => "u64"@,
        TypeDefPrimitive::U128 => "u128"@,
        TypeDefPrimitive::U256 => "U256"@,
        TypeDefPrimitive::I8 => "i8"@,
        TypeDefPrimitive::I16 => "i16"@,
        TypeDefPrimitive::I32 => "i32"@,
        TypeDefPrimitive::I64 => "i64"@,
        TypeDefPrimitive::I128 => "i128"@,
        TypeDefPrimitive::I256 => "I256"@,
    }
}

/// The name of type `id`, where at most `fuel` levels of nesting are
/// followed; deeper nesting is reported as `NestingTooDeep`.
pub open spec fn type_ident(types: Seq<Type>, id: u32, fuel: nat) -> Result<Seq<char>, ConvertError>
    decreases fuel, 0nat,
{
    if id as int >= types.len() {
        Err(ConvertError::TypeNotFound(id))
    } else if fuel == 0 {
        Err(ConvertError::NestingTooDeep(id))
    } else {
        match types[id as int].type_def {
            TypeDef::Composite(_) | TypeDef::Variant(_) => match path_ident(types[id as int]) {
                Some(name) => Ok(name),
                None => Err(ConvertError::MissingTypeName(id)),
            },
            TypeDef::Sequence(elem) => match type_ident(types, elem, (fuel - 1) as nat) {
                Ok(e) => Ok("Vec<"@ + e + ">"@),
                Err(err) => Err(err),
            },
            TypeDef::Array { len, type_param } => match type_ident(types, type_param, (fuel - 1) as nat) {
                Ok(e) => Ok("["@ + e + "; "@ + decimal(len as nat) + "]"@),
                Err(err) => Err(err),
            },
            TypeDef::Tuple(elems) => match tuple_idents(types, elems@, (fuel - 1) as nat) {
                Ok(es) => Ok("("@ + join(es, ", "@) + ")"@),
                Err(err) => Err(err),
            },
            TypeDef::Primitive(p) => Ok(primitive_name(p)),
            TypeDef::Compact(inner) => match type_ident(types, inner, (fuel - 1) as nat) {
                Ok(e) => Ok("Compact<"@ + e + ">"@),
                Err(err) => Err(err),
            },
            TypeDef::BitSequence { bit_store_type, bit_order_type } => match type_ident(
                types,
                bit_order_type,
                (fuel - 1) as nat,
            ) {
                Ok(order) => match type_ident(types, bit_store_type, (fuel - 1) as nat) {
                    Ok(store) => Ok("BitVec<"@ + order + ", "@ + store + ">"@),
                    Err(err) => Err(err),
                },
                Err(err) => Err(err),
            },
        }
    }
}

/// The names of the types `ids`, in order, or the first failure.
pub open spec fn tuple_idents(types: Seq<Type>, ids: Seq<u32>, fuel: nat) -> Result<Seq<Seq<char>>, ConvertError>
    decreases fuel, ids.len(),
{
    if ids.len() == 0 {
        Ok(Seq::empty())
    } else {
        match tuple_idents(types, ids.drop_last(), fuel) {
            Ok(pre) => match type_ident(types, ids.last(), fuel) {
                Ok(e) => Ok(pre.push(e)),
                Err(err) => Err(err),
            },
            Err(err) => Err(err),
        }
    }
}

/// The name of type `id` in the registry `types`; nesting deeper than the
/// registry has types cannot be finite and fails.
pub open spec fn ident(types: Seq<Type>, id: u32) -> Result<Seq<char>, ConvertError> {
    type_ident(types, id, types.len())
}

/// `s` with every occurrence of `T::` taken out, left to right.
pub open spec fn without_config_prefix(s: Seq<char>) -> Seq<char>
    decreases s.len(),
{
    if s.len() < 3 {
        s
    } else if s[0] == 'T' && s[1] == ':' && s[2] == ':' {
        without_config_prefix(s.skip(3))
    } else {
        seq![s[0]] + without_config_prefix(s.skip(1))
    }
}

fn digit_str(d: u32) -> (r: &'static str)
    requires
        d < 10,
    ensures
        r@ == digit(d as nat),
{
    match d {
        0 => "0",
        1 => "1",
        2 => "2",
        3 => "3",
        4 => "4",
        5 => "5",
        6 => "6",
        7 => "7",
        8 => "8",
        _ => "9",
    }
}

/// The decimal notation of `n`.
pub fn decimal_string(n: u32) -> (r: String)
    ensures
        r@ == decimal(n as nat),
    decreases n,
{
    if n < 10 {
        String::from_str(digit_str(n))
    } else {
        let mut s = decimal_string(n / 10);
        s.append(digit_str(n % 10));
        s
    }
}

/// The name of a primitive type.
pub fn primitive_str(p: TypeDefPrimitive) -> (r: &'static str)
    ensures
        r@ == primitive_name(p),
{
    match p {
        TypeDefPrimitive::Bool => "bool",
        TypeDefPrimitive::Char => "char",
        TypeDefPrimitive::Str => "str",
        TypeDefPrimitive::U8 => "u8",
        TypeDefPrimitive::U16 => "u16",
        TypeDefPrimitive::U32 => "u32",
        TypeDefPrimitive::U64 => "u64",
        TypeDefPrimitive::U128 => "u128",
        TypeDefPrimitive::U256 => "U256",
        TypeDefPrimitive::I8 => "i8",
        TypeDefPrimitive::I16 => "i16",
        TypeDefPrimitive::I32 => "i32",
        TypeDefPrimitive::I64 => "i64",
        TypeDefPrimitive::I128 => "i128",
        TypeDefPrimitive::I256 => "I256",
    }
}

/// `s` with every `T::` taken out, as the older format writes event arguments.
pub fn strip_config_prefix(s: &String) -> (r: String)
    ensures
        r@ == without_config_prefix(s@),
{
    let text = s.as_str();
    let n = text.unicode_len();
    let mut out = String::new();
    let mut start: usize = 0;
    let mut i: usize = 0;
    assert(s@.skip(0) =~= s@);
    assert(out@ + s@.subrange(0, 0) =~= Seq::<char>::empty());
    while i < n
        invariant
            start <= i <= n,
            n == s@.len(),
            text@ == s@,
            without_config_prefix(s@) == out@ + s@.subrange(start as int, i as int)
                + without_config_prefix(s@.skip(i as int)),
        decreases n - i,
    {
        let rest = Ghost(s@.skip(i as int));
        if n - i >= 3 && text.get_char(i) == 'T' && text.get_char(i + 1) == ':'
            && text.get_char(i + 2) == ':' {
            out.append(text.substring_char(start, i));
            assert(rest@.skip(3) =~= s@.skip(i + 3));
            i = i + 3;
            start = i;
            assert(s@.subrange(start as int, i as int) =~= Seq::<char>::empty());
        } else {
            assert(rest@.skip(1) =~= s@.skip(i + 1));
            assert(s@.subrange(start as int, i + 1) =~= s@.subrange(start as int, i as int) + seq![s@[i as int]]);
            proof {
                if rest@.len() < 3 {
                    assert(rest@ =~= seq![s@[i as int]] + s@.skip(i + 1));
                }
            }
            i = i + 1;
        }
    }
    out.append(text.substring_char(start, n));
    assert(s@.skip(n as int) =~= Seq::<char>::empty());
    out
}

} // verus!
