//! Reading values back from the binary encoding.
use vstd::prelude::*;
use crate::binary::bytes::{
    de_u16, de_u32, de_u64, de_u8, le_u16, le_u32, le_u64, lemma_u16_roundtrip, lemma_u32_roundtrip,
    lemma_u64_roundtrip, read_u16, read_u32, read_u64, read_u8,
};
use crate::binary::serialize::{
    features_bits, list_serializable, pointer_size_code, ser_items, ser_list, ser_type,
    BinarySerialize,
};
use crate::config::{
    addressing_model_code, memory_grow_error_code, AddressingModel, MemoryGrowErrorKind,
    WasmFeatures,
};
use crate::error::Error;
use crate::function::{ExecutionMode, ParameterKind};
use crate::spv::{
    capability_from_u32, execution_model_from_u32, is_capability, is_execution_model,
    is_memory_model, is_storage_class, memory_model_from_u32, storage_class_from_u32,
};
use crate::types::{scalar_type_code, CompositeType, PointerSize, ScalarType, Type};
use crate::version::{TargetPlatform, Version};
use crate::str::Str;
use crate::binary::serialize::{ser_pair_items, ser_pairs, parameter_views};
use crate::binary::bytes::write_u32;
use crate::binary::views::{function_views, CapabilityModelView, ConfigView, FunctionConfigView};
use crate::config::{CapabilityModel, Config};
use crate::function::{FunctionConfig, Parameter};
use crate::vecmap::{
    appended, function_entries, inserted, insert_function, insert_parameter, lemma_appended_unique,
    lemma_first_key_index_map, new_function_map, new_parameter_map, parameter_entries, unique_keys,
    first_key_index, lemma_first_key_index_bounds,
};
use crate::binary::serialize::{config_serializable, ser_chars, ser_config};
use vstd::utf8::{decode_utf8, encode_utf8, valid_utf8};

verus! {

/// A value that can be read back from the binary encoding.
pub trait BinaryDeserialize: BinarySerialize + Sized {
    /// Reads a value from the front of `s`: the value and the number of bytes
    /// it took, or the error that the first bad byte gives.
    spec fn spec_deserialize(s: Seq<u8>) -> Result<(Self::V, int), Error>;

    /// The values that reading can give back.
    spec fn spec_valid(v: Self::V) -> bool;

    /// Reads a value starting at `pos`; returns it with the position after it.
    fn deserialize_from(bytes: &[u8], pos: usize) -> (r: Result<(Self, usize), Error>)
        requires
            pos <= bytes@.len(),
        ensures
            match Self::spec_deserialize(bytes@.skip(pos as int)) {
                Ok((v, n)) => r matches Ok((x, p)) && x.deep_view() == v && p == pos + n,
                Err(e) => r matches Err(e2) && e2 == e,
            },
    ;

    /// A read takes no more bytes than there are.
    proof fn lemma_consumed(s: Seq<u8>)
        ensures
            Self::spec_deserialize(s) matches Ok((v, n)) ==> 0 <= n <= s.len(),
    ;

    /// Reading the encoding of a valid value gives the value back and takes
    /// exactly its encoding, whatever follows it.
    proof fn lemma_roundtrip(v: Self::V, rest: Seq<u8>)
        requires
            Self::spec_valid(v),
            Self::spec_serializable(v),
        ensures
            Self::spec_deserialize(Self::spec_serialize(v) + rest) == Ok::<(Self::V, int), Error>(
                (v, Self::spec_serialize(v).len() as int),
            ),
    ;
}

pub proof fn lemma_skip_skip(s: Seq<u8>, a: int, b: int)
    requires
        0 <= a <= s.len(),
        0 <= b <= s.len() - a,
    ensures
        s.skip(a).skip(b) == s.skip(a + b),
{
    assert(s.skip(a).skip(b) =~= s.skip(a + b));
}

pub proof fn lemma_append_skip(a: Seq<u8>, b: Seq<u8>)
    ensures
        (a + b).skip(a.len() as int) == b,
{
    assert((a + b).skip(a.len() as int) =~= b);
}

impl BinaryDeserialize for bool {
    open spec fn spec_deserialize(s: Seq<u8>) -> Result<(bool, int), Error> {
        match de_u8(s) {
            Ok((b, n)) => if b == 0 {
                Ok((false, n))
            } else if b == 1 {
                Ok((true, n))
            } else {
                Err(Error::InvalidBool)
            },
            Err(e) => Err(e),
        }
    }

    open spec fn spec_valid(v: bool) -> bool {
        true
    }

    fn deserialize_from(bytes: &[u8], pos: usize) -> (r: Result<(bool, usize), Error>) {
        let (b, p) = match read_u8(bytes, pos) {
            Ok(x) => x,
            Err(e) => return Err(e),
        };
        match b {
            0 => Ok((false, p)),
            1 => Ok((true, p)),
            _ => Err(Error::InvalidBool),
        }
    }

    proof fn lemma_consumed(s: Seq<u8>) {
    }

    proof fn lemma_roundtrip(v: bool, rest: Seq<u8>) {
    }
}

impl BinaryDeserialize for u8 {
    open spec fn spec_deserialize(s: Seq<u8>) -> Result<(u8, int), Error> {
        de_u8(s)
    }

    open spec fn spec_valid(v: u8) -> bool {
        true
    }

    fn deserialize_from(bytes: &[u8], pos: usize) -> (r: Result<(u8, usize), Error>) {
        read_u8(bytes, pos)
    }

    proof fn lemma_consumed(s: Seq<u8>) {
    }

    proof fn lemma_roundtrip(v: u8, rest: Seq<u8>) {
    }
}

impl BinaryDeserialize for u32 {
    open spec fn spec_deserialize(s: Seq<u8>) -> Result<(u32, int), Error> {
        de_u32(s)
    }

    open spec fn spec_valid(v: u32) -> bool {
        true
    }

    fn deserialize_from(bytes: &[u8], pos: usize) -> (r: Result<(u32, usize), Error>) {
        read_u32(bytes, pos)
    }

    proof fn lemma_consumed(s: Seq<u8>) {
    }

    proof fn lemma_roundtrip(v: u32, rest: Seq<u8>) {
        lemma_u32_roundtrip(v, rest);
    }
}

impl BinaryDeserialize for Version {
    open spec fn spec_deserialize(s: Seq<u8>) -> Result<(Version, int), Error> {
        if s.len() < 2 {
            Err(Error::UnexpectedEof)
        } else {
            Ok((Version { major: s[0], minor: s[1] }, 2))
        }
    }

    open spec fn spec_valid(v: Version) -> bool {
        true
    }

    fn deserialize_from(bytes: &[u8], pos: usize) -> (r: Result<(Version, usize), Error>) {
        let (major, p) = match read_u8(bytes, pos) {
            Ok(x) => x,
            Err(e) => return Err(e),
        };
        let (minor, p) = match read_u8(bytes, p) {
            Ok(x) => x,
            Err(e) => return Err(e),
        };
        Ok((Version::new(major, minor), p))
    }

    proof fn lemma_consumed(s: Seq<u8>) {
    }

    proof fn lemma_roundtrip(v: Version, rest: Seq<u8>) {
        let s = seq![v.major, v.minor] + rest;
        assert(s[0] == v.major && s[1] == v.minor);
    }
}

impl BinaryDeserialize for TargetPlatform {
    open spec fn spec_deserialize(s: Seq<u8>) -> Result<(TargetPlatform, int), Error> {
        match de_u16(s) {
            Ok((kind, n)) => if kind == 0 || kind == 1 {
                match Version::spec_deserialize(s.skip(n)) {
                    Ok((v, m)) => Ok((
                        if kind == 0 { TargetPlatform::Vulkan(v) } else { TargetPlatform::Universal(v) },
                        n + m,
                    )),
                    Err(e) => Err(e),
                }
            } else {
                Err(Error::UnknownPlatform)
            },
            Err(e) => Err(e),
        }
    }

    open spec fn spec_valid(v: TargetPlatform) -> bool {
        true
    }

    fn deserialize_from(bytes: &[u8], pos: usize) -> (r: Result<(TargetPlatform, usize), Error>) {
        let (kind, p) = match read_u16(bytes, pos) {
            Ok(x) => x,
            Err(e) => return Err(e),
        };
        proof {
            lemma_skip_skip(bytes@, pos as int, 2);
        }
        match kind {
            0 => {
                let (v, p) = match Version::deserialize_from(bytes, p) {
            Ok(x) => x,
            Err(e) => return Err(e),
        };
                Ok((TargetPlatform::Vulkan(v), p))
            },
            1 => {
                let (v, p) = match Version::deserialize_from(bytes, p) {
            Ok(x) => x,
            Err(e) => return Err(e),
        };
                Ok((TargetPlatform::Universal(v), p))
            },
            _ => Err(Error::UnknownPlatform),
        }
    }

    proof fn lemma_consumed(s: Seq<u8>) {
    }

    proof fn lemma_roundtrip(v: TargetPlatform, rest: Seq<u8>) {
        let (kind, version) = match v {
            TargetPlatform::Vulkan(x) => (0u16, x),
            TargetPlatform::Universal(x) => (1u16, x),
        };
        let tail = Version::spec_serialize(version) + rest;
        assert(Self::spec_serialize(v) + rest =~= le_u16(kind) + tail);
        lemma_u16_roundtrip(kind, tail);
        lemma_append_skip(le_u16(kind), tail);
        Version::lemma_roundtrip(version, rest);
    }
}

impl WasmFeatures {
    /// The features whose bits are set in `x`: bit 0 for `memory64`, bit 1
    /// for `saturating_float_to_int`.
    pub fn from_integer(x: u64) -> (r: WasmFeatures)
        ensures
            r.memory64 == (x & 1 != 0),
            r.saturating_float_to_int == (x & 2 != 0),
    {
        WasmFeatures { memory64: x & 1 != 0, saturating_float_to_int: x & 2 != 0 }
    }
}

impl BinaryDeserialize for WasmFeatures {
    open spec fn spec_deserialize(s: Seq<u8>) -> Result<(WasmFeatures, int), Error> {
        match de_u64(s) {
            Ok((x, n)) => Ok((WasmFeatures { memory64: x & 1 != 0, saturating_float_to_int: x & 2 != 0 }, n)),
            Err(e) => Err(e),
        }
    }

    open spec fn spec_valid(v: WasmFeatures) -> bool {
        true
    }

    fn deserialize_from(bytes: &[u8], pos: usize) -> (r: Result<(WasmFeatures, usize), Error>) {
        let (x, p) = match read_u64(bytes, pos) {
            Ok(x) => x,
            Err(e) => return Err(e),
        };
        Ok((WasmFeatures::from_integer(x), p))
    }

    proof fn lemma_consumed(s: Seq<u8>) {
    }

    proof fn lemma_roundtrip(v: WasmFeatures, rest: Seq<u8>) {
        let x = features_bits(v);
        lemma_u64_roundtrip(x, rest);
        let m = v.memory64;
        let f = v.saturating_float_to_int;
        assert(x == ((if m { 1u64 } else { 0u64 }) + (if f { 2u64 } else { 0u64 })) as u64);
        if m {
            if f {
                assert((3u64 & 1 != 0) && (3u64 & 2 != 0)) by (bit_vector);
            } else {
                assert((1u64 & 1 != 0) && !(1u64 & 2 != 0)) by (bit_vector);
            }
        } else {
            if f {
                assert(!(2u64 & 1 != 0) && (2u64 & 2 != 0)) by (bit_vector);
            } else {
                assert(!(0u64 & 1 != 0) && !(0u64 & 2 != 0)) by (bit_vector);
            }
        }
    }
}

/// Reads a 16-bit number and maps it through a decoding of the numbers.
pub open spec fn de_code16<T>(s: Seq<u8>, decode: spec_fn(u16) -> Option<T>, err: Error) -> Result<(T, int), Error> {
    match de_u16(s) {
        Ok((x, n)) => match decode(x) {
            Some(v) => Ok((v, n)),
            None => Err(err),
        },
        Err(e) => Err(e),
    }
}

pub open spec fn addressing_model_of(x: u16) -> Option<AddressingModel> {
    if x == 0 {
        Some(AddressingModel::Logical)
    } else if x == 1 {
        Some(AddressingModel::Physical)
    } else if x == 2 {
        Some(AddressingModel::PhysicalStorageBuffer)
    } else {
        None
    }
}

impl BinaryDeserialize for AddressingModel {
    open spec fn spec_deserialize(s: Seq<u8>) -> Result<(AddressingModel, int), Error> {
        de_code16(s, |x: u16| addressing_model_of(x), Error::UnknownAddressingModel)
    }

    open spec fn spec_valid(v: AddressingModel) -> bool {
        true
    }

    fn deserialize_from(bytes: &[u8], pos: usize) -> (r: Result<(AddressingModel, usize), Error>) {
        let (x, p) = match read_u16(bytes, pos) {
            Ok(x) => x,
            Err(e) => return Err(e),
        };
        let m = match AddressingModel::try_from_primitive(x as u32) {
            Ok(x) => x,
            Err(e) => return Err(e),
        };
        Ok((m, p))
    }

    proof fn lemma_consumed(s: Seq<u8>) {
    }

    proof fn lemma_roundtrip(v: AddressingModel, rest: Seq<u8>) {
        lemma_u16_roundtrip(addressing_model_code(v) as u16, rest);
    }
}

pub open spec fn memory_grow_error_of(x: u16) -> Option<MemoryGrowErrorKind> {
    if x == 0 {
        Some(MemoryGrowErrorKind::Hard)
    } else if x == 1 {
        Some(MemoryGrowErrorKind::Soft)
    } else {
        None
    }
}

impl BinaryDeserialize for MemoryGrowErrorKind {
    open spec fn spec_deserialize(s: Seq<u8>) -> Result<(MemoryGrowErrorKind, int), Error> {
        de_code16(s, |x: u16| memory_grow_error_of(x), Error::UnknownMemoryGrowErrorKind)
    }

    open spec fn spec_valid(v: MemoryGrowErrorKind) -> bool {
        true
    }

    fn deserialize_from(bytes: &[u8], pos: usize) -> (r: Result<(MemoryGrowErrorKind, usize), Error>) {
        let (x, p) = match read_u16(bytes, pos) {
            Ok(x) => x,
            Err(e) => return Err(e),
        };
        let m = match MemoryGrowErrorKind::try_from_primitive(x as i32) {
            Ok(x) => x,
            Err(e) => return Err(e),
        };
        Ok((m, p))
    }

    proof fn lemma_consumed(s: Seq<u8>) {
    }

    proof fn lemma_roundtrip(v: MemoryGrowErrorKind, rest: Seq<u8>) {
        lemma_u16_roundtrip(memory_grow_error_code(v) as u16, rest);
    }
}

pub open spec fn scalar_type_of(x: u16) -> Option<ScalarType> {
    if x == 0 {
        Some(ScalarType::I32)
    } else if x == 1 {
        Some(ScalarType::I64)
    } else if x == 2 {
        Some(ScalarType::F32)
    } else if x == 3 {
        Some(ScalarType::F64)
    } else if x == 4 {
        Some(ScalarType::Bool)
    } else {
        None
    }
}

impl BinaryDeserialize for ScalarType {
    open spec fn spec_deserialize(s: Seq<u8>) -> Result<(ScalarType, int), Error> {
        de_code16(s, |x: u16| scalar_type_of(x), Error::UnknownScalarType)
    }

    open spec fn spec_valid(v: ScalarType) -> bool {
        true
    }

    fn deserialize_from(bytes: &[u8], pos: usize) -> (r: Result<(ScalarType, usize), Error>) {
        let (x, p) = match read_u16(bytes, pos) {
            Ok(x) => x,
            Err(e) => return Err(e),
        };
        let t = match ScalarType::try_from_primitive(x) {
            Ok(x) => x,
            Err(e) => return Err(e),
        };
        Ok((t, p))
    }

    proof fn lemma_consumed(s: Seq<u8>) {
    }

    proof fn lemma_roundtrip(v: ScalarType, rest: Seq<u8>) {
        lemma_u16_roundtrip(scalar_type_code(v), rest);
    }
}


pub open spec fn composite_type_of(s: Seq<u8>) -> Result<(CompositeType, int), Error> {
    match de_u16(s) {
        Ok((tag, n)) => if tag == 2 {
            match ScalarType::spec_deserialize(s.skip(2)) {
                Ok((elem, _)) => match de_u32(s.skip(4)) {
                    Ok((count, _)) => Ok((CompositeType::Vector(elem, count), 8)),
                    Err(e) => Err(e),
                },
                Err(e) => Err(e),
            }
        } else {
            Err(Error::UnknownCompositeType)
        },
        Err(e) => Err(e),
    }
}

impl BinaryDeserialize for CompositeType {
    open spec fn spec_deserialize(s: Seq<u8>) -> Result<(CompositeType, int), Error> {
        composite_type_of(s)
    }

    open spec fn spec_valid(v: CompositeType) -> bool {
        true
    }

    fn deserialize_from(bytes: &[u8], pos: usize) -> (r: Result<(CompositeType, usize), Error>) {
        let (tag, p) = match read_u16(bytes, pos) {
            Ok(x) => x,
            Err(e) => return Err(e),
        };
        if tag != 2 {
            return Err(Error::UnknownCompositeType);
        }
        proof {
            lemma_skip_skip(bytes@, pos as int, 2);
        }
        let (elem, p) = match ScalarType::deserialize_from(bytes, p) {
            Ok(x) => x,
            Err(e) => return Err(e),
        };
        proof {
            lemma_skip_skip(bytes@, pos as int, 4);
        }
        let (count, p) = match read_u32(bytes, p) {
            Ok(x) => x,
            Err(e) => return Err(e),
        };
        Ok((CompositeType::Vector(elem, count), p))
    }

    proof fn lemma_consumed(s: Seq<u8>) {
    }

    proof fn lemma_roundtrip(v: CompositeType, rest: Seq<u8>) {
        match v {
            CompositeType::Vector(elem, count) => {
                let s = Self::spec_serialize(v) + rest;
                let t1 = le_u16(scalar_type_code(elem)) + (le_u32(count) + rest);
                assert(s =~= le_u16(2) + t1);
                lemma_u16_roundtrip(2, t1);
                lemma_append_skip(le_u16(2), t1);
                ScalarType::lemma_roundtrip(elem, le_u32(count) + rest);
                assert(s.skip(4) =~= le_u32(count) + rest);
                lemma_u32_roundtrip(count, rest);
            },
        }
    }
}

pub open spec fn pointer_size_of(x: u16) -> Option<PointerSize> {
    if x == 0 {
        Some(PointerSize::Skinny)
    } else if x == 1 {
        Some(PointerSize::Fat)
    } else {
        None
    }
}

impl BinaryDeserialize for PointerSize {
    open spec fn spec_deserialize(s: Seq<u8>) -> Result<(PointerSize, int), Error> {
        de_code16(s, |x: u16| pointer_size_of(x), Error::UnknownPointerSize)
    }

    open spec fn spec_valid(v: PointerSize) -> bool {
        true
    }

    fn deserialize_from(bytes: &[u8], pos: usize) -> (r: Result<(PointerSize, usize), Error>) {
        let (x, p) = match read_u16(bytes, pos) {
            Ok(x) => x,
            Err(e) => return Err(e),
        };
        match x {
            0 => Ok((PointerSize::Skinny, p)),
            1 => Ok((PointerSize::Fat, p)),
            _ => Err(Error::UnknownPointerSize),
        }
    }

    proof fn lemma_consumed(s: Seq<u8>) {
    }

    proof fn lemma_roundtrip(v: PointerSize, rest: Seq<u8>) {
        lemma_u16_roundtrip(pointer_size_code(v), rest);
    }
}

/// Reads a storage class, which must be one that the `spirv` crate knows.
pub open spec fn de_storage_class(s: Seq<u8>) -> Result<(u32, int), Error> {
    match de_u32(s) {
        Ok((x, n)) => if is_storage_class(x) { Ok((x, n)) } else { Err(Error::UnknownStorageClass) },
        Err(e) => Err(e),
    }
}

fn read_storage_class(bytes: &[u8], pos: usize) -> (r: Result<(u32, usize), Error>)
    requires
        pos <= bytes@.len(),
    ensures
        match de_storage_class(bytes@.skip(pos as int)) {
            Ok((v, n)) => r matches Ok((x, p)) && x == v && p == pos + n,
            Err(e) => r matches Err(e2) && e2 == e,
        },
{
    let (x, p) = match read_u32(bytes, pos) {
        Ok(x) => x,
        Err(e) => return Err(e),
    };
    match storage_class_from_u32(x) {
        Some(sc) => Ok((sc, p)),
        None => Err(Error::UnknownStorageClass),
    }
}

/// Reads a type: a tag, then a pointer's size, storage class and pointee, or
/// a scalar type, or a composite type.
pub open spec fn de_type(s: Seq<u8>) -> Result<(Type, int), Error>
    decreases s.len(),
{
    match de_u16(s) {
        Ok((tag, _)) => if tag == 0 {
            match PointerSize::spec_deserialize(s.skip(2)) {
                Ok((size, _)) => match de_storage_class(s.skip(4)) {
                    Ok((sc, _)) => if s.len() >= 8 {
                        match de_type(s.skip(8)) {
                            Ok((pointee, m)) => Ok((
                                Type::Pointer { size, storage_class: sc, pointee: Box::new(pointee) },
                                8 + m,
                            )),
                            Err(e) => Err(e),
                        }
                    } else {
                        Err(Error::UnexpectedEof)
                    },
                    Err(e) => Err(e),
                },
                Err(e) => Err(e),
            }
        } else if tag == 1 {
            match ScalarType::spec_deserialize(s.skip(2)) {
                Ok((x, _)) => Ok((Type::Scalar(x), 4)),
                Err(e) => Err(e),
            }
        } else if tag == 2 {
            match CompositeType::spec_deserialize(s.skip(2)) {
                Ok((x, m)) => Ok((Type::Composite(x), 2 + m)),
                Err(e) => Err(e),
            }
        } else {
            Err(Error::UnknownType)
        },
        Err(e) => Err(e),
    }
}

/// A type whose storage classes are all known.
pub open spec fn type_valid(t: Type) -> bool
    decreases t,
{
    match t {
        Type::Pointer { storage_class, pointee, .. } => is_storage_class(storage_class) && type_valid(*pointee),
        _ => true,
    }
}

fn deserialize_type(bytes: &[u8], pos: usize) -> (r: Result<(Type, usize), Error>)
    requires
        pos <= bytes@.len(),
    ensures
        match de_type(bytes@.skip(pos as int)) {
            Ok((v, n)) => r matches Ok((x, p)) && x == v && p == pos + n,
            Err(e) => r matches Err(e2) && e2 == e,
        },
    decreases bytes@.len() - pos,
{
    let ghost s = bytes@.skip(pos as int);
    let (tag, p) = match read_u16(bytes, pos) {
        Ok(x) => x,
        Err(e) => return Err(e),
    };
    proof {
        lemma_skip_skip(bytes@, pos as int, 2);
    }
    match tag {
        0 => {
            let (size, p) = match PointerSize::deserialize_from(bytes, p) {
                Ok(x) => x,
                Err(e) => return Err(e),
            };
            proof {
                lemma_skip_skip(bytes@, pos as int, 4);
            }
            let (sc, p) = match read_storage_class(bytes, p) {
                Ok(x) => x,
                Err(e) => return Err(e),
            };
            proof {
                lemma_skip_skip(bytes@, pos as int, 8);
            }
            let (pointee, p) = match deserialize_type(bytes, p) {
                Ok(x) => x,
                Err(e) => return Err(e),
            };
            Ok((Type::Pointer { size, storage_class: sc, pointee: Box::new(pointee) }, p))
        },
        1 => {
            let (x, p) = match ScalarType::deserialize_from(bytes, p) {
                Ok(x) => x,
                Err(e) => return Err(e),
            };
            Ok((Type::Scalar(x), p))
        },
        2 => {
            let (x, p) = match CompositeType::deserialize_from(bytes, p) {
                Ok(x) => x,
                Err(e) => return Err(e),
            };
            Ok((Type::Composite(x), p))
        },
        _ => Err(Error::UnknownType),
    }
}

proof fn lemma_type_consumed(s: Seq<u8>)
    ensures
        de_type(s) matches Ok((v, n)) ==> 0 <= n <= s.len(),
    decreases s.len(),
{
    if s.len() >= 8 {
        lemma_type_consumed(s.skip(8));
    }
}

#[verifier::rlimit(40)]
proof fn lemma_pointer_roundtrip(size: PointerSize, storage_class: u32, pointee: Type, rest: Seq<u8>)
    requires
        is_storage_class(storage_class),
        de_type(ser_type(pointee) + rest) == Ok::<(Type, int), Error>((pointee, ser_type(pointee).len() as int)),
    ensures
        ({
            let t = Type::Pointer { size, storage_class, pointee: Box::new(pointee) };
            de_type(ser_type(t) + rest) == Ok::<(Type, int), Error>((t, ser_type(t).len() as int))
        }),
{
    let t = Type::Pointer { size, storage_class, pointee: Box::new(pointee) };
    let s = ser_type(t) + rest;
    let tail3 = ser_type(pointee) + rest;
    let tail2 = le_u32(storage_class) + tail3;
    let tail1 = le_u16(pointer_size_code(size)) + tail2;
    assert(s =~= le_u16(0) + tail1);
    lemma_u16_roundtrip(0, tail1);
    lemma_append_skip(le_u16(0), tail1);
    PointerSize::lemma_roundtrip(size, tail2);
    assert(s.skip(4) =~= tail2);
    lemma_u32_roundtrip(storage_class, tail3);
    assert(de_storage_class(s.skip(4)) == Ok::<(u32, int), Error>((storage_class, 4)));
    assert(s.skip(8) =~= tail3);
    assert(s.len() >= 8);
}

proof fn lemma_type_roundtrip(t: Type, rest: Seq<u8>)
    requires
        type_valid(t),
    ensures
        de_type(ser_type(t) + rest) == Ok::<(Type, int), Error>((t, ser_type(t).len() as int)),
    decreases t,
{
    let s = ser_type(t) + rest;
    match t {
        Type::Pointer { size, storage_class, pointee } => {
            lemma_type_roundtrip(*pointee, rest);
            lemma_pointer_roundtrip(size, storage_class, *pointee, rest);
        },
        Type::Scalar(x) => {
            let tail = le_u16(scalar_type_code(x)) + rest;
            assert(s =~= le_u16(1) + tail);
            lemma_u16_roundtrip(1, tail);
            lemma_append_skip(le_u16(1), tail);
            ScalarType::lemma_roundtrip(x, rest);
        },
        Type::Composite(x) => {
            let tail = CompositeType::spec_serialize(x) + rest;
            assert(s =~= le_u16(2) + tail);
            lemma_u16_roundtrip(2, tail);
            lemma_append_skip(le_u16(2), tail);
            CompositeType::lemma_roundtrip(x, rest);
        },
    }
}

impl BinaryDeserialize for Type {
    open spec fn spec_deserialize(s: Seq<u8>) -> Result<(Type, int), Error> {
        de_type(s)
    }

    open spec fn spec_valid(v: Type) -> bool {
        type_valid(v)
    }

    fn deserialize_from(bytes: &[u8], pos: usize) -> (r: Result<(Type, usize), Error>) {
        deserialize_type(bytes, pos)
    }

    proof fn lemma_consumed(s: Seq<u8>) {
        lemma_type_consumed(s);
    }

    proof fn lemma_roundtrip(v: Type, rest: Seq<u8>) {
        lemma_type_roundtrip(v, rest);
    }
}


/// Reads the operands of an execution mode after its tag.
pub open spec fn de_execution_mode(s: Seq<u8>) -> Result<(ExecutionMode, int), Error> {
    match de_u16(s) {
        Ok((tag, _)) => if tag == 0 {
            match de_u32(s.skip(2)) {
                Ok((x, _)) => Ok((ExecutionMode::Invocations(x), 6)),
                Err(e) => Err(e),
            }
        } else if tag == 1 {
            Ok((ExecutionMode::PixelCenterInteger, 2))
        } else if tag == 2 {
            Ok((ExecutionMode::OriginUpperLeft, 2))
        } else if tag == 3 {
            Ok((ExecutionMode::OriginLowerLeft, 2))
        } else if tag == 4 || tag == 5 {
            match de_u32(s.skip(2)) {
                Ok((x, _)) => match de_u32(s.skip(6)) {
                    Ok((y, _)) => match de_u32(s.skip(10)) {
                        Ok((z, _)) => Ok((
                            if tag == 4 { ExecutionMode::LocalSize(x, y, z) } else { ExecutionMode::LocalSizeHint(x, y, z) },
                            14,
                        )),
                        Err(e) => Err(e),
                    },
                    Err(e) => Err(e),
                },
                Err(e) => Err(e),
            }
        } else {
            Err(Error::UnknownExecutionMode)
        },
        Err(e) => Err(e),
    }
}

fn read_three(bytes: &[u8], pos: usize) -> (r: Result<(u32, u32, u32, usize), Error>)
    requires
        pos <= bytes@.len(),
    ensures
        ({
            let s = bytes@.skip(pos as int);
            match de_u32(s) {
                Ok((x, _)) => match de_u32(s.skip(4)) {
                    Ok((y, _)) => match de_u32(s.skip(8)) {
                        Ok((z, _)) => r matches Ok((a, b, c, q)) && a == x && b == y && c == z && q == pos + 12,
                        Err(e) => r == Err::<(u32, u32, u32, usize), Error>(e),
                    },
                    Err(e) => r == Err::<(u32, u32, u32, usize), Error>(e),
                },
                Err(e) => r == Err::<(u32, u32, u32, usize), Error>(e),
            }
        }),
{
    let (x, p) = match read_u32(bytes, pos) {
        Ok(x) => x,
        Err(e) => return Err(e),
    };
    proof {
        lemma_skip_skip(bytes@, pos as int, 4);
    }
    let (y, p) = match read_u32(bytes, p) {
        Ok(x) => x,
        Err(e) => return Err(e),
    };
    proof {
        lemma_skip_skip(bytes@, pos as int, 8);
    }
    let (z, p) = match read_u32(bytes, p) {
        Ok(x) => x,
        Err(e) => return Err(e),
    };
    Ok((x, y, z, p))
}

proof fn lemma_three_roundtrip(x: u32, y: u32, z: u32, rest: Seq<u8>)
    ensures
        ({
            let s = le_u32(x) + le_u32(y) + le_u32(z) + rest;
            &&& de_u32(s) == Ok::<(u32, int), Error>((x, 4))
            &&& de_u32(s.skip(4)) == Ok::<(u32, int), Error>((y, 4))
            &&& de_u32(s.skip(8)) == Ok::<(u32, int), Error>((z, 4))
        }),
{
    let s = le_u32(x) + le_u32(y) + le_u32(z) + rest;
    assert(s =~= le_u32(x) + (le_u32(y) + le_u32(z) + rest));
    lemma_u32_roundtrip(x, le_u32(y) + le_u32(z) + rest);
    assert(s.skip(4) =~= le_u32(y) + (le_u32(z) + rest));
    lemma_u32_roundtrip(y, le_u32(z) + rest);
    assert(s.skip(8) =~= le_u32(z) + rest);
    lemma_u32_roundtrip(z, rest);
}

proof fn lemma_tagged_three_roundtrip(tag: u16, x: u32, y: u32, z: u32, rest: Seq<u8>)
    ensures
        ({
            let s = le_u16(tag) + le_u32(x) + le_u32(y) + le_u32(z) + rest;
            &&& de_u16(s) == Ok::<(u16, int), Error>((tag, 2))
            &&& de_u32(s.skip(2)) == Ok::<(u32, int), Error>((x, 4))
            &&& de_u32(s.skip(6)) == Ok::<(u32, int), Error>((y, 4))
            &&& de_u32(s.skip(10)) == Ok::<(u32, int), Error>((z, 4))
        }),
{
    let tail = le_u32(x) + le_u32(y) + le_u32(z) + rest;
    let s = le_u16(tag) + le_u32(x) + le_u32(y) + le_u32(z) + rest;
    assert(s =~= le_u16(tag) + tail);
    lemma_u16_roundtrip(tag, tail);
    lemma_append_skip(le_u16(tag), tail);
    lemma_three_roundtrip(x, y, z, rest);
    assert(s.skip(2).skip(4) =~= s.skip(6));
    assert(s.skip(2).skip(8) =~= s.skip(10));
}

impl BinaryDeserialize for ExecutionMode {
    open spec fn spec_deserialize(s: Seq<u8>) -> Result<(ExecutionMode, int), Error> {
        de_execution_mode(s)
    }

    open spec fn spec_valid(v: ExecutionMode) -> bool {
        true
    }

    fn deserialize_from(bytes: &[u8], pos: usize) -> (r: Result<(ExecutionMode, usize), Error>) {
        let (tag, p) = match read_u16(bytes, pos) {
            Ok(x) => x,
            Err(e) => return Err(e),
        };
        proof {
            lemma_skip_skip(bytes@, pos as int, 2);
            let s = bytes@.skip(pos as int);
            if s.len() >= 6 {
                lemma_skip_skip(s, 2, 4);
            }
            if s.len() >= 10 {
                lemma_skip_skip(s, 2, 8);
            }
        }
        match tag {
            0 => {
                let (x, p) = match read_u32(bytes, p) {
                    Ok(x) => x,
                    Err(e) => return Err(e),
                };
                Ok((ExecutionMode::Invocations(x), p))
            },
            1 => Ok((ExecutionMode::PixelCenterInteger, p)),
            2 => Ok((ExecutionMode::OriginUpperLeft, p)),
            3 => Ok((ExecutionMode::OriginLowerLeft, p)),
            4 => {
                let (x, y, z, p) = match read_three(bytes, p) {
                    Ok(x) => x,
                    Err(e) => return Err(e),
                };
                Ok((ExecutionMode::LocalSize(x, y, z), p))
            },
            5 => {
                let (x, y, z, p) = match read_three(bytes, p) {
                    Ok(x) => x,
                    Err(e) => return Err(e),
                };
                Ok((ExecutionMode::LocalSizeHint(x, y, z), p))
            },
            _ => Err(Error::UnknownExecutionMode),
        }
    }

    proof fn lemma_consumed(s: Seq<u8>) {
    }

    proof fn lemma_roundtrip(v: ExecutionMode, rest: Seq<u8>) {
        let s = Self::spec_serialize(v) + rest;
        match v {
            ExecutionMode::Invocations(x) => {
                let tail = le_u32(x) + rest;
                assert(s =~= le_u16(0) + tail);
                lemma_u16_roundtrip(0, tail);
                lemma_append_skip(le_u16(0), tail);
                lemma_u32_roundtrip(x, rest);
            },
            ExecutionMode::PixelCenterInteger => lemma_u16_roundtrip(1, rest),
            ExecutionMode::OriginUpperLeft => lemma_u16_roundtrip(2, rest),
            ExecutionMode::OriginLowerLeft => lemma_u16_roundtrip(3, rest),
            ExecutionMode::LocalSize(x, y, z) => lemma_tagged_three_roundtrip(4, x, y, z, rest),
            ExecutionMode::LocalSizeHint(x, y, z) => lemma_tagged_three_roundtrip(5, x, y, z, rest),
            ExecutionMode::DepthReplacing => {},
        }
    }
}

/// Reads a parameter kind: a tag, then a location, or a descriptor set's
/// storage class, set and binding.
pub open spec fn de_parameter_kind(s: Seq<u8>) -> Result<(ParameterKind, int), Error> {
    match de_u16(s) {
        Ok((tag, _)) => if tag == 0 {
            Ok((ParameterKind::FunctionParameter, 2))
        } else if tag == 1 || tag == 2 {
            match de_u32(s.skip(2)) {
                Ok((l, _)) => Ok((if tag == 1 { ParameterKind::Input(l) } else { ParameterKind::Output(l) }, 6)),
                Err(e) => Err(e),
            }
        } else if tag == 3 {
            match de_storage_class(s.skip(2)) {
                Ok((storage_class, _)) => match de_u32(s.skip(6)) {
                    Ok((set, _)) => match de_u32(s.skip(10)) {
                        Ok((binding, _)) => Ok((ParameterKind::DescriptorSet { storage_class, set, binding }, 14)),
                        Err(e) => Err(e),
                    },
                    Err(e) => Err(e),
                },
                Err(e) => Err(e),
            }
        } else {
            Err(Error::UnknownParameterKind)
        },
        Err(e) => Err(e),
    }
}

impl BinaryDeserialize for ParameterKind {
    open spec fn spec_deserialize(s: Seq<u8>) -> Result<(ParameterKind, int), Error> {
        de_parameter_kind(s)
    }

    open spec fn spec_valid(v: ParameterKind) -> bool {
        match v {
            ParameterKind::DescriptorSet { storage_class, .. } => is_storage_class(storage_class),
            _ => true,
        }
    }

    fn deserialize_from(bytes: &[u8], pos: usize) -> (r: Result<(ParameterKind, usize), Error>) {
        let (tag, p) = match read_u16(bytes, pos) {
            Ok(x) => x,
            Err(e) => return Err(e),
        };
        proof {
            lemma_skip_skip(bytes@, pos as int, 2);
        }
        match tag {
            0 => Ok((ParameterKind::FunctionParameter, p)),
            1 => {
                let (l, p) = match read_u32(bytes, p) {
                    Ok(x) => x,
                    Err(e) => return Err(e),
                };
                Ok((ParameterKind::Input(l), p))
            },
            2 => {
                let (l, p) = match read_u32(bytes, p) {
                    Ok(x) => x,
                    Err(e) => return Err(e),
                };
                Ok((ParameterKind::Output(l), p))
            },
            3 => {
                let (storage_class, p) = match read_storage_class(bytes, p) {
                    Ok(x) => x,
                    Err(e) => return Err(e),
                };
                proof {
                    lemma_skip_skip(bytes@, pos as int, 6);
                }
                let (set, p) = match read_u32(bytes, p) {
                    Ok(x) => x,
                    Err(e) => return Err(e),
                };
                proof {
                    lemma_skip_skip(bytes@, pos as int, 10);
                }
                let (binding, p) = match read_u32(bytes, p) {
                    Ok(x) => x,
                    Err(e) => return Err(e),
                };
                Ok((ParameterKind::DescriptorSet { storage_class, set, binding }, p))
            },
            _ => Err(Error::UnknownParameterKind),
        }
    }

    proof fn lemma_consumed(s: Seq<u8>) {
    }

    proof fn lemma_roundtrip(v: ParameterKind, rest: Seq<u8>) {
        let s = Self::spec_serialize(v) + rest;
        match v {
            ParameterKind::FunctionParameter => lemma_u16_roundtrip(0, rest),
            ParameterKind::Input(l) => {
                let tail = le_u32(l) + rest;
                assert(s =~= le_u16(1) + tail);
                lemma_u16_roundtrip(1, tail);
                lemma_append_skip(le_u16(1), tail);
                lemma_u32_roundtrip(l, rest);
            },
            ParameterKind::Output(l) => {
                let tail = le_u32(l) + rest;
                assert(s =~= le_u16(2) + tail);
                lemma_u16_roundtrip(2, tail);
                lemma_append_skip(le_u16(2), tail);
                lemma_u32_roundtrip(l, rest);
            },
            ParameterKind::DescriptorSet { storage_class, set, binding } => {
                lemma_tagged_three_roundtrip(3, storage_class, set, binding, rest);
            },
        }
    }
}

impl<T: BinaryDeserialize> BinaryDeserialize for Option<T> {
    open spec fn spec_deserialize(s: Seq<u8>) -> Result<(Option<T::V>, int), Error> {
        match de_u8(s) {
            Ok((tag, _)) => if tag == 0 {
                Ok((None, 1))
            } else if tag == 1 {
                match T::spec_deserialize(s.skip(1)) {
                    Ok((v, m)) => Ok((Some(v), 1 + m)),
                    Err(e) => Err(e),
                }
            } else {
                Err(Error::UnknownOption)
            },
            Err(e) => Err(e),
        }
    }

    open spec fn spec_valid(v: Option<T::V>) -> bool {
        match v {
            Some(x) => T::spec_valid(x),
            None => true,
        }
    }

    fn deserialize_from(bytes: &[u8], pos: usize) -> (r: Result<(Option<T>, usize), Error>) {
        let (tag, p) = match read_u8(bytes, pos) {
            Ok(x) => x,
            Err(e) => return Err(e),
        };
        proof {
            lemma_skip_skip(bytes@, pos as int, 1);
        }
        match tag {
            0 => Ok((None, p)),
            1 => {
                let (v, p) = match T::deserialize_from(bytes, p) {
                    Ok(x) => x,
                    Err(e) => return Err(e),
                };
                Ok((Some(v), p))
            },
            _ => Err(Error::UnknownOption),
        }
    }

    proof fn lemma_consumed(s: Seq<u8>) {
        if s.len() >= 1 {
            T::lemma_consumed(s.skip(1));
        }
    }

    proof fn lemma_roundtrip(v: Option<T::V>, rest: Seq<u8>) {
        match v {
            Some(x) => {
                let tail = T::spec_serialize(x) + rest;
                let s = Self::spec_serialize(v) + rest;
                assert(s =~= seq![1u8] + tail);
                lemma_append_skip(seq![1u8], tail);
                T::lemma_roundtrip(x, rest);
            },
            None => {
            },
        }
    }
}

/// Reads `n` values one after the other: the values and the bytes they took.
pub open spec fn de_items<T: BinaryDeserialize>(s: Seq<u8>, n: nat) -> Result<(Seq<T::V>, int), Error>
    decreases n,
{
    if n == 0 {
        Ok((Seq::empty(), 0))
    } else {
        match de_items::<T>(s, (n - 1) as nat) {
            Ok((items, k)) => match T::spec_deserialize(s.skip(k)) {
                Ok((v, m)) => Ok((items.push(v), k + m)),
                Err(e) => Err(e),
            },
            Err(e) => Err(e),
        }
    }
}

pub proof fn lemma_items_consumed<T: BinaryDeserialize>(s: Seq<u8>, n: nat)
    ensures
        de_items::<T>(s, n) matches Ok((items, k)) ==> 0 <= k <= s.len() && items.len() == n,
    decreases n,
{
    if n > 0 {
        lemma_items_consumed::<T>(s, (n - 1) as nat);
        if let Ok((items, k)) = de_items::<T>(s, (n - 1) as nat) {
            T::lemma_consumed(s.skip(k));
        }
    }
}

/// Once a read of items fails, reading more items fails the same way.
pub proof fn lemma_items_err<T: BinaryDeserialize>(s: Seq<u8>, i: nat, n: nat)
    requires
        i <= n,
        de_items::<T>(s, i) is Err,
    ensures
        de_items::<T>(s, n) == de_items::<T>(s, i),
    decreases n,
{
    if i < n {
        lemma_items_err::<T>(s, i, (n - 1) as nat);
    }
}

pub proof fn lemma_items_roundtrip<T: BinaryDeserialize>(v: Seq<T::V>, rest: Seq<u8>)
    requires
        forall|i: int| 0 <= i < v.len() ==> T::spec_valid(#[trigger] v[i]) && T::spec_serializable(v[i]),
    ensures
        de_items::<T>(ser_items::<T>(v) + rest, v.len()) == Ok::<(Seq<T::V>, int), Error>(
            (v, ser_items::<T>(v).len() as int),
        ),
    decreases v.len(),
{
    if v.len() > 0 {
        let init = v.drop_last();
        let last = v.last();
        let tail = T::spec_serialize(last) + rest;
        let s = ser_items::<T>(v) + rest;
        assert(ser_items::<T>(v) == ser_items::<T>(init) + T::spec_serialize(last));
        assert(s =~= ser_items::<T>(init) + tail);
        assert forall|i: int| 0 <= i < init.len() implies T::spec_valid(#[trigger] init[i]) && T::spec_serializable(init[i]) by {
            assert(init[i] == v[i]);
        }
        lemma_items_roundtrip::<T>(init, tail);
        let k = ser_items::<T>(init).len() as int;
        assert(de_items::<T>(s, init.len()) == Ok::<(Seq<T::V>, int), Error>((init, k)));
        lemma_append_skip(ser_items::<T>(init), tail);
        assert(s.skip(k) == tail);
        assert(T::spec_valid(v[v.len() - 1]) && T::spec_serializable(v[v.len() - 1]));
        T::lemma_roundtrip(last, rest);
        assert(init.push(last) =~= v);
        assert((v.len() - 1) as nat == init.len());
    } else {
        assert(v =~= Seq::<T::V>::empty());
    }
}

fn deserialize_items<T: BinaryDeserialize>(bytes: &[u8], pos: usize, n: u32) -> (r: Result<(Vec<T>, usize), Error>)
    requires
        pos <= bytes@.len(),
    ensures
        match de_items::<T>(bytes@.skip(pos as int), n as nat) {
            Ok((v, k)) => r matches Ok((x, p)) && x.deep_view() == v && p == pos + k,
            Err(e) => r matches Err(e2) && e2 == e,
        },
{
    let ghost s = bytes@.skip(pos as int);
    let mut result: Vec<T> = Vec::new();
    proof {
        assert(result.deep_view() =~= Seq::<T::V>::empty());
    }
    let mut p = pos;
    let mut i: u32 = 0;
    while i < n
        invariant
            s == bytes@.skip(pos as int),
            pos <= p <= bytes@.len(),
            i <= n,
            de_items::<T>(s, i as nat) == Ok::<(Seq<T::V>, int), Error>((result.deep_view(), p - pos)),
        decreases n - i,
    {
        proof {
            lemma_skip_skip(bytes@, pos as int, p - pos);
            T::lemma_consumed(bytes@.skip(p as int));
        }
        let ghost prev = result.deep_view();
        let (v, q) = match T::deserialize_from(bytes, p) {
            Ok(x) => x,
            Err(e) => {
                proof {
                    lemma_items_err::<T>(s, (i + 1) as nat, n as nat);
                }
                return Err(e);
            },
        };
        result.push(v);
        proof {
            assert(result.deep_view() =~= prev.push(v.deep_view()));
        }
        p = q;
        i = i + 1;
    }
    Ok((result, p))
}

impl<T: BinaryDeserialize> BinaryDeserialize for Vec<T> {
    open spec fn spec_deserialize(s: Seq<u8>) -> Result<(Seq<T::V>, int), Error> {
        match de_u32(s) {
            Ok((len, _)) => match de_items::<T>(s.skip(4), len as nat) {
                Ok((items, k)) => Ok((items, 4 + k)),
                Err(e) => Err(e),
            },
            Err(e) => Err(e),
        }
    }

    open spec fn spec_valid(v: Seq<T::V>) -> bool {
        forall|i: int| 0 <= i < v.len() ==> T::spec_valid(#[trigger] v[i])
    }

    fn deserialize_from(bytes: &[u8], pos: usize) -> (r: Result<(Vec<T>, usize), Error>) {
        let (len, p) = match read_u32(bytes, pos) {
            Ok(x) => x,
            Err(e) => return Err(e),
        };
        proof {
            lemma_skip_skip(bytes@, pos as int, 4);
        }
        deserialize_items::<T>(bytes, p, len)
    }

    proof fn lemma_consumed(s: Seq<u8>) {
        if let Ok((len, _)) = de_u32(s) {
            lemma_items_consumed::<T>(s.skip(4), len as nat);
        }
    }

    proof fn lemma_roundtrip(v: Seq<T::V>, rest: Seq<u8>) {
        let tail = ser_items::<T>(v) + rest;
        assert(Self::spec_serialize(v) + rest =~= le_u32(v.len() as u32) + tail);
        lemma_u32_roundtrip(v.len() as u32, tail);
        lemma_append_skip(le_u32(v.len() as u32), tail);
        lemma_items_roundtrip::<T>(v, rest);
    }
}


/// Calls `String::from_utf8`, which succeeds exactly when the bytes are valid
/// UTF-8 and then holds the characters they encode.
#[verifier::external_body]
fn string_from_utf8(v: Vec<u8>) -> (r: Option<String>)
    ensures
        r is Some <==> valid_utf8(v@),
        r matches Some(s) ==> s@ == decode_utf8(v@),
{
    String::from_utf8(v).ok()
}

/// Reads a string: a length, then that many bytes of UTF-8.
pub open spec fn de_chars(s: Seq<u8>) -> Result<(Seq<char>, int), Error> {
    match de_u32(s) {
        Ok((len, _)) => if s.len() - 4 < len {
            Err(Error::UnexpectedEof)
        } else if valid_utf8(s.subrange(4, 4 + len)) {
            Ok((decode_utf8(s.subrange(4, 4 + len)), 4 + len))
        } else {
            Err(Error::InvalidUtf8)
        },
        Err(e) => Err(e),
    }
}

impl<'a> BinaryDeserialize for Str<'a> {
    open spec fn spec_deserialize(s: Seq<u8>) -> Result<(Seq<char>, int), Error> {
        de_chars(s)
    }

    open spec fn spec_valid(v: Seq<char>) -> bool {
        true
    }

    fn deserialize_from(bytes: &[u8], pos: usize) -> (r: Result<(Str<'a>, usize), Error>) {
        let (len, p) = match read_u32(bytes, pos) {
            Ok(x) => x,
            Err(e) => return Err(e),
        };
        if ((bytes.len() - p) as u64) < (len as u64) {
            return Err(Error::UnexpectedEof);
        }
        let len = len as usize;
        let mut data: Vec<u8> = Vec::new();
        let mut i: usize = 0;
        while i < len
            invariant
                p + len <= bytes@.len(),
                i <= len,
                data@ == bytes@.subrange(p as int, p + i),
            decreases len - i,
        {
            data.push(bytes[p + i]);
            proof {
                assert(data@ =~= bytes@.subrange(p as int, p + i + 1));
            }
            i = i + 1;
        }
        proof {
            assert(bytes@.skip(pos as int).subrange(4, 4 + len) =~= bytes@.subrange(p as int, p + len));
        }
        match string_from_utf8(data) {
            Some(string) => Ok((Str::Owned(string), p + len)),
            None => Err(Error::InvalidUtf8),
        }
    }

    proof fn lemma_consumed(s: Seq<u8>) {
    }

    proof fn lemma_roundtrip(v: Seq<char>, rest: Seq<u8>) {
        let bytes = encode_utf8(v);
        let len = bytes.len() as u32;
        let s = ser_chars(v) + rest;
        assert(s =~= le_u32(len) + (bytes + rest));
        lemma_u32_roundtrip(len, bytes + rest);
        assert(s.subrange(4, 4 + len) =~= bytes);
        vstd::utf8::encode_utf8_valid_utf8(v);
        vstd::utf8::encode_utf8_decode_utf8(v);
    }
}


/// A capability number, read back only if the `spirv` crate knows it.
pub struct CapabilityCode(pub u32);

/// An execution model number, read back only if the `spirv` crate knows it.
pub struct ExecutionModelCode(pub u32);

/// A memory model number, read back only if the `spirv` crate knows it.
pub struct MemoryModelCode(pub u32);

impl DeepView for CapabilityCode {
    type V = u32;

    open spec fn deep_view(&self) -> u32 {
        self.0
    }
}

impl DeepView for ExecutionModelCode {
    type V = u32;

    open spec fn deep_view(&self) -> u32 {
        self.0
    }
}

impl DeepView for MemoryModelCode {
    type V = u32;

    open spec fn deep_view(&self) -> u32 {
        self.0
    }
}

impl BinarySerialize for CapabilityCode {
    open spec fn spec_serializable(v: u32) -> bool {
        true
    }

    open spec fn spec_serialize(v: u32) -> Seq<u8> {
        le_u32(v)
    }

    fn serialize_into(&self, out: &mut Vec<u8>) -> (r: Result<(), Error>) {
        write_u32(out, self.0);
        Ok(())
    }
}

impl BinarySerialize for ExecutionModelCode {
    open spec fn spec_serializable(v: u32) -> bool {
        true
    }

    open spec fn spec_serialize(v: u32) -> Seq<u8> {
        le_u32(v)
    }

    fn serialize_into(&self, out: &mut Vec<u8>) -> (r: Result<(), Error>) {
        write_u32(out, self.0);
        Ok(())
    }
}

impl BinarySerialize for MemoryModelCode {
    open spec fn spec_serializable(v: u32) -> bool {
        true
    }

    open spec fn spec_serialize(v: u32) -> Seq<u8> {
        le_u32(v)
    }

    fn serialize_into(&self, out: &mut Vec<u8>) -> (r: Result<(), Error>) {
        write_u32(out, self.0);
        Ok(())
    }
}

/// Reads a number and keeps it only if `known` holds of it.
pub open spec fn de_known(s: Seq<u8>, known: spec_fn(u32) -> bool, err: Error) -> Result<(u32, int), Error> {
    match de_u32(s) {
        Ok((x, n)) => if known(x) { Ok((x, n)) } else { Err(err) },
        Err(e) => Err(e),
    }
}

impl BinaryDeserialize for CapabilityCode {
    open spec fn spec_deserialize(s: Seq<u8>) -> Result<(u32, int), Error> {
        de_known(s, |x: u32| is_capability(x), Error::UnknownCapability)
    }

    open spec fn spec_valid(v: u32) -> bool {
        is_capability(v)
    }

    fn deserialize_from(bytes: &[u8], pos: usize) -> (r: Result<(CapabilityCode, usize), Error>) {
        let (x, p) = match read_u32(bytes, pos) {
            Ok(x) => x,
            Err(e) => return Err(e),
        };
        match capability_from_u32(x) {
            Some(c) => Ok((CapabilityCode(c), p)),
            None => Err(Error::UnknownCapability),
        }
    }

    proof fn lemma_consumed(s: Seq<u8>) {
    }

    proof fn lemma_roundtrip(v: u32, rest: Seq<u8>) {
        lemma_u32_roundtrip(v, rest);
    }
}

impl BinaryDeserialize for ExecutionModelCode {
    open spec fn spec_deserialize(s: Seq<u8>) -> Result<(u32, int), Error> {
        de_known(s, |x: u32| is_execution_model(x), Error::UnknownExecutionModel)
    }

    open spec fn spec_valid(v: u32) -> bool {
        is_execution_model(v)
    }

    fn deserialize_from(bytes: &[u8], pos: usize) -> (r: Result<(ExecutionModelCode, usize), Error>) {
        let (x, p) = match read_u32(bytes, pos) {
            Ok(x) => x,
            Err(e) => return Err(e),
        };
        match execution_model_from_u32(x) {
            Some(c) => Ok((ExecutionModelCode(c), p)),
            None => Err(Error::UnknownExecutionModel),
        }
    }

    proof fn lemma_consumed(s: Seq<u8>) {
    }

    proof fn lemma_roundtrip(v: u32, rest: Seq<u8>) {
        lemma_u32_roundtrip(v, rest);
    }
}

impl BinaryDeserialize for MemoryModelCode {
    open spec fn spec_deserialize(s: Seq<u8>) -> Result<(u32, int), Error> {
        de_known(s, |x: u32| is_memory_model(x), Error::UnknownMemoryModel)
    }

    open spec fn spec_valid(v: u32) -> bool {
        is_memory_model(v)
    }

    fn deserialize_from(bytes: &[u8], pos: usize) -> (r: Result<(MemoryModelCode, usize), Error>) {
        let (x, p) = match read_u32(bytes, pos) {
            Ok(x) => x,
            Err(e) => return Err(e),
        };
        match memory_model_from_u32(x) {
            Some(c) => Ok((MemoryModelCode(c), p)),
            None => Err(Error::UnknownMemoryModel),
        }
    }

    proof fn lemma_consumed(s: Seq<u8>) {
    }

    proof fn lemma_roundtrip(v: u32, rest: Seq<u8>) {
        lemma_u32_roundtrip(v, rest);
    }
}

proof fn lemma_code_items(s: Seq<u32>)
    ensures
        ser_items::<u32>(s) == ser_items::<CapabilityCode>(s),
    decreases s.len(),
{
    if s.len() > 0 {
        lemma_code_items(s.drop_last());
    }
}

fn codes_to_capabilities(codes: Vec<CapabilityCode>) -> (r: Vec<u32>)
    ensures
        r@ == codes.deep_view(),
{
    let mut r: Vec<u32> = Vec::new();
    let mut i: usize = 0;
    while i < codes.len()
        invariant
            i <= codes@.len(),
            r@ == codes.deep_view().take(i as int),
        decreases codes@.len() - i,
    {
        r.push(codes[i].0);
        proof {
            assert(r@ =~= codes.deep_view().take(i + 1));
        }
        i = i + 1;
    }
    proof {
        assert(codes.deep_view().take(codes@.len() as int) =~= codes.deep_view());
    }
    r
}

impl BinaryDeserialize for CapabilityModel {
    open spec fn spec_deserialize(s: Seq<u8>) -> Result<(CapabilityModelView, int), Error> {
        match de_u8(s) {
            Ok((kind, _)) => match Vec::<CapabilityCode>::spec_deserialize(s.skip(1)) {
                Ok((caps, k)) => if kind == 0 {
                    Ok((CapabilityModelView { is_static: true, capabilities: caps }, 1 + k))
                } else if kind == 1 {
                    Ok((CapabilityModelView { is_static: false, capabilities: caps }, 1 + k))
                } else {
                    Err(Error::UnknownCapabilityModel)
                },
                Err(e) => Err(e),
            },
            Err(e) => Err(e),
        }
    }

    open spec fn spec_valid(v: CapabilityModelView) -> bool {
        forall|i: int| 0 <= i < v.capabilities.len() ==> is_capability(#[trigger] v.capabilities[i])
    }

    fn deserialize_from(bytes: &[u8], pos: usize) -> (r: Result<(CapabilityModel, usize), Error>) {
        let (kind, p) = match read_u8(bytes, pos) {
            Ok(x) => x,
            Err(e) => return Err(e),
        };
        proof {
            lemma_skip_skip(bytes@, pos as int, 1);
        }
        let (codes, p) = match Vec::<CapabilityCode>::deserialize_from(bytes, p) {
            Ok(x) => x,
            Err(e) => return Err(e),
        };
        let capabilities = codes_to_capabilities(codes);
        match kind {
            0 => Ok((CapabilityModel::Static(capabilities), p)),
            1 => Ok((CapabilityModel::Dynamic(capabilities), p)),
            _ => Err(Error::UnknownCapabilityModel),
        }
    }

    proof fn lemma_consumed(s: Seq<u8>) {
        if s.len() >= 1 {
            Vec::<CapabilityCode>::lemma_consumed(s.skip(1));
        }
    }

    proof fn lemma_roundtrip(v: CapabilityModelView, rest: Seq<u8>) {
        let caps = v.capabilities;
        let tail = ser_list::<u32>(caps) + rest;
        assert(Self::spec_serialize(v) + rest =~= seq![if v.is_static { 0u8 } else { 1u8 }] + tail);
        lemma_append_skip(seq![if v.is_static { 0u8 } else { 1u8 }], tail);
        lemma_code_items(caps);
        Vec::<CapabilityCode>::lemma_roundtrip(caps, rest);
    }
}

impl BinaryDeserialize for Parameter {
    open spec fn spec_deserialize(s: Seq<u8>) -> Result<(Parameter, int), Error> {
        match Option::<Type>::spec_deserialize(s) {
            Ok((ty, n)) => if 0 <= n <= s.len() {
                match ParameterKind::spec_deserialize(s.skip(n)) {
                    Ok((kind, m)) => Ok((Parameter { ty, kind }, n + m)),
                    Err(e) => Err(e),
                }
            } else {
                Err(Error::Unexpected)
            },
            Err(e) => Err(e),
        }
    }

    open spec fn spec_valid(v: Parameter) -> bool {
        Option::<Type>::spec_valid(v.ty) && ParameterKind::spec_valid(v.kind)
    }

    fn deserialize_from(bytes: &[u8], pos: usize) -> (r: Result<(Parameter, usize), Error>) {
        proof {
            Option::<Type>::lemma_consumed(bytes@.skip(pos as int));
        }
        let (ty, p) = match Option::<Type>::deserialize_from(bytes, pos) {
            Ok(x) => x,
            Err(e) => return Err(e),
        };
        proof {
            lemma_skip_skip(bytes@, pos as int, p - pos);
            assert(ty.deep_view() == ty);
        }
        let (kind, p) = match ParameterKind::deserialize_from(bytes, p) {
            Ok(x) => x,
            Err(e) => return Err(e),
        };
        Ok((Parameter { ty, kind }, p))
    }

    proof fn lemma_consumed(s: Seq<u8>) {
        Option::<Type>::lemma_consumed(s);
        if let Ok((ty, n)) = Option::<Type>::spec_deserialize(s) {
            ParameterKind::lemma_consumed(s.skip(n));
        }
    }

    proof fn lemma_roundtrip(v: Parameter, rest: Seq<u8>) {
        let a = Option::<Type>::spec_serialize(v.ty);
        let tail = ParameterKind::spec_serialize(v.kind) + rest;
        assert(Self::spec_serialize(v) + rest =~= a + tail);
        Option::<Type>::lemma_roundtrip(v.ty, tail);
        lemma_append_skip(a, tail);
        ParameterKind::lemma_roundtrip(v.kind, rest);
    }
}


/// Reads `n` key/value pairs one after the other.
pub open spec fn de_pair_items<T: BinaryDeserialize>(s: Seq<u8>, n: nat) -> Result<(Seq<(u32, T::V)>, int), Error>
    decreases n,
{
    if n == 0 {
        Ok((Seq::empty(), 0))
    } else {
        match de_pair_items::<T>(s, (n - 1) as nat) {
            Ok((items, k)) => match de_u32(s.skip(k)) {
                Ok((key, _)) => match T::spec_deserialize(s.skip(k + 4)) {
                    Ok((v, m)) => Ok((items.push((key, v)), k + 4 + m)),
                    Err(e) => Err(e),
                },
                Err(e) => Err(e),
            },
            Err(e) => Err(e),
        }
    }
}

/// Reads a map: a length, then that many pairs, each inserted in turn.
pub open spec fn de_map<T: BinaryDeserialize>(s: Seq<u8>) -> Result<(Seq<(u32, T::V)>, int), Error> {
    match de_u32(s) {
        Ok((len, _)) => match de_pair_items::<T>(s.skip(4), len as nat) {
            Ok((pairs, k)) => Ok((appended(Seq::empty(), pairs), 4 + k)),
            Err(e) => Err(e),
        },
        Err(e) => Err(e),
    }
}

/// A map that reading can give back: distinct keys and valid values.
pub open spec fn map_valid<T: BinaryDeserialize>(v: Seq<(u32, T::V)>) -> bool {
    unique_keys(v) && forall|i: int| 0 <= i < v.len() ==> T::spec_valid(#[trigger] v[i].1)
}

pub proof fn lemma_pair_items_consumed<T: BinaryDeserialize>(s: Seq<u8>, n: nat)
    ensures
        de_pair_items::<T>(s, n) matches Ok((items, k)) ==> 0 <= k <= s.len() && items.len() == n,
    decreases n,
{
    if n > 0 {
        lemma_pair_items_consumed::<T>(s, (n - 1) as nat);
        if let Ok((items, k)) = de_pair_items::<T>(s, (n - 1) as nat) {
            if let Ok((key, _)) = de_u32(s.skip(k)) {
                T::lemma_consumed(s.skip(k + 4));
            }
        }
    }
}

pub proof fn lemma_pair_items_err<T: BinaryDeserialize>(s: Seq<u8>, i: nat, n: nat)
    requires
        i <= n,
        de_pair_items::<T>(s, i) is Err,
    ensures
        de_pair_items::<T>(s, n) == de_pair_items::<T>(s, i),
    decreases n,
{
    if i < n {
        lemma_pair_items_err::<T>(s, i, (n - 1) as nat);
    }
}

#[verifier::spinoff_prover]
#[verifier::rlimit(60)]
pub proof fn lemma_pair_items_roundtrip<T: BinaryDeserialize>(v: Seq<(u32, T::V)>, rest: Seq<u8>)
    requires
        forall|i: int| 0 <= i < v.len() ==> T::spec_valid(#[trigger] v[i].1) && T::spec_serializable(v[i].1),
    ensures
        de_pair_items::<T>(ser_pair_items::<T>(v) + rest, v.len()) == Ok::<(Seq<(u32, T::V)>, int), Error>(
            (v, ser_pair_items::<T>(v).len() as int),
        ),
    decreases v.len(),
{
    if v.len() > 0 {
        let init = v.drop_last();
        let last = v.last();
        let tail = le_u32(last.0) + (T::spec_serialize(last.1) + rest);
        let s = ser_pair_items::<T>(v) + rest;
        assert(s =~= ser_pair_items::<T>(init) + tail);
        assert forall|i: int| 0 <= i < init.len() implies T::spec_valid(#[trigger] init[i].1) && T::spec_serializable(init[i].1) by {
            assert(init[i] == v[i]);
        }
        lemma_pair_items_roundtrip::<T>(init, tail);
        let k = ser_pair_items::<T>(init).len() as int;
        lemma_append_skip(ser_pair_items::<T>(init), tail);
        assert(s.skip(k) == tail);
        lemma_u32_roundtrip(last.0, T::spec_serialize(last.1) + rest);
        assert(s.skip(k + 4) =~= T::spec_serialize(last.1) + rest);
        assert(T::spec_valid(v[v.len() - 1].1) && T::spec_serializable(v[v.len() - 1].1));
        T::lemma_roundtrip(last.1, rest);
        assert(init.push((last.0, last.1)) =~= v);
        assert((v.len() - 1) as nat == init.len());
    } else {
        assert(v =~= Seq::<(u32, T::V)>::empty());
    }
}

#[verifier::spinoff_prover]
#[verifier::rlimit(60)]
pub proof fn lemma_map_roundtrip<T: BinaryDeserialize>(v: Seq<(u32, T::V)>, rest: Seq<u8>)
    requires
        map_valid::<T>(v),
        v.len() <= u32::MAX,
        forall|i: int| 0 <= i < v.len() ==> T::spec_serializable(#[trigger] v[i].1),
    ensures
        de_map::<T>(ser_pairs::<T>(v) + rest) == Ok::<(Seq<(u32, T::V)>, int), Error>(
            (v, ser_pairs::<T>(v).len() as int),
        ),
{
    let tail = ser_pair_items::<T>(v) + rest;
    assert(ser_pairs::<T>(v) + rest =~= le_u32(v.len() as u32) + tail);
    lemma_u32_roundtrip(v.len() as u32, tail);
    lemma_append_skip(le_u32(v.len() as u32), tail);
    lemma_pair_items_roundtrip::<T>(v, rest);
    lemma_appended_unique(v);
}

pub proof fn lemma_map_consumed<T: BinaryDeserialize>(s: Seq<u8>)
    ensures
        de_map::<T>(s) matches Ok((v, n)) ==> 0 <= n <= s.len(),
{
    if let Ok((len, _)) = de_u32(s) {
        lemma_pair_items_consumed::<T>(s.skip(4), len as nat);
    }
}

#[verifier::spinoff_prover]
#[verifier::rlimit(60)]
fn deserialize_parameter_map(bytes: &[u8], pos: usize) -> (r: Result<(vector_mapp::vec::VecMap<u32, Parameter>, usize), Error>)
    requires
        pos <= bytes@.len(),
    ensures
        match de_map::<Parameter>(bytes@.skip(pos as int)) {
            Ok((v, n)) => r matches Ok((m, p)) && parameter_entries(m) == v && p == pos + n,
            Err(e) => r matches Err(e2) && e2 == e,
        },
{
    let (len, p0) = match read_u32(bytes, pos) {
        Ok(x) => x,
        Err(e) => return Err(e),
    };
    proof {
        lemma_skip_skip(bytes@, pos as int, 4);
    }
    let ghost s = bytes@.skip(p0 as int);
    let ghost whole = bytes@.skip(pos as int);
    let mut map = new_parameter_map();
    let ghost mut pairs: Seq<(u32, Parameter)> = Seq::empty();
    let mut p = p0;
    let mut i: u32 = 0;
    while i < len
        invariant
            s == bytes@.skip(p0 as int),
            whole == bytes@.skip(pos as int),
            p0 == pos + 4,
            whole.skip(4) == s,
            de_u32(whole) == Ok::<(u32, int), Error>((len, 4)),
            p0 <= p <= bytes@.len(),
            i <= len,
            de_pair_items::<Parameter>(s, i as nat) == Ok::<(Seq<(u32, Parameter)>, int), Error>((pairs, p - p0)),
            parameter_entries(map) == appended(Seq::<(u32, Parameter)>::empty(), pairs),
        decreases len - i,
    {
        proof {
            lemma_skip_skip(bytes@, p0 as int, p - p0);
        }
        let (key, q) = match read_u32(bytes, p) {
            Ok(x) => x,
            Err(e) => {
                proof {
                    assert(de_pair_items::<Parameter>(s, (i + 1) as nat) == Err::<(Seq<(u32, Parameter)>, int), Error>(e));
                    lemma_pair_items_err::<Parameter>(s, (i + 1) as nat, len as nat);
                }
                return Err(e);
            },
        };
        proof {
            lemma_skip_skip(bytes@, p0 as int, q - p0);
            Parameter::lemma_consumed(bytes@.skip(q as int));
        }
        let (value, q2) = match Parameter::deserialize_from(bytes, q) {
            Ok(x) => x,
            Err(e) => {
                proof {
                    assert(s.skip(p - p0 + 4) == bytes@.skip(q as int));
                    assert(de_pair_items::<Parameter>(s, (i + 1) as nat) == Err::<(Seq<(u32, Parameter)>, int), Error>(e));
                    lemma_pair_items_err::<Parameter>(s, (i + 1) as nat, len as nat);
                }
                return Err(e);
            },
        };
        proof {
            assert(s.skip(p - p0 + 4) == bytes@.skip(q as int));
            let ghost before = pairs;
            pairs = pairs.push((key, value));
            assert(pairs.drop_last() =~= before);
            assert(appended(Seq::<(u32, Parameter)>::empty(), pairs) == inserted(appended(Seq::<(u32, Parameter)>::empty(), pairs.drop_last()), key, value));
        }
        let _ = insert_parameter(&mut map, key, value);
        p = q2;
        i = i + 1;
    }
    Ok((map, p))
}


impl BinaryDeserialize for FunctionConfig {
    open spec fn spec_deserialize(s: Seq<u8>) -> Result<(FunctionConfigView, int), Error> {
        match Option::<ExecutionModelCode>::spec_deserialize(s) {
            Ok((execution_model, a)) => match Vec::<ExecutionMode>::spec_deserialize(s.skip(a)) {
                Ok((execution_modes, b)) => match de_map::<Parameter>(s.skip(a + b)) {
                    Ok((params, c)) => Ok(
                        (FunctionConfigView { execution_model, execution_modes, params }, a + b + c),
                    ),
                    Err(e) => Err(e),
                },
                Err(e) => Err(e),
            },
            Err(e) => Err(e),
        }
    }

    open spec fn spec_valid(v: FunctionConfigView) -> bool {
        &&& Option::<ExecutionModelCode>::spec_valid(v.execution_model)
        &&& map_valid::<Parameter>(v.params)
    }

    fn deserialize_from(bytes: &[u8], pos: usize) -> (r: Result<(FunctionConfig, usize), Error>) {
        proof {
            Option::<ExecutionModelCode>::lemma_consumed(bytes@.skip(pos as int));
        }
        let (model, p) = match Option::<ExecutionModelCode>::deserialize_from(bytes, pos) {
            Ok(x) => x,
            Err(e) => return Err(e),
        };
        let execution_model = match model {
            Some(c) => Some(c.0),
            None => None,
        };
        proof {
            lemma_skip_skip(bytes@, pos as int, p - pos);
            Vec::<ExecutionMode>::lemma_consumed(bytes@.skip(p as int));
        }
        let (execution_modes, q) = match Vec::<ExecutionMode>::deserialize_from(bytes, p) {
            Ok(x) => x,
            Err(e) => return Err(e),
        };
        proof {
            lemma_skip_skip(bytes@, pos as int, q - pos);
            assert(execution_modes.deep_view() =~= execution_modes@);
        }
        let (params, end) = match deserialize_parameter_map(bytes, q) {
            Ok(x) => x,
            Err(e) => return Err(e),
        };
        Ok((FunctionConfig { execution_model, execution_modes, params }, end))
    }

    proof fn lemma_consumed(s: Seq<u8>) {
        Option::<ExecutionModelCode>::lemma_consumed(s);
        if let Ok((m, a)) = Option::<ExecutionModelCode>::spec_deserialize(s) {
            Vec::<ExecutionMode>::lemma_consumed(s.skip(a));
            if let Ok((modes, b)) = Vec::<ExecutionMode>::spec_deserialize(s.skip(a)) {
                lemma_map_consumed::<Parameter>(s.skip(a + b));
            }
        }
    }

    proof fn lemma_roundtrip(v: FunctionConfigView, rest: Seq<u8>) {
        let a = Option::<ExecutionModelCode>::spec_serialize(v.execution_model);
        let b = ser_list::<ExecutionMode>(v.execution_modes);
        let c = ser_pairs::<Parameter>(v.params);
        let s = Self::spec_serialize(v) + rest;
        assert(s =~= a + (b + (c + rest)));
        assert(s =~= (a + b) + (c + rest));
        Option::<ExecutionModelCode>::lemma_roundtrip(v.execution_model, b + (c + rest));
        lemma_append_skip(a, b + (c + rest));
        assert forall|i: int| 0 <= i < v.execution_modes.len() implies ExecutionMode::spec_valid(
            #[trigger] v.execution_modes[i],
        ) by {}
        Vec::<ExecutionMode>::lemma_roundtrip(v.execution_modes, c + rest);
        lemma_append_skip(a + b, c + rest);
        lemma_map_roundtrip::<Parameter>(v.params, rest);
    }
}


/// Inserting a configuration and then viewing the pairs is viewing the pairs
/// and then inserting the configuration's view.
proof fn lemma_function_views_inserted(e: Seq<(u32, FunctionConfig)>, k: u32, fc: FunctionConfig)
    ensures
        function_views(inserted(e, k, fc)) == inserted(function_views(e), k, fc.deep_view()),
{
    let w = function_views(e);
    assert forall|i: int| 0 <= i < e.len() implies e[i].0 == #[trigger] w[i].0 by {}
    lemma_first_key_index_map(e, w, k);
    lemma_first_key_index_bounds(e, k);
    match first_key_index(e, k) {
        Some(i) => {
            assert(function_views(e.update(i, (k, fc))) =~= w.update(i, (k, fc.deep_view())));
        },
        None => {
            assert(function_views(e.push((k, fc))) =~= w.push((k, fc.deep_view())));
        },
    }
}

#[verifier::spinoff_prover]
#[verifier::rlimit(60)]
fn deserialize_function_map(bytes: &[u8], pos: usize) -> (r: Result<(vector_mapp::vec::VecMap<u32, FunctionConfig>, usize), Error>)
    requires
        pos <= bytes@.len(),
    ensures
        match de_map::<FunctionConfig>(bytes@.skip(pos as int)) {
            Ok((v, n)) => r matches Ok((m, p)) && function_views(function_entries(m)) == v && p == pos + n,
            Err(e) => r matches Err(e2) && e2 == e,
        },
{
    let (len, p0) = match read_u32(bytes, pos) {
        Ok(x) => x,
        Err(e) => return Err(e),
    };
    proof {
        lemma_skip_skip(bytes@, pos as int, 4);
        assert(function_views(Seq::<(u32, FunctionConfig)>::empty()) =~= Seq::<(u32, FunctionConfigView)>::empty());
    }
    let ghost s = bytes@.skip(p0 as int);
    let ghost whole = bytes@.skip(pos as int);
    let mut map = new_function_map();
    let ghost mut pairs: Seq<(u32, FunctionConfigView)> = Seq::empty();
    let mut p = p0;
    let mut i: u32 = 0;
    while i < len
        invariant
            s == bytes@.skip(p0 as int),
            whole == bytes@.skip(pos as int),
            p0 == pos + 4,
            whole.skip(4) == s,
            de_u32(whole) == Ok::<(u32, int), Error>((len, 4)),
            p0 <= p <= bytes@.len(),
            i <= len,
            de_pair_items::<FunctionConfig>(s, i as nat) == Ok::<(Seq<(u32, FunctionConfigView)>, int), Error>(
                (pairs, p - p0),
            ),
            function_views(function_entries(map)) == appended(Seq::<(u32, FunctionConfigView)>::empty(), pairs),
        decreases len - i,
    {
        proof {
            lemma_skip_skip(bytes@, p0 as int, p - p0);
        }
        let (key, q) = match read_u32(bytes, p) {
            Ok(x) => x,
            Err(e) => {
                proof {
                    assert(de_pair_items::<FunctionConfig>(s, (i + 1) as nat) == Err::<(Seq<(u32, FunctionConfigView)>, int), Error>(e));
                    lemma_pair_items_err::<FunctionConfig>(s, (i + 1) as nat, len as nat);
                }
                return Err(e);
            },
        };
        proof {
            lemma_skip_skip(bytes@, p0 as int, q - p0);
            FunctionConfig::lemma_consumed(bytes@.skip(q as int));
        }
        let (value, q2) = match FunctionConfig::deserialize_from(bytes, q) {
            Ok(x) => x,
            Err(e) => {
                proof {
                    assert(s.skip(p - p0 + 4) == bytes@.skip(q as int));
                    assert(de_pair_items::<FunctionConfig>(s, (i + 1) as nat) == Err::<(Seq<(u32, FunctionConfigView)>, int), Error>(e));
                    lemma_pair_items_err::<FunctionConfig>(s, (i + 1) as nat, len as nat);
                }
                return Err(e);
            },
        };
        proof {
            assert(s.skip(p - p0 + 4) == bytes@.skip(q as int));
            let ghost before = pairs;
            pairs = pairs.push((key, value.deep_view()));
            assert(pairs.drop_last() =~= before);
            lemma_function_views_inserted(function_entries(map), key, value);
        }
        let _ = insert_function(&mut map, key, value);
        p = q2;
        i = i + 1;
    }
    Ok((map, p))
}


/// Reads a configuration: its fields in the order in which they are written.
#[verifier::opaque]
pub open spec fn de_config(s: Seq<u8>) -> Result<(ConfigView, int), Error> {
    match TargetPlatform::spec_deserialize(s) {
        Ok((platform, a)) => match WasmFeatures::spec_deserialize(s.skip(a)) {
            Ok((features, b)) => match AddressingModel::spec_deserialize(s.skip(a + b)) {
                Ok((addressing_model, c)) => match MemoryModelCode::spec_deserialize(s.skip(a + b + c)) {
                    Ok((memory_model, d)) => de_config_tail(
                        s.skip(a + b + c + d),
                        platform,
                        features,
                        addressing_model,
                        memory_model,
                        a + b + c + d,
                    ),
                    Err(e) => Err(e),
                },
                Err(e) => Err(e),
            },
            Err(e) => Err(e),
        },
        Err(e) => Err(e),
    }
}

/// Reads the fields of a configuration that follow the memory model, `n`
/// bytes into the encoding.
#[verifier::opaque]
pub open spec fn de_config_tail(
    s: Seq<u8>,
    platform: TargetPlatform,
    features: WasmFeatures,
    addressing_model: AddressingModel,
    memory_model: u32,
    n: int,
) -> Result<(ConfigView, int), Error> {
    match CapabilityModel::spec_deserialize(s) {
        Ok((capabilities, e)) => match Vec::<Str<'static>>::spec_deserialize(s.skip(e)) {
            Ok((extensions, f)) => match de_map::<FunctionConfig>(s.skip(e + f)) {
                Ok((functions, g)) => match MemoryGrowErrorKind::spec_deserialize(s.skip(e + f + g)) {
                    Ok((memory_grow_error, h)) => Ok(
                        (
                            ConfigView {
                                platform,
                                features,
                                addressing_model,
                                memory_model,
                                capabilities,
                                extensions,
                                memory_grow_error,
                                functions,
                            },
                            n + e + f + g + h,
                        ),
                    ),
                    Err(e) => Err(e),
                },
                Err(e) => Err(e),
            },
            Err(e) => Err(e),
        },
        Err(e) => Err(e),
    }
}

/// The configurations that reading can give back.
pub open spec fn config_valid(v: ConfigView) -> bool {
    &&& TargetPlatform::spec_valid(v.platform)
    &&& WasmFeatures::spec_valid(v.features)
    &&& AddressingModel::spec_valid(v.addressing_model)
    &&& is_memory_model(v.memory_model)
    &&& CapabilityModel::spec_valid(v.capabilities)
    &&& Vec::<Str<'static>>::spec_valid(v.extensions)
    &&& map_valid::<FunctionConfig>(v.functions)
    &&& MemoryGrowErrorKind::spec_valid(v.memory_grow_error)
}

fn deserialize_config_tail(
    bytes: &[u8],
    pos: usize,
    platform: TargetPlatform,
    features: WasmFeatures,
    addressing_model: AddressingModel,
    memory_model: u32,
    Ghost(n): Ghost<int>,
) -> (r: Result<(Config, usize), Error>)
    requires
        pos <= bytes@.len(),
    ensures
        match de_config_tail(bytes@.skip(pos as int), platform, features, addressing_model, memory_model, n) {
            Ok((v, k)) => r matches Ok((x, p)) && x.deep_view() == v && p - pos + n == k,
            Err(e) => r matches Err(e2) && e2 == e,
        },
{
    proof {
        reveal(de_config_tail);
        CapabilityModel::lemma_consumed(bytes@.skip(pos as int));
    }
    let (capabilities, p) = match CapabilityModel::deserialize_from(bytes, pos) {
        Ok(x) => x,
        Err(e) => return Err(e),
    };
    proof {
        reveal(de_config_tail);
        lemma_skip_skip(bytes@, pos as int, p - pos);
        Vec::<Str<'static>>::lemma_consumed(bytes@.skip(p as int));
    }
    let (extensions, q) = match Vec::<Str<'static>>::deserialize_from(bytes, p) {
        Ok(x) => x,
        Err(e) => return Err(e),
    };
    proof {
        lemma_skip_skip(bytes@, pos as int, q - pos);
        lemma_map_consumed::<FunctionConfig>(bytes@.skip(q as int));
    }
    let (functions, u) = match deserialize_function_map(bytes, q) {
        Ok(x) => x,
        Err(e) => return Err(e),
    };
    proof {
        lemma_skip_skip(bytes@, pos as int, u - pos);
    }
    let (memory_grow_error, end) = match MemoryGrowErrorKind::deserialize_from(bytes, u) {
        Ok(x) => x,
        Err(e) => return Err(e),
    };
    Ok((
        Config {
            platform,
            features,
            addressing_model,
            memory_model,
            capabilities,
            extensions,
            memory_grow_error,
            functions,
        },
        end,
    ))
}

impl BinaryDeserialize for Config {
    open spec fn spec_deserialize(s: Seq<u8>) -> Result<(ConfigView, int), Error> {
        de_config(s)
    }

    open spec fn spec_valid(v: ConfigView) -> bool {
        config_valid(v)
    }

    fn deserialize_from(bytes: &[u8], pos: usize) -> (r: Result<(Config, usize), Error>) {
        proof {
            reveal(de_config);
            TargetPlatform::lemma_consumed(bytes@.skip(pos as int));
        }
        let (platform, a) = match TargetPlatform::deserialize_from(bytes, pos) {
            Ok(x) => x,
            Err(e) => return Err(e),
        };
        proof {
            lemma_skip_skip(bytes@, pos as int, a - pos);
            WasmFeatures::lemma_consumed(bytes@.skip(a as int));
        }
        let (features, b) = match WasmFeatures::deserialize_from(bytes, a) {
            Ok(x) => x,
            Err(e) => return Err(e),
        };
        proof {
            lemma_skip_skip(bytes@, pos as int, b - pos);
            AddressingModel::lemma_consumed(bytes@.skip(b as int));
        }
        let (addressing_model, c) = match AddressingModel::deserialize_from(bytes, b) {
            Ok(x) => x,
            Err(e) => return Err(e),
        };
        proof {
            lemma_skip_skip(bytes@, pos as int, c - pos);
            MemoryModelCode::lemma_consumed(bytes@.skip(c as int));
        }
        let (memory_model, d) = match MemoryModelCode::deserialize_from(bytes, c) {
            Ok(x) => x,
            Err(e) => return Err(e),
        };
        proof {
            lemma_skip_skip(bytes@, pos as int, d - pos);
        }
        deserialize_config_tail(bytes, d, platform, features, addressing_model, memory_model.0, Ghost(d - pos))
    }

    proof fn lemma_consumed(s: Seq<u8>) {
        reveal(de_config);
        TargetPlatform::lemma_consumed(s);
        if let Ok((platform, a)) = TargetPlatform::spec_deserialize(s) {
            WasmFeatures::lemma_consumed(s.skip(a));
            if let Ok((features, b)) = WasmFeatures::spec_deserialize(s.skip(a)) {
                AddressingModel::lemma_consumed(s.skip(a + b));
                if let Ok((am, c)) = AddressingModel::spec_deserialize(s.skip(a + b)) {
                    MemoryModelCode::lemma_consumed(s.skip(a + b + c));
                    if let Ok((mm, d)) = MemoryModelCode::spec_deserialize(s.skip(a + b + c)) {
                        lemma_config_tail_consumed(s.skip(a + b + c + d), platform, features, am, mm, a + b + c + d);
                    }
                }
            }
        }
    }

    #[verifier::spinoff_prover]
    #[verifier::rlimit(60)]
    proof fn lemma_roundtrip(v: ConfigView, rest: Seq<u8>) {
        let p1 = TargetPlatform::spec_serialize(v.platform);
        let p2 = WasmFeatures::spec_serialize(v.features);
        let p3 = AddressingModel::spec_serialize(v.addressing_model);
        let p4 = le_u32(v.memory_model);
        let tail = config_tail_bytes(v);
        TargetPlatform::lemma_roundtrip(v.platform, p2 + (p3 + (p4 + (tail + rest))));
        WasmFeatures::lemma_roundtrip(v.features, p3 + (p4 + (tail + rest)));
        AddressingModel::lemma_roundtrip(v.addressing_model, p4 + (tail + rest));
        MemoryModelCode::lemma_roundtrip(v.memory_model, tail + rest);
        let n = (p1.len() + p2.len() + p3.len() + p4.len()) as int;
        lemma_config_tail_roundtrip(v, rest, n);
        lemma_config_head_steps(p1, p2, p3, p4, tail + rest, v);
        assert(ser_config(v) + rest =~= p1 + (p2 + (p3 + (p4 + (tail + rest)))));
    }
}

/// Reading the fields up to the memory model one after the other, then the
/// rest.
#[verifier::spinoff_prover]
#[verifier::rlimit(60)]
proof fn lemma_config_head_steps(p1: Seq<u8>, p2: Seq<u8>, p3: Seq<u8>, p4: Seq<u8>, tail: Seq<u8>, v: ConfigView)
    requires
        TargetPlatform::spec_deserialize(p1 + (p2 + (p3 + (p4 + tail)))) == Ok::<(TargetPlatform, int), Error>(
            (v.platform, p1.len() as int),
        ),
        WasmFeatures::spec_deserialize(p2 + (p3 + (p4 + tail))) == Ok::<(WasmFeatures, int), Error>(
            (v.features, p2.len() as int),
        ),
        AddressingModel::spec_deserialize(p3 + (p4 + tail)) == Ok::<(AddressingModel, int), Error>(
            (v.addressing_model, p3.len() as int),
        ),
        MemoryModelCode::spec_deserialize(p4 + tail) == Ok::<(u32, int), Error>((v.memory_model, p4.len() as int)),
    ensures
        de_config(p1 + (p2 + (p3 + (p4 + tail)))) == de_config_tail(
            tail,
            v.platform,
            v.features,
            v.addressing_model,
            v.memory_model,
            (p1.len() + p2.len() + p3.len() + p4.len()) as int,
        ),
{
    lemma_append_skip(p1, p2 + (p3 + (p4 + tail)));
    lemma_append_skip2(p1, p2, p3 + (p4 + tail));
    lemma_append_skip3(p1, p2, p3, p4 + tail);
    assert((p1 + (p2 + (p3 + (p4 + tail)))).skip((p1.len() + p2.len() + p3.len() + p4.len()) as int) =~= tail);
    reveal(de_config);
}

proof fn lemma_config_tail_consumed(
    s: Seq<u8>,
    platform: TargetPlatform,
    features: WasmFeatures,
    addressing_model: AddressingModel,
    memory_model: u32,
    n: int,
)
    ensures
        de_config_tail(s, platform, features, addressing_model, memory_model, n) matches Ok((v, k)) ==> n
            <= k <= n + s.len(),
{
    reveal(de_config_tail);
    CapabilityModel::lemma_consumed(s);
    if let Ok((caps, e)) = CapabilityModel::spec_deserialize(s) {
        Vec::<Str<'static>>::lemma_consumed(s.skip(e));
        if let Ok((exts, f)) = Vec::<Str<'static>>::spec_deserialize(s.skip(e)) {
            lemma_map_consumed::<FunctionConfig>(s.skip(e + f));
            if let Ok((fs, g)) = de_map::<FunctionConfig>(s.skip(e + f)) {
                MemoryGrowErrorKind::lemma_consumed(s.skip(e + f + g));
            }
        }
    }
}

#[verifier::spinoff_prover]
#[verifier::rlimit(40)]
proof fn lemma_config_tail_roundtrip(v: ConfigView, rest: Seq<u8>, n: int)
    requires
        config_valid(v),
        config_serializable(v),
    ensures
        de_config_tail(config_tail_bytes(v) + rest, v.platform, v.features, v.addressing_model, v.memory_model, n)
            == Ok::<(ConfigView, int), Error>((v, n + config_tail_bytes(v).len())),
{
    let q1 = CapabilityModel::spec_serialize(v.capabilities);
    let q2 = ser_list::<Str<'static>>(v.extensions);
    let q3 = ser_pairs::<FunctionConfig>(v.functions);
    let q4 = MemoryGrowErrorKind::spec_serialize(v.memory_grow_error);
    CapabilityModel::lemma_roundtrip(v.capabilities, q2 + (q3 + (q4 + rest)));
    Vec::<Str<'static>>::lemma_roundtrip(v.extensions, q3 + (q4 + rest));
    lemma_map_roundtrip::<FunctionConfig>(v.functions, q4 + rest);
    MemoryGrowErrorKind::lemma_roundtrip(v.memory_grow_error, rest);
    lemma_config_tail_steps(q1, q2, q3, q4, rest, v, n);
    assert(config_tail_bytes(v) + rest =~= q1 + (q2 + (q3 + (q4 + rest))));
}

/// Reading the fields after the memory model one after the other, each from
/// the bytes that the one before it left.
#[verifier::spinoff_prover]
#[verifier::rlimit(60)]
proof fn lemma_config_tail_steps(
    q1: Seq<u8>,
    q2: Seq<u8>,
    q3: Seq<u8>,
    q4: Seq<u8>,
    rest: Seq<u8>,
    v: ConfigView,
    n: int,
)
    requires
        CapabilityModel::spec_deserialize(q1 + (q2 + (q3 + (q4 + rest)))) == Ok::<(CapabilityModelView, int), Error>(
            (v.capabilities, q1.len() as int),
        ),
        Vec::<Str<'static>>::spec_deserialize(q2 + (q3 + (q4 + rest))) == Ok::<(Seq<Seq<char>>, int), Error>(
            (v.extensions, q2.len() as int),
        ),
        de_map::<FunctionConfig>(q3 + (q4 + rest)) == Ok::<(Seq<(u32, FunctionConfigView)>, int), Error>(
            (v.functions, q3.len() as int),
        ),
        MemoryGrowErrorKind::spec_deserialize(q4 + rest) == Ok::<(MemoryGrowErrorKind, int), Error>(
            (v.memory_grow_error, q4.len() as int),
        ),
    ensures
        de_config_tail(q1 + (q2 + (q3 + (q4 + rest))), v.platform, v.features, v.addressing_model, v.memory_model, n)
            == Ok::<(ConfigView, int), Error>((v, n + q1.len() + q2.len() + q3.len() + q4.len())),
{
    let t3 = q4 + rest;
    let t2 = q3 + t3;
    let t1 = q2 + t2;
    let s = q1 + t1;
    lemma_append_skip(q1, t1);
    lemma_append_skip2(q1, q2, t2);
    lemma_append_skip3(q1, q2, q3, t3);
    reveal(de_config_tail);
}

proof fn lemma_append_skip2(a: Seq<u8>, b: Seq<u8>, c: Seq<u8>)
    ensures
        (a + (b + c)).skip((a.len() + b.len()) as int) == c,
{
    assert((a + (b + c)).skip((a.len() + b.len()) as int) =~= c);
}

proof fn lemma_append_skip3(a: Seq<u8>, b: Seq<u8>, c: Seq<u8>, d: Seq<u8>)
    ensures
        (a + (b + (c + d))).skip((a.len() + b.len() + c.len()) as int) == d,
{
    assert((a + (b + (c + d))).skip((a.len() + b.len() + c.len()) as int) =~= d);
}

/// The encoding of the fields of a configuration that follow the memory model.
pub open spec fn config_tail_bytes(v: ConfigView) -> Seq<u8> {
    CapabilityModel::spec_serialize(v.capabilities) + ser_list::<Str<'static>>(v.extensions)
        + ser_pairs::<FunctionConfig>(v.functions) + MemoryGrowErrorKind::spec_serialize(v.memory_grow_error)
}

} // verus!
