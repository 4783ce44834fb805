//! Writing values in the binary encoding.
use vstd::prelude::*;
use crate::binary::bytes::{le_u16, le_u32, le_u64, write_u16, write_u32, write_u64, write_u8};
use crate::binary::views::{function_views, CapabilityModelView, ConfigView, FunctionConfigView};
use crate::config::{
    addressing_model_code, memory_grow_error_code, AddressingModel, CapabilityModel, Config,
    MemoryGrowErrorKind, WasmFeatures,
};
use crate::error::Error;
use crate::function::{ExecutionMode, FunctionConfig, Parameter, ParameterKind};
use crate::spv::Capability;
use crate::str::Str;
use crate::types::{scalar_type_code, CompositeType, PointerSize, ScalarType, Type};
use crate::vecmap::{function_entries, function_pairs, parameter_entries, parameter_pairs};
use crate::version::{TargetPlatform, Version};

verus! {

/// A value that can be written in the binary encoding.
pub trait BinarySerialize: DeepView {
    /// Whether every length in the value fits a 32-bit length prefix.
    spec fn spec_serializable(v: Self::V) -> bool;

    /// The encoding of a value.
    spec fn spec_serialize(v: Self::V) -> Seq<u8>;

    /// Appends the encoding of `self` to `out`; fails exactly when a length
    /// does not fit 32 bits.
    fn serialize_into(&self, out: &mut Vec<u8>) -> (r: Result<(), Error>)
        ensures
            r is Ok <==> Self::spec_serializable(self.deep_view()),
            r is Ok ==> final(out)@ == old(out)@ + Self::spec_serialize(self.deep_view()),
            r matches Err(e) ==> e == Error::LengthOverflow || e == Error::UnknownExecutionMode,
    ;
}

/// The encodings of the items of `s`, one after the other.
pub open spec fn ser_items<T: BinarySerialize>(s: Seq<T::V>) -> Seq<u8>
    decreases s.len(),
{
    if s.len() == 0 {
        Seq::empty()
    } else {
        ser_items::<T>(s.drop_last()) + T::spec_serialize(s.last())
    }
}

/// A length prefix followed by the encodings of the items.
pub open spec fn ser_list<T: BinarySerialize>(s: Seq<T::V>) -> Seq<u8> {
    le_u32(s.len() as u32) + ser_items::<T>(s)
}

pub open spec fn list_serializable<T: BinarySerialize>(s: Seq<T::V>) -> bool {
    s.len() <= u32::MAX && forall|i: int| 0 <= i < s.len() ==> T::spec_serializable(#[trigger] s[i])
}

impl BinarySerialize for bool {
    open spec fn spec_serializable(v: bool) -> bool {
        true
    }

    open spec fn spec_serialize(v: bool) -> Seq<u8> {
        seq![if v { 1u8 } else { 0u8 }]
    }

    fn serialize_into(&self, out: &mut Vec<u8>) -> (r: Result<(), Error>) {
        write_u8(out, if *self { 1 } else { 0 });
        Ok(())
    }
}

impl BinarySerialize for u8 {
    open spec fn spec_serializable(v: u8) -> bool {
        true
    }

    open spec fn spec_serialize(v: u8) -> Seq<u8> {
        seq![v]
    }

    fn serialize_into(&self, out: &mut Vec<u8>) -> (r: Result<(), Error>) {
        write_u8(out, *self);
        Ok(())
    }
}

impl BinarySerialize for u32 {
    open spec fn spec_serializable(v: u32) -> bool {
        true
    }

    open spec fn spec_serialize(v: u32) -> Seq<u8> {
        le_u32(v)
    }

    fn serialize_into(&self, out: &mut Vec<u8>) -> (r: Result<(), Error>) {
        write_u32(out, *self);
        Ok(())
    }
}

impl BinarySerialize for Version {
    open spec fn spec_serializable(v: Version) -> bool {
        true
    }

    open spec fn spec_serialize(v: Version) -> Seq<u8> {
        seq![v.major, v.minor]
    }

    fn serialize_into(&self, out: &mut Vec<u8>) -> (r: Result<(), Error>) {
        write_u8(out, self.major);
        write_u8(out, self.minor);
        assert(final(out)@ =~= old(out)@ + seq![self.major, self.minor]);
        Ok(())
    }
}

impl BinarySerialize for TargetPlatform {
    open spec fn spec_serializable(v: TargetPlatform) -> bool {
        true
    }

    open spec fn spec_serialize(v: TargetPlatform) -> Seq<u8> {
        match v {
            TargetPlatform::Vulkan(version) => le_u16(0) + Version::spec_serialize(version),
            TargetPlatform::Universal(version) => le_u16(1) + Version::spec_serialize(version),
        }
    }

    fn serialize_into(&self, out: &mut Vec<u8>) -> (r: Result<(), Error>) {
        match self {
            TargetPlatform::Vulkan(version) => {
                write_u16(out, 0);
                let _ = version.serialize_into(out);
            },
            TargetPlatform::Universal(version) => {
                write_u16(out, 1);
                let _ = version.serialize_into(out);
            },
        }
        assert(final(out)@ =~= old(out)@ + Self::spec_serialize(*self));
        Ok(())
    }
}

/// The bits that wasm features are stored as: bit 0 for `memory64`, bit 1
/// for `saturating_float_to_int`.
pub open spec fn features_bits(f: WasmFeatures) -> u64 {
    ((if f.memory64 { 1u64 } else { 0u64 }) + (if f.saturating_float_to_int { 2u64 } else { 0u64 })) as u64
}

impl WasmFeatures {
    pub fn into_integer(self) -> (r: u64)
        ensures
            r == features_bits(self),
    {
        (if self.memory64 { 1u64 } else { 0u64 }) + (if self.saturating_float_to_int { 2u64 } else { 0u64 })
    }
}

impl BinarySerialize for WasmFeatures {
    open spec fn spec_serializable(v: WasmFeatures) -> bool {
        true
    }

    open spec fn spec_serialize(v: WasmFeatures) -> Seq<u8> {
        le_u64(features_bits(v))
    }

    fn serialize_into(&self, out: &mut Vec<u8>) -> (r: Result<(), Error>) {
        write_u64(out, self.into_integer());
        Ok(())
    }
}

impl BinarySerialize for AddressingModel {
    open spec fn spec_serializable(v: AddressingModel) -> bool {
        true
    }

    open spec fn spec_serialize(v: AddressingModel) -> Seq<u8> {
        le_u16(addressing_model_code(v) as u16)
    }

    fn serialize_into(&self, out: &mut Vec<u8>) -> (r: Result<(), Error>) {
        let code = self.to_primitive();
        write_u16(out, code as u16);
        Ok(())
    }
}

impl BinarySerialize for MemoryGrowErrorKind {
    open spec fn spec_serializable(v: MemoryGrowErrorKind) -> bool {
        true
    }

    open spec fn spec_serialize(v: MemoryGrowErrorKind) -> Seq<u8> {
        le_u16(memory_grow_error_code(v) as u16)
    }

    fn serialize_into(&self, out: &mut Vec<u8>) -> (r: Result<(), Error>) {
        let code = self.to_primitive();
        write_u16(out, code as u16);
        Ok(())
    }
}

impl BinarySerialize for ScalarType {
    open spec fn spec_serializable(v: ScalarType) -> bool {
        true
    }

    open spec fn spec_serialize(v: ScalarType) -> Seq<u8> {
        le_u16(scalar_type_code(v))
    }

    fn serialize_into(&self, out: &mut Vec<u8>) -> (r: Result<(), Error>) {
        write_u16(out, self.to_primitive());
        Ok(())
    }
}

impl BinarySerialize for CompositeType {
    open spec fn spec_serializable(v: CompositeType) -> bool {
        true
    }

    open spec fn spec_serialize(v: CompositeType) -> Seq<u8> {
        match v {
            CompositeType::Vector(elem, count) => le_u16(2) + le_u16(scalar_type_code(elem)) + le_u32(count),
        }
    }

    fn serialize_into(&self, out: &mut Vec<u8>) -> (r: Result<(), Error>) {
        match self {
            CompositeType::Vector(elem, count) => {
                write_u16(out, 2);
                write_u16(out, elem.to_primitive());
                write_u32(out, *count);
            },
        }
        assert(final(out)@ =~= old(out)@ + Self::spec_serialize(*self));
        Ok(())
    }
}

/// The number that a pointer size is stored as.
pub open spec fn pointer_size_code(p: PointerSize) -> u16 {
    match p {
        PointerSize::Skinny => 0,
        PointerSize::Fat => 1,
    }
}

impl BinarySerialize for PointerSize {
    open spec fn spec_serializable(v: PointerSize) -> bool {
        true
    }

    open spec fn spec_serialize(v: PointerSize) -> Seq<u8> {
        le_u16(pointer_size_code(v))
    }

    fn serialize_into(&self, out: &mut Vec<u8>) -> (r: Result<(), Error>) {
        match self {
            PointerSize::Skinny => write_u16(out, 0),
            PointerSize::Fat => write_u16(out, 1),
        }
        Ok(())
    }
}

/// The encoding of a type: a tag, then the pointer's size, storage class and
/// pointee, or the scalar, or the composite.
pub open spec fn ser_type(t: Type) -> Seq<u8>
    decreases t,
{
    match t {
        Type::Pointer { size, storage_class, pointee } => le_u16(0) + le_u16(pointer_size_code(size))
            + le_u32(storage_class) + ser_type(*pointee),
        Type::Scalar(x) => le_u16(1) + le_u16(scalar_type_code(x)),
        Type::Composite(x) => le_u16(2) + CompositeType::spec_serialize(x),
    }
}

fn serialize_type(t: &Type, out: &mut Vec<u8>)
    ensures
        final(out)@ == old(out)@ + ser_type(*t),
    decreases t,
{
    match t {
        Type::Pointer { size, storage_class, pointee } => {
            write_u16(out, 0);
            let _ = size.serialize_into(out);
            write_u32(out, *storage_class);
            serialize_type(&**pointee, out);
        },
        Type::Scalar(x) => {
            write_u16(out, 1);
            write_u16(out, x.to_primitive());
        },
        Type::Composite(x) => {
            write_u16(out, 2);
            let _ = x.serialize_into(out);
        },
    }
    assert(final(out)@ =~= old(out)@ + ser_type(*t));
}

impl BinarySerialize for Type {
    open spec fn spec_serializable(v: Type) -> bool {
        true
    }

    open spec fn spec_serialize(v: Type) -> Seq<u8> {
        ser_type(v)
    }

    fn serialize_into(&self, out: &mut Vec<u8>) -> (r: Result<(), Error>) {
        serialize_type(self, out);
        Ok(())
    }
}

impl BinarySerialize for ExecutionMode {
    /// `DepthReplacing` has no encoding.
    open spec fn spec_serializable(v: ExecutionMode) -> bool {
        !(v is DepthReplacing)
    }

    open spec fn spec_serialize(v: ExecutionMode) -> Seq<u8> {
        match v {
            ExecutionMode::Invocations(x) => le_u16(0) + le_u32(x),
            ExecutionMode::PixelCenterInteger => le_u16(1),
            ExecutionMode::OriginUpperLeft => le_u16(2),
            ExecutionMode::OriginLowerLeft => le_u16(3),
            ExecutionMode::LocalSize(x, y, z) => le_u16(4) + le_u32(x) + le_u32(y) + le_u32(z),
            ExecutionMode::LocalSizeHint(x, y, z) => le_u16(5) + le_u32(x) + le_u32(y) + le_u32(z),
            ExecutionMode::DepthReplacing => Seq::empty(),
        }
    }

    fn serialize_into(&self, out: &mut Vec<u8>) -> (r: Result<(), Error>) {
        match self {
            ExecutionMode::Invocations(x) => {
                write_u16(out, 0);
                write_u32(out, *x);
            },
            ExecutionMode::PixelCenterInteger => write_u16(out, 1),
            ExecutionMode::OriginUpperLeft => write_u16(out, 2),
            ExecutionMode::OriginLowerLeft => write_u16(out, 3),
            ExecutionMode::LocalSize(x, y, z) => {
                write_u16(out, 4);
                write_u32(out, *x);
                write_u32(out, *y);
                write_u32(out, *z);
            },
            ExecutionMode::LocalSizeHint(x, y, z) => {
                write_u16(out, 5);
                write_u32(out, *x);
                write_u32(out, *y);
                write_u32(out, *z);
            },
            ExecutionMode::DepthReplacing => return Err(Error::UnknownExecutionMode),
        }
        assert(final(out)@ =~= old(out)@ + Self::spec_serialize(*self));
        Ok(())
    }
}

impl BinarySerialize for ParameterKind {
    open spec fn spec_serializable(v: ParameterKind) -> bool {
        true
    }

    open spec fn spec_serialize(v: ParameterKind) -> Seq<u8> {
        match v {
            ParameterKind::FunctionParameter => le_u16(0),
            ParameterKind::Input(l) => le_u16(1) + le_u32(l),
            ParameterKind::Output(l) => le_u16(2) + le_u32(l),
            ParameterKind::DescriptorSet { storage_class, set, binding } => le_u16(3) + le_u32(storage_class)
                + le_u32(set) + le_u32(binding),
        }
    }

    fn serialize_into(&self, out: &mut Vec<u8>) -> (r: Result<(), Error>) {
        match self {
            ParameterKind::FunctionParameter => write_u16(out, 0),
            ParameterKind::Input(l) => {
                write_u16(out, 1);
                write_u32(out, *l);
            },
            ParameterKind::Output(l) => {
                write_u16(out, 2);
                write_u32(out, *l);
            },
            ParameterKind::DescriptorSet { storage_class, set, binding } => {
                write_u16(out, 3);
                write_u32(out, *storage_class);
                write_u32(out, *set);
                write_u32(out, *binding);
            },
        }
        assert(final(out)@ =~= old(out)@ + Self::spec_serialize(*self));
        Ok(())
    }
}

impl<T: BinarySerialize> BinarySerialize for Option<T> {
    open spec fn spec_serializable(v: Option<T::V>) -> bool {
        match v {
            Some(x) => T::spec_serializable(x),
            None => true,
        }
    }

    open spec fn spec_serialize(v: Option<T::V>) -> Seq<u8> {
        match v {
            Some(x) => seq![1u8] + T::spec_serialize(x),
            None => seq![0u8],
        }
    }

    fn serialize_into(&self, out: &mut Vec<u8>) -> (r: Result<(), Error>) {
        match self {
            Some(val) => {
                write_u8(out, 1);
                let r = val.serialize_into(out);
                if r.is_ok() {
                    assert(final(out)@ =~= old(out)@ + Self::spec_serialize(self.deep_view()));
                }
                r
            },
            None => {
                write_u8(out, 0);
                Ok(())
            },
        }
    }
}

impl<T: BinarySerialize> BinarySerialize for Vec<T> {
    open spec fn spec_serializable(v: Seq<T::V>) -> bool {
        list_serializable::<T>(v)
    }

    open spec fn spec_serialize(v: Seq<T::V>) -> Seq<u8> {
        ser_list::<T>(v)
    }

    fn serialize_into(&self, out: &mut Vec<u8>) -> (r: Result<(), Error>) {
        let len = self.len();
        if len > 0xffff_ffffusize {
            return Err(Error::LengthOverflow);
        }
        write_u32(out, len as u32);
        let ghost start = out@;
        let ghost dv = self.deep_view();
        let mut i: usize = 0;
        while i < len
            invariant
                len == self@.len(),
                dv == self.deep_view(),
                dv.len() == len,
                i <= len,
                start == old(out)@ + le_u32(len as u32),
                out@ == start + ser_items::<T>(dv.take(i as int)),
                forall|j: int| 0 <= j < i ==> T::spec_serializable(#[trigger] dv[j]),
            decreases len - i,
        {
            let r = self[i].serialize_into(out);
            assert(dv[i as int] == self@[i as int].deep_view());
            if r.is_err() {
                return r;
            }
            proof {
                assert(dv.take(i + 1).drop_last() =~= dv.take(i as int));
                assert(dv.take(i + 1).last() == dv[i as int]);
                assert(out@ =~= start + ser_items::<T>(dv.take(i + 1)));
            }
            i = i + 1;
        }
        proof {
            assert(dv.take(len as int) =~= dv);
        }
        Ok(())
    }
}

/// The encoding of a string: its UTF-8 bytes, length first.
pub open spec fn ser_chars(s: Seq<char>) -> Seq<u8> {
    le_u32(vstd::utf8::encode_utf8(s).len() as u32) + vstd::utf8::encode_utf8(s)
}

fn serialize_bytes(bytes: &[u8], out: &mut Vec<u8>) -> (r: Result<(), Error>)
    ensures
        r is Ok <==> bytes@.len() <= u32::MAX,
        r is Ok ==> final(out)@ == old(out)@ + le_u32(bytes@.len() as u32) + bytes@,
        r matches Err(e) ==> e == Error::LengthOverflow,
{
    let len = bytes.len();
    if len > 0xffff_ffffusize {
        return Err(Error::LengthOverflow);
    }
    write_u32(out, len as u32);
    let ghost start = out@;
    let mut i: usize = 0;
    while i < len
        invariant
            len == bytes@.len(),
            i <= len,
            out@ == start + bytes@.take(i as int),
        decreases len - i,
    {
        out.push(bytes[i]);
        proof {
            assert(out@ =~= start + bytes@.take(i + 1));
        }
        i = i + 1;
    }
    proof {
        assert(bytes@.take(len as int) =~= bytes@);
    }
    Ok(())
}

impl<'a> BinarySerialize for Str<'a> {
    open spec fn spec_serializable(v: Seq<char>) -> bool {
        vstd::utf8::encode_utf8(v).len() <= u32::MAX
    }

    open spec fn spec_serialize(v: Seq<char>) -> Seq<u8> {
        ser_chars(v)
    }

    fn serialize_into(&self, out: &mut Vec<u8>) -> (r: Result<(), Error>) {
        let s = self.as_str();
        serialize_bytes(s.as_bytes(), out)
    }
}

impl BinarySerialize for CapabilityModel {
    open spec fn spec_serializable(v: CapabilityModelView) -> bool {
        v.capabilities.len() <= u32::MAX
    }

    open spec fn spec_serialize(v: CapabilityModelView) -> Seq<u8> {
        seq![if v.is_static { 0u8 } else { 1u8 }] + ser_list::<u32>(v.capabilities)
    }

    fn serialize_into(&self, out: &mut Vec<u8>) -> (r: Result<(), Error>) {
        let ghost dv = self.deep_view();
        let r = match self {
            CapabilityModel::Static(data) => {
                write_u8(out, 0);
                data.serialize_into(out)
            },
            CapabilityModel::Dynamic(data) => {
                write_u8(out, 1);
                data.serialize_into(out)
            },
        };
        proof {
            let caps = match self {
                CapabilityModel::Static(data) => data,
                CapabilityModel::Dynamic(data) => data,
            };
            assert(caps.deep_view() =~= dv.capabilities);
            if r.is_ok() {
                assert(final(out)@ =~= old(out)@ + Self::spec_serialize(dv));
            }
        }
        r
    }
}

impl BinarySerialize for Parameter {
    open spec fn spec_serializable(v: Parameter) -> bool {
        true
    }

    open spec fn spec_serialize(v: Parameter) -> Seq<u8> {
        Option::<Type>::spec_serialize(v.ty) + ParameterKind::spec_serialize(v.kind)
    }

    fn serialize_into(&self, out: &mut Vec<u8>) -> (r: Result<(), Error>) {
        let _ = self.ty.serialize_into(out);
        let _ = self.kind.serialize_into(out);
        assert(final(out)@ =~= old(out)@ + Self::spec_serialize(*self));
        Ok(())
    }
}

/// The encoding of the pairs of a map: a length, then each key and value.
pub open spec fn ser_pairs<T: BinarySerialize>(s: Seq<(u32, T::V)>) -> Seq<u8> {
    le_u32(s.len() as u32) + ser_pair_items::<T>(s)
}

pub open spec fn ser_pair_items<T: BinarySerialize>(s: Seq<(u32, T::V)>) -> Seq<u8>
    decreases s.len(),
{
    if s.len() == 0 {
        Seq::empty()
    } else {
        ser_pair_items::<T>(s.drop_last()) + le_u32(s.last().0) + T::spec_serialize(s.last().1)
    }
}

pub open spec fn pairs_serializable<T: BinarySerialize>(s: Seq<(u32, T::V)>) -> bool {
    s.len() <= u32::MAX && forall|i: int| 0 <= i < s.len() ==> T::spec_serializable(#[trigger] s[i].1)
}

/// The pairs of a parameter map with their views.
pub open spec fn parameter_views(s: Seq<(u32, Parameter)>) -> Seq<(u32, Parameter)> {
    s
}

fn serialize_parameter_map(m: &vector_mapp::vec::VecMap<u32, Parameter>, out: &mut Vec<u8>) -> (r: Result<(), Error>)
    ensures
        r is Ok <==> parameter_entries(*m).len() <= u32::MAX,
        r is Ok ==> final(out)@ == old(out)@ + ser_pairs::<Parameter>(parameter_entries(*m)),
        r matches Err(e) ==> e == Error::LengthOverflow,
{
    let pairs = parameter_pairs(m);
    let len = pairs.len();
    if len > 0xffff_ffffusize {
        return Err(Error::LengthOverflow);
    }
    write_u32(out, len as u32);
    let ghost start = out@;
    let ghost s = pairs@;
    let mut i: usize = 0;
    while i < len
        invariant
            s == pairs@,
            len == s.len(),
            i <= len,
            out@ == start + ser_pair_items::<Parameter>(s.take(i as int)),
        decreases len - i,
    {
        let (key, value) = &pairs[i];
        write_u32(out, *key);
        let _ = value.serialize_into(out);
        proof {
            assert(s.take(i + 1).drop_last() =~= s.take(i as int));
            assert(s.take(i + 1).last() == s[i as int]);
            assert(out@ =~= start + ser_pair_items::<Parameter>(s.take(i + 1)));
        }
        i = i + 1;
    }
    proof {
        assert(s.take(len as int) =~= s);
    }
    Ok(())
}

impl BinarySerialize for FunctionConfig {
    open spec fn spec_serializable(v: FunctionConfigView) -> bool {
        list_serializable::<ExecutionMode>(v.execution_modes) && v.params.len() <= u32::MAX
    }

    open spec fn spec_serialize(v: FunctionConfigView) -> Seq<u8> {
        Option::<u32>::spec_serialize(v.execution_model) + ser_list::<ExecutionMode>(v.execution_modes)
            + ser_pairs::<Parameter>(v.params)
    }

    fn serialize_into(&self, out: &mut Vec<u8>) -> (r: Result<(), Error>) {
        let ghost dv = self.deep_view();
        let _ = self.execution_model.serialize_into(out);
        let ghost mid1 = out@;
        let r = self.execution_modes.serialize_into(out);
        proof {
            assert(self.execution_modes.deep_view() =~= self.execution_modes@);
        }
        if r.is_err() {
            return r;
        }
        let ghost mid2 = out@;
        let r = serialize_parameter_map(&self.params, out);
        if r.is_ok() {
            assert(final(out)@ =~= old(out)@ + Self::spec_serialize(dv));
        }
        r
    }
}

/// The encoding of a configuration: its fields in declaration order, the
/// memory-grow policy last.
pub open spec fn ser_config(v: ConfigView) -> Seq<u8> {
    TargetPlatform::spec_serialize(v.platform) + WasmFeatures::spec_serialize(v.features)
        + AddressingModel::spec_serialize(v.addressing_model) + le_u32(v.memory_model)
        + CapabilityModel::spec_serialize(v.capabilities) + ser_list::<Str<'static>>(v.extensions)
        + ser_pairs::<FunctionConfig>(v.functions) + MemoryGrowErrorKind::spec_serialize(v.memory_grow_error)
}

fn serialize_function_map(m: &vector_mapp::vec::VecMap<u32, FunctionConfig>, out: &mut Vec<u8>) -> (r: Result<(), Error>)
    ensures
        r is Ok <==> pairs_serializable::<FunctionConfig>(function_views(function_entries(*m))),
        r is Ok ==> final(out)@ == old(out)@ + ser_pairs::<FunctionConfig>(function_views(function_entries(*m))),
        r matches Err(e) ==> e == Error::LengthOverflow || e == Error::UnknownExecutionMode,
{
    let pairs = function_pairs(m);
    let ghost s = function_views(pairs@);
    let len = pairs.len();
    if len > 0xffff_ffffusize {
        return Err(Error::LengthOverflow);
    }
    write_u32(out, len as u32);
    let ghost start = out@;
    let mut i: usize = 0;
    while i < len
        invariant
            pairs@ == function_entries(*m),
            s == function_views(pairs@),
            s.len() == pairs@.len(),
            len == s.len(),
            i <= len,
            out@ == start + ser_pair_items::<FunctionConfig>(s.take(i as int)),
            forall|j: int| 0 <= j < i ==> FunctionConfig::spec_serializable(#[trigger] s[j].1),
        decreases len - i,
    {
        let (key, value) = &pairs[i];
        write_u32(out, *key);
        let r = value.serialize_into(out);
        assert(s[i as int] == (*key, value.deep_view()));
        if r.is_err() {
            assert(!FunctionConfig::spec_serializable(s[i as int].1));
            return r;
        }
        proof {
            assert(s.take(i + 1).drop_last() =~= s.take(i as int));
            assert(s.take(i + 1).last() == s[i as int]);
            assert(out@ =~= start + ser_pair_items::<FunctionConfig>(s.take(i + 1)));
        }
        i = i + 1;
    }
    proof {
        assert(s.take(len as int) =~= s);
    }
    Ok(())
}

/// Whether a configuration can be encoded: every list fits a 32-bit length.
pub open spec fn config_serializable(v: ConfigView) -> bool {
    &&& v.capabilities.capabilities.len() <= u32::MAX
    &&& list_serializable::<Str<'static>>(v.extensions)
    &&& pairs_serializable::<FunctionConfig>(v.functions)
}

impl BinarySerialize for Config {
    open spec fn spec_serializable(v: ConfigView) -> bool {
        config_serializable(v)
    }

    open spec fn spec_serialize(v: ConfigView) -> Seq<u8> {
        ser_config(v)
    }

    fn serialize_into(&self, out: &mut Vec<u8>) -> (r: Result<(), Error>) {
        let ghost dv = self.deep_view();
        let _ = self.platform.serialize_into(out);
        let _ = self.features.serialize_into(out);
        let _ = self.addressing_model.serialize_into(out);
        write_u32(out, self.memory_model);
        let r = self.capabilities.serialize_into(out);
        if r.is_err() {
            return r;
        }
        let r = self.extensions.serialize_into(out);
        if r.is_err() {
            return r;
        }
        let r = serialize_function_map(&self.functions, out);
        if r.is_err() {
            return r;
        }
        let _ = self.memory_grow_error.serialize_into(out);
        assert(final(out)@ =~= old(out)@ + Self::spec_serialize(dv));
        Ok(())
    }
}

} // verus!
