use std::rc::Rc;
use wasm2spirv::config::{AddressingModel, CapabilityModel, Config};
use wasm2spirv::error::Error;
use wasm2spirv::module::ModuleBuilder;
use wasm2spirv::spv::MEMORY_MODEL_GLSL450;
use wasm2spirv::values::bool::{Bool, BoolSource};
use wasm2spirv::values::integer::{
    BinarySource, ConstantSource, ConversionSource, Integer, IntegerKind, IntegerSource, UnarySource,
};
use wasm2spirv::version::{TargetPlatform, Version};

fn module() -> ModuleBuilder {
    let config = Config::builder(
        TargetPlatform::Universal(Version::new(1, 3)),
        CapabilityModel::dynamic(Vec::new()),
        Vec::new(),
        AddressingModel::Logical,
        MEMORY_MODEL_GLSL450,
    )
    .unwrap()
    .build();
    ModuleBuilder::new(config, false).unwrap()
}

fn short(x: u32) -> Rc<Integer> {
    Rc::new(Integer::new_constant_u32(x))
}

fn long(x: u64) -> Rc<Integer> {
    Rc::new(Integer::new_constant_u64(x))
}

fn param(kind: IntegerKind) -> Rc<Integer> {
    Rc::new(Integer::new(IntegerSource::FunctionParam(kind)))
}

fn value(i: &Integer) -> Option<ConstantSource> {
    i.get_constant_value().unwrap()
}

#[test]
fn add_wraps_like_webassembly() {
    let m = module();
    let r = short(0xffff_ffff).add(short(1), &m).unwrap();
    assert_eq!(value(&r), Some(ConstantSource::Short(0)));
    let r = long(u64::MAX).add(long(2), &m).unwrap();
    assert_eq!(value(&r), Some(ConstantSource::Long(1)));
}

#[test]
fn add_with_zero_gives_the_other_operand() {
    let m = module();
    let p = param(IntegerKind::Short);
    let r = p.clone().add(short(0), &m).unwrap();
    assert!(Rc::ptr_eq(&r, &p));
    let r = short(0).add(p.clone(), &m).unwrap();
    assert!(Rc::ptr_eq(&r, &p));
    let r = p.clone().add(short(3), &m).unwrap();
    assert!(matches!(r.source, IntegerSource::Binary { source: BinarySource::Add, .. }));
}

#[test]
fn operands_of_two_widths_are_refused() {
    let m = module();
    assert_eq!(short(1).add(long(1), &m).unwrap_err(), Error::Mismatch);
    assert_eq!(param(IntegerKind::Long).mul(param(IntegerKind::Short), &m).unwrap_err(), Error::Mismatch);
}

#[test]
fn sub_and_mul_fold() {
    let m = module();
    let r = short(3).sub(short(5), &m).unwrap();
    assert_eq!(value(&r), Some(ConstantSource::Short(0xffff_fffe)));
    let r = short(0x1_0000).mul(short(0x1_0000), &m).unwrap();
    assert_eq!(value(&r), Some(ConstantSource::Short(0)));
    let p = param(IntegerKind::Short);
    let r = p.clone().mul(short(1), &m).unwrap();
    assert!(Rc::ptr_eq(&r, &p));
    let zero = short(0);
    let r = p.clone().mul(zero.clone(), &m).unwrap();
    assert!(Rc::ptr_eq(&r, &zero));
}

#[test]
fn signed_division_rounds_toward_zero() {
    let m = module();
    let r = short((-7i32) as u32).s_div(short(2), &m).unwrap();
    assert_eq!(value(&r), Some(ConstantSource::Short((-3i32) as u32)));
    let r = short((-7i32) as u32).s_rem(short(2), &m).unwrap();
    assert_eq!(value(&r), Some(ConstantSource::Short((-1i32) as u32)));
    let r = long((-9i64) as u64).s_div(long((-2i64) as u64), &m).unwrap();
    assert_eq!(value(&r), Some(ConstantSource::Long(4)));
    let r = long(7).s_rem(long((-2i64) as u64), &m).unwrap();
    assert_eq!(value(&r), Some(ConstantSource::Long(1)));
}

#[test]
fn division_by_constant_zero_is_an_error() {
    let m = module();
    assert_eq!(short(7).u_div(short(0), false, &m).unwrap_err(), Error::DivisionByZero);
    assert_eq!(param(IntegerKind::Long).s_rem(long(0), &m).unwrap_err(), Error::DivisionByZero);
    assert_eq!(short(7).u_rem(short(0), &m).unwrap_err(), Error::DivisionByZero);
}

#[test]
fn unsigned_division_by_a_power_of_two_is_a_shift() {
    let m = module();
    let p = param(IntegerKind::Short);
    let r = p.clone().u_div(short(8), false, &m).unwrap();
    match &r.source {
        IntegerSource::Binary { source: BinarySource::UShr, op1, op2 } => {
            assert!(Rc::ptr_eq(op1, &p));
            assert_eq!(value(op2), Some(ConstantSource::Short(3)));
        },
        other => panic!("unexpected {:?}", other),
    }
    let r = p.clone().u_div(short(6), false, &m).unwrap();
    assert!(matches!(r.source, IntegerSource::Binary { source: BinarySource::UDiv, .. }));
    let r = short(100).u_div(short(7), false, &m).unwrap();
    assert_eq!(value(&r), Some(ConstantSource::Short(14)));
    let r = p.clone().u_div(short(1), false, &m).unwrap();
    assert!(Rc::ptr_eq(&r, &p));
}

#[test]
fn shifting_back_a_left_shift_cancels_when_asked() {
    let m = module();
    let p = param(IntegerKind::Short);
    let shifted = p.clone().shl(short(4), &m).unwrap();
    let r = shifted.clone().u_shr(short(4), true, &m).unwrap();
    assert!(Rc::ptr_eq(&r, &p));
    let r = shifted.clone().u_shr(short(4), false, &m).unwrap();
    assert!(matches!(r.source, IntegerSource::Binary { source: BinarySource::UShr, .. }));
}

#[test]
fn bitwise_operations_fold() {
    let m = module();
    assert_eq!(value(&short(0b1100).and(short(0b1010), &m).unwrap()), Some(ConstantSource::Short(0b1000)));
    assert_eq!(value(&short(0b1100).or(short(0b1010), &m).unwrap()), Some(ConstantSource::Short(0b1110)));
    assert_eq!(value(&long(0b1100).xor(long(0b1010), &m).unwrap()), Some(ConstantSource::Long(0b0110)));
    let p = param(IntegerKind::Short);
    let r = p.clone().xor(short(0), &m).unwrap();
    assert!(Rc::ptr_eq(&r, &p));
}

#[test]
fn and_or_zero_shortcuts() {
    // With a constant zero operand, `and` gives back the other operand and
    // `or` gives back the zero.
    let m = module();
    let p = param(IntegerKind::Short);
    let zero = short(0);
    let r = p.clone().and(zero.clone(), &m).unwrap();
    assert!(Rc::ptr_eq(&r, &p));
    let r = p.clone().or(zero.clone(), &m).unwrap();
    assert!(Rc::ptr_eq(&r, &zero));
}

#[test]
fn shifts_take_the_amount_modulo_the_width() {
    let m = module();
    assert_eq!(value(&short(1).shl(short(33), &m).unwrap()), Some(ConstantSource::Short(2)));
    assert_eq!(value(&long(1).shl(long(65), &m).unwrap()), Some(ConstantSource::Long(2)));
    assert_eq!(value(&short(0x8000_0000).s_shr(short(4), &m).unwrap()), Some(ConstantSource::Short(0xf800_0000)));
    assert_eq!(value(&short(0x8000_0000).u_shr(short(36), false, &m).unwrap()), Some(ConstantSource::Short(0x0800_0000)));
    assert_eq!(value(&long(0x8000_0000_0000_0000).s_shr(long(63), &m).unwrap()), Some(ConstantSource::Long(u64::MAX)));
}

#[test]
fn rotations_fold() {
    let m = module();
    assert_eq!(value(&short(0x8000_0001).rotl(short(1), &m).unwrap()), Some(ConstantSource::Short(3)));
    assert_eq!(value(&short(0x8000_0001).rotr(short(1), &m).unwrap()), Some(ConstantSource::Short(0xc000_0000)));
    assert_eq!(value(&long(1).rotr(long(1), &m).unwrap()), Some(ConstantSource::Long(0x8000_0000_0000_0000)));
    assert_eq!(value(&long(3).rotl(long(64), &m).unwrap()), Some(ConstantSource::Long(3)));
}

#[test]
fn bit_counts_fold() {
    assert_eq!(value(&short(1).clz().unwrap()), Some(ConstantSource::Short(31)));
    assert_eq!(value(&short(0).clz().unwrap()), Some(ConstantSource::Short(32)));
    assert_eq!(value(&long(8).ctz().unwrap()), Some(ConstantSource::Long(3)));
    assert_eq!(value(&short(0xf0f0).popcnt().unwrap()), Some(ConstantSource::Short(8)));
    assert_eq!(value(&long(u64::MAX).popcnt().unwrap()), Some(ConstantSource::Long(64)));
    let p = param(IntegerKind::Short);
    let r = p.clone().popcnt().unwrap();
    assert!(matches!(r.source, IntegerSource::Unary { source: UnarySource::BitCount, .. }));
}

#[test]
fn width_conversions_of_constants_are_known() {
    let wrapped = Integer::new(IntegerSource::Conversion(ConversionSource::FromLong(long(0x1_2345_6789))));
    assert_eq!(value(&wrapped), Some(ConstantSource::Short(0x2345_6789)));
    let signed = Integer::new(IntegerSource::Conversion(ConversionSource::FromShort {
        signed: true,
        value: short(0xffff_fffe),
    }));
    assert_eq!(value(&signed), Some(ConstantSource::Long(0xffff_ffff_ffff_fffe)));
    let unsigned = Integer::new(IntegerSource::Conversion(ConversionSource::FromShort {
        signed: false,
        value: short(0xffff_fffe),
    }));
    assert_eq!(value(&unsigned), Some(ConstantSource::Long(0xffff_fffe)));
    let bad = Integer::new(IntegerSource::Conversion(ConversionSource::FromLong(short(1))));
    assert_eq!(bad.get_constant_value().unwrap_err(), Error::Unexpected);
}

#[test]
fn kinds_follow_the_sources() {
    let m = module();
    assert_eq!(short(1).kind(&m), Ok(IntegerKind::Short));
    let wrapped = Integer::new(IntegerSource::Conversion(ConversionSource::FromLong(long(1))));
    assert_eq!(wrapped.kind(&m), Ok(IntegerKind::Short));
    let sum = param(IntegerKind::Long).add(long(5), &m).unwrap();
    assert_eq!(sum.kind(&m), Ok(IntegerKind::Long));
    assert_eq!(IntegerKind::isize(wasm2spirv::spv::STORAGE_CLASS_FUNCTION, &m), Err(Error::LogicalPointer));
}

#[test]
fn integers_and_booleans_convert() {
    let t = short(7).to_bool().unwrap();
    assert!(matches!(t.source, BoolSource::Constant(true)));
    let f = long(0).to_bool().unwrap();
    assert!(matches!(f.source, BoolSource::Constant(false)));
    let b = Rc::new(Bool::new(BoolSource::Constant(true)));
    assert_eq!(value(&b.to_integer(IntegerKind::Long).unwrap()), Some(ConstantSource::Long(1)));
    let n = Rc::new(Bool::new(BoolSource::Negated(Rc::new(Bool::new(BoolSource::FromInteger(short(0)))))));
    assert_eq!(n.get_constant_value(), Ok(Some(true)));
}
