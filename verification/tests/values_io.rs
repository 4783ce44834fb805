use std::rc::Rc;
use wasm2spirv::error::Error;
use wasm2spirv::function_builder::Operation;
use wasm2spirv::spv::STORAGE_CLASS_FUNCTION;
use wasm2spirv::types::{CompositeType, PointerSize, ScalarType, Type};
use wasm2spirv::values::integer::{Integer, IntegerSource};
use wasm2spirv::values::pointer::{Pointer, PointerKind, PointerSource};
use wasm2spirv::values::Value;
use wasm2spirv::version::Version;

fn variable(ty: Type) -> Rc<Pointer> {
    Rc::new(Pointer::new_variable(PointerSize::Skinny, STORAGE_CLASS_FUNCTION, ty, None, Rc::new(Vec::new())))
}

#[test]
fn versions_parse_as_major_dot_minor() {
    assert_eq!(Version::parse("1.4"), Ok(Version::new(1, 4)));
    assert_eq!(Version::parse("+2.+0"), Ok(Version::new(2, 0)));
    assert_eq!(Version::parse("255.0"), Ok(Version::new(255, 0)));
    assert_eq!(Version::parse("1.2.3"), Err(Error::ParseInt));
}

#[test]
fn malformed_versions_are_refused() {
    assert_eq!(Version::parse("14"), Err(Error::VersionParsing));
    assert_eq!(Version::parse(""), Err(Error::VersionParsing));
    assert_eq!(Version::parse("256.0"), Err(Error::ParseInt));
    assert_eq!(Version::parse("1."), Err(Error::ParseInt));
    assert_eq!(Version::parse("-1.0"), Err(Error::ParseInt));
    assert_eq!(Version::parse("+.1"), Err(Error::ParseInt));
    assert_eq!(Version::parse("1 .0"), Err(Error::ParseInt));
}

#[test]
fn loading_gives_a_value_of_the_pointee_type() {
    let p = variable(Type::Scalar(ScalarType::I64));
    match p.clone().load(Some(3)) {
        Value::Integer(x) => match &x.source {
            IntegerSource::Loaded { pointer, log2_alignment } => {
                assert!(Rc::ptr_eq(pointer, &p));
                assert_eq!(*log2_alignment, Some(3));
            },
            other => panic!("{:?}", other),
        },
        other => panic!("{:?}", other),
    }
    let v = variable(Type::Composite(CompositeType::Vector(ScalarType::F32, 4)));
    match v.load(None) {
        Value::Vector(x) => {
            assert_eq!(x.element_type, ScalarType::F32);
            assert_eq!(x.element_count, 4);
        },
        other => panic!("{:?}", other),
    }
    let q = variable(Type::Pointer {
        size: PointerSize::Fat,
        storage_class: STORAGE_CLASS_FUNCTION,
        pointee: Box::new(Type::Scalar(ScalarType::Bool)),
    });
    match q.load(None) {
        Value::Pointer(x) => {
            assert!(matches!(x.kind, PointerKind::Fat { byte_offset: None }));
            assert!(matches!(x.pointee, Type::Scalar(ScalarType::Bool)));
            assert!(matches!(x.source, PointerSource::Loaded { .. }));
        },
        other => panic!("{:?}", other),
    }
    assert!(matches!(variable(Type::Scalar(ScalarType::Bool)).load(None), Value::Bool(_)));
    assert!(matches!(variable(Type::Scalar(ScalarType::F64)).load(None), Value::Float(_)));
}

#[test]
fn storing_makes_a_store_operation() {
    let p = variable(Type::Scalar(ScalarType::I32));
    let value = Value::Integer(Rc::new(Integer::new_constant_u32(9)));
    match p.clone().store(value, Some(2)) {
        Operation::Store { target, value: Value::Integer(x), log2_alignment } => {
            assert!(Rc::ptr_eq(&target, &p));
            assert_eq!(log2_alignment, Some(2));
            assert!(matches!(x.source, IntegerSource::Constant(_)));
        },
        other => panic!("{:?}", other),
    }
}

#[test]
fn versions_print_and_read_back() {
    for (major, minor) in [(0u8, 0u8), (1, 4), (9, 10), (99, 100), (255, 255)] {
        let v = Version::new(major, minor);
        let text: String = v.to_chars().into_iter().collect();
        assert_eq!(text, format!("{}.{}", major, minor));
        assert_eq!(Version::parse(&text), Ok(v));
    }
}
