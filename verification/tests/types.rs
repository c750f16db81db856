use compiler::ast::{checked_size_of, size_of_type, Type};

fn arr(t: Type, n: u32) -> Type {
    Type::Array(Box::new(t), n)
}

fn ptr(t: Type) -> Type {
    Type::Pointer(Box::new(t))
}

#[test]
fn signed_types_are_the_signed_integers() {
    assert!(Type::I8.is_signed());
    assert!(Type::I16.is_signed());
    assert!(Type::I32.is_signed());
    assert!(Type::I64.is_signed());
    assert!(!Type::U8.is_signed());
    assert!(!Type::U16.is_signed());
    assert!(!Type::U32.is_signed());
    assert!(!Type::U64.is_signed());
    assert!(!Type::Bool.is_signed());
    assert!(!Type::Char.is_signed());
    assert!(!Type::F32.is_signed());
    assert!(!Type::F64.is_signed());
    assert!(!Type::Void.is_signed());
    assert!(!ptr(Type::I32).is_signed());
    assert!(!arr(Type::I32, 4).is_signed());
}

#[test]
fn sizes_of_scalar_types() {
    assert_eq!(size_of_type(&Type::I8), 1);
    assert_eq!(size_of_type(&Type::U8), 1);
    assert_eq!(size_of_type(&Type::Bool), 1);
    assert_eq!(size_of_type(&Type::Char), 1);
    assert_eq!(size_of_type(&Type::I16), 2);
    assert_eq!(size_of_type(&Type::U16), 2);
    assert_eq!(size_of_type(&Type::I32), 4);
    assert_eq!(size_of_type(&Type::U32), 4);
    assert_eq!(size_of_type(&Type::F32), 4);
    assert_eq!(size_of_type(&Type::I64), 8);
    assert_eq!(size_of_type(&Type::U64), 8);
    assert_eq!(size_of_type(&Type::F64), 8);
    assert_eq!(size_of_type(&ptr(Type::I8)), 8);
    assert_eq!(size_of_type(&ptr(Type::Void)), 8);
}

#[test]
fn size_of_array_is_element_size_times_length() {
    assert_eq!(size_of_type(&arr(Type::I32, 10)), 40);
    assert_eq!(size_of_type(&arr(arr(Type::I16, 3), 5)), 30);
    assert_eq!(size_of_type(&arr(Type::F64, 0)), 0);
}

#[test]
fn checked_size_refuses_void_and_overflow() {
    assert_eq!(checked_size_of(&Type::Void), None);
    assert_eq!(checked_size_of(&arr(Type::Void, 3)), None);
    assert_eq!(checked_size_of(&arr(Type::I32, 3)), Some(12));
    let huge = arr(arr(Type::I64, u32::MAX), u32::MAX);
    assert_eq!(checked_size_of(&huge), None);
    assert_eq!(checked_size_of(&ptr(Type::Void)), Some(8));
}

#[test]
fn duplicate_and_same_as() {
    let t = arr(ptr(Type::U16), 7);
    let d = t.duplicate();
    assert!(t.same_as(&d));
    assert!(!t.same_as(&arr(ptr(Type::U16), 8)));
    assert!(!t.same_as(&arr(ptr(Type::I16), 7)));
    assert!(!Type::I32.same_as(&Type::U32));
}
