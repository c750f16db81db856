use compiler::ast::{Token, Type};
use compiler::llvm::{FloatCmp, IntCmp};
use compiler::text::{contains, starts_with_text, text_eq};
use compiler::typing::{
    float_predicate, int_predicate, print_format, type_for_float_name, type_for_int_width,
};

#[test]
fn print_formats_by_type() {
    for t in [Type::I8, Type::I16, Type::I32, Type::U8, Type::U16, Type::U32, Type::Bool, Type::Char] {
        assert_eq!(print_format(&t), Some("%d\n"));
    }
    assert_eq!(print_format(&Type::I64), Some("%lu\n"));
    assert_eq!(print_format(&Type::U64), Some("%lu\n"));
    assert_eq!(print_format(&Type::F32), Some("%f\n"));
    assert_eq!(print_format(&Type::F64), Some("%f\n"));
    assert_eq!(print_format(&Type::Pointer(Box::new(Type::I32))), Some("%p\n"));
    assert_eq!(print_format(&Type::Array(Box::new(Type::I32), 2)), None);
    assert_eq!(print_format(&Type::Void), None);
}

#[test]
fn integer_widths_map_to_signed_types() {
    assert!(type_for_int_width(1).unwrap().same_as(&Type::Bool));
    assert!(type_for_int_width(8).unwrap().same_as(&Type::I8));
    assert!(type_for_int_width(16).unwrap().same_as(&Type::I16));
    assert!(type_for_int_width(32).unwrap().same_as(&Type::I32));
    assert!(type_for_int_width(64).unwrap().same_as(&Type::I64));
    assert!(type_for_int_width(128).is_none());
    assert!(type_for_int_width(7).is_none());
}

#[test]
fn float_names_map_to_float_types() {
    assert!(type_for_float_name("float").same_as(&Type::F32));
    assert!(type_for_float_name("double").same_as(&Type::F64));
    assert!(type_for_float_name("fp128").same_as(&Type::F64));
}

#[test]
fn integer_comparisons_follow_signedness() {
    assert!(matches!(int_predicate(&Token::Less, true), Some(IntCmp::Slt)));
    assert!(matches!(int_predicate(&Token::Less, false), Some(IntCmp::Ult)));
    assert!(matches!(int_predicate(&Token::Greater, true), Some(IntCmp::Sgt)));
    assert!(matches!(int_predicate(&Token::Greater, false), Some(IntCmp::Ugt)));
    assert!(matches!(int_predicate(&Token::GreaterEqual, true), Some(IntCmp::Sge)));
    assert!(matches!(int_predicate(&Token::LessEqual, false), Some(IntCmp::Ule)));
    assert!(matches!(int_predicate(&Token::EqualEqual, true), Some(IntCmp::Eq)));
    assert!(matches!(int_predicate(&Token::NotEqual, false), Some(IntCmp::Ne)));
    assert!(int_predicate(&Token::Plus, true).is_none());
}

#[test]
fn float_comparisons_are_ordered() {
    assert!(matches!(float_predicate(&Token::Less), Some(FloatCmp::Olt)));
    assert!(matches!(float_predicate(&Token::GreaterEqual), Some(FloatCmp::Oge)));
    assert!(matches!(float_predicate(&Token::NotEqual), Some(FloatCmp::One)));
    assert!(float_predicate(&Token::Slash).is_none());
}

#[test]
fn text_helpers() {
    assert!(text_eq("print", "print"));
    assert!(!text_eq("print", "printf"));
    assert!(starts_with_text("--filepath=x", "--filepath="));
    assert!(!starts_with_text("--file", "--filepath="));
    assert!(contains("bfloat", "float"));
    assert!(!contains("double", "float"));
    assert!(contains("abc", ""));
}
