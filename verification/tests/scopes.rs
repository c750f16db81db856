use compiler::ast::Type;
use compiler::scopes::{Binding, LoopStack, SymbolTable};

fn b(ptr: u32, ty: Type) -> Binding<u32> {
    Binding { ptr, ty }
}

#[test]
fn lookup_finds_the_innermost_binding() {
    let mut t: SymbolTable<u32> = SymbolTable::new();
    t.push_scope();
    t.declare("x".to_string(), b(1, Type::I32));
    t.push_scope();
    t.declare("x".to_string(), b(2, Type::F64));
    let found = t.lookup(&"x".to_string()).unwrap();
    assert_eq!(found.ptr, 2);
    assert!(found.ty.same_as(&Type::F64));
    t.pop_scope();
    let found = t.lookup(&"x".to_string()).unwrap();
    assert_eq!(found.ptr, 1);
    assert!(found.ty.same_as(&Type::I32));
}

#[test]
fn lookup_of_an_unbound_name_is_none() {
    let mut t: SymbolTable<u32> = SymbolTable::new();
    assert!(t.lookup(&"x".to_string()).is_none());
    t.push_scope();
    t.declare("y".to_string(), b(1, Type::I32));
    assert!(t.lookup(&"x".to_string()).is_none());
}

#[test]
fn pop_scope_drops_its_bindings() {
    let mut t: SymbolTable<u32> = SymbolTable::new();
    t.push_scope();
    t.push_scope();
    t.declare("inner".to_string(), b(9, Type::Bool));
    assert_eq!(t.depth(), 2);
    t.pop_scope();
    assert_eq!(t.depth(), 1);
    assert!(t.lookup(&"inner".to_string()).is_none());
}

#[test]
fn declare_replaces_and_declare_if_absent_keeps() {
    let mut t: SymbolTable<u32> = SymbolTable::new();
    t.push_scope();
    t.declare("p".to_string(), b(1, Type::I32));
    t.declare("p".to_string(), b(2, Type::I64));
    assert_eq!(t.lookup(&"p".to_string()).unwrap().ptr, 2);
    t.declare_if_absent("p".to_string(), b(3, Type::U8));
    assert_eq!(t.lookup(&"p".to_string()).unwrap().ptr, 2);
    t.declare_if_absent("q".to_string(), b(4, Type::U8));
    assert_eq!(t.lookup(&"q".to_string()).unwrap().ptr, 4);
    assert!(t.binds_innermost(&"q".to_string()));
    t.push_scope();
    assert!(!t.binds_innermost(&"q".to_string()));
    t.declare_if_absent("q".to_string(), b(5, Type::U8));
    assert_eq!(t.lookup(&"q".to_string()).unwrap().ptr, 5);
}

#[test]
fn loop_stack_gives_the_innermost_loop() {
    let mut s: LoopStack<u32> = LoopStack::new();
    assert_eq!(s.depth(), 0);
    s.push_loop(10, 11);
    s.push_loop(20, 21);
    let l = s.current_loop();
    assert_eq!((l.continue_block, l.break_block), (20, 21));
    s.pop_loop();
    let l = s.current_loop();
    assert_eq!((l.continue_block, l.break_block), (10, 11));
    s.pop_loop();
    assert_eq!(s.depth(), 0);
}

#[test]
fn opening_and_closing_a_scope_changes_nothing() {
    let mut t: SymbolTable<u32> = SymbolTable::new();
    t.push_scope();
    t.declare("a".to_string(), b(1, Type::U64));
    t.push_scope();
    assert_eq!(t.lookup(&"a".to_string()).unwrap().ptr, 1);
    t.pop_scope();
    assert_eq!(t.depth(), 1);
    assert_eq!(t.lookup(&"a".to_string()).unwrap().ptr, 1);
    assert!(t.lookup(&"b".to_string()).is_none());
}

#[test]
fn declaring_one_name_leaves_the_others() {
    let mut t: SymbolTable<u32> = SymbolTable::new();
    t.push_scope();
    t.declare("a".to_string(), b(1, Type::I8));
    t.push_scope();
    t.declare("b".to_string(), b(2, Type::I16));
    assert_eq!(t.lookup(&"a".to_string()).unwrap().ptr, 1);
    assert_eq!(t.lookup(&"b".to_string()).unwrap().ptr, 2);
}
