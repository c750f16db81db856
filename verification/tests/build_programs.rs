use compiler::ast::{
    AssignmentStmt, Expr, FunctionDecl, GlobalDecl, IfStmt, Item, Param, Program, Stmt, Token,
    Type, WhileStmt,
};
use compiler::codegen::Codegen;
use inkwell::context::Context;

fn num(n: u32) -> Expr {
    Expr::Operand(Token::Int(n))
}

fn boolean(b: bool) -> Expr {
    Expr::Operand(Token::Bool(b))
}

fn var(s: &str) -> Expr {
    Expr::Operand(Token::Identifier(s.to_string()))
}

fn call(name: &str, args: Vec<Expr>) -> Expr {
    Expr::Operand(Token::Call(name.to_string(), Box::new(args)))
}

fn bin(t: Token, a: Expr, b: Expr) -> Expr {
    Expr::Operation(t, vec![a, b])
}

fn addr(name: &str) -> Expr {
    Expr::Operation(Token::Ampersand, vec![var(name)])
}

fn deref(name: &str) -> Expr {
    Expr::Operation(Token::Star, vec![var(name)])
}

fn index(name: &str, i: Expr) -> Expr {
    Expr::Operation(Token::LBracket, vec![var(name), i])
}

fn ptr(t: Type) -> Type {
    Type::Pointer(Box::new(t))
}

fn sizeof(t: Type) -> Expr {
    Expr::SizeOf(t)
}

fn malloc_of(t: Type, n: u32) -> Expr {
    call("malloc", vec![bin(Token::Star, sizeof(t), num(n))])
}

fn let_(name: &str, ty: Type, value: Expr) -> Stmt {
    Stmt::Assignment(AssignmentStmt {
        name: name.to_string(),
        ty: Some(ty),
        value: Some(value),
        index: None,
        dereference: false,
    })
}

fn set_index(name: &str, i: Expr, value: Expr) -> Stmt {
    Stmt::Assignment(AssignmentStmt {
        name: name.to_string(),
        ty: None,
        value: Some(value),
        index: Some(i),
        dereference: false,
    })
}

fn set_deref(name: &str, value: Expr) -> Stmt {
    Stmt::Assignment(AssignmentStmt {
        name: name.to_string(),
        ty: None,
        value: Some(value),
        index: None,
        dereference: true,
    })
}

fn run_(e: Expr) -> Stmt {
    Stmt::Expr(e)
}

fn fun(name: &str, params: Vec<(&str, Type)>, ret: Type, body: Vec<Stmt>) -> Item {
    Item::Function(FunctionDecl {
        name: name.to_string(),
        params: params
            .into_iter()
            .map(|(n, t)| Param { name: n.to_string(), ty: t })
            .collect(),
        return_type: ret,
        body,
    })
}

fn run_fn(body: Vec<Stmt>) -> Item {
    fun("run", vec![], Type::Void, body)
}

fn global(name: &str, ty: Type, value: Expr) -> Item {
    Item::Global(GlobalDecl { name: name.to_string(), ty, value: Some(value), pointer: false })
}

fn build_ok(items: Vec<Item>) -> String {
    let program = Program { items };
    let context = Context::create();
    let mut code_gen = Codegen::new(&context);
    match program.build(&mut code_gen) {
        Ok(()) => code_gen.module.print_to_string().to_string(),
        Err(e) => panic!("the program should build: {}", e),
    }
}

#[test]
fn build_empty_run() {
    build_ok(vec![run_fn(vec![])]);
}

#[test]
fn build_i32_main() {
    build_ok(vec![fun("main", vec![], Type::I32, vec![Stmt::Return(Some(num(0)))])]);
}

#[test]
fn build_global_i32_and_run() {
    build_ok(vec![global("x", Type::I32, num(1)), run_fn(vec![])]);
}

#[test]
fn build_global_bool_and_run() {
    build_ok(vec![global("flag", Type::Bool, boolean(true)), run_fn(vec![])]);
}

#[test]
fn build_local_of_every_integer_type() {
    for t in [Type::I8, Type::I16, Type::I32, Type::I64, Type::U8, Type::U16, Type::U32, Type::U64] {
        build_ok(vec![run_fn(vec![let_("x", t, num(1))])]);
    }
}

#[test]
fn build_local_bool() {
    build_ok(vec![run_fn(vec![let_("x", Type::Bool, boolean(true))])]);
}

#[test]
fn build_arithmetic() {
    for (t, a, b) in [(Token::Plus, 1, 2), (Token::Minus, 3, 2), (Token::Star, 3, 2), (Token::Slash, 6, 2)] {
        build_ok(vec![run_fn(vec![let_("x", Type::I32, bin(t, num(a), num(b)))])]);
    }
}

#[test]
fn build_comparisons() {
    for t in [
        Token::EqualEqual,
        Token::NotEqual,
        Token::Less,
        Token::LessEqual,
        Token::Greater,
        Token::GreaterEqual,
    ] {
        build_ok(vec![run_fn(vec![let_("x", Type::Bool, bin(t, num(1), num(2)))])]);
    }
}

#[test]
fn build_return_i32() {
    let ir = build_ok(vec![fun("main", vec![], Type::I32, vec![Stmt::Return(Some(num(123)))])]);
    assert!(ir.contains("ret i32 123"));
}

#[test]
fn build_return_from_helper() {
    build_ok(vec![
        fun("one", vec![], Type::I32, vec![Stmt::Return(Some(num(1)))]),
        run_fn(vec![let_("x", Type::I32, call("one", vec![]))]),
    ]);
}

#[test]
fn build_function_params() {
    let ir = build_ok(vec![
        fun(
            "add",
            vec![("a", Type::I32), ("b", Type::I32)],
            Type::I32,
            vec![Stmt::Return(Some(bin(Token::Plus, var("a"), var("b"))))],
        ),
        run_fn(vec![let_("x", Type::I32, call("add", vec![num(1), num(2)]))]),
    ]);
    assert!(ir.contains("define i32 @add(i32 %0, i32 %1)") || ir.contains("define i32 @add(i32"));
    assert!(ir.contains("call i32 @add(i32 1, i32 2)"));
}

#[test]
fn build_if_true() {
    build_ok(vec![run_fn(vec![Stmt::If(IfStmt {
        condition: boolean(true),
        then_branch: vec![let_("x", Type::I32, num(1))],
        else_branch: None,
    })])]);
}

#[test]
fn build_if_false_else() {
    build_ok(vec![run_fn(vec![Stmt::If(IfStmt {
        condition: boolean(false),
        then_branch: vec![let_("x", Type::I32, num(1))],
        else_branch: Some(vec![let_("y", Type::I32, num(2))]),
    })])]);
}

#[test]
fn build_while_false() {
    build_ok(vec![run_fn(vec![Stmt::While(WhileStmt {
        condition: boolean(false),
        body: vec![let_("x", Type::I32, num(1))],
    })])]);
}

#[test]
fn build_while_break() {
    build_ok(vec![run_fn(vec![Stmt::While(WhileStmt { condition: boolean(true), body: vec![Stmt::Break] })])]);
}

#[test]
fn build_while_continue_unreached() {
    build_ok(vec![run_fn(vec![Stmt::While(WhileStmt { condition: boolean(false), body: vec![Stmt::Continue] })])]);
}

#[test]
fn build_sizeof_i32() {
    let ir = build_ok(vec![run_fn(vec![let_("x", Type::U64, sizeof(Type::I32))])]);
    assert!(ir.contains("i64 4"));
}

#[test]
fn build_sizeof_array() {
    let ir = build_ok(vec![run_fn(vec![let_("x", Type::U64, sizeof(Type::Array(Box::new(Type::I32), 4)))])]);
    assert!(ir.contains("i64 16"));
}

#[test]
fn build_print_int_and_bool() {
    build_ok(vec![run_fn(vec![run_(call("print", vec![num(1)]))])]);
    build_ok(vec![run_fn(vec![run_(call("print", vec![boolean(true)]))])]);
}

#[test]
fn build_print_i64_and_u64() {
    for t in [Type::I64, Type::U64] {
        let ir = build_ok(vec![run_fn(vec![let_("x", t, num(1)), run_(call("print", vec![var("x")]))])]);
        assert!(ir.contains("%lu"));
    }
}

#[test]
fn build_pointer_address_of() {
    build_ok(vec![run_fn(vec![let_("x", Type::I32, num(1)), let_("p", ptr(Type::I32), addr("x"))])]);
}

#[test]
fn build_pointer_deref_load() {
    build_ok(vec![run_fn(vec![
        let_("x", Type::I32, num(1)),
        let_("p", ptr(Type::I32), addr("x")),
        let_("y", Type::I32, deref("p")),
    ])]);
}

#[test]
fn build_pointer_deref_store() {
    build_ok(vec![run_fn(vec![
        let_("x", Type::I32, num(1)),
        let_("p", ptr(Type::I32), addr("x")),
        set_deref("p", num(2)),
    ])]);
}

#[test]
fn build_malloc_free() {
    for t in [Type::I32, Type::U64] {
        build_ok(vec![run_fn(vec![
            let_("p", ptr(t.duplicate()), call("malloc", vec![sizeof(t)])),
            run_(call("free", vec![var("p")])),
        ])]);
    }
}

#[test]
fn build_index_set_and_get() {
    build_ok(vec![run_fn(vec![
        let_("arr", ptr(Type::I32), malloc_of(Type::I32, 2)),
        set_index("arr", num(0), num(1)),
        let_("x", Type::I32, index("arr", num(0))),
        run_(call("free", vec![var("arr")])),
    ])]);
}

#[test]
fn build_array_get_and_set_builtins() {
    build_ok(vec![run_fn(vec![
        let_("arr", ptr(Type::I32), malloc_of(Type::I32, 2)),
        run_(call("array_set", vec![var("arr"), num(0), num(1)])),
        let_("x", Type::I32, call("array_get", vec![var("arr"), num(0)])),
        run_(call("free", vec![var("arr")])),
    ])]);
}

#[test]
fn build_two_pushes_two_pops() {
    build_ok(vec![run_fn(vec![
        let_("arr", ptr(Type::I32), malloc_of(Type::I32, 4)),
        let_("len", Type::I32, num(0)),
        run_(call("push", vec![var("arr"), addr("len"), num(1)])),
        run_(call("push", vec![var("arr"), addr("len"), num(2)])),
        let_("a", Type::I32, call("pop", vec![var("arr"), addr("len")])),
        let_("b", Type::I32, call("pop", vec![var("arr"), addr("len")])),
        run_(call("free", vec![var("arr")])),
    ])]);
}

#[test]
fn build_array_index_with_variable() {
    build_ok(vec![run_fn(vec![
        let_("arr", ptr(Type::I32), malloc_of(Type::I32, 2)),
        let_("i", Type::I32, num(1)),
        set_index("arr", var("i"), num(7)),
        let_("x", Type::I32, index("arr", var("i"))),
        run_(call("free", vec![var("arr")])),
    ])]);
}

#[test]
fn build_nested_array_get_print() {
    build_ok(vec![run_fn(vec![
        let_("arr", ptr(Type::I32), malloc_of(Type::I32, 2)),
        run_(call("array_set", vec![var("arr"), num(0), num(7)])),
        run_(call("print", vec![call("array_get", vec![var("arr"), num(0)])])),
        run_(call("free", vec![var("arr")])),
    ])]);
}

#[test]
fn build_pointer_return_explicit() {
    build_ok(vec![
        fun(
            "make",
            vec![],
            ptr(Type::I32),
            vec![
                let_("p", ptr(Type::I32), call("malloc", vec![sizeof(Type::I32)])),
                Stmt::Return(Some(var("p"))),
            ],
        ),
        run_fn(vec![let_("p", ptr(Type::I32), call("make", vec![])), run_(call("free", vec![var("p")]))]),
    ]);
}

#[test]
fn build_pointer_return_default_null() {
    let ir = build_ok(vec![
        fun("make", vec![], ptr(Type::I32), vec![]),
        run_fn(vec![let_("p", ptr(Type::I32), call("make", vec![]))]),
    ]);
    assert!(ir.contains("ret i32* null"));
}

#[test]
fn variables_of_an_enclosing_scope_are_seen_in_blocks() {
    build_ok(vec![run_fn(vec![
        let_("x", Type::I32, num(1)),
        Stmt::If(IfStmt {
            condition: bin(Token::Less, var("x"), num(2)),
            then_branch: vec![run_(call("print", vec![var("x")]))],
            else_branch: Some(vec![run_(call("print", vec![var("x")]))]),
        }),
        Stmt::While(WhileStmt {
            condition: bin(Token::Less, var("x"), num(2)),
            body: vec![reassign("x", bin(Token::Plus, var("x"), num(1)))],
        }),
    ])]);
}

fn reassign(name: &str, value: Expr) -> Stmt {
    Stmt::Assignment(AssignmentStmt {
        name: name.to_string(),
        ty: None,
        value: Some(value),
        index: None,
        dereference: false,
    })
}

#[test]
fn refused_globals_fail_the_build() {
    let void_global = Program { items: vec![global("v", Type::Void, num(1))] };
    let context = Context::create();
    let mut code_gen = Codegen::new(&context);
    assert!(void_global.build(&mut code_gen).is_err());

    let no_value = Program {
        items: vec![Item::Global(GlobalDecl { name: "g".to_string(), ty: Type::I32, value: None, pointer: false })],
    };
    let context = Context::create();
    let mut code_gen = Codegen::new(&context);
    let err = no_value.build(&mut code_gen).unwrap_err();
    assert!(err.contains("Global variables must be initialized with a value"));
}
