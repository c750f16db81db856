use compiler::ast::{
    AssignmentStmt, Expr, FunctionDecl, GlobalDecl, IfStmt, Item, Param, Program, Stmt, Token,
    Type, WhileStmt,
};
use compiler::codegen::Codegen;
use inkwell::context::Context;

fn int_lit(n: u32) -> Expr {
    Expr::Operand(Token::Int(n))
}

fn float(x: f64) -> Expr {
    Expr::Operand(Token::Float(x.to_bits()))
}

fn var(s: &str) -> Expr {
    Expr::Operand(Token::Identifier(s.to_string()))
}

fn call(name: &str, args: Vec<Expr>) -> Expr {
    Expr::Operand(Token::Call(name.to_string(), Box::new(args)))
}

fn op(t: Token, args: Vec<Expr>) -> Expr {
    Expr::Operation(t, args)
}

fn ptr(t: Type) -> Type {
    Type::Pointer(Box::new(t))
}

fn declare(name: &str, ty: Type, value: Expr) -> Stmt {
    Stmt::Assignment(AssignmentStmt {
        name: name.to_string(),
        ty: Some(ty),
        value: Some(value),
        index: None,
        dereference: false,
    })
}

fn assign_index(name: &str, index: Expr, value: Expr) -> Stmt {
    Stmt::Assignment(AssignmentStmt {
        name: name.to_string(),
        ty: None,
        value: Some(value),
        index: Some(index),
        dereference: false,
    })
}

fn assign_deref(name: &str, value: Expr) -> Stmt {
    Stmt::Assignment(AssignmentStmt {
        name: name.to_string(),
        ty: None,
        value: Some(value),
        index: None,
        dereference: true,
    })
}

fn expr(e: Expr) -> Stmt {
    Stmt::Expr(e)
}

fn ret(e: Expr) -> Stmt {
    Stmt::Return(Some(e))
}

fn func(name: &str, params: Vec<(&str, Type)>, ret: Type, body: Vec<Stmt>) -> Item {
    Item::Function(FunctionDecl {
        name: name.to_string(),
        params: params
            .into_iter()
            .map(|(n, t)| Param { name: n.to_string(), ty: t })
            .collect(),
        return_type: ret,
        body,
    })
}

fn compile(items: Vec<Item>) -> Result<String, String> {
    let program = Program { items };
    let context = Context::create();
    let mut code_gen = Codegen::new(&context);
    program.build(&mut code_gen)?;
    Ok(code_gen.module.print_to_string().to_string())
}

fn readme_program() -> Vec<Item> {
    vec![
        func(
            "make_array",
            vec![],
            ptr(Type::I32),
            vec![
                declare(
                    "arr",
                    ptr(Type::I32),
                    call("malloc", vec![Expr::SizeOf(Type::Array(Box::new(Type::I32), 10))]),
                ),
                ret(var("arr")),
            ],
        ),
        func(
            "run",
            vec![],
            Type::Void,
            vec![
                expr(call("print", vec![Expr::SizeOf(Type::I32)])),
                declare("arr", ptr(Type::I32), call("make_array", vec![])),
                declare("len", Type::I32, int_lit(0)),
                assign_index("arr", int_lit(0), int_lit(11)),
                expr(call("print", vec![op(Token::LBracket, vec![var("arr"), int_lit(0)])])),
                expr(call("array_set", vec![var("arr"), int_lit(1), int_lit(22)])),
                expr(call("print", vec![call("array_get", vec![var("arr"), int_lit(1)])])),
                expr(call("push", vec![var("arr"), op(Token::Ampersand, vec![var("len")]), int_lit(33)])),
                expr(call("push", vec![var("arr"), op(Token::Ampersand, vec![var("len")]), int_lit(44)])),
                expr(call("print", vec![call("pop", vec![var("arr"), op(Token::Ampersand, vec![var("len")])])])),
                expr(call("print", vec![call("pop", vec![var("arr"), op(Token::Ampersand, vec![var("len")])])])),
                expr(call("free", vec![var("arr")])),
            ],
        ),
    ]
}

#[test]
fn readme_example_compiles_to_a_valid_module() {
    let ir = compile(readme_program()).expect("the example compiles");
    assert!(ir.contains("define i32* @make_array()"));
    assert!(ir.contains("define void @run()"));
    assert!(ir.contains("define i32 @main()"));
    assert!(ir.contains("call void @run()"));
    assert!(ir.contains("@printf"));
    assert!(ir.contains("@malloc"));
    assert!(ir.contains("@free"));
}

#[test]
fn main_is_not_added_when_the_program_has_one() {
    let items = vec![func("main", vec![], Type::I32, vec![ret(int_lit(7))])];
    let ir = compile(items).unwrap();
    assert!(ir.contains("ret i32 7"));
    assert!(!ir.contains("call void @run()"));
}

#[test]
fn division_and_comparison_follow_signedness() {
    let signed = vec![
        func("div", vec![("a", Type::I32), ("b", Type::I32)], Type::I32, vec![ret(op(Token::Slash, vec![var("a"), var("b")]))]),
        func("lt", vec![("a", Type::I32), ("b", Type::I32)], Type::Bool, vec![ret(op(Token::Less, vec![var("a"), var("b")]))]),
    ];
    let ir = compile(signed).unwrap();
    assert!(ir.contains("sdiv i32"));
    assert!(ir.contains("icmp slt i32"));
    let unsigned = vec![
        func("div", vec![("a", Type::U32), ("b", Type::U32)], Type::U32, vec![ret(op(Token::Slash, vec![var("a"), var("b")]))]),
        func("lt", vec![("a", Type::U32), ("b", Type::U32)], Type::Bool, vec![ret(op(Token::Less, vec![var("a"), var("b")]))]),
    ];
    let ir = compile(unsigned).unwrap();
    assert!(ir.contains("udiv i32"));
    assert!(ir.contains("icmp ult i32"));
}

#[test]
fn float_arithmetic_and_literals() {
    let items = vec![func(
        "f",
        vec![("x", Type::F64)],
        Type::F64,
        vec![ret(op(Token::Star, vec![var("x"), float(2.5)]))],
    )];
    let ir = compile(items).unwrap();
    assert!(ir.contains("fmul double"));
    assert!(ir.contains("2.500000e+00"));
}

#[test]
fn printing_an_f32_widens_it() {
    let items = vec![func(
        "show",
        vec![("x", Type::F32)],
        Type::Void,
        vec![expr(call("print", vec![var("x")]))],
    )];
    let ir = compile(items).unwrap();
    assert!(ir.contains("fpext float"));
    assert!(ir.contains("%f"));
}

#[test]
fn missing_return_gives_the_zero_of_the_type() {
    let items = vec![
        func("a", vec![], Type::I64, vec![]),
        func("b", vec![], ptr(Type::I8), vec![]),
        func("c", vec![], Type::F64, vec![]),
        func("d", vec![], Type::Void, vec![]),
    ];
    let ir = compile(items).unwrap();
    assert!(ir.contains("ret i64 0"));
    assert!(ir.contains("ret i8* null"));
    assert!(ir.contains("ret double 0.000000e+00"));
    assert!(ir.contains("ret void"));
}

#[test]
fn globals_with_constant_initializers() {
    let items = vec![
        Item::Global(GlobalDecl { name: "g".to_string(), ty: Type::I32, value: Some(int_lit(5)), pointer: false }),
        Item::Global(GlobalDecl { name: "p".to_string(), ty: ptr(Type::I32), value: Some(int_lit(0)), pointer: true }),
        Item::Global(GlobalDecl {
            name: "a".to_string(),
            ty: Type::Array(Box::new(Type::I32), 3),
            value: Some(Expr::Operand(Token::Array(Box::new(vec![int_lit(1), int_lit(2), int_lit(3)])))),
            pointer: false,
        }),
    ];
    let ir = compile(items).unwrap();
    assert!(ir.contains("@g = global i32 5"));
    assert!(ir.contains("@p = global i32* null"));
    assert!(ir.contains("@a = global [3 x i32] [i32 1, i32 2, i32 3]"));
}

#[test]
fn loops_and_branches_produce_a_valid_module() {
    let body = vec![
        declare("i", Type::I32, int_lit(0)),
        declare("p", ptr(Type::I32), op(Token::Ampersand, vec![var("i")])),
        Stmt::While(WhileStmt {
            condition: op(Token::Less, vec![var("i"), int_lit(10)]),
            body: vec![
                Stmt::If(IfStmt {
                    condition: op(Token::EqualEqual, vec![var("i"), int_lit(5)]),
                    then_branch: vec![Stmt::Break],
                    else_branch: Some(vec![
                        assign_deref("p", op(Token::Plus, vec![var("i"), int_lit(1)])),
                        Stmt::Continue,
                    ]),
                }),
            ],
        }),
        ret(var("i")),
    ];
    let ir = compile(vec![func("count", vec![], Type::I32, body)]).unwrap();
    assert!(ir.contains("while_cond"));
    assert!(ir.contains("while_body"));
    assert!(ir.contains("while_end"));
    assert!(ir.contains("then_branch"));
    assert!(ir.contains("else_branch"));
    assert!(ir.contains("if_merge"));
}

#[test]
fn undefined_variable_is_an_error() {
    let items = vec![func("f", vec![], Type::I32, vec![ret(var("nope"))])];
    let err = compile(items).unwrap_err();
    assert!(err.contains("Undefined variable: nope"));
}

#[test]
fn break_outside_a_loop_is_an_error() {
    let items = vec![func("f", vec![], Type::Void, vec![Stmt::Break])];
    let err = compile(items).unwrap_err();
    assert!(err.contains("break/continue used outside of a loop"));
}

#[test]
fn print_needs_exactly_one_printable_argument() {
    let two = vec![func("f", vec![], Type::Void, vec![expr(call("print", vec![int_lit(1), int_lit(2)]))])];
    assert!(compile(two).unwrap_err().contains("print expects exactly one argument"));
    let arr = vec![func(
        "f",
        vec![],
        Type::Void,
        vec![expr(call("print", vec![Expr::Operand(Token::Array(Box::new(vec![int_lit(1)])))]))],
    )];
    assert!(compile(arr).is_err());
}

#[test]
fn storing_a_value_of_another_type_through_a_pointer_is_an_error() {
    let body = vec![
        declare("x", Type::I32, int_lit(1)),
        declare("p", ptr(Type::I32), op(Token::Ampersand, vec![var("x")])),
        assign_deref("p", Expr::Operand(Token::Bool(true))),
    ];
    let err = compile(vec![func("f", vec![], Type::Void, body)]).unwrap_err();
    assert!(err.contains("cannot store a value into a pointer to another type"));
}

#[test]
fn dereferencing_a_non_pointer_is_an_error() {
    let body = vec![
        declare("x", Type::I32, int_lit(1)),
        ret(op(Token::Star, vec![var("x")])),
    ];
    assert!(compile(vec![func("f", vec![], Type::I32, body)]).is_err());
}

#[test]
fn array_return_types_are_refused() {
    let items = vec![func("f", vec![], Type::Array(Box::new(Type::I32), 2), vec![])];
    assert!(compile(items).unwrap_err().contains("Unsupported function return type"));
}

#[test]
fn void_parameters_are_refused() {
    let items = vec![func("f", vec![("v", Type::Void)], Type::Void, vec![])];
    assert!(compile(items).unwrap_err().contains("Void is not allowed as a parameter type"));
}

#[test]
fn calls_of_undefined_functions_are_errors() {
    let items = vec![func("f", vec![], Type::I32, vec![ret(call("g", vec![]))])];
    assert!(compile(items).unwrap_err().contains("Function is not defined: g"));
}

#[test]
fn call_results_take_the_callee_return_type() {
    let items = vec![
        func("g", vec![("a", Type::I64)], Type::I64, vec![ret(var("a"))]),
        func("f", vec![], Type::I64, vec![
            declare("x", Type::I64, call("g", vec![Expr::SizeOf(Type::I32)])),
            ret(op(Token::Plus, vec![var("x"), call("g", vec![Expr::SizeOf(Type::U8)])])),
        ]),
    ];
    let ir = compile(items).unwrap();
    assert!(ir.contains("call i64 @g(i64 4)"));
    assert!(ir.contains("add i64"));
}

#[test]
fn sizeof_void_is_an_error() {
    let items = vec![func("f", vec![], Type::U64, vec![ret(Expr::SizeOf(Type::Void))])];
    assert!(compile(items).is_err());
}

#[test]
fn top_level_statements_produce_nothing() {
    let items = vec![Item::Statement(Stmt::Break), func("run", vec![], Type::Void, vec![])];
    let ir = compile(items).unwrap();
    assert!(ir.contains("define void @run()"));
}

#[test]
fn the_value_of_a_void_call_is_an_error() {
    let items = vec![
        func("nothing", vec![], Type::Void, vec![]),
        func("run", vec![], Type::Void, vec![declare("x", Type::I32, call("nothing", vec![]))]),
    ];
    assert!(compile(items).unwrap_err().contains("Cannot use void function return as a value"));
    let items = vec![
        func("nothing", vec![], Type::Void, vec![]),
        func("run", vec![], Type::Void, vec![expr(call("nothing", vec![]))]),
    ];
    assert!(compile(items).is_err());
}

#[test]
fn literals_and_sizeof_always_generate() {
    let items = vec![func(
        "run",
        vec![],
        Type::Void,
        vec![
            declare("a", Type::I32, int_lit(7)),
            declare("b", Type::Bool, Expr::Operand(Token::Bool(false))),
            declare("c", Type::U64, Expr::SizeOf(Type::Array(Box::new(Type::Bool), 3))),
        ],
    )];
    let ir = compile(items).unwrap();
    assert!(ir.contains("i32 7"));
    assert!(ir.contains("i1 false"));
    assert!(ir.contains("i64 3"));
}

#[test]
fn literal_expression_statements_generate() {
    let items = vec![func(
        "run",
        vec![],
        Type::Void,
        vec![
            expr(int_lit(3)),
            expr(Expr::Operand(Token::Bool(true))),
            expr(Expr::SizeOf(Type::I64)),
        ],
    )];
    assert!(compile(items).is_ok());
    let items = vec![func("run", vec![], Type::Void, vec![expr(Expr::SizeOf(Type::Void))])];
    assert!(compile(items).is_err());
}

#[test]
fn builtin_arity_errors_name_the_builtin() {
    let cases = [
        ("free", "free expects exactly one argument"),
        ("array_set", "array_set expects array, index, and value"),
        ("push", "push expects array, length pointer, and value"),
        ("pop", "pop expects array and length pointer"),
        ("array_get", "array_get expects array and index"),
    ];
    for (name, msg) in cases {
        let items = vec![func("run", vec![], Type::Void, vec![expr(call(name, vec![]))])];
        assert!(compile(items).unwrap_err().contains(msg));
    }
}

#[test]
fn each_operator_emits_its_own_instruction() {
    let items = vec![
        func("add", vec![("a", Type::I32), ("b", Type::I32)], Type::I32, vec![ret(op(Token::Plus, vec![var("a"), var("b")]))]),
        func("sub", vec![("a", Type::I32), ("b", Type::I32)], Type::I32, vec![ret(op(Token::Minus, vec![var("a"), var("b")]))]),
        func("mul", vec![("a", Type::I32), ("b", Type::I32)], Type::I32, vec![ret(op(Token::Star, vec![var("a"), var("b")]))]),
        func("eq", vec![("a", Type::I32), ("b", Type::I32)], Type::Bool, vec![ret(op(Token::EqualEqual, vec![var("a"), var("b")]))]),
    ];
    let ir = compile(items).unwrap();
    assert!(ir.contains("add i32"));
    assert!(ir.contains("sub i32"));
    assert!(ir.contains("mul i32"));
    assert!(ir.contains("icmp eq i32"));
    assert!(!ir.contains("fadd"));
}

#[test]
fn if_branches_on_its_condition_and_joins() {
    let items = vec![func(
        "pick",
        vec![("a", Type::I32)],
        Type::I32,
        vec![
            Stmt::If(IfStmt {
                condition: op(Token::Less, vec![var("a"), int_lit(3)]),
                then_branch: vec![ret(int_lit(1))],
                else_branch: Some(vec![ret(int_lit(2))]),
            }),
            ret(int_lit(0)),
        ],
    )];
    let ir = compile(items).unwrap();
    assert!(ir.contains("icmp slt i32"));
    assert!(ir.contains("br i1"));
    assert!(ir.contains("then_branch:"));
    assert!(ir.contains("else_branch:"));
    assert!(ir.contains("if_merge:"));
    assert!(ir.contains("ret i32 1"));
    assert!(ir.contains("ret i32 2"));
}

#[test]
fn functions_read_the_globals_declared_before_them() {
    let items = vec![
        Item::Global(GlobalDecl {
            name: "g".to_string(),
            ty: Type::I32,
            value: Some(int_lit(7)),
            pointer: false,
        }),
        func("get", vec![], Type::I32, vec![ret(var("g"))]),
    ];
    let ir = compile(items).unwrap();
    assert!(ir.contains("@g = global i32 7"));
    assert!(ir.contains("load i32, i32* @g"));
}

#[test]
fn a_function_cannot_read_a_global_declared_after_it() {
    let items = vec![
        func("get", vec![], Type::I32, vec![ret(var("g"))]),
        Item::Global(GlobalDecl {
            name: "g".to_string(),
            ty: Type::I32,
            value: Some(int_lit(7)),
            pointer: false,
        }),
    ];
    assert!(compile(items).is_err());
}
