use compiler_core::decl::{compile, compile_constructor, compile_field, compile_statement};
use compiler_core::expr::{compile_binop, compile_expression, compile_pattern};
use compiler_core::ir::{
    Arg, BinOp, Branch, CallArg, Constructor, EmitError, ExprField, Expression, Module, Pattern,
    PatternField, Statement, Type, TypeVar,
};
use compiler_core::ir::BindingKind;
use compiler_core::names::choose_prefix;
use compiler_core::types::{collect_generics, compile_arguments, compile_type, compile_type_args};

fn s(x: &str) -> String {
    x.to_string()
}

fn app(name: &str, args: Vec<Type>) -> Type {
    Type::App { name: s(name), args }
}

fn int_t() -> Type {
    app("Int", vec![])
}

fn generic(id: u64) -> Type {
    Type::Var { var: TypeVar::Generic { id } }
}

fn unbound(id: u64) -> Type {
    Type::Var { var: TypeVar::Unbound { id } }
}

fn link(t: Type) -> Type {
    Type::Var { var: TypeVar::Link { typ: Box::new(t) } }
}

fn arg(name: &str, typ: Type) -> Arg {
    Arg { name: Some(s(name)), typ }
}

fn var(name: &str) -> Expression {
    Expression::Var { name: s(name) }
}

fn lit(value: i64) -> Expression {
    Expression::Int { value }
}

fn expr(e: &Expression) -> String {
    compile_expression(e).expect("expression renders")
}

fn func(name: &str, args: Vec<Arg>, ret: Type, body: Expression) -> Statement {
    Statement::Fn { name: s(name), args, body, public: false, return_type: ret, doc: None }
}

#[test]
fn plain_type_renders_its_name() {
    assert_eq!(compile_type(&int_t(), "T"), "Int");
}

#[test]
fn applied_type_renders_its_arguments_in_order() {
    let t = app("Result", vec![int_t(), generic(1)]);
    assert_eq!(compile_type(&t, "T"), "Result<Int, T1>");
}

#[test]
fn linked_variables_render_as_their_target() {
    let t = link(link(app("List", vec![link(int_t())])));
    assert_eq!(compile_type(&t, "T"), "List<Int>");
    assert_eq!(compile_type(&link(unbound(7)), "T"), "T7");
}

#[test]
fn generic_and_unbound_variables_share_their_naming() {
    assert_eq!(compile_type(&generic(12), "T"), "T12");
    assert_eq!(compile_type(&unbound(12), "T"), "T12");
    assert_eq!(compile_type(&generic(0), "T"), "T0");
}

#[test]
fn function_and_tuple_types() {
    let f = Type::Fn { args: vec![int_t(), generic(2)], ret: Box::new(app("Bool", vec![])) };
    assert_eq!(compile_type(&f, "T"), "fn(Int, T2) -> Bool");
    let unit = Type::Fn { args: vec![], ret: Box::new(int_t()) };
    assert_eq!(compile_type(&unit, "T"), "fn() -> Int");
    assert_eq!(compile_type(&Type::Tuple { elems: vec![int_t()] }, "T"), "(Int,)");
    assert_eq!(compile_type(&Type::Tuple { elems: vec![int_t(), generic(3)] }, "T"), "(Int, T3)");
    assert_eq!(compile_type(&Type::Tuple { elems: vec![] }, "T"), "()");
}

#[test]
fn generics_are_deduplicated_in_first_occurrence_order() {
    let args = vec![arg("a", unbound(1)), arg("b", unbound(1)), arg("c", unbound(2))];
    assert_eq!(collect_generics(&args), vec![1, 2]);
    assert_eq!(compile_type_args(&args, "T"), "<T1, T2>");
}

#[test]
fn generics_are_found_through_links_and_nested_types() {
    let args = vec![
        arg("f", Type::Fn { args: vec![generic(4)], ret: Box::new(link(generic(9))) }),
        arg("p", Type::Tuple { elems: vec![generic(9), app("List", vec![generic(4)])] }),
    ];
    assert_eq!(collect_generics(&args), vec![4, 9]);
    assert_eq!(compile_type_args(&args, "T"), "<T4, T9>");
}

#[test]
fn no_generics_render_no_clause() {
    let args = vec![arg("x", int_t())];
    assert_eq!(collect_generics(&args), Vec::<u64>::new());
    assert_eq!(compile_type_args(&args, "T"), "");
    assert_eq!(compile_type_args(&vec![], "T"), "");
}

#[test]
fn arguments_render_with_placeholder_names() {
    let args = vec![arg("x", int_t()), Arg { name: None, typ: generic(1) }];
    assert_eq!(compile_arguments(&args, "T"), "x: Int, _: T1");
}

#[test]
fn identity_function_has_no_generic_clause() {
    let f = func("id", vec![arg("x", int_t())], int_t(), var("x"));
    assert_eq!(compile_statement(&f).ok().unwrap(), "fn id(x: Int) -> Int {\nx.clone()\n}");
}

#[test]
fn unresolved_argument_type_gives_one_generic_parameter() {
    let f = func("f", vec![arg("x", link(unbound(5)))], unbound(5), var("x"));
    assert_eq!(compile_statement(&f).ok().unwrap(), "fn f<T5>(x: T5) -> T5 {\nx.clone()\n}");
}

#[test]
fn addition_is_fully_parenthesised() {
    let e = Expression::BinOp { op: BinOp::Add, left: Box::new(var("x")), right: Box::new(lit(1)) };
    assert_eq!(expr(&e), "(x.clone() + 1)");
    let nested = Expression::BinOp {
        op: BinOp::Mul,
        left: Box::new(e),
        right: Box::new(lit(2)),
    };
    assert_eq!(expr(&nested), "((x.clone() + 1) * 2)");
}

#[test]
fn operators_map_to_target_symbols() {
    assert_eq!(compile_binop(&BinOp::Sub), "-");
    assert_eq!(compile_binop(&BinOp::Div), "/");
    assert_eq!(compile_binop(&BinOp::Rem), "%");
    assert_eq!(compile_binop(&BinOp::NotEq), "!=");
    assert_eq!(compile_binop(&BinOp::LtEq), "<=");
    assert_eq!(compile_binop(&BinOp::And), "&&");
    assert_eq!(compile_binop(&BinOp::Or), "||");
}

#[test]
fn construct_keeps_the_given_field_order() {
    let e = Expression::Construct {
        name: s("Point"),
        fields: vec![
            ExprField { name: s("x"), value: lit(1) },
            ExprField { name: s("y"), value: lit(2) },
        ],
    };
    assert_eq!(expr(&e), "Point { x: 1, y: 2 }");
    let empty = Expression::Construct { name: s("Unit"), fields: vec![] };
    assert_eq!(expr(&empty), "Unit {}");
}

#[test]
fn pattern_keeps_the_given_field_order() {
    let p = Pattern::Struct {
        name: s("Point"),
        fields: vec![
            PatternField { name: s("y"), pattern: Pattern::Var { name: s("b") } },
            PatternField { name: s("x"), pattern: Pattern::Var { name: s("a") } },
        ],
    };
    assert_eq!(compile_pattern(&p), "Point { y: b, x: a }");
}

#[test]
fn simple_patterns() {
    assert_eq!(compile_pattern(&Pattern::Wildcard), "_");
    assert_eq!(compile_pattern(&Pattern::Int { value: 3 }), "3i64");
    assert_eq!(compile_pattern(&Pattern::Int { value: -40 }), "-40i64");
    assert_eq!(compile_pattern(&Pattern::Struct { name: s("Nil"), fields: vec![] }), "Nil {}");
}

#[test]
fn integer_literals() {
    assert_eq!(expr(&lit(0)), "0");
    assert_eq!(expr(&lit(1234567)), "1234567");
    assert_eq!(expr(&lit(-42)), "-42");
    assert_eq!(expr(&lit(i64::MIN)), "-9223372036854775808");
    assert_eq!(expr(&lit(i64::MAX)), "9223372036854775807");
}

#[test]
fn literals_and_references() {
    assert_eq!(expr(&Expression::Float { value: s("1.5") }), "1.5");
    assert_eq!(expr(&Expression::Str { value: s("hi") }), "String::from(\"hi\")");
    assert_eq!(expr(&var("y")), "y.clone()");
    let sel = Expression::ModuleSelect { module: s("list"), label: s("map") };
    assert_eq!(expr(&sel), "list::map");
}

#[test]
fn calls_render_arguments_in_order_without_labels() {
    let e = Expression::Call {
        fun: Box::new(var("f")),
        args: vec![
            CallArg { label: Some(s("a")), value: var("x") },
            CallArg { label: None, value: lit(2) },
        ],
    };
    assert_eq!(expr(&e), "f(x.clone(), 2)");
    let none = Expression::Call { fun: Box::new(var("g")), args: vec![] };
    assert_eq!(expr(&none), "g()");
    let indirect = Expression::Call {
        fun: Box::new(Expression::FieldAccess { record: Box::new(var("r")), label: s("h") }),
        args: vec![CallArg { label: None, value: lit(1) }],
    };
    assert_eq!(expr(&indirect), "(r.clone().h)(1)");
}

#[test]
fn sequence_renders_as_a_block() {
    let e = Expression::Sequence {
        exprs: vec![
            Expression::Let {
                pattern: Pattern::Var { name: s("y") },
                value: Box::new(lit(1)),
                kind: BindingKind::Let,
            },
            var("y"),
        ],
    };
    assert_eq!(expr(&e), "{\nlet y = 1;\ny.clone()\n}");
}

#[test]
fn match_keeps_branch_order() {
    let e = Expression::Match {
        subjects: vec![var("n")],
        branches: vec![
            Branch { patterns: vec![Pattern::Int { value: 0 }], body: lit(1) },
            Branch { patterns: vec![Pattern::Wildcard], body: lit(2) },
        ],
    };
    assert_eq!(expr(&e), "match n.clone() {\n0i64 => {\n1\n}\n_ => {\n2\n}\n}");
}

#[test]
fn lists_tuples_and_access() {
    let l = Expression::List { elements: vec![lit(1), lit(2)], tail: None };
    assert_eq!(expr(&l), "vec![1, 2]");
    let spread = Expression::List { elements: vec![lit(1)], tail: Some(Box::new(var("rest"))) };
    assert_eq!(expr(&spread), "[vec![1], rest.clone()].concat()");
    assert_eq!(expr(&Expression::Tuple { elems: vec![lit(1)] }), "(1,)");
    assert_eq!(expr(&Expression::Tuple { elems: vec![lit(1), lit(2)] }), "(1, 2)");
    let idx = Expression::TupleIndex { tuple: Box::new(var("t")), index: 10 };
    assert_eq!(expr(&idx), "t.clone().10");
    let acc = Expression::FieldAccess { record: Box::new(var("p")), label: s("x") };
    assert_eq!(expr(&acc), "p.clone().x");
}

#[test]
fn negations_anonymous_functions_and_placeholders() {
    let nb = Expression::NegateBool { value: Box::new(var("b")) };
    assert_eq!(expr(&nb), "(!b.clone())");
    let ni = Expression::NegateInt { value: Box::new(lit(3)) };
    assert_eq!(expr(&ni), "(-3)");
    let f = Expression::Fn { args: vec![arg("x", int_t())], body: Box::new(var("x")) };
    assert_eq!(expr(&f), "|x| x.clone()");
    assert_eq!(expr(&Expression::Todo { label: None }), "panic!(\"not implemented\")");
    assert_eq!(expr(&Expression::Todo { label: Some(s("later")) }), "panic!(\"later\")");
}

#[test]
fn bit_strings_have_no_rendering() {
    let e = Expression::BitString { segments: vec![lit(1)] };
    assert!(compile_expression(&e).is_none());
    let nested = Expression::BinOp { op: BinOp::Add, left: Box::new(lit(1)), right: Box::new(e) };
    assert!(compile_expression(&nested).is_none());
}

#[test]
fn custom_type_renders_as_enum() {
    let list = Statement::CustomType {
        name: s("List"),
        parameters: vec![s("a")],
        public: false,
        constructors: vec![
            Constructor { name: s("Empty"), fields: vec![] },
            Constructor {
                name: s("Cons"),
                fields: vec![
                    arg("item", app("a", vec![])),
                    arg("next", app("Rc", vec![app("List", vec![app("a", vec![])])])),
                ],
            },
        ],
        doc: None,
    };
    assert_eq!(
        compile_statement(&list).ok().unwrap(),
        "enum List<a> {\n\tEmpty,\n\tCons {\n\t\titem: a,\n\t\tnext: Rc<List<a>>,\n\t},\n}"
    );
    let c = Constructor { name: s("Leaf"), fields: vec![] };
    assert_eq!(compile_constructor(&c, "T"), "Leaf,");
}

#[test]
fn public_documented_function() {
    let f = Statement::Fn {
        name: s("plus_one"),
        args: vec![arg("x", int_t())],
        body: Expression::BinOp {
            op: BinOp::Add,
            left: Box::new(var("x")),
            right: Box::new(lit(1)),
        },
        public: true,
        return_type: int_t(),
        doc: Some(s("adds one")),
    };
    assert_eq!(
        compile_statement(&f).ok().unwrap(),
        "// adds one\npub fn plus_one(x: Int) -> Int {\n(x.clone() + 1)\n}"
    );
}

#[test]
fn narrower_declarations() {
    let alias = Statement::TypeAlias {
        name: s("Pair"),
        parameters: vec![s("a"), s("b")],
        public: true,
        typ: Type::Tuple { elems: vec![app("a", vec![]), app("b", vec![])] },
        doc: None,
    };
    assert_eq!(compile_statement(&alias).ok().unwrap(), "pub type Pair<a, b> = (a, b);");
    let ext = Statement::ExternalFn {
        name: s("now"),
        args: vec![],
        public: false,
        return_type: int_t(),
        module: s("clock"),
        fun: s("system_time"),
        doc: None,
    };
    assert_eq!(
        compile_statement(&ext).ok().unwrap(),
        "// fn now() -> Int\nuse clock::system_time as now;"
    );
    let ty = Statement::ExternalType { name: s("Ref"), parameters: vec![s("a")], public: true, doc: None };
    assert_eq!(
        compile_statement(&ty).ok().unwrap(),
        "pub struct Ref<a>(std::marker::PhantomData<(a)>);"
    );
    let bare = Statement::ExternalType { name: s("Pid"), parameters: vec![], public: false, doc: None };
    assert_eq!(compile_statement(&bare).ok().unwrap(), "struct Pid;");
    let imp = Statement::Import { path: vec![s("shapes"), s("list")], as_name: Some(s("l")) };
    assert_eq!(compile_statement(&imp).ok().unwrap(), "pub use shapes::list as l;");
    let plain = Statement::Import { path: vec![s("io")], as_name: None };
    assert_eq!(compile_statement(&plain).ok().unwrap(), "pub use io;");
    let k = Statement::ModuleConstant {
        name: s("LIMIT"),
        public: false,
        typ: int_t(),
        value: lit(10),
        doc: None,
    };
    assert_eq!(compile_statement(&k).ok().unwrap(), "const LIMIT: Int = 10;");
}

#[test]
fn module_keeps_declaration_order() {
    let m = Module {
        statements: vec![
            func("b", vec![], int_t(), lit(2)),
            func("a", vec![], int_t(), lit(1)),
        ],
    };
    assert_eq!(
        compile(&m).ok().unwrap(),
        "fn b() -> Int {\n2\n}\n\nfn a() -> Int {\n1\n}"
    );
    assert_eq!(compile(&Module { statements: vec![] }).ok().unwrap(), "");
}

#[test]
fn unsupported_construct_fails_the_whole_module() {
    let m = Module {
        statements: vec![
            func("fine", vec![], int_t(), lit(1)),
            func("bad", vec![], int_t(), Expression::BitString { segments: vec![] }),
            Statement::ModuleConstant {
                name: s("ALSO_BAD"),
                public: false,
                typ: int_t(),
                value: Expression::BitString { segments: vec![] },
                doc: None,
            },
        ],
    };
    match compile(&m) {
        Err(EmitError::UnsupportedConstruct { construct, declaration }) => {
            assert_eq!(construct, "bit string");
            assert_eq!(declaration, "bad");
        }
        Ok(_) => panic!("a module with a bit string must not be emitted"),
    }
}

#[test]
fn unsupported_construct_in_a_constant() {
    let k = Statement::ModuleConstant {
        name: s("BITS"),
        public: false,
        typ: int_t(),
        value: Expression::BitString { segments: vec![] },
        doc: None,
    };
    match compile_statement(&k) {
        Err(EmitError::UnsupportedConstruct { construct, declaration }) => {
            assert_eq!(construct, "bit string");
            assert_eq!(declaration, "BITS");
        }
        Ok(_) => panic!("a constant with a bit string must not be emitted"),
    }
}

#[test]
fn match_on_several_subjects_uses_tuples() {
    let e = Expression::Match {
        subjects: vec![var("a"), var("b")],
        branches: vec![
            Branch { patterns: vec![Pattern::Int { value: 1 }, Pattern::Wildcard], body: lit(1) },
            Branch { patterns: vec![Pattern::Wildcard, Pattern::Var { name: s("y") }], body: var("y") },
        ],
    };
    assert_eq!(
        expr(&e),
        "match (a.clone(), b.clone()) {\n(1i64, _) => {\n1\n}\n(_, y) => {\ny.clone()\n}\n}"
    );
}

#[test]
fn asserting_binding_stops_on_mismatch() {
    let e = Expression::Let {
        pattern: Pattern::Struct {
            name: s("Ok"),
            fields: vec![PatternField { name: s("value"), pattern: Pattern::Var { name: s("v") } }],
        },
        value: Box::new(var("r")),
        kind: BindingKind::Assert,
    };
    assert_eq!(
        expr(&e),
        "let Ok { value: v } = r.clone() else {\npanic!(\"assertion failed\")\n}"
    );
}

#[test]
fn try_returns_errors_early() {
    let e = Expression::Try {
        pattern: Pattern::Var { name: s("x") },
        value: Box::new(var("r")),
        then: Box::new(var("x")),
    };
    assert_eq!(
        expr(&e),
        "match r.clone() {\nOk(x) => {\nx.clone()\n}\nErr(error) => return Err(error),\n}"
    );
}

#[test]
fn record_update_and_pipeline() {
    let u = Expression::RecordUpdate {
        name: s("Point"),
        spread: Box::new(var("p")),
        fields: vec![ExprField { name: s("x"), value: lit(0) }],
    };
    assert_eq!(expr(&u), "Point { x: 0, ..p.clone() }");
    let bare = Expression::RecordUpdate { name: s("Point"), spread: Box::new(var("p")), fields: vec![] };
    assert_eq!(expr(&bare), "Point { ..p.clone() }");
    let pipe = Expression::Pipeline { exprs: vec![lit(1), var("x")] };
    assert_eq!(expr(&pipe), "{\n1;\nx.clone()\n}");
}

#[test]
fn synthetic_names_avoid_user_type_names() {
    assert_eq!(choose_prefix(&vec![s("Int"), s("Tree"), s("T"), s("T1x")]), "T");
    assert_eq!(choose_prefix(&vec![s("T1")]), "T_");
    assert_eq!(choose_prefix(&vec![s("T1"), s("T_22")]), "T__");
    assert_eq!(choose_prefix(&vec![]), "T");
    let f = func(
        "f",
        vec![arg("a", app("T1", vec![])), arg("b", generic(1))],
        generic(1),
        var("b"),
    );
    assert_eq!(
        compile_statement(&f).ok().unwrap(),
        "fn f<T_1>(a: T1, b: T_1) -> T_1 {\nb.clone()\n}"
    );
}

#[test]
fn prefix_is_chosen_per_declaration() {
    let m = Module {
        statements: vec![
            func("f", vec![arg("a", app("T2", vec![])), arg("b", generic(2))], int_t(), lit(0)),
            func("g", vec![arg("b", generic(2))], int_t(), lit(0)),
        ],
    };
    assert_eq!(
        compile(&m).ok().unwrap(),
        "fn f<T_2>(a: T2, b: T_2) -> Int {\n0\n}\n\nfn g<T2>(b: T2) -> Int {\n0\n}"
    );
}

#[test]
fn custom_type_fields_take_the_declaration_prefix() {
    let t = Statement::CustomType {
        name: s("Box"),
        parameters: vec![s("T3")],
        public: true,
        constructors: vec![Constructor { name: s("Box"), fields: vec![arg("v", generic(3))] }],
        doc: Some(s("a box")),
    };
    assert_eq!(
        compile_statement(&t).ok().unwrap(),
        "// a box\npub enum Box<T3, T_3> {\n\tBox {\n\t\tv: T_3,\n\t},\n}"
    );
}

#[test]
fn integer_division_gives_zero_for_a_zero_divisor() {
    let d = Expression::BinOp { op: BinOp::Div, left: Box::new(var("a")), right: Box::new(lit(0)) };
    assert_eq!(expr(&d), "(a.clone().checked_div(0).unwrap_or(0))");
    let r = Expression::BinOp { op: BinOp::Rem, left: Box::new(lit(7)), right: Box::new(var("b")) };
    assert_eq!(expr(&r), "(7.checked_rem(b.clone()).unwrap_or(0))");
    let f = Expression::BinOp {
        op: BinOp::DivFloat,
        left: Box::new(Expression::Float { value: s("1.0") }),
        right: Box::new(Expression::Float { value: s("2.0") }),
    };
    assert_eq!(expr(&f), "(1.0 / 2.0)");
}

#[test]
fn multi_line_doc_becomes_a_comment_block() {
    let k = Statement::ModuleConstant {
        name: s("ANSWER"),
        public: true,
        typ: int_t(),
        value: lit(42),
        doc: Some(s("The answer.\nComputed at length.")),
    };
    assert_eq!(
        compile_statement(&k).ok().unwrap(),
        "// The answer.\n// Computed at length.\npub const ANSWER: Int = 42;"
    );
    let empty = Statement::ModuleConstant {
        name: s("Z"),
        public: false,
        typ: int_t(),
        value: lit(0),
        doc: Some(s("")),
    };
    assert_eq!(compile_statement(&empty).ok().unwrap(), "// \nconst Z: Int = 0;");
}

#[test]
fn field_renders_as_name_and_type() {
    assert_eq!(compile_field(&arg("item", app("a", vec![])), "T"), "item: a");
    assert_eq!(compile_field(&Arg { name: None, typ: generic(2) }, "T_"), "_: T_2");
}

#[test]
fn synthetic_names_avoid_records_built_in_the_body() {
    let f = func(
        "f",
        vec![arg("x", generic(1))],
        int_t(),
        Expression::Construct { name: s("T1"), fields: vec![] },
    );
    assert_eq!(compile_statement(&f).ok().unwrap(), "fn f<T_1>(x: T_1) -> Int {\nT1 {}\n}");
    let g = func(
        "g",
        vec![arg("x", generic(2))],
        int_t(),
        Expression::Match {
            subjects: vec![var("x")],
            branches: vec![Branch {
                patterns: vec![Pattern::Struct { name: s("T2"), fields: vec![] }],
                body: lit(0),
            }],
        },
    );
    assert_eq!(
        compile_statement(&g).ok().unwrap(),
        "fn g<T_2>(x: T_2) -> Int {\nmatch x.clone() {\nT2 {} => {\n0\n}\n}\n}"
    );
}

#[test]
fn custom_types_and_aliases_declare_their_type_variables() {
    let holder = Statement::CustomType {
        name: s("Holder"),
        parameters: vec![],
        public: false,
        constructors: vec![
            Constructor { name: s("One"), fields: vec![arg("a", generic(7))] },
            Constructor { name: s("Two"), fields: vec![arg("a", generic(7)), arg("b", unbound(8))] },
        ],
        doc: None,
    };
    assert_eq!(
        compile_statement(&holder).ok().unwrap(),
        "enum Holder<T7, T8> {\n\tOne {\n\t\ta: T7,\n\t},\n\tTwo {\n\t\ta: T7,\n\t\tb: T8,\n\t},\n}"
    );
    let alias = Statement::TypeAlias {
        name: s("Wrap"),
        parameters: vec![s("a")],
        public: false,
        typ: app("List", vec![link(generic(4))]),
        doc: None,
    };
    assert_eq!(compile_statement(&alias).ok().unwrap(), "type Wrap<a, T4> = List<T4>;");
    let own = Statement::TypeAlias {
        name: s("T5"),
        parameters: vec![],
        public: false,
        typ: generic(5),
        doc: None,
    };
    assert_eq!(compile_statement(&own).ok().unwrap(), "type T5<T_5> = T_5;");
}

#[test]
fn arguments_reusing_variables_leave_the_clause_unchanged() {
    let a = vec![arg("a", generic(1)), arg("b", unbound(2))];
    let more = vec![
        arg("a", generic(1)),
        arg("b", unbound(2)),
        arg("c", app("Map", vec![unbound(2), link(generic(1))])),
    ];
    assert_eq!(compile_type_args(&a, "T"), "<T1, T2>");
    assert_eq!(compile_type_args(&more, "T"), compile_type_args(&a, "T"));
}

#[test]
fn types_without_variables_ignore_the_prefix() {
    let t = app("Result", vec![link(int_t()), Type::Tuple { elems: vec![link(link(int_t()))] }]);
    assert_eq!(compile_type(&t, "T"), "Result<Int, (Int,)>");
    assert_eq!(compile_type(&t, "T__"), compile_type(&t, "T"));
    assert_eq!(compile_type(&generic(3), "T__"), "T__3");
}

#[test]
fn deeply_nested_bit_string_fails_the_module() {
    let deep = Expression::Call {
        fun: Box::new(var("f")),
        args: vec![CallArg {
            label: None,
            value: Expression::Match {
                subjects: vec![var("x")],
                branches: vec![Branch {
                    patterns: vec![Pattern::Wildcard],
                    body: Expression::Tuple {
                        elems: vec![lit(1), Expression::BitString { segments: vec![] }],
                    },
                }],
            },
        }],
    };
    assert!(compile_expression(&deep).is_none());
    let m = Module {
        statements: vec![
            func("ok", vec![], int_t(), lit(1)),
            Statement::ModuleConstant { name: s("DEEP"), public: false, typ: int_t(), value: deep, doc: None },
        ],
    };
    match compile(&m) {
        Err(EmitError::UnsupportedConstruct { construct, declaration }) => {
            assert_eq!(construct, "bit string");
            assert_eq!(declaration, "DEEP");
        }
        Ok(_) => panic!("a module with a bit string must not be emitted"),
    }
}

#[test]
fn concatenation_borrows_its_right_operand() {
    let e = Expression::BinOp {
        op: BinOp::Concat,
        left: Box::new(Expression::Str { value: s("a") }),
        right: Box::new(var("b")),
    };
    assert_eq!(expr(&e), "(String::from(\"a\") + &b.clone())");
}
