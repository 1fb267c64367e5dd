use vstd::prelude::*;
use crate::ir::{Arg, BinOp, BindingKind, Branch, CallArg, ExprField, Expression, Pattern, PatternField};
use crate::text::{int_text, nat_text, push_int, push_nat, push_str};

verus! {

/// The text of an optional string, if there is one.
pub open spec fn view_opt(r: Option<String>) -> Option<Seq<char>> {
    match r {
        Some(s) => Some(s@),
        None => None,
    }
}

/// `pre + s + post` where `o` is `Some(s)`; nothing where `o` is nothing.
pub open spec fn wrap(pre: Seq<char>, o: Option<Seq<char>>, post: Seq<char>) -> Option<Seq<char>> {
    match o {
        Some(s) => Some(pre + s + post),
        None => None,
    }
}

/// The concatenation of two texts, where both exist.
pub open spec fn both(a: Option<Seq<char>>, b: Option<Seq<char>>) -> Option<Seq<char>> {
    match (a, b) {
        (Some(x), Some(y)) => Some(x + y),
        _ => None,
    }
}

/// The target operator of a binary operator.
pub open spec fn op_text(op: BinOp) -> Seq<char> {
    match op {
        BinOp::Add => "+"@,
        BinOp::Sub => "-"@,
        BinOp::Mul => "*"@,
        BinOp::Div => "/"@,
        BinOp::Rem => "%"@,
        BinOp::AddFloat => "+"@,
        BinOp::SubFloat => "-"@,
        BinOp::MulFloat => "*"@,
        BinOp::DivFloat => "/"@,
        BinOp::Eq => "=="@,
        BinOp::NotEq => "!="@,
        BinOp::Lt => "<"@,
        BinOp::LtEq => "<="@,
        BinOp::Gt => ">"@,
        BinOp::GtEq => ">="@,
        BinOp::And => "&&"@,
        BinOp::Or => "||"@,
        BinOp::Concat => "+"@,
    }
}

/// The checked method that an integer operator renders as, where the target's
/// infix operator would panic on a zero divisor.
pub open spec fn checked_method(op: BinOp) -> Option<Seq<char>> {
    match op {
        BinOp::Div => Some("checked_div"@),
        BinOp::Rem => Some("checked_rem"@),
        _ => None,
    }
}

/// The text of a pattern.
pub open spec fn pattern_text(p: Pattern) -> Seq<char>
    decreases p, 0nat,
{
    match p {
        Pattern::Wildcard => "_"@,
        Pattern::Int { value } => int_text(value as int) + "i64"@,
        Pattern::Var { name } => name@,
        Pattern::Struct { name, fields } => if fields.len() == 0 {
            name@ + " {}"@
        } else {
            name@ + " { "@ + pattern_fields_text(fields@, fields@.len()) + " }"@
        },
    }
}

/// The text of a field of a record pattern: `name: pattern`.
pub open spec fn pattern_field_text(f: PatternField) -> Seq<char>
    decreases f, 0nat,
{
    f.name@ + ": "@ + pattern_text(f.pattern)
}

/// The texts of the first `n` fields of a record pattern, in order, joined by `", "`.
pub open spec fn pattern_fields_text(fs: Seq<PatternField>, n: nat) -> Seq<char>
    decreases fs, n,
{
    if n == 0 || n > fs.len() {
        seq![]
    } else if n == 1 {
        pattern_field_text(fs[0])
    } else {
        pattern_fields_text(fs, (n - 1) as nat) + ", "@ + pattern_field_text(fs[n - 1])
    }
}

/// The name of a parameter of an anonymous function, or `_`.
pub open spec fn param_text(a: Arg) -> Seq<char> {
    match a.name {
        Some(n) => n@,
        None => "_"@,
    }
}

/// The parameter names of the first `n` arguments of an anonymous function,
/// joined by `", "`; the target infers their types.
pub open spec fn params_text(args: Seq<Arg>, n: nat) -> Seq<char>
    decreases n,
{
    if n == 0 || n > args.len() {
        seq![]
    } else if n == 1 {
        param_text(args[0])
    } else {
        params_text(args, (n - 1) as nat) + ", "@ + param_text(args[n - 1])
    }
}

/// The text of an expression; nothing where it holds a construct that the
/// target cannot express.
pub open spec fn expr_text(e: Expression) -> Option<Seq<char>>
    decreases e, 0nat,
{
    match e {
        Expression::Int { value } => Some(int_text(value as int)),
        Expression::Float { value } => Some(value@),
        Expression::Str { value } => Some("String::from(\""@ + value@ + "\")"@),
        Expression::Var { name } => Some(name@ + ".clone()"@),
        Expression::Sequence { exprs } => wrap(
            "{\n"@,
            exprs_text(exprs@, exprs@.len(), ";\n"@),
            "\n}"@,
        ),
        Expression::Call { fun, args } => both(
            match *fun {
                Expression::Var { name } => Some(name@),
                _ => wrap("("@, expr_text(*fun), ")"@),
            },
            wrap("("@, call_args_text(args@, args@.len()), ")"@),
        ),
        Expression::BinOp { op, left, right } => match checked_method(op) {
            None if op is Concat => both(
                wrap("("@, expr_text(*left), " + &"@),
                wrap(seq![], expr_text(*right), ")"@),
            ),
            None => both(
                wrap("("@, expr_text(*left), " "@ + op_text(op) + " "@),
                wrap(seq![], expr_text(*right), ")"@),
            ),
            Some(m) => both(
                wrap("("@, expr_text(*left), "."@ + m + "("@),
                wrap(seq![], expr_text(*right), ").unwrap_or(0))"@),
            ),
        },
        Expression::Fn { args, body } => wrap(
            "|"@ + params_text(args@, args@.len()) + "| "@,
            expr_text(*body),
            seq![],
        ),
        Expression::List { elements, tail } => match tail {
            None => wrap("vec!["@, exprs_text(elements@, elements@.len(), ", "@), "]"@),
            Some(t) => both(
                wrap("[vec!["@, exprs_text(elements@, elements@.len(), ", "@), "], "@),
                wrap(seq![], expr_text(*t), "].concat()"@),
            ),
        },
        Expression::Pipeline { exprs } => wrap(
            "{\n"@,
            exprs_text(exprs@, exprs@.len(), ";\n"@),
            "\n}"@,
        ),
        Expression::Let { pattern, value, kind } => wrap(
            "let "@ + pattern_text(pattern) + " = "@,
            expr_text(*value),
            match kind {
                BindingKind::Let => seq![],
                BindingKind::Assert => " else {\npanic!(\"assertion failed\")\n}"@,
            },
        ),
        Expression::Try { pattern, value, then } => both(
            wrap("match "@, expr_text(*value), " {\nOk("@ + pattern_text(pattern) + ") => {\n"@),
            wrap(seq![], expr_text(*then), "\n}\nErr(error) => return Err(error),\n}"@),
        ),
        Expression::Match { subjects, branches } => both(
            wrap(
                "match "@ + (if subjects.len() == 1 {
                    seq![]
                } else {
                    "("@
                }),
                exprs_text(subjects@, subjects@.len(), ", "@),
                (if subjects.len() == 1 {
                    seq![]
                } else {
                    ")"@
                }) + " {"@,
            ),
            wrap(seq![], branches_text(branches@, branches@.len()), "\n}"@),
        ),
        Expression::Construct { name, fields } => if fields.len() == 0 {
            Some(name@ + " {}"@)
        } else {
            wrap(name@ + " { "@, fields_text(fields@, fields@.len()), " }"@)
        },
        Expression::FieldAccess { record, label } => wrap(
            seq![],
            expr_text(*record),
            "."@ + label@,
        ),
        Expression::RecordUpdate { name, spread, fields } => both(
            wrap(name@ + " { "@, fields_text(fields@, fields@.len()), (if fields.len() == 0 {
                seq![]
            } else {
                ", "@
            }) + ".."@),
            wrap(seq![], expr_text(*spread), " }"@),
        ),
        Expression::ModuleSelect { module, label } => Some(module@ + "::"@ + label@),
        Expression::Tuple { elems } => wrap(
            "("@,
            exprs_text(elems@, elems@.len(), ", "@),
            if elems.len() == 1 {
                ",)"@
            } else {
                ")"@
            },
        ),
        Expression::TupleIndex { tuple, index } => wrap(
            seq![],
            expr_text(*tuple),
            "."@ + nat_text(index as nat),
        ),
        Expression::NegateBool { value } => wrap("(!"@, expr_text(*value), ")"@),
        Expression::NegateInt { value } => wrap("(-"@, expr_text(*value), ")"@),
        Expression::Todo { label } => match label {
            None => Some("panic!(\"not implemented\")"@),
            Some(l) => Some("panic!(\""@ + l@ + "\")"@),
        },
        Expression::BitString { .. } => None,
    }
}

/// The texts of the first `n` expressions of `es`, joined by `sep`.
pub open spec fn exprs_text(es: Seq<Expression>, n: nat, sep: Seq<char>) -> Option<Seq<char>>
    decreases es, n,
{
    if n == 0 || n > es.len() {
        Some(seq![])
    } else if n == 1 {
        expr_text(es[0])
    } else {
        both(wrap(seq![], exprs_text(es, (n - 1) as nat, sep), sep), expr_text(es[n - 1]))
    }
}

/// The texts of the values of the first `n` call arguments, joined by `", "`.
pub open spec fn call_args_text(args: Seq<CallArg>, n: nat) -> Option<Seq<char>>
    decreases args, n,
{
    if n == 0 || n > args.len() {
        Some(seq![])
    } else if n == 1 {
        expr_text(args[0].value)
    } else {
        both(wrap(seq![], call_args_text(args, (n - 1) as nat), ", "@), expr_text(args[n - 1].value))
    }
}

/// The text of a field of a record construction: `name: value`.
pub open spec fn field_text(f: ExprField) -> Option<Seq<char>>
    decreases f, 0nat,
{
    wrap(f.name@ + ": "@, expr_text(f.value), seq![])
}

/// The texts of the first `n` fields of a record construction, in order,
/// joined by `", "`.
pub open spec fn fields_text(fs: Seq<ExprField>, n: nat) -> Option<Seq<char>>
    decreases fs, n,
{
    if n == 0 || n > fs.len() {
        Some(seq![])
    } else if n == 1 {
        field_text(fs[0])
    } else {
        both(wrap(seq![], fields_text(fs, (n - 1) as nat), ", "@), field_text(fs[n - 1]))
    }
}

/// The texts of the first `n` patterns of `ps`, joined by `", "`.
pub open spec fn patterns_text(ps: Seq<Pattern>, n: nat) -> Seq<char>
    decreases n,
{
    if n == 0 || n > ps.len() {
        seq![]
    } else if n == 1 {
        pattern_text(ps[0])
    } else {
        patterns_text(ps, (n - 1) as nat) + ", "@ + pattern_text(ps[n - 1])
    }
}

/// The pattern side of a branch: the one pattern, or a tuple of them.
pub open spec fn branch_patterns_text(ps: Seq<Pattern>) -> Seq<char> {
    if ps.len() == 1 {
        pattern_text(ps[0])
    } else {
        "("@ + patterns_text(ps, ps.len()) + ")"@
    }
}

/// The text of a match branch, on a line of its own: `patterns => { body }`.
pub open spec fn branch_text(b: Branch) -> Option<Seq<char>>
    decreases b, 0nat,
{
    wrap("\n"@ + branch_patterns_text(b.patterns@) + " => {\n"@, expr_text(b.body), "\n}"@)
}

/// The texts of the first `n` branches, in order.
pub open spec fn branches_text(bs: Seq<Branch>, n: nat) -> Option<Seq<char>>
    decreases bs, n,
{
    if n == 0 || n > bs.len() {
        Some(seq![])
    } else {
        both(branches_text(bs, (n - 1) as nat), branch_text(bs[n - 1]))
    }
}

/// The target's infix operator for a binary operator. An expression renders
/// integer division and remainder through checked methods instead, and
/// concatenation with a borrowed right operand.
pub fn compile_binop(op: &BinOp) -> (r: &'static str)
    ensures
        r@ == op_text(*op),
{
    match op {
        BinOp::Add => "+",
        BinOp::Sub => "-",
        BinOp::Mul => "*",
        BinOp::Div => "/",
        BinOp::Rem => "%",
        BinOp::AddFloat => "+",
        BinOp::SubFloat => "-",
        BinOp::MulFloat => "*",
        BinOp::DivFloat => "/",
        BinOp::Eq => "==",
        BinOp::NotEq => "!=",
        BinOp::Lt => "<",
        BinOp::LtEq => "<=",
        BinOp::Gt => ">",
        BinOp::GtEq => ">=",
        BinOp::And => "&&",
        BinOp::Or => "||",
        BinOp::Concat => "+",
    }
}

/// Renders a pattern; the fields of a record pattern keep the order given.
pub fn compile_pattern(p: &Pattern) -> (r: String)
    ensures
        r@ == pattern_text(*p),
    decreases p, 0nat,
{
    let mut out = String::new();
    match p {
        Pattern::Wildcard => {
            push_str(&mut out, "_");
        },
        Pattern::Int { value } => {
            push_int(&mut out, *value);
            push_str(&mut out, "i64");
        },
        Pattern::Var { name } => {
            push_str(&mut out, name.as_str());
        },
        Pattern::Struct { name, fields } => {
            push_str(&mut out, name.as_str());
            if fields.len() == 0 {
                push_str(&mut out, " {}");
            } else {
                push_str(&mut out, " { ");
                let f = compile_pattern_fields(fields, fields.len());
                push_str(&mut out, f.as_str());
                push_str(&mut out, " }");
            }
        },
    }
    assert(out@ =~= pattern_text(*p));
    out
}

/// Renders a field of a record pattern as `name: pattern`.
pub fn compile_pattern_field(f: &PatternField) -> (r: String)
    ensures
        r@ == pattern_field_text(*f),
    decreases f, 0nat,
{
    let mut out = f.name.clone();
    push_str(&mut out, ": ");
    let p = compile_pattern(&f.pattern);
    push_str(&mut out, p.as_str());
    out
}

fn compile_pattern_fields(fs: &Vec<PatternField>, n: usize) -> (r: String)
    requires
        n <= fs.len(),
    ensures
        r@ == pattern_fields_text(fs@, n as nat),
    decreases fs, n,
{
    if n == 0 {
        String::new()
    } else {
        assert(decreases_to!(fs => fs@[n - 1]));
        let mut out = compile_pattern_fields(fs, n - 1);
        if n > 1 {
            push_str(&mut out, ", ");
        }
        let f = compile_pattern_field(&fs[n - 1]);
        push_str(&mut out, f.as_str());
        assert(out@ =~= pattern_fields_text(fs@, n as nat));
        out
    }
}

/// Renders an expression. A variable renders as a copy of its value, a binary
/// operation fully parenthesised, a record construction with its fields in the
/// order given. Nothing is returned where the expression holds a binary segment
/// literal.
#[verifier::spinoff_prover]
#[verifier::rlimit(50)]
pub fn compile_expression(e: &Expression) -> (r: Option<String>)
    ensures
        view_opt(r) == expr_text(*e),
    decreases e, 0nat,
{
    let mut out = String::new();
    match e {
        Expression::Int { value } => {
            push_int(&mut out, *value);
        },
        Expression::Float { value } => {
            push_str(&mut out, value.as_str());
        },
        Expression::Str { value } => {
            push_str(&mut out, "String::from(\"");
            push_str(&mut out, value.as_str());
            push_str(&mut out, "\")");
        },
        Expression::Var { name } => {
            push_str(&mut out, name.as_str());
            push_str(&mut out, ".clone()");
        },
        Expression::Sequence { exprs } => {
            let body = match compile_expressions(exprs, exprs.len(), ";\n") {
                Some(b) => b,
                None => return None,
            };
            push_str(&mut out, "{\n");
            push_str(&mut out, body.as_str());
            push_str(&mut out, "\n}");
        },
        Expression::Call { fun, args } => {
            match &**fun {
                Expression::Var { name } => {
                    push_str(&mut out, name.as_str());
                },
                _ => {
                    let f = match compile_expression(fun) {
                        Some(f) => f,
                        None => return None,
                    };
                    push_str(&mut out, "(");
                    push_str(&mut out, f.as_str());
                    push_str(&mut out, ")");
                },
            }
            let a = match compile_call_args(args, args.len()) {
                Some(a) => a,
                None => return None,
            };
            push_str(&mut out, "(");
            push_str(&mut out, a.as_str());
            push_str(&mut out, ")");
        },
        Expression::BinOp { op, left, right } => {
            let l = match compile_expression(left) {
                Some(l) => l,
                None => return None,
            };
            let r = match compile_expression(right) {
                Some(r) => r,
                None => return None,
            };
            push_str(&mut out, "(");
            push_str(&mut out, l.as_str());
            match op {
                BinOp::Div => {
                    push_str(&mut out, ".");
                    push_str(&mut out, "checked_div");
                    push_str(&mut out, "(");
                    push_str(&mut out, r.as_str());
                    push_str(&mut out, ").unwrap_or(0))");
                },
                BinOp::Rem => {
                    push_str(&mut out, ".");
                    push_str(&mut out, "checked_rem");
                    push_str(&mut out, "(");
                    push_str(&mut out, r.as_str());
                    push_str(&mut out, ").unwrap_or(0))");
                },
                BinOp::Concat => {
                    push_str(&mut out, " + &");
                    push_str(&mut out, r.as_str());
                    push_str(&mut out, ")");
                },
                _ => {
                    push_str(&mut out, " ");
                    push_str(&mut out, compile_binop(op));
                    push_str(&mut out, " ");
                    push_str(&mut out, r.as_str());
                    push_str(&mut out, ")");
                },
            }
        },
        Expression::Fn { args, body } => {
            let b = match compile_expression(body) {
                Some(b) => b,
                None => return None,
            };
            push_str(&mut out, "|");
            let a = compile_params(args);
            push_str(&mut out, a.as_str());
            push_str(&mut out, "| ");
            push_str(&mut out, b.as_str());
        },
        Expression::List { elements, tail } => {
            let els = match compile_expressions(elements, elements.len(), ", ") {
                Some(x) => x,
                None => return None,
            };
            match tail {
                None => {
                    push_str(&mut out, "vec![");
                    push_str(&mut out, els.as_str());
                    push_str(&mut out, "]");
                },
                Some(t) => {
                    let t = match compile_expression(t) {
                        Some(t) => t,
                        None => return None,
                    };
                    push_str(&mut out, "[vec![");
                    push_str(&mut out, els.as_str());
                    push_str(&mut out, "], ");
                    push_str(&mut out, t.as_str());
                    push_str(&mut out, "].concat()");
                },
            }
        },
        Expression::Pipeline { exprs } => {
            let body = match compile_expressions(exprs, exprs.len(), ";\n") {
                Some(b) => b,
                None => return None,
            };
            push_str(&mut out, "{\n");
            push_str(&mut out, body.as_str());
            push_str(&mut out, "\n}");
        },
        Expression::Let { pattern, value, kind } => {
            let v = match compile_expression(value) {
                Some(v) => v,
                None => return None,
            };
            push_str(&mut out, "let ");
            let p = compile_pattern(pattern);
            push_str(&mut out, p.as_str());
            push_str(&mut out, " = ");
            push_str(&mut out, v.as_str());
            match kind {
                BindingKind::Let => {},
                BindingKind::Assert => {
                    push_str(&mut out, " else {\npanic!(\"assertion failed\")\n}");
                },
            }
        },
        Expression::Try { pattern, value, then } => {
            let v = match compile_expression(value) {
                Some(v) => v,
                None => return None,
            };
            let t = match compile_expression(then) {
                Some(t) => t,
                None => return None,
            };
            push_str(&mut out, "match ");
            push_str(&mut out, v.as_str());
            push_str(&mut out, " {\nOk(");
            let p = compile_pattern(pattern);
            push_str(&mut out, p.as_str());
            push_str(&mut out, ") => {\n");
            push_str(&mut out, t.as_str());
            push_str(&mut out, "\n}\nErr(error) => return Err(error),\n}");
        },
        Expression::Match { subjects, branches } => {
            let s = match compile_expressions(subjects, subjects.len(), ", ") {
                Some(s) => s,
                None => return None,
            };
            let b = match compile_branches(branches, branches.len()) {
                Some(b) => b,
                None => return None,
            };
            push_str(&mut out, "match ");
            if subjects.len() == 1 {
                push_str(&mut out, s.as_str());
            } else {
                push_str(&mut out, "(");
                push_str(&mut out, s.as_str());
                push_str(&mut out, ")");
            }
            push_str(&mut out, " {");
            push_str(&mut out, b.as_str());
            push_str(&mut out, "\n}");
        },
        Expression::Construct { name, fields } => {
            push_str(&mut out, name.as_str());
            if fields.len() == 0 {
                push_str(&mut out, " {}");
            } else {
                let f = match compile_expression_fields(fields, fields.len()) {
                    Some(f) => f,
                    None => return None,
                };
                push_str(&mut out, " { ");
                push_str(&mut out, f.as_str());
                push_str(&mut out, " }");
            }
        },
        Expression::FieldAccess { record, label } => {
            let r = match compile_expression(record) {
                Some(r) => r,
                None => return None,
            };
            push_str(&mut out, r.as_str());
            push_str(&mut out, ".");
            push_str(&mut out, label.as_str());
        },
        Expression::RecordUpdate { name, spread, fields } => {
            let f = match compile_expression_fields(fields, fields.len()) {
                Some(f) => f,
                None => return None,
            };
            let b = match compile_expression(spread) {
                Some(b) => b,
                None => return None,
            };
            push_str(&mut out, name.as_str());
            push_str(&mut out, " { ");
            push_str(&mut out, f.as_str());
            if fields.len() > 0 {
                push_str(&mut out, ", ");
            }
            push_str(&mut out, "..");
            push_str(&mut out, b.as_str());
            push_str(&mut out, " }");
        },
        Expression::ModuleSelect { module, label } => {
            push_str(&mut out, module.as_str());
            push_str(&mut out, "::");
            push_str(&mut out, label.as_str());
        },
        Expression::Tuple { elems } => {
            let els = match compile_expressions(elems, elems.len(), ", ") {
                Some(x) => x,
                None => return None,
            };
            push_str(&mut out, "(");
            push_str(&mut out, els.as_str());
            if elems.len() == 1 {
                push_str(&mut out, ",)");
            } else {
                push_str(&mut out, ")");
            }
        },
        Expression::TupleIndex { tuple, index } => {
            let t = match compile_expression(tuple) {
                Some(t) => t,
                None => return None,
            };
            push_str(&mut out, t.as_str());
            push_str(&mut out, ".");
            push_nat(&mut out, *index);
        },
        Expression::NegateBool { value } => {
            let v = match compile_expression(value) {
                Some(v) => v,
                None => return None,
            };
            push_str(&mut out, "(!");
            push_str(&mut out, v.as_str());
            push_str(&mut out, ")");
        },
        Expression::NegateInt { value } => {
            let v = match compile_expression(value) {
                Some(v) => v,
                None => return None,
            };
            push_str(&mut out, "(-");
            push_str(&mut out, v.as_str());
            push_str(&mut out, ")");
        },
        Expression::Todo { label } => {
            match label {
                None => {
                    push_str(&mut out, "panic!(\"not implemented\")");
                },
                Some(l) => {
                    push_str(&mut out, "panic!(\"");
                    push_str(&mut out, l.as_str());
                    push_str(&mut out, "\")");
                },
            }
        },
        Expression::BitString { .. } => {
            return None;
        },
    }
    assert(Some(out@) =~= expr_text(*e));
    Some(out)
}

/// Renders the first `n` expressions of `es`, joined by `sep`.
pub fn compile_expressions(es: &Vec<Expression>, n: usize, sep: &str) -> (r: Option<String>)
    requires
        n <= es.len(),
    ensures
        view_opt(r) == exprs_text(es@, n as nat, sep@),
    decreases es, n,
{
    if n == 0 {
        return Some(String::new());
    }
    assert(decreases_to!(es => es@[n - 1]));
    let mut out = if n == 1 {
        String::new()
    } else {
        match compile_expressions(es, n - 1, sep) {
            Some(mut p) => {
                push_str(&mut p, sep);
                p
            },
            None => return None,
        }
    };
    let x = match compile_expression(&es[n - 1]) {
        Some(x) => x,
        None => return None,
    };
    push_str(&mut out, x.as_str());
    assert(Some(out@) =~= exprs_text(es@, n as nat, sep@));
    Some(out)
}

/// Renders the value of a call argument; arguments stand in the callee's
/// parameter order already, so the label is not written.
pub fn compile_call_arg(a: &CallArg) -> (r: Option<String>)
    ensures
        view_opt(r) == expr_text(a.value),
    decreases a, 0nat,
{
    compile_expression(&a.value)
}

fn compile_call_args(args: &Vec<CallArg>, n: usize) -> (r: Option<String>)
    requires
        n <= args.len(),
    ensures
        view_opt(r) == call_args_text(args@, n as nat),
    decreases args, n,
{
    if n == 0 {
        return Some(String::new());
    }
    assert(decreases_to!(args => args@[n - 1]));
    let mut out = if n == 1 {
        String::new()
    } else {
        match compile_call_args(args, n - 1) {
            Some(mut p) => {
                push_str(&mut p, ", ");
                p
            },
            None => return None,
        }
    };
    let x = match compile_call_arg(&args[n - 1]) {
        Some(x) => x,
        None => return None,
    };
    push_str(&mut out, x.as_str());
    assert(Some(out@) =~= call_args_text(args@, n as nat));
    Some(out)
}

/// Renders a field of a record construction as `name: value`.
pub fn compile_expression_field(f: &ExprField) -> (r: Option<String>)
    ensures
        view_opt(r) == field_text(*f),
    decreases f, 0nat,
{
    let v = match compile_expression(&f.value) {
        Some(v) => v,
        None => return None,
    };
    let mut out = f.name.clone();
    push_str(&mut out, ": ");
    push_str(&mut out, v.as_str());
    assert(Some(out@) =~= field_text(*f));
    Some(out)
}

fn compile_expression_fields(fs: &Vec<ExprField>, n: usize) -> (r: Option<String>)
    requires
        n <= fs.len(),
    ensures
        view_opt(r) == fields_text(fs@, n as nat),
    decreases fs, n,
{
    if n == 0 {
        return Some(String::new());
    }
    assert(decreases_to!(fs => fs@[n - 1]));
    let mut out = if n == 1 {
        String::new()
    } else {
        match compile_expression_fields(fs, n - 1) {
            Some(mut p) => {
                push_str(&mut p, ", ");
                p
            },
            None => return None,
        }
    };
    let x = match compile_expression_field(&fs[n - 1]) {
        Some(x) => x,
        None => return None,
    };
    push_str(&mut out, x.as_str());
    assert(Some(out@) =~= fields_text(fs@, n as nat));
    Some(out)
}

/// Renders a match branch on a line of its own, as `pattern => { body }`.
pub fn compile_branch(b: &Branch) -> (r: Option<String>)
    ensures
        view_opt(r) == branch_text(*b),
    decreases b, 0nat,
{
    let body = match compile_expression(&b.body) {
        Some(x) => x,
        None => return None,
    };
    let mut out = String::new();
    push_str(&mut out, "\n");
    let p = compile_branch_patterns(&b.patterns);
    push_str(&mut out, p.as_str());
    push_str(&mut out, " => {\n");
    push_str(&mut out, body.as_str());
    push_str(&mut out, "\n}");
    assert(Some(out@) =~= branch_text(*b));
    Some(out)
}

fn compile_params(args: &Vec<Arg>) -> (r: String)
    ensures
        r@ == params_text(args@, args@.len()),
{
    let mut out = String::new();
    let mut i: usize = 0;
    while i < args.len()
        invariant
            i <= args.len(),
            out@ == params_text(args@, i as nat),
        decreases args.len() - i,
    {
        if i > 0 {
            push_str(&mut out, ", ");
        }
        match &args[i].name {
            Some(n) => push_str(&mut out, n.as_str()),
            None => push_str(&mut out, "_"),
        }
        assert(out@ =~= params_text(args@, (i + 1) as nat));
        i = i + 1;
    }
    out
}

fn compile_branch_patterns(ps: &Vec<Pattern>) -> (r: String)
    ensures
        r@ == branch_patterns_text(ps@),
{
    if ps.len() == 1 {
        return compile_pattern(&ps[0]);
    }
    let mut out = String::new();
    push_str(&mut out, "(");
    let mut i: usize = 0;
    while i < ps.len()
        invariant
            i <= ps.len(),
            out@ == "("@ + patterns_text(ps@, i as nat),
        decreases ps.len() - i,
    {
        if i > 0 {
            push_str(&mut out, ", ");
        }
        let p = compile_pattern(&ps[i]);
        push_str(&mut out, p.as_str());
        assert(out@ =~= "("@ + patterns_text(ps@, (i + 1) as nat));
        i = i + 1;
    }
    push_str(&mut out, ")");
    out
}

fn compile_branches(bs: &Vec<Branch>, n: usize) -> (r: Option<String>)
    requires
        n <= bs.len(),
    ensures
        view_opt(r) == branches_text(bs@, n as nat),
    decreases bs, n,
{
    if n == 0 {
        return Some(String::new());
    }
    assert(decreases_to!(bs => bs@[n - 1]));
    let mut out = match compile_branches(bs, n - 1) {
        Some(p) => p,
        None => return None,
    };
    let x = match compile_branch(&bs[n - 1]) {
        Some(x) => x,
        None => return None,
    };
    push_str(&mut out, x.as_str());
    assert(Some(out@) =~= branches_text(bs@, n as nat));
    Some(out)
}

/// A binary operation with an infix counterpart renders fully parenthesised,
/// as `(left op right)`, whatever the operands are.
pub proof fn lemma_binop_parenthesised(op: BinOp, left: Expression, right: Expression)
    requires
        checked_method(op) is None,
        !(op is Concat),
        expr_text(left) is Some,
        expr_text(right) is Some,
    ensures
        expr_text(Expression::BinOp { op, left: Box::new(left), right: Box::new(right) }) == Some(
            "("@ + expr_text(left)->Some_0 + " "@ + op_text(op) + " "@ + expr_text(right)->Some_0
                + ")"@,
        ),
{
    assert(expr_text(Expression::BinOp { op, left: Box::new(left), right: Box::new(right) })->Some_0
        =~= "("@ + expr_text(left)->Some_0 + " "@ + op_text(op) + " "@ + expr_text(right)->Some_0
        + ")"@);
}

/// A record construction renders its fields in the order given: the text of
/// the first `n + 1` fields is that of the first `n`, then field `n`.
pub proof fn lemma_construct_field_order(fields: Seq<ExprField>, n: nat)
    requires
        0 < n < fields.len(),
        fields_text(fields, n) is Some,
        field_text(fields[n as int]) is Some,
    ensures
        fields_text(fields, n + 1) == Some(
            fields_text(fields, n)->Some_0 + ", "@ + field_text(fields[n as int])->Some_0,
        ),
{
}

/// A record pattern renders its fields in the order given, whatever order
/// the constructor declares them in: the text of the first `n + 1` fields is
/// that of the first `n`, then field `n`.
pub proof fn lemma_pattern_field_order(fields: Seq<PatternField>, n: nat)
    requires
        0 < n < fields.len(),
    ensures
        pattern_fields_text(fields, n + 1) == pattern_fields_text(fields, n) + ", "@
            + pattern_field_text(fields[n as int]),
{
}

/// `e` holds, at any depth, a binary segment literal.
pub open spec fn holds_bit_string(e: Expression) -> bool
    decreases e, 0nat,
{
    match e {
        Expression::BitString { .. } => true,
        Expression::Sequence { exprs } => exprs_hold(exprs@, exprs@.len()),
        Expression::Pipeline { exprs } => exprs_hold(exprs@, exprs@.len()),
        Expression::Call { fun, args } => holds_bit_string(*fun) || call_args_hold(args@, args@.len()),
        Expression::BinOp { left, right, .. } => holds_bit_string(*left) || holds_bit_string(*right),
        Expression::Fn { body, .. } => holds_bit_string(*body),
        Expression::List { elements, tail } => exprs_hold(elements@, elements@.len()) || match tail {
            Some(t) => holds_bit_string(*t),
            None => false,
        },
        Expression::Let { value, .. } => holds_bit_string(*value),
        Expression::Try { value, then, .. } => holds_bit_string(*value) || holds_bit_string(*then),
        Expression::Match { subjects, branches } => exprs_hold(subjects@, subjects@.len())
            || branches_hold(branches@, branches@.len()),
        Expression::Construct { fields, .. } => fields_hold(fields@, fields@.len()),
        Expression::FieldAccess { record, .. } => holds_bit_string(*record),
        Expression::RecordUpdate { spread, fields, .. } => fields_hold(fields@, fields@.len())
            || holds_bit_string(*spread),
        Expression::Tuple { elems } => exprs_hold(elems@, elems@.len()),
        Expression::TupleIndex { tuple, .. } => holds_bit_string(*tuple),
        Expression::NegateBool { value } => holds_bit_string(*value),
        Expression::NegateInt { value } => holds_bit_string(*value),
        _ => false,
    }
}

/// One of the first `n` expressions of `es` holds a binary segment literal.
pub open spec fn exprs_hold(es: Seq<Expression>, n: nat) -> bool
    decreases es, n,
{
    if n == 0 || n > es.len() {
        false
    } else {
        exprs_hold(es, (n - 1) as nat) || holds_bit_string(es[n - 1])
    }
}

/// The value of one of the first `n` call arguments holds a binary segment literal.
pub open spec fn call_args_hold(args: Seq<CallArg>, n: nat) -> bool
    decreases args, n,
{
    if n == 0 || n > args.len() {
        false
    } else {
        call_args_hold(args, (n - 1) as nat) || holds_bit_string(args[n - 1].value)
    }
}

/// The value of one of the first `n` fields holds a binary segment literal.
pub open spec fn fields_hold(fs: Seq<ExprField>, n: nat) -> bool
    decreases fs, n,
{
    if n == 0 || n > fs.len() {
        false
    } else {
        fields_hold(fs, (n - 1) as nat) || holds_bit_string(fs[n - 1].value)
    }
}

/// The body of one of the first `n` branches holds a binary segment literal.
pub open spec fn branches_hold(bs: Seq<Branch>, n: nat) -> bool
    decreases bs, n,
{
    if n == 0 || n > bs.len() {
        false
    } else {
        branches_hold(bs, (n - 1) as nat) || holds_bit_string(bs[n - 1].body)
    }
}

/// An expression that holds a binary segment literal anywhere has no text: the
/// construct is never replaced by a placeholder, and its enclosing expressions
/// fail with it.
pub proof fn lemma_bit_string_has_no_text(e: Expression)
    requires
        holds_bit_string(e),
    ensures
        expr_text(e) is None,
    decreases e, 0nat,
{
    match e {
        Expression::Sequence { exprs } => lemma_exprs_no_text(exprs@, exprs@.len(), ";\n"@),
        Expression::Pipeline { exprs } => lemma_exprs_no_text(exprs@, exprs@.len(), ";\n"@),
        Expression::Call { fun, args } => {
            if holds_bit_string(*fun) {
                lemma_bit_string_has_no_text(*fun);
            } else {
                lemma_call_args_no_text(args@, args@.len());
            }
        },
        Expression::BinOp { left, right, .. } => {
            if holds_bit_string(*left) {
                lemma_bit_string_has_no_text(*left);
            } else {
                lemma_bit_string_has_no_text(*right);
            }
        },
        Expression::Fn { body, .. } => lemma_bit_string_has_no_text(*body),
        Expression::List { elements, tail } => {
            if exprs_hold(elements@, elements@.len()) {
                lemma_exprs_no_text(elements@, elements@.len(), ", "@);
            } else if let Some(t) = tail {
                lemma_bit_string_has_no_text(*t);
            }
        },
        Expression::Let { value, .. } => lemma_bit_string_has_no_text(*value),
        Expression::Try { value, then, .. } => {
            if holds_bit_string(*value) {
                lemma_bit_string_has_no_text(*value);
            } else {
                lemma_bit_string_has_no_text(*then);
            }
        },
        Expression::Match { subjects, branches } => {
            if exprs_hold(subjects@, subjects@.len()) {
                lemma_exprs_no_text(subjects@, subjects@.len(), ", "@);
            } else {
                lemma_branches_no_text(branches@, branches@.len());
            }
        },
        Expression::Construct { fields, .. } => lemma_fields_no_text(fields@, fields@.len()),
        Expression::FieldAccess { record, .. } => lemma_bit_string_has_no_text(*record),
        Expression::RecordUpdate { spread, fields, .. } => {
            if fields_hold(fields@, fields@.len()) {
                lemma_fields_no_text(fields@, fields@.len());
            } else {
                lemma_bit_string_has_no_text(*spread);
            }
        },
        Expression::Tuple { elems } => lemma_exprs_no_text(elems@, elems@.len(), ", "@),
        Expression::TupleIndex { tuple, .. } => lemma_bit_string_has_no_text(*tuple),
        Expression::NegateBool { value } => lemma_bit_string_has_no_text(*value),
        Expression::NegateInt { value } => lemma_bit_string_has_no_text(*value),
        _ => {},
    }
}

proof fn lemma_exprs_no_text(es: Seq<Expression>, n: nat, sep: Seq<char>)
    requires
        exprs_hold(es, n),
    ensures
        exprs_text(es, n, sep) is None,
    decreases es, n,
{
    assert(decreases_to!(es => es[n - 1]));
    if holds_bit_string(es[n - 1]) {
        lemma_bit_string_has_no_text(es[n - 1]);
    } else {
        lemma_exprs_no_text(es, (n - 1) as nat, sep);
    }
}

proof fn lemma_call_args_no_text(args: Seq<CallArg>, n: nat)
    requires
        call_args_hold(args, n),
    ensures
        call_args_text(args, n) is None,
    decreases args, n,
{
    assert(decreases_to!(args => args[n - 1]));
    if holds_bit_string(args[n - 1].value) {
        lemma_bit_string_has_no_text(args[n - 1].value);
    } else {
        lemma_call_args_no_text(args, (n - 1) as nat);
    }
}

proof fn lemma_fields_no_text(fs: Seq<ExprField>, n: nat)
    requires
        fields_hold(fs, n),
    ensures
        fields_text(fs, n) is None,
    decreases fs, n,
{
    assert(decreases_to!(fs => fs[n - 1]));
    if holds_bit_string(fs[n - 1].value) {
        lemma_bit_string_has_no_text(fs[n - 1].value);
        assert(field_text(fs[n - 1]) is None);
    } else {
        lemma_fields_no_text(fs, (n - 1) as nat);
    }
}

proof fn lemma_branches_no_text(bs: Seq<Branch>, n: nat)
    requires
        branches_hold(bs, n),
    ensures
        branches_text(bs, n) is None,
    decreases bs, n,
{
    assert(decreases_to!(bs => bs[n - 1]));
    if holds_bit_string(bs[n - 1].body) {
        lemma_bit_string_has_no_text(bs[n - 1].body);
        assert(branch_text(bs[n - 1]) is None);
    } else {
        lemma_branches_no_text(bs, (n - 1) as nat);
    }
}

} // verus!
