use vstd::prelude::*;
use crate::expr::{both, compile_expression, expr_text, holds_bit_string, lemma_bit_string_has_no_text, wrap};
use crate::ir::{Arg, Constructor, EmitError, Module, Statement};
use crate::text::push_str;
use crate::names::{
    lemma_synthetic_names_avoid_user_names,
    args_names,
    choose_prefix,
    expr_names,
    push_expr_names,
    name_prefix,
    push_args_names,
    push_strings,
    push_type_names,
    type_names,
};
use crate::types::{
    args_text,
    compile_arguments,
    compile_argument,
    compile_type,
    compile_type_args,
    generics_of,
    type_params_text,
    add_new,
    args_vars,
    compile_var_name,
    find_generics,
    find_generics_in_args,
    lemma_add_new_append,
    type_vars,
    var_names,
    type_text,
    arg_text,
    var_name,
};

verus! {

/// `s` with each line break followed by a comment marker.
pub open spec fn comment_body(s: Seq<char>) -> Seq<char>
    decreases s.len(),
{
    if s.len() == 0 {
        seq![]
    } else {
        comment_body(s.drop_last()) + if s.last() == '\n' {
            "\n// "@
        } else {
            seq![s.last()]
        }
    }
}

/// The comment block of a declaration, one comment line for each line of its
/// doc text, if it has one.
pub open spec fn doc_text(d: Option<String>) -> Seq<char> {
    match d {
        Some(d) => "// "@ + comment_body(d@) + "\n"@,
        None => seq![],
    }
}

/// The visibility keyword of a declaration.
pub open spec fn public_text(p: bool) -> Seq<char> {
    if p {
        "pub "@
    } else {
        seq![]
    }
}

/// The first `n` names of `ns`, joined by `", "`.
pub open spec fn names_text(ns: Seq<String>, n: nat) -> Seq<char>
    decreases n,
{
    if n == 0 || n > ns.len() {
        seq![]
    } else if n == 1 {
        ns[0]@
    } else {
        names_text(ns, (n - 1) as nat) + ", "@ + ns[n - 1]@
    }
}

/// The type-parameter clause for named parameters: empty when there are none.
pub open spec fn params_text(ps: Seq<String>) -> Seq<char> {
    if ps.len() == 0 {
        seq![]
    } else {
        "<"@ + names_text(ps, ps.len()) + ">"@
    }
}

/// The type-parameter clause of a custom type or alias: its named parameters,
/// then the synthetic names of the type variables `ids` that its types hold;
/// empty when there are neither.
pub open spec fn decl_params_text(ps: Seq<String>, ids: Seq<u64>, p: Seq<char>) -> Seq<char> {
    if ps.len() == 0 && ids.len() == 0 {
        seq![]
    } else {
        "<"@ + names_text(ps, ps.len()) + (if ps.len() > 0 && ids.len() > 0 {
            ", "@
        } else {
            seq![]
        }) + var_names(ids, ids.len(), p) + ">"@
    }
}

/// The variable identities of the field types of the first `n` constructors,
/// in order, repeats kept.
pub open spec fn ctors_vars(cs: Seq<Constructor>, n: nat) -> Seq<u64>
    decreases n,
{
    if n == 0 || n > cs.len() {
        seq![]
    } else {
        ctors_vars(cs, (n - 1) as nat) + args_vars(cs[n - 1].fields@, cs[n - 1].fields@.len())
    }
}

/// The first `n` segments of a module path, joined by `"::"`.
pub open spec fn path_text(ns: Seq<String>, n: nat) -> Seq<char>
    decreases n,
{
    if n == 0 || n > ns.len() {
        seq![]
    } else if n == 1 {
        ns[0]@
    } else {
        path_text(ns, (n - 1) as nat) + "::"@ + ns[n - 1]@
    }
}

/// The fields of a constructor, each on a line of its own.
pub open spec fn ctor_fields_text(fs: Seq<Arg>, n: nat, p: Seq<char>) -> Seq<char>
    decreases n,
{
    if n == 0 || n > fs.len() {
        seq![]
    } else {
        ctor_fields_text(fs, (n - 1) as nat, p) + "\n\t\t"@ + arg_text(fs[n - 1], p) + ","@
    }
}

/// The text of a constructor: its name, then its fields in a block if it has any.
pub open spec fn constructor_text(c: Constructor, p: Seq<char>) -> Seq<char> {
    if c.fields.len() == 0 {
        c.name@ + ","@
    } else {
        c.name@ + " {"@ + ctor_fields_text(c.fields@, c.fields@.len(), p) + "\n\t},"@
    }
}

/// The first `n` constructors, each on a line of its own.
pub open spec fn constructors_text(cs: Seq<Constructor>, n: nat, p: Seq<char>) -> Seq<char>
    decreases n,
{
    if n == 0 || n > cs.len() {
        seq![]
    } else {
        constructors_text(cs, (n - 1) as nat, p) + "\n\t"@ + constructor_text(cs[n - 1], p)
    }
}

/// The names of the named types in the fields of the first `n` constructors.
pub open spec fn ctors_names(cs: Seq<Constructor>, n: nat) -> Seq<String>
    decreases n,
{
    if n == 0 || n > cs.len() {
        seq![]
    } else {
        ctors_names(cs, (n - 1) as nat) + args_names(cs[n - 1].fields@, cs[n - 1].fields@.len())
    }
}

/// The user-level names of a declaration that a synthetic type-variable name
/// could be confused with: the type it declares, its type parameters, its
/// named types, and the records that its body constructs, updates or matches.
pub open spec fn statement_names(s: Statement) -> Seq<String> {
    match s {
        Statement::Fn { args, return_type, body, .. } => args_names(args@, args@.len())
            + type_names(return_type) + expr_names(body),
        Statement::CustomType { name, parameters, constructors, .. } => seq![name] + parameters@
            + ctors_names(constructors@, constructors@.len()),
        Statement::TypeAlias { name, parameters, typ, .. } => seq![name] + parameters@
            + type_names(typ),
        Statement::ExternalFn { args, return_type, .. } => args_names(args@, args@.len())
            + type_names(return_type),
        Statement::ExternalType { .. } => seq![],
        Statement::Import { .. } => seq![],
        Statement::ModuleConstant { typ, value, .. } => type_names(typ) + expr_names(value),
    }
}

/// The prefix of the synthetic type-variable names of a declaration.
pub open spec fn statement_prefix(s: Statement) -> Seq<char> {
    name_prefix(statement_names(s))
}

/// The text of a declaration; nothing where it holds a construct that the
/// target cannot express.
#[verifier::opaque]
pub open spec fn statement_text(s: Statement) -> Option<Seq<char>> {
    let p = statement_prefix(s);
    match s {
        Statement::Fn { name, args, body, public, return_type, doc } => wrap(
            doc_text(doc) + public_text(public) + "fn "@ + name@ + type_params_text(
                generics_of(args@),
                p,
            ) + "("@ + args_text(args@, args@.len(), p) + ") -> "@ + type_text(return_type, p)
                + " {\n"@,
            expr_text(body),
            "\n}"@,
        ),
        Statement::CustomType { name, parameters, public, constructors, doc } => Some(
            doc_text(doc) + public_text(public) + "enum "@ + name@ + decl_params_text(
                parameters@,
                add_new(seq![], ctors_vars(constructors@, constructors@.len())),
                p,
            )
                + " {"@ + constructors_text(constructors@, constructors@.len(), p) + "\n}"@,
        ),
        Statement::TypeAlias { name, parameters, public, typ, doc } => Some(
            doc_text(doc) + public_text(public) + "type "@ + name@ + decl_params_text(
                parameters@,
                add_new(seq![], type_vars(typ)),
                p,
            )
                + " = "@ + type_text(typ, p) + ";"@,
        ),
        Statement::ExternalFn { name, args, public, return_type, module, fun, doc } => Some(
            doc_text(doc) + "// fn "@ + name@ + type_params_text(generics_of(args@), p) + "("@
                + args_text(args@, args@.len(), p) + ") -> "@ + type_text(return_type, p) + "\n"@
                + public_text(public) + "use "@ + module@ + "::"@ + fun@ + " as "@ + name@
                + ";"@,
        ),
        Statement::ExternalType { name, parameters, public, doc } => Some(
            doc_text(doc) + public_text(public) + "struct "@ + name@ + (if parameters.len()
                == 0 {
                seq![]
            } else {
                params_text(parameters@) + "(std::marker::PhantomData<("@ + names_text(
                    parameters@,
                    parameters@.len(),
                ) + ")>)"@
            }) + ";"@,
        ),
        Statement::Import { path, as_name } => Some(
            "pub use "@ + path_text(path@, path@.len()) + (match as_name {
                Some(a) => " as "@ + a@,
                None => seq![],
            }) + ";"@,
        ),
        Statement::ModuleConstant { name, public, typ, value, doc } => wrap(
            doc_text(doc) + public_text(public) + "const "@ + name@ + ": "@ + type_text(typ, p)
                + " = "@,
            expr_text(value),
            ";"@,
        ),
    }
}

/// The name by which an error points at a declaration.
pub open spec fn statement_name(s: Statement) -> Seq<char> {
    match s {
        Statement::Fn { name, .. } => name@,
        Statement::CustomType { name, .. } => name@,
        Statement::TypeAlias { name, .. } => name@,
        Statement::ExternalFn { name, .. } => name@,
        Statement::ExternalType { name, .. } => name@,
        Statement::Import { path, .. } => path_text(path@, path@.len()),
        Statement::ModuleConstant { name, .. } => name@,
    }
}

/// The name of the one construct that has no rendering.
pub open spec fn unsupported_name() -> Seq<char> {
    "bit string"@
}

/// The error of a declaration whose text does not exist.
pub open spec fn is_unsupported_in(e: EmitError, s: Statement) -> bool {
    match e {
        EmitError::UnsupportedConstruct { construct, declaration } => construct@
            == unsupported_name() && declaration@ == statement_name(s),
    }
}

fn unsupported(s: &Statement) -> (r: EmitError)
    ensures
        is_unsupported_in(r, *s),
{
    let declaration = match s {
        Statement::Fn { name, .. } => name.clone(),
        Statement::CustomType { name, .. } => name.clone(),
        Statement::TypeAlias { name, .. } => name.clone(),
        Statement::ExternalFn { name, .. } => name.clone(),
        Statement::ExternalType { name, .. } => name.clone(),
        Statement::Import { path, .. } => compile_path(path),
        Statement::ModuleConstant { name, .. } => name.clone(),
    };
    EmitError::UnsupportedConstruct { construct: String::from_str("bit string"), declaration }
}

/// Renders the visibility keyword: `pub ` for a public declaration.
pub fn compile_public(p: bool) -> (r: String)
    ensures
        r@ == public_text(p),
{
    let mut out = String::new();
    if p {
        push_str(&mut out, "pub ");
    }
    assert(out@ =~= public_text(p));
    out
}

/// Renders a doc text as a block of comment lines.
pub fn compile_doc(d: &Option<String>) -> (r: String)
    ensures
        r@ == doc_text(*d),
{
    let mut out = String::new();
    match d {
        Some(d) => {
            push_str(&mut out, "// ");
            let ghost start = out@;
            let s = d.as_str();
            let len = s.unicode_len();
            let mut i: usize = 0;
            while i < len
                invariant
                    i <= len,
                    len == d@.len(),
                    s@ == d@,
                    out@ == start + comment_body(d@.subrange(0, i as int)),
                decreases len - i,
            {
                let c = s.get_char(i);
                let ghost prev = d@.subrange(0, i as int);
                assert(d@.subrange(0, i + 1).drop_last() =~= prev);
                if c == '\n' {
                    push_str(&mut out, "\n// ");
                } else {
                    let piece = s.substring_char(i, i + 1);
                    push_str(&mut out, piece);
                    assert(piece@ =~= seq![c]);
                }
                assert(out@ =~= start + comment_body(d@.subrange(0, i + 1)));
                i = i + 1;
            }
            assert(d@.subrange(0, len as int) =~= d@);
            push_str(&mut out, "\n");
        },
        None => {},
    }
    assert(out@ =~= doc_text(*d));
    out
}

fn compile_names(ns: &Vec<String>) -> (r: String)
    ensures
        r@ == names_text(ns@, ns@.len()),
{
    let mut out = String::new();
    let mut i: usize = 0;
    while i < ns.len()
        invariant
            i <= ns.len(),
            out@ == names_text(ns@, i as nat),
        decreases ns.len() - i,
    {
        if i > 0 {
            push_str(&mut out, ", ");
        }
        push_str(&mut out, ns[i].as_str());
        assert(out@ =~= names_text(ns@, (i + 1) as nat));
        i = i + 1;
    }
    out
}

fn compile_params(ps: &Vec<String>) -> (r: String)
    ensures
        r@ == params_text(ps@),
{
    let mut out = String::new();
    if ps.len() > 0 {
        push_str(&mut out, "<");
        let n = compile_names(ps);
        push_str(&mut out, n.as_str());
        push_str(&mut out, ">");
    }
    assert(out@ =~= params_text(ps@));
    out
}

fn compile_decl_params(ps: &Vec<String>, ids: &Vec<u64>, prefix: &str) -> (r: String)
    ensures
        r@ == decl_params_text(ps@, ids@, prefix@),
{
    let mut out = String::new();
    if ps.len() == 0 && ids.len() == 0 {
        return out;
    }
    push_str(&mut out, "<");
    push_str(&mut out, compile_names(ps).as_str());
    if ps.len() > 0 && ids.len() > 0 {
        push_str(&mut out, ", ");
    }
    let ghost mid = out@;
    let mut i: usize = 0;
    while i < ids.len()
        invariant
            i <= ids.len(),
            out@ == mid + var_names(ids@, i as nat, prefix@),
        decreases ids.len() - i,
    {
        if i > 0 {
            push_str(&mut out, ", ");
        }
        push_str(&mut out, compile_var_name(ids[i], prefix).as_str());
        proof {
            reveal_strlit(", ");
        }
        assert(out@ =~= mid + var_names(ids@, (i + 1) as nat, prefix@));
        i = i + 1;
    }
    push_str(&mut out, ">");
    assert(out@ =~= decl_params_text(ps@, ids@, prefix@));
    out
}

fn ctors_generics(cs: &Vec<Constructor>) -> (r: Vec<u64>)
    ensures
        r@ == add_new(seq![], ctors_vars(cs@, cs@.len())),
{
    let mut out: Vec<u64> = Vec::new();
    let mut i: usize = 0;
    while i < cs.len()
        invariant
            i <= cs.len(),
            out@ == add_new(seq![], ctors_vars(cs@, i as nat)),
        decreases cs.len() - i,
    {
        find_generics_in_args(&cs[i].fields, &mut out);
        proof {
            lemma_add_new_append(
                seq![],
                ctors_vars(cs@, i as nat),
                args_vars(cs@[i as int].fields@, cs@[i as int].fields@.len()),
            );
        }
        i = i + 1;
    }
    out
}

fn compile_path(ns: &Vec<String>) -> (r: String)
    ensures
        r@ == path_text(ns@, ns@.len()),
{
    let mut out = String::new();
    let mut i: usize = 0;
    while i < ns.len()
        invariant
            i <= ns.len(),
            out@ == path_text(ns@, i as nat),
        decreases ns.len() - i,
    {
        if i > 0 {
            push_str(&mut out, "::");
        }
        push_str(&mut out, ns[i].as_str());
        assert(out@ =~= path_text(ns@, (i + 1) as nat));
        i = i + 1;
    }
    out
}

/// Renders a field of a constructor as `name: Type`.
pub fn compile_field(f: &Arg, prefix: &str) -> (r: String)
    ensures
        r@ == arg_text(*f, prefix@),
{
    compile_argument(f, prefix)
}

/// Renders the fields of a constructor in declared order, each on a line of
/// its own and followed by a comma.
pub fn compile_fields(fs: &Vec<Arg>, prefix: &str) -> (r: String)
    ensures
        r@ == ctor_fields_text(fs@, fs@.len(), prefix@),
{
    let mut out = String::new();
    let mut i: usize = 0;
    while i < fs.len()
        invariant
            i <= fs.len(),
            out@ == ctor_fields_text(fs@, i as nat, prefix@),
        decreases fs.len() - i,
    {
        let f = compile_field(&fs[i], prefix);
        push_str(&mut out, "\n\t\t");
        push_str(&mut out, f.as_str());
        push_str(&mut out, ",");
        assert(out@ =~= ctor_fields_text(fs@, (i + 1) as nat, prefix@));
        i = i + 1;
    }
    out
}

/// Renders a constructor as a variant: bare when it has no fields, else with
/// its fields in a block.
pub fn compile_constructor(c: &Constructor, prefix: &str) -> (r: String)
    ensures
        r@ == constructor_text(*c, prefix@),
{
    let mut out = c.name.clone();
    if c.fields.len() == 0 {
        push_str(&mut out, ",");
    } else {
        push_str(&mut out, " {");
        let f = compile_fields(&c.fields, prefix);
        push_str(&mut out, f.as_str());
        push_str(&mut out, "\n\t},");
    }
    assert(out@ =~= constructor_text(*c, prefix@));
    out
}

/// Renders the constructors of a custom type, each on a line of its own.
pub fn compile_constructors(cs: &Vec<Constructor>, prefix: &str) -> (r: String)
    ensures
        r@ == constructors_text(cs@, cs@.len(), prefix@),
{
    let mut out = String::new();
    let mut i: usize = 0;
    while i < cs.len()
        invariant
            i <= cs.len(),
            out@ == constructors_text(cs@, i as nat, prefix@),
        decreases cs.len() - i,
    {
        let c = compile_constructor(&cs[i], prefix);
        push_str(&mut out, "\n\t");
        push_str(&mut out, c.as_str());
        assert(out@ =~= constructors_text(cs@, (i + 1) as nat, prefix@));
        i = i + 1;
    }
    out
}

fn push_ctors_names(cs: &Vec<Constructor>, out: &mut Vec<String>)
    ensures
        final(out)@ == old(out)@ + ctors_names(cs@, cs@.len()),
{
    let ghost before = out@;
    let mut i: usize = 0;
    while i < cs.len()
        invariant
            i <= cs.len(),
            out@ == before + ctors_names(cs@, i as nat),
        decreases cs.len() - i,
    {
        push_args_names(&cs[i].fields, out);
        assert(out@ =~= before + ctors_names(cs@, (i + 1) as nat));
        i = i + 1;
    }
}

fn statement_names_of(s: &Statement) -> (r: Vec<String>)
    ensures
        r@ == statement_names(*s),
{
    let mut out: Vec<String> = Vec::new();
    match s {
        Statement::Fn { args, return_type, body, .. } => {
            push_args_names(args, &mut out);
            push_type_names(return_type, &mut out);
            push_expr_names(body, &mut out);
        },
        Statement::CustomType { name, parameters, constructors, .. } => {
            out.push(name.clone());
            push_strings(parameters, &mut out);
            push_ctors_names(constructors, &mut out);
        },
        Statement::TypeAlias { name, parameters, typ, .. } => {
            out.push(name.clone());
            push_strings(parameters, &mut out);
            push_type_names(typ, &mut out);
        },
        Statement::ExternalFn { args, return_type, .. } => {
            push_args_names(args, &mut out);
            push_type_names(return_type, &mut out);
        },
        Statement::ExternalType { .. } => {},
        Statement::Import { .. } => {},
        Statement::ModuleConstant { typ, value, .. } => {
            push_type_names(typ, &mut out);
            push_expr_names(value, &mut out);
        },
    }
    assert(out@ =~= statement_names(*s));
    out
}

/// Renders a declaration. It fails, naming the declaration, exactly where the
/// declaration holds a construct that the target cannot express.
pub fn compile_statement(s: &Statement) -> (r: Result<String, EmitError>)
    ensures
        match r {
            Ok(t) => statement_text(*s) == Some(t@),
            Err(e) => statement_text(*s) is None && is_unsupported_in(e, *s),
        },
{
    let names = statement_names_of(s);
    let p = choose_prefix(&names);
    let prefix = p.as_str();
    let mut out = String::new();
    match s {
        Statement::Fn { name, args, body, public, return_type, doc } => {
            let b = match compile_expression(body) {
                Some(b) => b,
                None => {
                    proof {
                        reveal(statement_text);
                    }
                    return Err(unsupported(s));
                },
            };
            push_str(&mut out, compile_doc(doc).as_str());
            push_str(&mut out, compile_public(*public).as_str());
            push_str(&mut out, "fn ");
            push_str(&mut out, name.as_str());
            push_str(&mut out, compile_type_args(args, prefix).as_str());
            push_str(&mut out, "(");
            push_str(&mut out, compile_arguments(args, prefix).as_str());
            push_str(&mut out, ") -> ");
            push_str(&mut out, compile_type(return_type, prefix).as_str());
            push_str(&mut out, " {\n");
            push_str(&mut out, b.as_str());
            push_str(&mut out, "\n}");
        },
        Statement::CustomType { name, parameters, public, constructors, doc } => {
            push_str(&mut out, compile_doc(doc).as_str());
            push_str(&mut out, compile_public(*public).as_str());
            push_str(&mut out, "enum ");
            push_str(&mut out, name.as_str());
            let ids = ctors_generics(constructors);
            push_str(&mut out, compile_decl_params(parameters, &ids, prefix).as_str());
            push_str(&mut out, " {");
            push_str(&mut out, compile_constructors(constructors, prefix).as_str());
            push_str(&mut out, "\n}");
        },
        Statement::TypeAlias { name, parameters, public, typ, doc } => {
            push_str(&mut out, compile_doc(doc).as_str());
            push_str(&mut out, compile_public(*public).as_str());
            push_str(&mut out, "type ");
            push_str(&mut out, name.as_str());
            let mut ids: Vec<u64> = Vec::new();
            find_generics(typ, &mut ids);
            push_str(&mut out, compile_decl_params(parameters, &ids, prefix).as_str());
            push_str(&mut out, " = ");
            push_str(&mut out, compile_type(typ, prefix).as_str());
            push_str(&mut out, ";");
        },
        Statement::ExternalFn { name, args, public, return_type, module, fun, doc } => {
            push_str(&mut out, compile_doc(doc).as_str());
            push_str(&mut out, "// fn ");
            push_str(&mut out, name.as_str());
            push_str(&mut out, compile_type_args(args, prefix).as_str());
            push_str(&mut out, "(");
            push_str(&mut out, compile_arguments(args, prefix).as_str());
            push_str(&mut out, ") -> ");
            push_str(&mut out, compile_type(return_type, prefix).as_str());
            push_str(&mut out, "\n");
            push_str(&mut out, compile_public(*public).as_str());
            push_str(&mut out, "use ");
            push_str(&mut out, module.as_str());
            push_str(&mut out, "::");
            push_str(&mut out, fun.as_str());
            push_str(&mut out, " as ");
            push_str(&mut out, name.as_str());
            push_str(&mut out, ";");
        },
        Statement::ExternalType { name, parameters, public, doc } => {
            push_str(&mut out, compile_doc(doc).as_str());
            push_str(&mut out, compile_public(*public).as_str());
            push_str(&mut out, "struct ");
            push_str(&mut out, name.as_str());
            if parameters.len() > 0 {
                push_str(&mut out, compile_params(parameters).as_str());
                push_str(&mut out, "(std::marker::PhantomData<(");
                push_str(&mut out, compile_names(parameters).as_str());
                push_str(&mut out, ")>)");
            }
            push_str(&mut out, ";");
        },
        Statement::Import { path, as_name } => {
            push_str(&mut out, "pub use ");
            push_str(&mut out, compile_path(path).as_str());
            match as_name {
                Some(a) => {
                    push_str(&mut out, " as ");
                    push_str(&mut out, a.as_str());
                },
                None => {},
            }
            push_str(&mut out, ";");
        },
        Statement::ModuleConstant { name, public, typ, value, doc } => {
            let v = match compile_expression(value) {
                Some(v) => v,
                None => {
                    proof {
                        reveal(statement_text);
                    }
                    return Err(unsupported(s));
                },
            };
            push_str(&mut out, compile_doc(doc).as_str());
            push_str(&mut out, compile_public(*public).as_str());
            push_str(&mut out, "const ");
            push_str(&mut out, name.as_str());
            push_str(&mut out, ": ");
            push_str(&mut out, compile_type(typ, prefix).as_str());
            push_str(&mut out, " = ");
            push_str(&mut out, v.as_str());
            push_str(&mut out, ";");
        },
    }
    proof {
        reveal(statement_text);
    }
    assert(Some(out@) =~= statement_text(*s));
    Ok(out)
}

/// The texts of the first `n` declarations, joined by a blank line; nothing
/// where any of them has no text.
pub open spec fn module_text(ss: Seq<Statement>, n: nat) -> Option<Seq<char>>
    decreases n,
{
    if n == 0 || n > ss.len() {
        Some(seq![])
    } else if n == 1 {
        statement_text(ss[0])
    } else {
        both(wrap(seq![], module_text(ss, (n - 1) as nat), "\n\n"@), statement_text(ss[n - 1]))
    }
}

/// The index of the first of the first `n` declarations that has no text.
pub open spec fn first_unsupported(ss: Seq<Statement>, n: nat) -> Option<int>
    decreases n,
{
    if n == 0 || n > ss.len() {
        None
    } else {
        match first_unsupported(ss, (n - 1) as nat) {
            Some(k) => Some(k),
            None => if statement_text(ss[n - 1]) is None {
                Some(n - 1)
            } else {
                None
            },
        }
    }
}

/// `e` points at the first declaration of `ss` that has no text.
pub open spec fn names_first_unsupported(e: EmitError, ss: Seq<Statement>) -> bool {
    match first_unsupported(ss, ss.len()) {
        Some(k) => 0 <= k < ss.len() && is_unsupported_in(e, ss[k]),
        None => false,
    }
}

proof fn lemma_failure_persists(ss: Seq<Statement>, i: nat, n: nat)
    requires
        i <= n <= ss.len(),
        module_text(ss, i) is None,
        first_unsupported(ss, i) is Some,
    ensures
        module_text(ss, n) is None,
        first_unsupported(ss, n) == first_unsupported(ss, i),
    decreases n - i,
{
    if i < n {
        lemma_failure_persists(ss, i, (n - 1) as nat);
    }
}

proof fn lemma_text_without_failure(ss: Seq<Statement>, n: nat)
    requires
        n <= ss.len(),
    ensures
        module_text(ss, n) is None <==> first_unsupported(ss, n) is Some,
        first_unsupported(ss, n) matches Some(k) ==> 0 <= k < n && statement_text(ss[k]) is None,
    decreases n,
{
    if n > 0 {
        lemma_text_without_failure(ss, (n - 1) as nat);
    }
}

/// Emits a module: its declarations in source order, joined by a blank line.
/// Where a declaration holds a construct that the target cannot express, no
/// text is emitted and the error names the first such declaration.
pub fn compile(m: &Module) -> (r: Result<String, EmitError>)
    ensures
        match r {
            Ok(t) => module_text(m.statements@, m.statements@.len()) == Some(t@),
            Err(e) => {
                &&& module_text(m.statements@, m.statements@.len()) is None
                &&& names_first_unsupported(e, m.statements@)
            },
        },
{
    let mut out = String::new();
    let mut i: usize = 0;
    while i < m.statements.len()
        invariant
            i <= m.statements.len(),
            module_text(m.statements@, i as nat) == Some(out@),
            first_unsupported(m.statements@, i as nat) is None,
        decreases m.statements.len() - i,
    {
        match compile_statement(&m.statements[i]) {
            Ok(t) => {
                if i > 0 {
                    push_str(&mut out, "\n\n");
                }
                push_str(&mut out, t.as_str());
                assert(Some(out@) =~= module_text(m.statements@, (i + 1) as nat));
            },
            Err(e) => {
                assert(first_unsupported(m.statements@, (i + 1) as nat) == Some(i as int));
                assert(module_text(m.statements@, (i + 1) as nat) is None);
                proof {
                    lemma_failure_persists(m.statements@, (i + 1) as nat, m.statements@.len());
                }
                return Err(e);
            },
        }
        i = i + 1;
    }
    Ok(out)
}

/// A module is emitted in full or not at all: where any declaration has no
/// text, the module has none.
pub proof fn lemma_no_partial_output(ss: Seq<Statement>, k: int)
    requires
        0 <= k < ss.len(),
        statement_text(ss[k]) is None,
    ensures
        module_text(ss, ss.len()) is None,
{
    lemma_text_without_failure(ss, ss.len());
    lemma_first_unsupported_exists(ss, k, ss.len());
}

proof fn lemma_first_unsupported_exists(ss: Seq<Statement>, k: int, n: nat)
    requires
        0 <= k < n <= ss.len(),
        statement_text(ss[k]) is None,
    ensures
        first_unsupported(ss, n) is Some,
    decreases n,
{
    if k < n - 1 {
        lemma_first_unsupported_exists(ss, k, (n - 1) as nat);
    }
}

/// Within a declaration, no synthetic type-variable name equals a type name
/// or type parameter that the declaration itself uses.
pub proof fn lemma_no_naming_collision(s: Statement, id: u64, i: int)
    requires
        0 <= i < statement_names(s).len(),
    ensures
        var_name(id, statement_prefix(s)) != statement_names(s)[i]@,
{
    lemma_synthetic_names_avoid_user_names(statement_names(s), id, i);
}

/// A module one of whose functions or constants holds a binary segment
/// literal anywhere in its body or value is not emitted at all: there is no
/// text for it, not even for the declarations before that one.
pub proof fn lemma_bit_string_fails_module(ss: Seq<Statement>, k: int)
    requires
        0 <= k < ss.len(),
        match ss[k] {
            Statement::Fn { body, .. } => holds_bit_string(body),
            Statement::ModuleConstant { value, .. } => holds_bit_string(value),
            _ => false,
        },
    ensures
        module_text(ss, ss.len()) is None,
{
    reveal(statement_text);
    match ss[k] {
        Statement::Fn { body, .. } => lemma_bit_string_has_no_text(body),
        Statement::ModuleConstant { value, .. } => lemma_bit_string_has_no_text(value),
        _ => {},
    }
    assert(statement_text(ss[k]) is None);
    lemma_no_partial_output(ss, k);
}

} // verus!
