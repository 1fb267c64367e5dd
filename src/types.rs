use vstd::prelude::*;
use crate::ir::{Arg, Type, TypeVar};
use crate::text::{nat_text, push_nat, push_str};

verus! {

/// `", "`, the separator of rendered lists.
pub open spec fn comma() -> Seq<char> {
    seq![',', ' ']
}

/// The synthetic name of the type variable with identity `id`, under the
/// prefix `p` that its declaration uses.
pub open spec fn var_name(id: u64, p: Seq<char>) -> Seq<char> {
    p + nat_text(id as nat)
}

/// The text of a type; `p` is the prefix of synthetic type-variable names.
pub open spec fn type_text(t: Type, p: Seq<char>) -> Seq<char>
    decreases t, 0nat,
{
    match t {
        Type::App { name, args } => if args.len() == 0 {
            name@
        } else {
            name@ + seq!['<'] + types_text(args@, args@.len(), p) + seq!['>']
        },
        Type::Var { var } => match var {
            TypeVar::Link { typ } => type_text(*typ, p),
            TypeVar::Generic { id } => var_name(id, p),
            TypeVar::Unbound { id } => var_name(id, p),
        },
        Type::Fn { args, ret } => seq!['f', 'n', '('] + types_text(args@, args@.len(), p) + seq![
            ')',
            ' ',
            '-',
            '>',
            ' ',
        ] + type_text(*ret, p),
        Type::Tuple { elems } => seq!['('] + types_text(elems@, elems@.len(), p) + (if elems.len()
            == 1 {
            seq![',']
        } else {
            seq![]
        }) + seq![')'],
    }
}

/// The texts of the first `n` types of `ts`, joined by `", "`.
pub open spec fn types_text(ts: Seq<Type>, n: nat, p: Seq<char>) -> Seq<char>
    decreases ts, n,
{
    if n == 0 || n > ts.len() {
        seq![]
    } else if n == 1 {
        type_text(ts[0], p)
    } else {
        types_text(ts, (n - 1) as nat, p) + comma() + type_text(ts[n - 1], p)
    }
}

/// The type that `t` stands for once every link has been followed.
pub open spec fn resolve(t: Type) -> Type
    decreases t,
{
    match t {
        Type::Var { var: TypeVar::Link { typ } } => resolve(*typ),
        _ => t,
    }
}

/// Whether `t` is a variable that forwards to another type.
pub open spec fn is_link(t: Type) -> bool {
    t matches Type::Var { var: TypeVar::Link { .. } }
}

/// Every identity of a generic or unbound variable in `t`, in order of
/// occurrence, links followed, repeats kept.
pub open spec fn type_vars(t: Type) -> Seq<u64>
    decreases t, 0nat,
{
    match t {
        Type::App { args, .. } => types_vars(args@, args@.len()),
        Type::Var { var } => match var {
            TypeVar::Link { typ } => type_vars(*typ),
            TypeVar::Generic { id } => seq![id],
            TypeVar::Unbound { id } => seq![id],
        },
        Type::Fn { args, ret } => types_vars(args@, args@.len()) + type_vars(*ret),
        Type::Tuple { elems } => types_vars(elems@, elems@.len()),
    }
}

/// The variable identities of the first `n` types of `ts`, in order.
pub open spec fn types_vars(ts: Seq<Type>, n: nat) -> Seq<u64>
    decreases ts, n,
{
    if n == 0 || n > ts.len() {
        seq![]
    } else {
        types_vars(ts, (n - 1) as nat) + type_vars(ts[n - 1])
    }
}

/// The variable identities of the types of the first `n` arguments, in order.
pub open spec fn args_vars(args: Seq<Arg>, n: nat) -> Seq<u64>
    decreases n,
{
    if n == 0 || n > args.len() {
        seq![]
    } else {
        args_vars(args, (n - 1) as nat) + type_vars(args[n - 1].typ)
    }
}

/// `acc` followed by each element of `s` that is not already present, in order.
pub open spec fn add_new(acc: Seq<u64>, s: Seq<u64>) -> Seq<u64>
    decreases s.len(),
{
    if s.len() == 0 {
        acc
    } else {
        let a = add_new(acc, s.drop_last());
        if a.contains(s.last()) {
            a
        } else {
            a.push(s.last())
        }
    }
}

/// The generic parameters of a declaration with arguments `args`: each variable
/// identity once, in order of first occurrence.
pub open spec fn generics_of(args: Seq<Arg>) -> Seq<u64> {
    add_new(seq![], args_vars(args, args.len()))
}

/// The synthetic names of the first `n` identities of `ids`, joined by `", "`.
pub open spec fn var_names(ids: Seq<u64>, n: nat, p: Seq<char>) -> Seq<char>
    decreases n,
{
    if n == 0 || n > ids.len() {
        seq![]
    } else if n == 1 {
        var_name(ids[0], p)
    } else {
        var_names(ids, (n - 1) as nat, p) + comma() + var_name(ids[n - 1], p)
    }
}

/// The generic-parameter clause for identities `ids`: empty when there are none.
pub open spec fn type_params_text(ids: Seq<u64>, p: Seq<char>) -> Seq<char> {
    if ids.len() == 0 {
        seq![]
    } else {
        seq!['<'] + var_names(ids, ids.len(), p) + seq!['>']
    }
}

/// Adding the elements of `s1 + s2` adds those of `s1`, then those of `s2`.
pub proof fn lemma_add_new_append(acc: Seq<u64>, s1: Seq<u64>, s2: Seq<u64>)
    ensures
        add_new(acc, s1 + s2) == add_new(add_new(acc, s1), s2),
    decreases s2.len(),
{
    if s2.len() == 0 {
        assert(s1 + s2 =~= s1);
    } else {
        assert((s1 + s2).drop_last() =~= s1 + s2.drop_last());
        lemma_add_new_append(acc, s1, s2.drop_last());
    }
}

/// Renders a type; links are followed, and generic and unbound variables get
/// their synthetic name under `prefix`.
pub fn compile_type(t: &Type, prefix: &str) -> (r: String)
    ensures
        r@ == type_text(*t, prefix@),
    decreases t, 0nat,
{
    proof {
        reveal_strlit("<");
        reveal_strlit(">");
        reveal_strlit("fn(");
        reveal_strlit(") -> ");
        reveal_strlit("(");
        reveal_strlit(",");
        reveal_strlit(")");
    }
    match t {
        Type::App { name, args } => {
            if args.len() == 0 {
                name.clone()
            } else {
                let mut out = name.clone();
                push_str(&mut out, "<");
                let inner = compile_types(args, prefix);
                push_str(&mut out, inner.as_str());
                push_str(&mut out, ">");
                out
            }
        },
        Type::Var { var } => match var {
            TypeVar::Link { typ } => compile_type(typ, prefix),
            TypeVar::Generic { id } => compile_var_name(*id, prefix),
            TypeVar::Unbound { id } => compile_var_name(*id, prefix),
        },
        Type::Fn { args, ret } => {
            let mut out = String::new();
            push_str(&mut out, "fn(");
            let inner = compile_types(args, prefix);
            push_str(&mut out, inner.as_str());
            push_str(&mut out, ") -> ");
            let r = compile_type(ret, prefix);
            push_str(&mut out, r.as_str());
            assert(out@ =~= type_text(*t, prefix@));
            out
        },
        Type::Tuple { elems } => {
            let mut out = String::new();
            push_str(&mut out, "(");
            let inner = compile_types(elems, prefix);
            push_str(&mut out, inner.as_str());
            if elems.len() == 1 {
                push_str(&mut out, ",");
            }
            push_str(&mut out, ")");
            assert(out@ =~= type_text(*t, prefix@));
            out
        },
    }
}

/// Renders a list of types joined by `", "`.
pub fn compile_types(ts: &Vec<Type>, prefix: &str) -> (r: String)
    ensures
        r@ == types_text(ts@, ts@.len(), prefix@),
    decreases ts, 1nat,
{
    let mut out = String::new();
    let mut i: usize = 0;
    while i < ts.len()
        invariant
            i <= ts.len(),
            out@ == types_text(ts@, i as nat, prefix@),
        decreases ts.len() - i,
    {
        assert(decreases_to!(ts => ts@[i as int]));
        let s = compile_type(&ts[i], prefix);
        if i > 0 {
            push_str(&mut out, ", ");
        }
        push_str(&mut out, s.as_str());
        proof {
            reveal_strlit(", ");
        }
        assert(out@ =~= types_text(ts@, (i + 1) as nat, prefix@));
        i = i + 1;
    }
    out
}

pub fn compile_var_name(id: u64, prefix: &str) -> (r: String)
    ensures
        r@ == var_name(id, prefix@),
{
    let mut out = String::new();
    push_str(&mut out, prefix);
    push_nat(&mut out, id);
    assert(out@ =~= var_name(id, prefix@));
    out
}

fn contains_id(v: &Vec<u64>, id: u64) -> (r: bool)
    ensures
        r == v@.contains(id),
{
    let mut i: usize = 0;
    while i < v.len()
        invariant
            i <= v.len(),
            forall|k: int| 0 <= k < i ==> v@[k] != id,
        decreases v.len() - i,
    {
        if v[i] == id {
            return true;
        }
        i = i + 1;
    }
    false
}

fn add_id(out: &mut Vec<u64>, id: u64)
    ensures
        final(out)@ == add_new(old(out)@, seq![id]),
{
    let ghost before = out@;
    assert(seq![id].drop_last() =~= Seq::<u64>::empty());
    assert(add_new(before, Seq::<u64>::empty()) == before);
    if !contains_id(out, id) {
        out.push(id);
    }
}

/// Appends to `out` each variable identity of `t` that it does not hold yet.
pub fn find_generics(t: &Type, out: &mut Vec<u64>)
    ensures
        final(out)@ == add_new(old(out)@, type_vars(*t)),
    decreases t, 0nat,
{
    match t {
        Type::App { args, .. } => find_generics_in(args, out),
        Type::Var { var } => match var {
            TypeVar::Link { typ } => find_generics(typ, out),
            TypeVar::Generic { id } => add_id(out, *id),
            TypeVar::Unbound { id } => add_id(out, *id),
        },
        Type::Fn { args, ret } => {
            let ghost before = out@;
            find_generics_in(args, out);
            find_generics(ret, out);
            proof {
                lemma_add_new_append(before, types_vars(args@, args@.len()), type_vars(**ret));
            }
        },
        Type::Tuple { elems } => find_generics_in(elems, out),
    }
}

fn find_generics_in(ts: &Vec<Type>, out: &mut Vec<u64>)
    ensures
        final(out)@ == add_new(old(out)@, types_vars(ts@, ts@.len())),
    decreases ts, 1nat,
{
    let ghost before = out@;
    let mut i: usize = 0;
    while i < ts.len()
        invariant
            i <= ts.len(),
            out@ == add_new(before, types_vars(ts@, i as nat)),
        decreases ts.len() - i,
    {
        assert(decreases_to!(ts => ts@[i as int]));
        find_generics(&ts[i], out);
        proof {
            lemma_add_new_append(before, types_vars(ts@, i as nat), type_vars(ts@[i as int]));
        }
        i = i + 1;
    }
}

/// Appends to `out` each variable identity of the argument types that it
/// does not hold yet.
pub fn find_generics_in_args(args: &Vec<Arg>, out: &mut Vec<u64>)
    ensures
        final(out)@ == add_new(old(out)@, args_vars(args@, args@.len())),
{
    let ghost before = out@;
    let mut i: usize = 0;
    while i < args.len()
        invariant
            i <= args.len(),
            out@ == add_new(before, args_vars(args@, i as nat)),
        decreases args.len() - i,
    {
        find_generics(&args[i].typ, out);
        proof {
            lemma_add_new_append(before, args_vars(args@, i as nat), type_vars(args@[i as int].typ));
        }
        i = i + 1;
    }
}

/// The generic parameters of a declaration: each variable identity that occurs
/// in the argument types, once, in order of first occurrence.
pub fn collect_generics(args: &Vec<Arg>) -> (r: Vec<u64>)
    ensures
        r@ == generics_of(args@),
{
    let mut out: Vec<u64> = Vec::new();
    find_generics_in_args(args, &mut out);
    out
}

/// Renders the generic-parameter clause of a declaration with arguments `args`;
/// empty when no type variable occurs in them.
pub fn compile_type_args(args: &Vec<Arg>, prefix: &str) -> (r: String)
    ensures
        r@ == type_params_text(generics_of(args@), prefix@),
{
    let ids = collect_generics(args);
    let mut out = String::new();
    if ids.len() == 0 {
        return out;
    }
    proof {
        reveal_strlit("<");
    }
    push_str(&mut out, "<");
    assert(out@ =~= seq!['<'] + var_names(ids@, 0, prefix@));
    let mut i: usize = 0;
    while i < ids.len()
        invariant
            i <= ids.len(),
            out@ == seq!['<'] + var_names(ids@, i as nat, prefix@),
        decreases ids.len() - i,
    {
        proof {
            reveal_strlit(", ");
            reveal_strlit("<");
        }
        let s = compile_var_name(ids[i], prefix);
        if i > 0 {
            push_str(&mut out, ", ");
        }
        push_str(&mut out, s.as_str());
        assert(out@ =~= seq!['<'] + var_names(ids@, (i + 1) as nat, prefix@));
        i = i + 1;
    }
    proof {
        reveal_strlit(">");
    }
    push_str(&mut out, ">");
    assert(out@ =~= type_params_text(ids@, prefix@));
    out
}

/// Rendering looks through links: a variable linked to `t` renders as `t`,
/// and every type renders as the type it resolves to, which is never a link.
pub proof fn lemma_link_transparent(t: Type, p: Seq<char>)
    ensures
        type_text(Type::Var { var: TypeVar::Link { typ: Box::new(t) } }, p) == type_text(t, p),
        type_text(t, p) == type_text(resolve(t), p),
        !is_link(resolve(t)),
    decreases t,
{
    if let Type::Var { var: TypeVar::Link { typ } } = t {
        lemma_link_transparent(*typ, p);
    }
}

/// `s` holds no element twice.
pub open spec fn no_repeats(s: Seq<u64>) -> bool {
    forall|i: int, j: int| 0 <= i < j < s.len() ==> s[i] != s[j]
}

/// `a` occurs in `s` before the first occurrence of `b`.
pub open spec fn occurs_before(s: Seq<u64>, a: u64, b: u64) -> bool {
    exists|k: int| 0 <= k < s.len() && s[k] == a && forall|m: int| 0 <= m <= k ==> s[m] != b
}

proof fn lemma_add_new_props(s: Seq<u64>)
    ensures
        no_repeats(add_new(seq![], s)),
        forall|x: u64| add_new(seq![], s).contains(x) <==> s.contains(x),
        forall|i: int, j: int|
            0 <= i < j < add_new(seq![], s).len() ==> occurs_before(
                s,
                #[trigger] add_new(seq![], s)[i],
                #[trigger] add_new(seq![], s)[j],
            ),
    decreases s.len(),
{
    if s.len() > 0 {
        let p = s.drop_last();
        let x = s.last();
        lemma_add_new_props(p);
        let a = add_new(seq![], p);
        let r = add_new(seq![], s);
        assert forall|y: u64| r.contains(y) <==> s.contains(y) by {
            if s.contains(y) && y != x {
                let k = choose|k: int| 0 <= k < s.len() && s[k] == y;
                assert(p[k] == y);
                assert(p.contains(y));
                assert(a.contains(y));
                let j = choose|j: int| 0 <= j < a.len() && a[j] == y;
                assert(r[j] == y);
            }
            if a.contains(y) {
                assert(p.contains(y));
                let k = choose|k: int| 0 <= k < p.len() && p[k] == y;
                assert(s[k] == y);
            }
            if r.contains(y) && !a.contains(y) {
                let k = choose|k: int| 0 <= k < r.len() && r[k] == y;
                assert(k == a.len());
                assert(y == x);
                assert(s[s.len() - 1] == y);
            }
            if y == x {
                if a.contains(x) {
                    assert(r.contains(y));
                } else {
                    assert(r[a.len() as int] == x);
                    assert(r.contains(y));
                }
            }
        }
        assert forall|i: int, j: int| 0 <= i < j < r.len() implies occurs_before(s, #[trigger] r[i], #[trigger] r[j]) by {
            if j < a.len() {
                assert(occurs_before(p, a[i], a[j]));
                let k = choose|k: int| 0 <= k < p.len() && p[k] == a[i] && forall|m: int| 0 <= m <= k ==> p[m] != a[j];
                assert(s[k] == a[i]);
                assert forall|m: int| 0 <= m <= k implies s[m] != r[j] by {
                    assert(p[m] != a[j]);
                }
            } else {
                assert(!a.contains(x));
                assert(r[j] == x);
                assert(a.contains(a[i]));
                assert(p.contains(a[i]));
                let k = choose|k: int| 0 <= k < p.len() && p[k] == a[i];
                assert(s[k] == r[i]);
                assert forall|m: int| 0 <= m <= k implies s[m] != r[j] by {
                    assert(s[m] == p[m]);
                    if p[m] == x {
                        assert(p.contains(x));
                    }
                }
            }
        }
    }
}

/// The generic parameters of a declaration hold each variable identity that
/// occurs in its argument types exactly once, and no other, in the order in
/// which the identities first occur.
pub proof fn lemma_generics_distinct_first_occurrence(args: Seq<Arg>)
    ensures
        no_repeats(generics_of(args)),
        forall|x: u64| generics_of(args).contains(x) <==> args_vars(args, args.len()).contains(x),
        forall|i: int, j: int|
            0 <= i < j < generics_of(args).len() ==> occurs_before(
                args_vars(args, args.len()),
                #[trigger] generics_of(args)[i],
                #[trigger] generics_of(args)[j],
            ),
{
    lemma_add_new_props(args_vars(args, args.len()));
}

/// The text of an argument: its name, or `_`, then `: ` and its type.
pub open spec fn arg_text(a: Arg, p: Seq<char>) -> Seq<char> {
    (match a.name {
        Some(n) => n@,
        None => seq!['_'],
    }) + seq![':', ' '] + type_text(a.typ, p)
}

/// The texts of the first `n` arguments, joined by `", "`.
pub open spec fn args_text(args: Seq<Arg>, n: nat, p: Seq<char>) -> Seq<char>
    decreases n,
{
    if n == 0 || n > args.len() {
        seq![]
    } else if n == 1 {
        arg_text(args[0], p)
    } else {
        args_text(args, (n - 1) as nat, p) + comma() + arg_text(args[n - 1], p)
    }
}

/// Renders one argument as `name: Type`.
pub fn compile_argument(a: &Arg, prefix: &str) -> (r: String)
    ensures
        r@ == arg_text(*a, prefix@),
{
    proof {
        reveal_strlit("_");
        reveal_strlit(": ");
    }
    let mut out = match &a.name {
        Some(n) => n.clone(),
        None => String::from_str("_"),
    };
    push_str(&mut out, ": ");
    let t = compile_type(&a.typ, prefix);
    push_str(&mut out, t.as_str());
    out
}

/// Renders an argument list, each as `name: Type`, joined by `", "`.
pub fn compile_arguments(args: &Vec<Arg>, prefix: &str) -> (r: String)
    ensures
        r@ == args_text(args@, args@.len(), prefix@),
{
    let mut out = String::new();
    let mut i: usize = 0;
    while i < args.len()
        invariant
            i <= args.len(),
            out@ == args_text(args@, i as nat, prefix@),
        decreases args.len() - i,
    {
        let s = compile_argument(&args[i], prefix);
        if i > 0 {
            push_str(&mut out, ", ");
        }
        push_str(&mut out, s.as_str());
        proof {
            reveal_strlit(", ");
        }
        assert(out@ =~= args_text(args@, (i + 1) as nat, prefix@));
        i = i + 1;
    }
    out
}

/// A declaration whose argument types hold no type variable gets no
/// generic-parameter clause.
pub proof fn lemma_no_vars_no_clause(args: Seq<Arg>, p: Seq<char>)
    requires
        args_vars(args, args.len()).len() == 0,
    ensures
        generics_of(args).len() == 0,
        type_params_text(generics_of(args), p) == Seq::<char>::empty(),
{
    lemma_add_new_props(args_vars(args, args.len()));
    if generics_of(args).len() > 0 {
        assert(generics_of(args).contains(generics_of(args)[0]));
    }
}

/// A declaration whose one argument has a type whose variables are all the
/// variable `id` gets exactly one generic parameter, named as that variable
/// renders wherever it occurs, in argument and return types alike.
pub proof fn lemma_one_var_one_param(args: Seq<Arg>, id: u64, p: Seq<char>)
    requires
        args.len() == 1,
        type_vars(args[0].typ).len() > 0,
        forall|i: int| 0 <= i < type_vars(args[0].typ).len() ==> type_vars(args[0].typ)[i] == id,
    ensures
        generics_of(args) == seq![id],
        type_params_text(generics_of(args), p) == seq!['<'] + var_name(id, p) + seq!['>'],
        type_text(Type::Var { var: TypeVar::Generic { id } }, p) == var_name(id, p),
        type_text(Type::Var { var: TypeVar::Unbound { id } }, p) == var_name(id, p),
{
    let vs = args_vars(args, 1);
    assert(args_vars(args, 0) == Seq::<u64>::empty());
    assert(vs =~= type_vars(args[0].typ));
    lemma_add_new_props(vs);
    let g = generics_of(args);
    assert(vs.contains(id)) by {
        assert(vs[0] == id);
    }
    assert(g.contains(id));
    assert forall|i: int| 0 <= i < g.len() implies g[i] == id by {
        assert(g.contains(g[i]));
        assert(vs.contains(g[i]));
    }
    if g.len() > 1 {
        assert(g[0] == g[1]);
    }
    assert(g =~= seq![id]);
    assert(var_names(g, 1, p) == var_name(id, p));
}

proof fn lemma_args_vars_append(a: Seq<Arg>, b: Seq<Arg>)
    ensures
        args_vars(a + b, (a + b).len()) == args_vars(a, a.len()) + args_vars(b, b.len()),
    decreases b.len(),
{
    if b.len() == 0 {
        assert(a + b =~= a);
        assert(args_vars(b, 0) =~= Seq::<u64>::empty());
        assert(args_vars(a, a.len()) + args_vars(b, b.len()) =~= args_vars(a, a.len()));
    } else {
        let b0 = b.drop_last();
        let ab = a + b;
        lemma_args_vars_append(a, b0);
        lemma_args_vars_prefix(ab, (ab.len() - 1) as nat);
        assert(ab.subrange(0, ab.len() - 1) =~= a + b0);
        lemma_args_vars_prefix(b, b0.len());
        assert(b.subrange(0, b0.len() as int) =~= b0);
        assert(ab[ab.len() - 1] == b[b.len() - 1]);
        assert(args_vars(ab, ab.len()) =~= args_vars(a, a.len()) + args_vars(b, b.len()));
    }
}

proof fn lemma_args_vars_prefix(a: Seq<Arg>, n: nat)
    requires
        n <= a.len(),
    ensures
        args_vars(a, n) == args_vars(a.subrange(0, n as int), n),
    decreases n,
{
    if n > 0 {
        lemma_args_vars_prefix(a, (n - 1) as nat);
        lemma_args_vars_prefix(a.subrange(0, n as int), (n - 1) as nat);
        assert(a.subrange(0, n as int).subrange(0, n - 1) =~= a.subrange(0, n - 1));
    }
}

proof fn lemma_add_new_present(acc: Seq<u64>, s: Seq<u64>)
    requires
        forall|x: u64| s.contains(x) ==> acc.contains(x),
    ensures
        add_new(acc, s) == acc,
    decreases s.len(),
{
    if s.len() > 0 {
        assert forall|x: u64| s.drop_last().contains(x) implies acc.contains(x) by {
            let k = choose|k: int| 0 <= k < s.drop_last().len() && s.drop_last()[k] == x;
            assert(s[k] == x);
        }
        lemma_add_new_present(acc, s.drop_last());
        assert(s.contains(s[s.len() - 1]));
    }
}

/// Arguments whose type variables all occur in earlier arguments add no
/// generic parameter: each identity stands in the clause once, however many
/// arguments refer to it.
pub proof fn lemma_repeated_vars_add_no_generics(a: Seq<Arg>, extra: Seq<Arg>, p: Seq<char>)
    requires
        forall|x: u64|
            args_vars(extra, extra.len()).contains(x) ==> args_vars(a, a.len()).contains(x),
    ensures
        generics_of(a + extra) == generics_of(a),
        type_params_text(generics_of(a + extra), p) == type_params_text(generics_of(a), p),
{
    let va = args_vars(a, a.len());
    let ve = args_vars(extra, extra.len());
    lemma_args_vars_append(a, extra);
    lemma_add_new_append(seq![], va, ve);
    lemma_add_new_props(va);
    lemma_add_new_present(add_new(seq![], va), ve);
}

/// A type in which no generic or unbound variable is reachable, links
/// followed, renders the same whatever the prefix of synthetic names: its text
/// holds no synthetic name, and a link never shows as one.
pub proof fn lemma_no_reachable_var_no_synthetic_name(t: Type, p1: Seq<char>, p2: Seq<char>)
    requires
        type_vars(t).len() == 0,
    ensures
        type_text(t, p1) == type_text(t, p2),
    decreases t, 0nat,
{
    match t {
        Type::App { args, .. } => {
            lemma_no_reachable_var_list(args@, args@.len(), p1, p2);
        },
        Type::Var { var } => match var {
            TypeVar::Link { typ } => {
                lemma_no_reachable_var_no_synthetic_name(*typ, p1, p2);
            },
            _ => {},
        },
        Type::Fn { args, ret } => {
            lemma_no_reachable_var_list(args@, args@.len(), p1, p2);
            lemma_no_reachable_var_no_synthetic_name(*ret, p1, p2);
        },
        Type::Tuple { elems } => {
            lemma_no_reachable_var_list(elems@, elems@.len(), p1, p2);
        },
    }
}

proof fn lemma_no_reachable_var_list(ts: Seq<Type>, n: nat, p1: Seq<char>, p2: Seq<char>)
    requires
        types_vars(ts, n).len() == 0,
    ensures
        types_text(ts, n, p1) == types_text(ts, n, p2),
    decreases ts, n,
{
    if n > 0 && n <= ts.len() {
        assert(decreases_to!(ts => ts[n - 1]));
        lemma_no_reachable_var_list(ts, (n - 1) as nat, p1, p2);
        lemma_no_reachable_var_no_synthetic_name(ts[n - 1], p1, p2);
    }
}

} // verus!
