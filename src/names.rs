use vstd::prelude::*;
use crate::ir::{Arg, Branch, CallArg, ExprField, Expression, Pattern, PatternField, Type, TypeVar};
use crate::text::{nat_text, push_str};
use crate::types::var_name;

verus! {

/// A candidate prefix for synthetic type-variable names: `T` and then `k`
/// underscores.
pub open spec fn prefix_of(k: nat) -> Seq<char> {
    seq!['T'] + Seq::new(k, |i: int| '_')
}

pub open spec fn is_digit(c: char) -> bool {
    '0' <= c && c <= '9'
}

/// `n` has the shape of a synthetic name with prefix `p`: `p`, then one or
/// more digits.
pub open spec fn has_synthetic_shape(p: Seq<char>, n: Seq<char>) -> bool {
    &&& p.len() < n.len()
    &&& n.subrange(0, p.len() as int) == p
    &&& forall|i: int| p.len() <= i < n.len() ==> is_digit(n[i])
}

/// No name of `names` has the shape of a synthetic name with prefix `p`.
pub open spec fn prefix_clear(p: Seq<char>, names: Seq<String>) -> bool {
    forall|i: int| 0 <= i < names.len() ==> !has_synthetic_shape(p, #[trigger] names[i]@)
}

/// The length of the longest name of `names`.
pub open spec fn max_len(names: Seq<String>) -> nat
    decreases names.len(),
{
    if names.len() == 0 {
        0
    } else {
        let m = max_len(names.drop_last());
        if names.last()@.len() > m {
            names.last()@.len()
        } else {
            m
        }
    }
}

/// The least `j >= k` for which the prefix `prefix_of(j)` is clear of `names`.
pub open spec fn clear_from(names: Seq<String>, k: nat) -> nat
    decreases max_len(names) + 1 - k,
{
    if k > max_len(names) || prefix_clear(prefix_of(k), names) {
        k
    } else {
        clear_from(names, k + 1)
    }
}

/// The prefix of the synthetic names of a declaration whose user-level names
/// are `names`: the shortest candidate that no user name could be confused with.
pub open spec fn name_prefix(names: Seq<String>) -> Seq<char> {
    prefix_of(clear_from(names, 0))
}

/// The names of the named types in `t`, in order, links followed.
pub open spec fn type_names(t: Type) -> Seq<String>
    decreases t, 0nat,
{
    match t {
        Type::App { name, args } => seq![name] + types_names(args@, args@.len()),
        Type::Var { var } => match var {
            TypeVar::Link { typ } => type_names(*typ),
            _ => seq![],
        },
        Type::Fn { args, ret } => types_names(args@, args@.len()) + type_names(*ret),
        Type::Tuple { elems } => types_names(elems@, elems@.len()),
    }
}

/// The names of the named types in the first `n` types of `ts`.
pub open spec fn types_names(ts: Seq<Type>, n: nat) -> Seq<String>
    decreases ts, n,
{
    if n == 0 || n > ts.len() {
        seq![]
    } else {
        types_names(ts, (n - 1) as nat) + type_names(ts[n - 1])
    }
}

/// The names of the named types in the types of the first `n` arguments.
pub open spec fn args_names(args: Seq<Arg>, n: nat) -> Seq<String>
    decreases n,
{
    if n == 0 || n > args.len() {
        seq![]
    } else {
        args_names(args, (n - 1) as nat) + type_names(args[n - 1].typ)
    }
}

/// The record names in a pattern, in order.
pub open spec fn pattern_names(p: Pattern) -> Seq<String>
    decreases p, 0nat,
{
    match p {
        Pattern::Struct { name, fields } => seq![name] + pattern_fields_names(
            fields@,
            fields@.len(),
        ),
        _ => seq![],
    }
}

/// The record names in the first `n` fields of a record pattern.
pub open spec fn pattern_fields_names(fs: Seq<PatternField>, n: nat) -> Seq<String>
    decreases fs, n,
{
    if n == 0 || n > fs.len() {
        seq![]
    } else {
        pattern_fields_names(fs, (n - 1) as nat) + pattern_names(fs[n - 1].pattern)
    }
}

/// The record names in the first `n` patterns of `ps`.
pub open spec fn patterns_names(ps: Seq<Pattern>, n: nat) -> Seq<String>
    decreases n,
{
    if n == 0 || n > ps.len() {
        seq![]
    } else {
        patterns_names(ps, (n - 1) as nat) + pattern_names(ps[n - 1])
    }
}

/// The record names that an expression constructs, updates or matches, in order.
pub open spec fn expr_names(e: Expression) -> Seq<String>
    decreases e, 0nat,
{
    match e {
        Expression::Sequence { exprs } => exprs_names(exprs@, exprs@.len()),
        Expression::Pipeline { exprs } => exprs_names(exprs@, exprs@.len()),
        Expression::Call { fun, args } => expr_names(*fun) + call_args_names(args@, args@.len()),
        Expression::BinOp { left, right, .. } => expr_names(*left) + expr_names(*right),
        Expression::Fn { body, .. } => expr_names(*body),
        Expression::List { elements, tail } => exprs_names(elements@, elements@.len()) + match tail {
            Some(t) => expr_names(*t),
            None => seq![],
        },
        Expression::Let { pattern, value, .. } => pattern_names(pattern) + expr_names(*value),
        Expression::Try { pattern, value, then } => pattern_names(pattern) + expr_names(*value)
            + expr_names(*then),
        Expression::Match { subjects, branches } => exprs_names(subjects@, subjects@.len())
            + branches_names(branches@, branches@.len()),
        Expression::Construct { name, fields } => seq![name] + fields_names(fields@, fields@.len()),
        Expression::FieldAccess { record, .. } => expr_names(*record),
        Expression::RecordUpdate { name, spread, fields } => seq![name] + fields_names(
            fields@,
            fields@.len(),
        ) + expr_names(*spread),
        Expression::Tuple { elems } => exprs_names(elems@, elems@.len()),
        Expression::TupleIndex { tuple, .. } => expr_names(*tuple),
        Expression::NegateBool { value } => expr_names(*value),
        Expression::NegateInt { value } => expr_names(*value),
        Expression::BitString { segments } => exprs_names(segments@, segments@.len()),
        _ => seq![],
    }
}

/// The record names in the first `n` expressions of `es`.
pub open spec fn exprs_names(es: Seq<Expression>, n: nat) -> Seq<String>
    decreases es, n,
{
    if n == 0 || n > es.len() {
        seq![]
    } else {
        exprs_names(es, (n - 1) as nat) + expr_names(es[n - 1])
    }
}

/// The record names in the values of the first `n` call arguments.
pub open spec fn call_args_names(args: Seq<CallArg>, n: nat) -> Seq<String>
    decreases args, n,
{
    if n == 0 || n > args.len() {
        seq![]
    } else {
        call_args_names(args, (n - 1) as nat) + expr_names(args[n - 1].value)
    }
}

/// The record names in the values of the first `n` fields of a construction.
pub open spec fn fields_names(fs: Seq<ExprField>, n: nat) -> Seq<String>
    decreases fs, n,
{
    if n == 0 || n > fs.len() {
        seq![]
    } else {
        fields_names(fs, (n - 1) as nat) + expr_names(fs[n - 1].value)
    }
}

/// The record names in a match branch: its patterns, then its body.
pub open spec fn branch_names(b: Branch) -> Seq<String>
    decreases b, 0nat,
{
    patterns_names(b.patterns@, b.patterns@.len()) + expr_names(b.body)
}

/// The record names in the first `n` branches.
pub open spec fn branches_names(bs: Seq<Branch>, n: nat) -> Seq<String>
    decreases bs, n,
{
    if n == 0 || n > bs.len() {
        seq![]
    } else {
        branches_names(bs, (n - 1) as nat) + branch_names(bs[n - 1])
    }
}

proof fn lemma_max_len(names: Seq<String>)
    ensures
        forall|i: int| 0 <= i < names.len() ==> (#[trigger] names[i])@.len() <= max_len(names),
    decreases names.len(),
{
    if names.len() > 0 {
        lemma_max_len(names.drop_last());
        assert forall|i: int| 0 <= i < names.len() implies (#[trigger] names[i])@.len() <= max_len(
            names,
        ) by {
            if i < names.len() - 1 {
                assert(names[i] == names.drop_last()[i]);
            }
        }
    }
}

proof fn lemma_long_prefix_clear(names: Seq<String>, k: nat)
    requires
        k >= max_len(names),
    ensures
        prefix_clear(prefix_of(k), names),
{
    lemma_max_len(names);
}

proof fn lemma_clear_from(names: Seq<String>, k: nat)
    ensures
        prefix_clear(prefix_of(clear_from(names, k)), names),
        clear_from(names, k) >= k,
    decreases max_len(names) + 1 - k,
{
    if k > max_len(names) {
        lemma_long_prefix_clear(names, k);
    } else if !prefix_clear(prefix_of(k), names) {
        lemma_clear_from(names, k + 1);
    }
}

proof fn lemma_nat_text_digits(n: nat)
    ensures
        nat_text(n).len() > 0,
        forall|i: int| 0 <= i < nat_text(n).len() ==> is_digit(#[trigger] nat_text(n)[i]),
    decreases n,
{
    if n >= 10 {
        lemma_nat_text_digits(n / 10);
        assert forall|i: int| 0 <= i < nat_text(n).len() implies is_digit(
            #[trigger] nat_text(n)[i],
        ) by {
            if i < nat_text(n / 10).len() {
                assert(nat_text(n)[i] == nat_text(n / 10)[i]);
            }
        }
    }
}

/// A synthetic type-variable name never equals a user-level name of its
/// declaration: the prefix is chosen so that no user name has the shape of
/// one.
pub proof fn lemma_synthetic_names_avoid_user_names(names: Seq<String>, id: u64, i: int)
    requires
        0 <= i < names.len(),
    ensures
        var_name(id, name_prefix(names)) != names[i]@,
{
    let p = name_prefix(names);
    lemma_clear_from(names, 0);
    lemma_nat_text_digits(id as nat);
    let v = var_name(id, p);
    assert(v.subrange(0, p.len() as int) =~= p);
    assert forall|j: int| p.len() <= j < v.len() implies is_digit(v[j]) by {
        assert(v[j] == nat_text(id as nat)[j - p.len()]);
    }
    assert(has_synthetic_shape(p, v));
    assert(!has_synthetic_shape(p, names[i]@));
}

fn synthetic_shape(k: usize, n: &String) -> (r: bool)
    ensures
        r == has_synthetic_shape(prefix_of(k as nat), n@),
{
    let len = n.as_str().unicode_len();
    if len == 0 || len - 1 <= k {
        return false;
    }
    let p = Ghost(prefix_of(k as nat));
    if n.as_str().get_char(0) != 'T' {
        assert(n@.subrange(0, p@.len() as int)[0] != p@[0]);
        return false;
    }
    let mut i: usize = 1;
    while i <= k
        invariant
            1 <= i <= k + 1,
            k + 1 < len,
            len == n@.len(),
            p@ == prefix_of(k as nat),
            n@[0] == 'T',
            forall|j: int| 1 <= j < i ==> n@[j] == '_',
        decreases k + 1 - i,
    {
        if n.as_str().get_char(i) != '_' {
            assert(n@.subrange(0, p@.len() as int)[i as int] != p@[i as int]);
            return false;
        }
        i = i + 1;
    }
    assert(n@.subrange(0, p@.len() as int) =~= p@);
    while i < len
        invariant
            k + 1 <= i <= len,
            len == n@.len(),
            forall|j: int| k + 1 <= j < i ==> is_digit(n@[j]),
        decreases len - i,
    {
        let c = n.as_str().get_char(i);
        if !('0' <= c && c <= '9') {
            return false;
        }
        i = i + 1;
    }
    true
}

fn is_prefix_clear(k: usize, names: &Vec<String>) -> (r: bool)
    ensures
        r == prefix_clear(prefix_of(k as nat), names@),
{
    let mut i: usize = 0;
    while i < names.len()
        invariant
            i <= names.len(),
            forall|j: int| 0 <= j < i ==> !has_synthetic_shape(prefix_of(k as nat), (#[trigger] names@[j])@),
        decreases names.len() - i,
    {
        if synthetic_shape(k, &names[i]) {
            return false;
        }
        i = i + 1;
    }
    true
}

fn max_name_len(names: &Vec<String>) -> (r: usize)
    ensures
        r == max_len(names@),
{
    let mut m: usize = 0;
    let mut i: usize = 0;
    while i < names.len()
        invariant
            i <= names.len(),
            m == max_len(names@.subrange(0, i as int)),
        decreases names.len() - i,
    {
        assert(names@.subrange(0, i + 1).drop_last() =~= names@.subrange(0, i as int));
        let l = names[i].as_str().unicode_len();
        if l > m {
            m = l;
        }
        i = i + 1;
    }
    assert(names@.subrange(0, names.len() as int) =~= names@);
    m
}

/// Chooses the prefix of the synthetic type-variable names of a declaration
/// whose user-level names are `names`: `T`, or `T` and as few underscores as
/// it takes for no user name to have the shape of a synthetic one.
pub fn choose_prefix(names: &Vec<String>) -> (r: String)
    ensures
        r@ == name_prefix(names@),
{
    let m = max_name_len(names);
    let mut k: usize = 0;
    while !is_prefix_clear(k, names)
        invariant
            k <= m,
            m == max_len(names@),
            clear_from(names@, 0) == clear_from(names@, k as nat),
        decreases m - k,
    {
        if k == m {
            proof {
                lemma_long_prefix_clear(names@, k as nat);
            }
        }
        k = k + 1;
    }
    let mut out = String::new();
    push_str(&mut out, "T");
    proof {
        reveal_strlit("T");
    }
    assert(out@ =~= prefix_of(0));
    let mut j: usize = 0;
    while j < k
        invariant
            j <= k,
            out@ == prefix_of(j as nat),
        decreases k - j,
    {
        push_str(&mut out, "_");
        proof {
            reveal_strlit("_");
        }
        assert(out@ =~= prefix_of((j + 1) as nat));
        j = j + 1;
    }
    out
}

/// Appends the names of the named types in `t`.
pub fn push_type_names(t: &Type, out: &mut Vec<String>)
    ensures
        final(out)@ == old(out)@ + type_names(*t),
    decreases t, 0nat,
{
    let ghost before = out@;
    match t {
        Type::App { name, args } => {
            out.push(name.clone());
            push_types_names(args, out);
        },
        Type::Var { var } => match var {
            TypeVar::Link { typ } => push_type_names(typ, out),
            _ => {},
        },
        Type::Fn { args, ret } => {
            push_types_names(args, out);
            push_type_names(ret, out);
        },
        Type::Tuple { elems } => push_types_names(elems, out),
    }
    assert(out@ =~= before + type_names(*t));
}

fn push_types_names(ts: &Vec<Type>, out: &mut Vec<String>)
    ensures
        final(out)@ == old(out)@ + types_names(ts@, ts@.len()),
    decreases ts, 1nat,
{
    let ghost before = out@;
    let mut i: usize = 0;
    while i < ts.len()
        invariant
            i <= ts.len(),
            out@ == before + types_names(ts@, i as nat),
        decreases ts.len() - i,
    {
        assert(decreases_to!(ts => ts@[i as int]));
        push_type_names(&ts[i], out);
        assert(out@ =~= before + types_names(ts@, (i + 1) as nat));
        i = i + 1;
    }
}

/// Appends the names of the named types in the types of `args`.
pub fn push_args_names(args: &Vec<Arg>, out: &mut Vec<String>)
    ensures
        final(out)@ == old(out)@ + args_names(args@, args@.len()),
{
    let ghost before = out@;
    let mut i: usize = 0;
    while i < args.len()
        invariant
            i <= args.len(),
            out@ == before + args_names(args@, i as nat),
        decreases args.len() - i,
    {
        push_type_names(&args[i].typ, out);
        assert(out@ =~= before + args_names(args@, (i + 1) as nat));
        i = i + 1;
    }
}

/// Appends each of `ns`.
pub fn push_strings(ns: &Vec<String>, out: &mut Vec<String>)
    ensures
        final(out)@ == old(out)@ + ns@,
{
    let ghost before = out@;
    let mut i: usize = 0;
    while i < ns.len()
        invariant
            i <= ns.len(),
            out@ == before + ns@.subrange(0, i as int),
        decreases ns.len() - i,
    {
        out.push(ns[i].clone());
        assert(out@ =~= before + ns@.subrange(0, (i + 1) as int));
        i = i + 1;
    }
    assert(ns@.subrange(0, ns.len() as int) =~= ns@);
}

/// Appends the record names in a pattern.
pub fn push_pattern_names(p: &Pattern, out: &mut Vec<String>)
    ensures
        final(out)@ == old(out)@ + pattern_names(*p),
    decreases p, 0nat,
{
    let ghost before = out@;
    match p {
        Pattern::Struct { name, fields } => {
            out.push(name.clone());
            push_pattern_fields_names(fields, out);
        },
        _ => {},
    }
    assert(out@ =~= before + pattern_names(*p));
}

fn push_pattern_fields_names(fs: &Vec<PatternField>, out: &mut Vec<String>)
    ensures
        final(out)@ == old(out)@ + pattern_fields_names(fs@, fs@.len()),
    decreases fs, 1nat,
{
    let ghost before = out@;
    let mut i: usize = 0;
    while i < fs.len()
        invariant
            i <= fs.len(),
            out@ == before + pattern_fields_names(fs@, i as nat),
        decreases fs.len() - i,
    {
        assert(decreases_to!(fs => fs@[i as int]));
        push_pattern_names(&fs[i].pattern, out);
        assert(out@ =~= before + pattern_fields_names(fs@, (i + 1) as nat));
        i = i + 1;
    }
}

fn push_patterns_names(ps: &Vec<Pattern>, out: &mut Vec<String>)
    ensures
        final(out)@ == old(out)@ + patterns_names(ps@, ps@.len()),
{
    let ghost before = out@;
    let mut i: usize = 0;
    while i < ps.len()
        invariant
            i <= ps.len(),
            out@ == before + patterns_names(ps@, i as nat),
        decreases ps.len() - i,
    {
        push_pattern_names(&ps[i], out);
        assert(out@ =~= before + patterns_names(ps@, (i + 1) as nat));
        i = i + 1;
    }
}

/// Appends the record names that an expression constructs, updates or matches.
pub fn push_expr_names(e: &Expression, out: &mut Vec<String>)
    ensures
        final(out)@ == old(out)@ + expr_names(*e),
    decreases e, 0nat,
{
    let ghost before = out@;
    match e {
        Expression::Sequence { exprs } => push_exprs_names(exprs, out),
        Expression::Pipeline { exprs } => push_exprs_names(exprs, out),
        Expression::Call { fun, args } => {
            push_expr_names(fun, out);
            push_call_args_names(args, out);
        },
        Expression::BinOp { left, right, .. } => {
            push_expr_names(left, out);
            push_expr_names(right, out);
        },
        Expression::Fn { body, .. } => push_expr_names(body, out),
        Expression::List { elements, tail } => {
            push_exprs_names(elements, out);
            match tail {
                Some(t) => push_expr_names(t, out),
                None => {},
            }
        },
        Expression::Let { pattern, value, .. } => {
            push_pattern_names(pattern, out);
            push_expr_names(value, out);
        },
        Expression::Try { pattern, value, then } => {
            push_pattern_names(pattern, out);
            push_expr_names(value, out);
            push_expr_names(then, out);
        },
        Expression::Match { subjects, branches } => {
            push_exprs_names(subjects, out);
            push_branches_names(branches, out);
        },
        Expression::Construct { name, fields } => {
            out.push(name.clone());
            push_fields_names(fields, out);
        },
        Expression::FieldAccess { record, .. } => push_expr_names(record, out),
        Expression::RecordUpdate { name, spread, fields } => {
            out.push(name.clone());
            push_fields_names(fields, out);
            push_expr_names(spread, out);
        },
        Expression::Tuple { elems } => push_exprs_names(elems, out),
        Expression::TupleIndex { tuple, .. } => push_expr_names(tuple, out),
        Expression::NegateBool { value } => push_expr_names(value, out),
        Expression::NegateInt { value } => push_expr_names(value, out),
        Expression::BitString { segments } => push_exprs_names(segments, out),
        _ => {},
    }
    assert(out@ =~= before + expr_names(*e));
}

fn push_exprs_names(es: &Vec<Expression>, out: &mut Vec<String>)
    ensures
        final(out)@ == old(out)@ + exprs_names(es@, es@.len()),
    decreases es, 1nat,
{
    let ghost before = out@;
    let mut i: usize = 0;
    while i < es.len()
        invariant
            i <= es.len(),
            out@ == before + exprs_names(es@, i as nat),
        decreases es.len() - i,
    {
        assert(decreases_to!(es => es@[i as int]));
        push_expr_names(&es[i], out);
        assert(out@ =~= before + exprs_names(es@, (i + 1) as nat));
        i = i + 1;
    }
}

fn push_call_args_names(args: &Vec<CallArg>, out: &mut Vec<String>)
    ensures
        final(out)@ == old(out)@ + call_args_names(args@, args@.len()),
    decreases args, 1nat,
{
    let ghost before = out@;
    let mut i: usize = 0;
    while i < args.len()
        invariant
            i <= args.len(),
            out@ == before + call_args_names(args@, i as nat),
        decreases args.len() - i,
    {
        assert(decreases_to!(args => args@[i as int]));
        push_expr_names(&args[i].value, out);
        assert(out@ =~= before + call_args_names(args@, (i + 1) as nat));
        i = i + 1;
    }
}

fn push_fields_names(fs: &Vec<ExprField>, out: &mut Vec<String>)
    ensures
        final(out)@ == old(out)@ + fields_names(fs@, fs@.len()),
    decreases fs, 1nat,
{
    let ghost before = out@;
    let mut i: usize = 0;
    while i < fs.len()
        invariant
            i <= fs.len(),
            out@ == before + fields_names(fs@, i as nat),
        decreases fs.len() - i,
    {
        assert(decreases_to!(fs => fs@[i as int]));
        push_expr_names(&fs[i].value, out);
        assert(out@ =~= before + fields_names(fs@, (i + 1) as nat));
        i = i + 1;
    }
}

fn push_branches_names(bs: &Vec<Branch>, out: &mut Vec<String>)
    ensures
        final(out)@ == old(out)@ + branches_names(bs@, bs@.len()),
    decreases bs, 1nat,
{
    let ghost before = out@;
    let mut i: usize = 0;
    while i < bs.len()
        invariant
            i <= bs.len(),
            out@ == before + branches_names(bs@, i as nat),
        decreases bs.len() - i,
    {
        assert(decreases_to!(bs => bs@[i as int]));
        push_patterns_names(&bs[i].patterns, out);
        push_expr_names(&bs[i].body, out);
        assert(branch_names(bs@[i as int]) == patterns_names(
            bs@[i as int].patterns@,
            bs@[i as int].patterns@.len(),
        ) + expr_names(bs@[i as int].body));
        assert(out@ =~= before + branches_names(bs@, (i + 1) as nat));
        i = i + 1;
    }
}

} // verus!
