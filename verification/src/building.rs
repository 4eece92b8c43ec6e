//! What the built-ins of macros make: code that means what it is made of.
use vstd::prelude::*;

verus! {

use crate::ast::{cpp_op_text, ident_expr, named_type, path_text, simple_path, type_text};
use crate::host::StopV;
use crate::interp_model::{
    Ctx, Vars, builtin, e_expr, exprs_among, is_public, made_fields, made_params, public_from,
};
use crate::interp_rules::{un_e_expr, un_e_store};
use crate::model::{ExprKindV, ExprV, ItemV, ParamV, StructFieldV};
use crate::token::Span;
use crate::value::ValueV;

/// The code that a built-in makes of these values.
pub open spec fn made(
    c: Ctx,
    name: Seq<char>,
    args: Seq<ValueV>,
    span: Span,
    out: Seq<char>,
) -> Option<ExprV> {
    match builtin(c, name, args, span, out) {
        (Ok(ValueV::Expr(x)), _) => Some(x),
        _ => None,
    }
}

/// The names of the built-ins, told apart by their lengths and some of their characters.
proof fn lemma_names()
    ensures
        "read_file"@.len() == 9 && "read_file"@[0] == 'r',
        "read_file"@[5] == 'f' && "read_file"@[6] == 'i',
        "parse"@.len() == 5 && "parse"@[0] == 'p',
        "splice"@.len() == 6 && "splice"@[0] == 's' && "splice"@[5] == 'e',
        "error"@.len() == 5 && "error"@[0] == 'e',
        "filter_pub"@.len() == 10 && "filter_pub"@[0] == 'f',
        "filter_pub"@[5] == 'r' && "filter_pub"@[6] == '_',
        "set_name"@.len() == 8 && "set_name"@[0] == 's',
        "set_name"@[5] == 'a' && "set_name"@[6] == 'm',
        "lookup_type"@.len() == 11 && "lookup_type"@[0] == 'l',
        "lookup_type"@[5] == 'p' && "lookup_type"@[6] == '_',
        "struct_fields"@.len() == 13 && "struct_fields"@[0] == 's',
        "struct_fields"@[5] == 't' && "struct_fields"@[6] == '_',
        "type_exists"@.len() == 11 && "type_exists"@[0] == 't',
        "type_exists"@[5] == 'e' && "type_exists"@[6] == 'x',
        "make_return"@.len() == 11 && "make_return"@[0] == 'm',
        "make_return"@[5] == 'r' && "make_return"@[6] == 'e',
        "make_binary"@.len() == 11 && "make_binary"@[0] == 'm',
        "make_binary"@[5] == 'b' && "make_binary"@[6] == 'i',
        "make_string"@.len() == 11 && "make_string"@[0] == 'm',
        "make_string"@[5] == 's' && "make_string"@[6] == 't' && "make_string"@[8] == 'i',
        "make_field"@.len() == 10 && "make_field"@[0] == 'm',
        "make_field"@[5] == 'f' && "make_field"@[6] == 'i',
        "make_ident"@.len() == 10 && "make_ident"@[0] == 'm',
        "make_ident"@[5] == 'i' && "make_ident"@[6] == 'd',
        "list"@.len() == 4 && "list"@[0] == 'l',
        "list_push"@.len() == 9 && "list_push"@[0] == 'l',
        "list_push"@[5] == 'p' && "list_push"@[6] == 'u',
        "make_int"@.len() == 8 && "make_int"@[0] == 'm',
        "make_int"@[5] == 'i' && "make_int"@[6] == 'n',
        "make_float"@.len() == 10 && "make_float"@[0] == 'm',
        "make_float"@[5] == 'f' && "make_float"@[6] == 'l',
        "make_bool"@.len() == 9 && "make_bool"@[0] == 'm',
        "make_bool"@[5] == 'b' && "make_bool"@[6] == 'o',
        "make_block"@.len() == 10 && "make_block"@[0] == 'm',
        "make_block"@[5] == 'b' && "make_block"@[6] == 'l',
        "make_let"@.len() == 8 && "make_let"@[0] == 'm',
        "make_let"@[5] == 'l' && "make_let"@[6] == 'e',
        "make_call"@.len() == 9 && "make_call"@[0] == 'm',
        "make_call"@[5] == 'c' && "make_call"@[6] == 'a',
        "to_string"@.len() == 9 && "to_string"@[0] == 't',
        "to_string"@[5] == 'r' && "to_string"@[6] == 'i',
        "make_function"@.len() == 13 && "make_function"@[0] == 'm',
        "make_function"@[5] == 'f' && "make_function"@[6] == 'u',
        "make_struct"@.len() == 11 && "make_struct"@[0] == 'm',
        "make_struct"@[5] == 's' && "make_struct"@[6] == 't' && "make_struct"@[8] == 'u',
        "make_impl"@.len() == 9 && "make_impl"@[0] == 'm',
        "make_impl"@[5] == 'i' && "make_impl"@[6] == 'm',
{
    reveal_strlit("read_file");
    reveal_strlit("parse");
    reveal_strlit("splice");
    reveal_strlit("error");
    reveal_strlit("filter_pub");
    reveal_strlit("set_name");
    reveal_strlit("lookup_type");
    reveal_strlit("struct_fields");
    reveal_strlit("type_exists");
    reveal_strlit("make_return");
    reveal_strlit("make_binary");
    reveal_strlit("make_string");
    reveal_strlit("make_field");
    reveal_strlit("make_ident");
    reveal_strlit("list");
    reveal_strlit("list_push");
    reveal_strlit("make_int");
    reveal_strlit("make_float");
    reveal_strlit("make_bool");
    reveal_strlit("make_block");
    reveal_strlit("make_let");
    reveal_strlit("make_call");
    reveal_strlit("to_string");
    reveal_strlit("make_function");
    reveal_strlit("make_struct");
    reveal_strlit("make_impl");
}

/// A made literal has the value that it is made of, and a made name the value of the
/// variable.
pub proof fn law_made_values(
    c: Ctx,
    run: Ctx,
    fuel: nat,
    n: i64,
    b: bool,
    s: Seq<char>,
    span: Span,
    env: Vars,
    out: Seq<char>,
)
    ensures
        made(c, "make_int"@, seq![ValueV::Int(n)], span, out) matches Some(x) && e_expr(
            run,
            fuel,
            x,
            env,
            out,
        ).0 == Ok::<ValueV, StopV>(ValueV::Int(n)),
        made(c, "make_bool"@, seq![ValueV::Bool(b)], span, out) matches Some(x) && e_expr(
            run,
            fuel,
            x,
            env,
            out,
        ).0 == Ok::<ValueV, StopV>(ValueV::Bool(b)),
        made(c, "make_string"@, seq![ValueV::String(s)], span, out) matches Some(x) && e_expr(
            run,
            fuel,
            x,
            env,
            out,
        ).0 == Ok::<ValueV, StopV>(ValueV::String(s)),
        env.contains_key(s) ==> (made(
            c,
            "make_ident"@,
            seq![ValueV::String(s)],
            span,
            out,
        ) matches Some(x) && e_expr(run, fuel, x, env, out).0 == Ok::<ValueV, StopV>(env[s])),
{
    lemma_names();
    un_e_expr(run, fuel, ExprV { kind: ExprKindV::IntLiteral(n), span }, env, out);
    un_e_expr(run, fuel, ExprV { kind: ExprKindV::BoolLiteral(b), span }, env, out);
    un_e_expr(run, fuel, ExprV { kind: ExprKindV::StringLiteral(s), span }, env, out);
    un_e_expr(run, fuel, ident_expr(s, span), env, out);
}

/// A made operation has the operands in the order in which they are given, and its operator
/// is written as the sign that is given.
pub proof fn law_made_operation(
    c: Ctx,
    sign: Seq<char>,
    l: ExprV,
    r: ExprV,
    span: Span,
    out: Seq<char>,
)
    requires
        sign == "+"@ || sign == "-"@ || sign == "*"@,
    ensures
        builtin(
            c,
            "make_binary"@,
            seq![ValueV::String(sign), ValueV::Expr(l), ValueV::Expr(r)],
            span,
            out,
        ).0 matches Ok(ValueV::Expr(x)) && (x.kind matches ExprKindV::Binary { op, left, right }
            && cpp_op_text(op) == sign && *left == l && *right == r),
{
    lemma_names();
    reveal_strlit("+");
    reveal_strlit("-");
    reveal_strlit("*");
    assert("+"@[0] == '+' && "-"@[0] == '-' && "*"@[0] == '*');
}

/// A made binding binds the name to the value of the code that is given, and a made
/// `return` gives the value of it.
pub proof fn law_made_statements(
    c: Ctx,
    run: Ctx,
    fuel: nat,
    name: Seq<char>,
    e: ExprV,
    span: Span,
    env: Vars,
    out: Seq<char>,
)
    requires
        e_expr(run, fuel, e, env, out).0 is Ok,
    ensures
        made(c, "make_let"@, seq![ValueV::String(name), ValueV::Expr(e)], span, out) matches Some(x)
            && e_expr(run, fuel, x, env, out) == (
            e_expr(run, fuel, e, env, out).0,
            e_expr(run, fuel, e, env, out).1.insert(name, e_expr(run, fuel, e, env, out).0->Ok_0),
            e_expr(run, fuel, e, env, out).2,
        ),
        made(c, "make_return"@, seq![ValueV::Expr(e)], span, out) matches Some(x) && e_expr(
            run,
            fuel,
            x,
            env,
            out,
        ) == e_expr(run, fuel, e, env, out),
{
    lemma_names();
    let x = ExprV {
        kind: ExprKindV::Let { name, ty: None, value: Box::new(e), is_mut: false },
        span,
    };
    un_e_expr(run, fuel, x, env, out);
    un_e_store(run, fuel, x, env, out);
    let y = ExprV { kind: ExprKindV::Return(Some(Box::new(e))), span };
    un_e_expr(run, fuel, y, env, out);
}

proof fn lemma_among(xs: Seq<ValueV>, es: Seq<ExprV>, i: int)
    requires
        0 <= i <= xs.len(),
        xs.len() == es.len(),
        forall|j: int| 0 <= j < xs.len() ==> #[trigger] xs[j] == ValueV::Expr(es[j]),
    ensures
        exprs_among(xs, i, es.take(i)) == es,
    decreases xs.len() - i,
{
    if i < xs.len() {
        assert(xs[i] == ValueV::Expr(es[i]));
        assert(es.take(i).push(es[i]) =~= es.take(i + 1));
        lemma_among(xs, es, i + 1);
    } else {
        assert(es.take(i) =~= es);
    }
}

/// A made call calls the function that is named, with the arguments in their order; a made
/// block has the statements in their order.
pub proof fn law_made_calls_and_blocks(
    c: Ctx,
    name: Seq<char>,
    xs: Seq<ValueV>,
    es: Seq<ExprV>,
    span: Span,
    out: Seq<char>,
)
    requires
        xs.len() == es.len(),
        forall|j: int| 0 <= j < xs.len() ==> #[trigger] xs[j] == ValueV::Expr(es[j]),
    ensures
        builtin(c, "make_call"@, seq![ValueV::String(name), ValueV::List(xs)], span, out).0 matches Ok(
            ValueV::Expr(x),
        ) && (x.kind matches ExprKindV::Call { func, args } && func.kind == ExprKindV::Ident(name)
            && args == es),
        builtin(c, "make_block"@, seq![ValueV::List(xs)], span, out).0 matches Ok(ValueV::Expr(x))
            && (x.kind matches ExprKindV::Block(b) && b.stmts == es),
{
    lemma_names();
    lemma_among(xs, es, 0);
    assert(es.take(0) =~= Seq::empty());
}

/// A list of pairs of a name and a type.
pub open spec fn pairs(names: Seq<(Seq<char>, Seq<char>)>) -> Seq<ValueV> {
    Seq::new(
        names.len(),
        |i: int| ValueV::List(seq![ValueV::String(names[i].0), ValueV::String(names[i].1)]),
    )
}

proof fn lemma_fields(names: Seq<(Seq<char>, Seq<char>)>, i: int, acc: Seq<StructFieldV>, span: Span)
    requires
        0 <= i <= names.len(),
        acc.len() == i,
        forall|j: int|
            0 <= j < i ==> (#[trigger] acc[j]).name == names[j].0 && acc[j].ty == named_type(
                names[j].1,
            ),
    ensures
        made_fields(pairs(names), i, acc, span) matches Ok(fs) && fs.len() == names.len() && forall|
            j: int,
        |
            0 <= j < names.len() ==> (#[trigger] fs[j]).name == names[j].0 && fs[j].ty == named_type(
                names[j].1,
            ),
    decreases names.len() - i,
{
    if i < names.len() {
        let next = StructFieldV {
            name: names[i].0,
            ty: named_type(names[i].1),
            span: crate::token::zero_span(),
        };
        assert(pairs(names)[i] == ValueV::List(
            seq![ValueV::String(names[i].0), ValueV::String(names[i].1)],
        ));
        lemma_fields(names, i + 1, acc.push(next), span);
    }
}

proof fn lemma_type_name(name: Seq<char>)
    ensures
        type_text(named_type(name)) == name,
{
    let none = Seq::<char>::empty();
    let segs = simple_path(name).segments;
    assert(none + name =~= name);
    assert(path_text(segs, 0, none) == path_text(segs, 1, name));
    assert(path_text(segs, 1, name) == name);
}

/// The fields of a made struct are those that it is made of, in their order.
pub proof fn law_made_struct_gives_back_its_fields(
    c: Ctx,
    name: Seq<char>,
    names: Seq<(Seq<char>, Seq<char>)>,
    span: Span,
    out: Seq<char>,
)
    ensures
        builtin(
            c,
            "make_struct"@,
            seq![ValueV::String(name), ValueV::List(pairs(names))],
            span,
            out,
        ).0 matches Ok(v) && (v matches ValueV::Item(ItemV::Struct(s)) && s.name == name) && builtin(
            c,
            "struct_fields"@,
            seq![v],
            span,
            out,
        ).0 == Ok::<ValueV, StopV>(ValueV::List(pairs(names))),
{
    lemma_names();
    lemma_fields(names, 0, Seq::empty(), span);
    let made = builtin(
        c,
        "make_struct"@,
        seq![ValueV::String(name), ValueV::List(pairs(names))],
        span,
        out,
    ).0->Ok_0;
    let read = builtin(c, "struct_fields"@, seq![made], span, out).0->Ok_0;
    assert(read->List_0 =~= pairs(names)) by {
        assert forall|i: int| 0 <= i < names.len() implies read->List_0[i] == #[trigger] pairs(
            names,
        )[i] by {
            lemma_type_name(names[i].1);
            assert(pairs(names)[i]->List_0 =~= read->List_0[i]->List_0);
        }
    }
}

proof fn lemma_params(names: Seq<(Seq<char>, Seq<char>)>, i: int, acc: Seq<ParamV>, span: Span)
    requires
        0 <= i <= names.len(),
        acc.len() == i,
        forall|j: int|
            0 <= j < i ==> (#[trigger] acc[j]).name == names[j].0 && acc[j].ty == named_type(
                names[j].1,
            ),
    ensures
        made_params(pairs(names), i, acc, span) matches Ok(ps) && ps.len() == names.len() && forall|
            j: int,
        |
            0 <= j < names.len() ==> (#[trigger] ps[j]).name == names[j].0 && ps[j].ty == named_type(
                names[j].1,
            ),
    decreases names.len() - i,
{
    if i < names.len() {
        let next = crate::interp_model::plain_param(names[i].0, names[i].1);
        assert(pairs(names)[i] == ValueV::List(
            seq![ValueV::String(names[i].0), ValueV::String(names[i].1)],
        ));
        lemma_params(names, i + 1, acc.push(next), span);
    }
}

/// A made function has the name, the parameters in their order, the result type and the
/// statements that it is made of.
pub proof fn law_made_function(
    c: Ctx,
    name: Seq<char>,
    names: Seq<(Seq<char>, Seq<char>)>,
    ret: Seq<char>,
    body: ExprV,
    span: Span,
    out: Seq<char>,
)
    ensures
        builtin(
            c,
            "make_function"@,
            seq![
                ValueV::String(name),
                ValueV::List(pairs(names)),
                ValueV::String(ret),
                ValueV::Expr(body),
            ],
            span,
            out,
        ).0 matches Ok(ValueV::Item(ItemV::Function(f))) && f.name == name && f.return_type
            == named_type(ret) && f.generics.len() == 0 && f.params.len() == names.len() && (forall|
            j: int,
        |
            0 <= j < names.len() ==> (#[trigger] f.params[j]).name == names[j].0 && f.params[j].ty
                == named_type(names[j].1)) && f.body.stmts == (match body.kind {
            ExprKindV::Block(b) => b.stmts,
            _ => seq![body],
        }),
{
    lemma_names();
    lemma_params(names, 0, Seq::empty(), span);
}

/// One more item is kept behind the others where it is public, and dropped where it is not.
pub proof fn law_public_items_are_kept(xs: Seq<ItemV>, x: ItemV, i: int, acc: Seq<ItemV>)
    requires
        0 <= i <= xs.len(),
    ensures
        public_from(xs.push(x), i, acc) == (if is_public(x) {
            public_from(xs, i, acc).push(x)
        } else {
            public_from(xs, i, acc)
        }),
        x matches ItemV::Function(f) ==> is_public(x) == f.is_pub,
        x matches ItemV::Struct(s) ==> is_public(x) == s.is_pub,
        x matches ItemV::Enum(e) ==> is_public(x) == e.is_pub,
    decreases xs.len() - i,
{
    let more = xs.push(x);
    if i < xs.len() {
        assert(more[i] == xs[i]);
        let next = if is_public(xs[i]) {
            acc.push(xs[i])
        } else {
            acc
        };
        law_public_items_are_kept(xs, x, i + 1, next);
    } else {
        let next = if is_public(x) {
            acc.push(x)
        } else {
            acc
        };
        assert(public_from(more, i, acc) == public_from(more, i + 1, next));
        assert(public_from(more, i + 1, next) == next);
    }
}

} // verus!
