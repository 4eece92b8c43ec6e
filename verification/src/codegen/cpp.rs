//! The C++ text of a module.
use vstd::prelude::*;
use crate::ast::{
    Enum, EnumCase, Expr, ExprKind, Function, ImplBlock, Item, Module, Param, Struct, TraitDef,
    Type,
};
use crate::codegen::dispatch::{
    DispatchInfo, DispatchInfoV, Impls, Info, InfoV, Overload, OverloadV, gen_type, position_traits,
    target_name,
};
use crate::maps::{StrList, StrMap, contains_str};
use crate::model::{
    EnumCaseV, EnumV, ExprKindV, ExprV, FunctionV, ImplBlockV, ItemV, ParamV, StructFieldV, StructV,
    TraitDefV, TypeV,
};
use crate::text::{
    cat2, cat3, cat4, cat5, cat6, cat7, join, show_i64, show_u128, show_u64, show_usize, str_eq,
};

verus! {

use crate::ast::cpp_op_text;
use crate::codegen::dispatch::{
    cpp_type, impl_target, info_of, opt_strs_v, overloads_v, param_name, traits_at,
};
use crate::debug::debug_expr_kind;
use crate::maps::lookup;
use crate::model::{
    block_v, enum_case_v, enum_cases_v, enum_v, expr_kind_v, expr_v, exprs_v, field_inits_v,
    function_v, functions_v, group_list_views, impl_block_v, item_v, items_v, param_v, params_v,
    struct_field_v, struct_fields_v, struct_v, trait_def_v, types_v,
};
use crate::paths::last_name;
use crate::text::{int_text, join_v, nat_text, opt_str_v, strs_v};

broadcast use group_list_views;

// -------------------------------------------------------------------------- lines

/// One more line, indented.
pub open spec fn line(acc: Seq<char>, ind: Seq<char>, s: Seq<char>) -> Seq<char> {
    acc + ind + s + "\n"@
}

fn emitln(out: &mut String, ind: &str, s: &str)
    ensures
        final(out)@ == line(old(out)@, ind@, s@),
{
    out.append(ind);
    out.append(s);
    out.append("\n");
}

/// One more level of indentation.
pub open spec fn deeper(ind: Seq<char>) -> Seq<char> {
    ind + "  "@
}

// -------------------------------------------------------------------- expressions

/// The name of a function of the run-time library.
pub open spec fn runtime_name(n: Seq<char>) -> Seq<char> {
    if n == "print"@ {
        "nova_print"@
    } else if n == "print_int"@ {
        "nova_print_int"@
    } else {
        n
    }
}

/// Whether a function is dispatched.
pub open spec fn is_dispatched(ds: Seq<DispatchInfoV>, name: Seq<char>) -> bool {
    exists|k: int| 0 <= k < ds.len() && (#[trigger] ds[k]).name == name
}

/// A call: through the dispatcher, through the one trait object, or plain.
pub open spec fn call_text(g: InfoV, name: Seq<char>, args: Seq<Seq<char>>) -> Seq<char> {
    if is_dispatched(g.dispatch, name) {
        "_d_"@ + name + "("@ + join_v(args, ", "@) + ")"@
    } else if args.len() == 1 && g.trait_methods.contains(name) {
        args[0] + "."@ + name + "()"@
    } else {
        runtime_name(name) + "("@ + join_v(args, ", "@) + ")"@
    }
}

/// An expression in C++; one that has no form there is left as a comment.
pub open spec fn expr_text(g: InfoV, e: ExprV) -> Seq<char>
    decreases e, 1int,
{
    match e.kind {
        ExprKindV::IntLiteral(n) => int_text(n as int),
        ExprKindV::FloatLiteral(s) => s,
        ExprKindV::StringLiteral(s) => "\""@ + s + "\""@,
        ExprKindV::BoolLiteral(b) => if b {
            "true"@
        } else {
            "false"@
        },
        ExprKindV::Ident(name) => name,
        ExprKindV::Field { object, field } => expr_text(g, *object) + "."@ + field,
        ExprKindV::DotAccess { object, field } => expr_text(g, *object) + "."@ + field,
        ExprKindV::Binary { op, left, right } => "("@ + expr_text(g, *left) + " "@ + cpp_op_text(op)
            + " "@ + expr_text(g, *right) + ")"@,
        ExprKindV::Call { func, args } => call_text(
            g,
            match func.kind {
                ExprKindV::Ident(n) => n,
                _ => expr_text(g, *func),
            },
            expr_texts(g, args),
        ),
        ExprKindV::StructLit { path, fields } => join_v(path, "::"@) + " { "@ + join_v(
            init_texts(g, fields),
            ", "@,
        ) + " }"@,
        k => "/* "@ + debug_expr_kind(k) + " */"@,
    }
}

pub open spec fn expr_texts(g: InfoV, es: Seq<ExprV>) -> Seq<Seq<char>>
    decreases es, 0int,
{
    Seq::new(
        es.len(),
        |i: int|
            if 0 <= i < es.len() {
                expr_text(g, es[i])
            } else {
                arbitrary()
            },
    )
}

pub open spec fn init_texts(g: InfoV, fs: Seq<(Seq<char>, ExprV)>) -> Seq<Seq<char>>
    decreases fs, 0int,
{
    Seq::new(
        fs.len(),
        |i: int|
            if 0 <= i < fs.len() {
                expr_text(g, fs[i].1)
            } else {
                arbitrary()
            },
    )
}

fn dispatches(info: &Info, name: &str) -> (r: bool)
    ensures
        r == is_dispatched(info@.dispatch, name@),
{
    let mut k: usize = 0;
    while k < info.dispatch.len()
        invariant
            k <= info.dispatch.len(),
            forall|j: int| 0 <= j < k ==> (#[trigger] info@.dispatch[j]).name != name@,
        decreases info.dispatch.len() - k,
    {
        if str_eq(&info.dispatch[k].name, name) {
            assert(info@.dispatch[k as int].name == name@);
            return true;
        }
        k = k + 1;
    }
    false
}

fn gen_call(info: &Info, name: &str, args: &Vec<String>) -> (r: String)
    ensures
        r@ == call_text(info@, name@, strs_v(args@)),
{
    if dispatches(info, name) {
        return cat5("_d_", name, "(", &join(args, ", "), ")");
    }
    if args.len() == 1 && contains_str(&info.trait_methods, name) {
        return cat4(&args[0], ".", name, "()");
    }
    let mapped = if str_eq(name, "print") {
        "nova_print".to_owned()
    } else if str_eq(name, "print_int") {
        "nova_print_int".to_owned()
    } else {
        name.to_owned()
    };
    cat4(&mapped, "(", &join(args, ", "), ")")
}

/// An expression in C++.
fn gen_expr(info: &Info, expr: &Expr) -> (r: String)
    ensures
        r@ == expr_text(info@, expr@),
    decreases expr,
{
    let ghost g = expr_v(*expr);
    let ghost k = expr_kind_v(expr.kind);
    match &expr.kind {
        ExprKind::IntLiteral(n) => show_i64(*n),
        ExprKind::FloatLiteral(s) => s.clone(),
        ExprKind::StringLiteral(s) => cat3("\"", s, "\""),
        ExprKind::BoolLiteral(b) => if *b {
            "true".to_owned()
        } else {
            "false".to_owned()
        },
        ExprKind::Ident(name) => name.clone(),
        ExprKind::Field { object, field } => cat3(&gen_expr(info, object), ".", field),
        ExprKind::DotAccess { object, field } => cat3(&gen_expr(info, object), ".", field),
        ExprKind::Binary { op, left, right } => cat7(
            "(",
            &gen_expr(info, left),
            " ",
            op.cpp_op(),
            " ",
            &gen_expr(info, right),
            ")",
        ),
        ExprKind::Call { func, args } => {
            let ghost fg = expr_v(**func);
            let ghost fk = expr_kind_v(func.kind);
            let a = gen_exprs(info, args);
            let name: String = match &func.kind {
                ExprKind::Ident(n) => n.clone(),
                _ => gen_expr(info, func),
            };
            gen_call(info, &name, &a)
        },
        ExprKind::StructLit { path, fields } => cat4(
            &join(path, "::"),
            " { ",
            &join(&gen_inits(info, fields), ", "),
            " }",
        ),
        other => cat3("/* ", &other.debug(), " */"),
    }
}

fn gen_exprs(info: &Info, es: &Vec<Expr>) -> (r: Vec<String>)
    ensures
        strs_v(r@) == expr_texts(info@, exprs_v(es@)),
    decreases es,
{
    let mut out: Vec<String> = Vec::new();
    let mut i: usize = 0;
    while i < es.len()
        invariant
            i <= es.len(),
            out.len() == i,
            forall|k: int| 0 <= k < i ==> (#[trigger] out[k])@ == expr_text(info@, expr_v(es[k])),
        decreases es.len() - i,
    {
        out.push(gen_expr(info, &es[i]));
        i = i + 1;
    }
    assert(strs_v(out@) =~= expr_texts(info@, exprs_v(es@)));
    out
}

fn gen_inits(info: &Info, fs: &Vec<(String, Expr)>) -> (r: Vec<String>)
    ensures
        strs_v(r@) == init_texts(info@, field_inits_v(fs@)),
    decreases fs,
{
    let mut out: Vec<String> = Vec::new();
    let mut i: usize = 0;
    while i < fs.len()
        invariant
            i <= fs.len(),
            out.len() == i,
            forall|k: int|
                0 <= k < i ==> (#[trigger] out[k])@ == expr_text(info@, expr_v(fs[k].1)),
        decreases fs.len() - i,
    {
        out.push(gen_expr(info, &fs[i].1));
        i = i + 1;
    }
    assert(strs_v(out@) =~= init_texts(info@, field_inits_v(fs@)));
    out
}

// --------------------------------------------------------------------- statements

/// A result, wrapped where a trait object is to be returned.
pub open spec fn coerced(ret: Option<Seq<char>>, s: Seq<char>) -> Seq<char> {
    match ret {
        Some(t) => "as_"@ + t + "(new "@ + s + ")"@,
        None => s,
    }
}

/// A statement whose value is returned where it is the last.
pub open spec fn value_line(acc: Seq<char>, ind: Seq<char>, s: Seq<char>, tail: bool) -> Seq<char> {
    if tail {
        line(acc, ind, "return "@ + s + ";"@)
    } else {
        line(acc, ind, s + ";"@)
    }
}

/// `acc` and then a statement.
pub open spec fn stmt_text(
    g: InfoV,
    ret: Option<Seq<char>>,
    e: ExprV,
    tail: bool,
    ind: Seq<char>,
    acc: Seq<char>,
) -> Seq<char>
    decreases e, 0int,
{
    match e.kind {
        ExprKindV::Return(Some(x)) => line(
            acc,
            ind,
            "return "@ + coerced(ret, expr_text(g, *x)) + ";"@,
        ),
        ExprKindV::Return(None) => line(acc, ind, "return;"@),
        ExprKindV::Let { name, ty, value, is_mut } => line(
            acc,
            ind,
            "auto "@ + name + " = "@ + expr_text(g, *value) + ";"@,
        ),
        ExprKindV::If { cond, then_branch, else_branch } => {
            let a1 = line(acc, ind, "if ("@ + expr_text(g, *cond) + ") {"@);
            let a2 = stmts_text(g, ret, then_branch.stmts, 0, tail, deeper(ind), a1);
            let a3 = match else_branch {
                None => a2,
                Some(b) => stmts_text(
                    g,
                    ret,
                    b.stmts,
                    0,
                    tail,
                    deeper(ind),
                    line(a2, ind, "} else {"@),
                ),
            };
            line(a3, ind, "}"@)
        },
        _ => value_line(acc, ind, expr_text(g, e), tail),
    }
}

/// `acc` and then the statements from `i` on; the last is returned if `tail`.
pub open spec fn stmts_text(
    g: InfoV,
    ret: Option<Seq<char>>,
    stmts: Seq<ExprV>,
    i: int,
    tail: bool,
    ind: Seq<char>,
    acc: Seq<char>,
) -> Seq<char>
    decreases stmts, stmts.len() - i,
{
    if 0 <= i < stmts.len() {
        stmts_text(
            g,
            ret,
            stmts,
            i + 1,
            tail,
            ind,
            stmt_text(g, ret, stmts[i], i == stmts.len() - 1 && tail, ind, acc),
        )
    } else {
        acc
    }
}

fn emit_value(out: &mut String, ind: &str, s: &str, tail: bool)
    ensures
        final(out)@ == value_line(old(out)@, ind@, s@, tail),
{
    if tail {
        emitln(out, ind, &cat3("return ", s, ";"));
    } else {
        emitln(out, ind, &cat2(s, ";"));
    }
}

fn emit_stmt(
    info: &Info,
    ret: &Option<String>,
    expr: &Expr,
    tail: bool,
    ind: &str,
    out: &mut String,
)
    ensures
        final(out)@ == stmt_text(info@, opt_str_v(*ret), expr@, tail, ind@, old(out)@),
    decreases expr,
{
    let ghost g = expr_v(*expr);
    let ghost k = expr_kind_v(expr.kind);
    match &expr.kind {
        ExprKind::Return(Some(x)) => {
            let v = gen_expr(info, x);
            let c = match ret {
                Some(t) => cat5("as_", t, "(new ", &v, ")"),
                None => v,
            };
            emitln(out, ind, &cat3("return ", &c, ";"));
        },
        ExprKind::Return(None) => {
            emitln(out, ind, "return;");
        },
        ExprKind::Let { name, ty, value, is_mut } => {
            emitln(out, ind, &cat5("auto ", name, " = ", &gen_expr(info, value), ";"));
        },
        ExprKind::If { cond, then_branch, else_branch } => {
            let ghost tb = block_v(*then_branch);
            emitln(out, ind, &cat3("if (", &gen_expr(info, cond), ") {"));
            let inner = cat2(ind, "  ");
            emit_stmts(info, ret, &then_branch.stmts, tail, &inner, out);
            match else_branch {
                None => {},
                Some(b) => {
                    let ghost eb = block_v(*b);
                    emitln(out, ind, "} else {");
                    emit_stmts(info, ret, &b.stmts, tail, &inner, out);
                },
            }
            emitln(out, ind, "}");
        },
        _ => {
            let v = gen_expr(info, expr);
            emit_value(out, ind, &v, tail);
        },
    }
}

fn emit_stmts(
    info: &Info,
    ret: &Option<String>,
    stmts: &Vec<Expr>,
    tail: bool,
    ind: &str,
    out: &mut String,
)
    ensures
        final(out)@ == stmts_text(
            info@,
            opt_str_v(*ret),
            exprs_v(stmts@),
            0,
            tail,
            ind@,
            old(out)@,
        ),
    decreases stmts,
{
    let mut i: usize = 0;
    while i < stmts.len()
        invariant
            i <= stmts.len(),
            stmts_text(info@, opt_str_v(*ret), exprs_v(stmts@), 0, tail, ind@, old(out)@)
                == stmts_text(
                info@,
                opt_str_v(*ret),
                exprs_v(stmts@),
                i as int,
                tail,
                ind@,
                out@,
            ),
        decreases stmts.len() - i,
    {
        emit_stmt(info, ret, &stmts[i], i == stmts.len() - 1 && tail, ind, out);
        i = i + 1;
    }
}

// -------------------------------------------------------------------- declarations

/// The declarations of the parameters from `from` on.
pub open spec fn param_decls(params: Seq<ParamV>, from: int) -> Seq<Seq<char>> {
    Seq::new(
        if params.len() >= from {
            (params.len() - from) as nat
        } else {
            0
        },
        |k: int| cpp_type(params[from + k].ty) + " "@ + params[from + k].name,
    )
}

/// The names of the parameters from `from` on.
pub open spec fn param_names(params: Seq<ParamV>, from: int) -> Seq<Seq<char>> {
    Seq::new(
        if params.len() >= from {
            (params.len() - from) as nat
        } else {
            0
        },
        |k: int| params[from + k].name,
    )
}

/// A list of further arguments: a comma in front of it where there is one.
pub open spec fn further(parts: Seq<Seq<char>>) -> Seq<char> {
    if parts.len() == 0 {
        Seq::empty()
    } else {
        ", "@ + join_v(parts, ", "@)
    }
}

/// Whether the last statement of a function is returned.
pub open spec fn returns_value(t: TypeV) -> bool {
    !(t is Unit) && cpp_type(t) != "void"@
}

/// The trait that a function returns an object of, as far as its type tells.
pub open spec fn returned_trait(t: TypeV) -> Option<Seq<char>> {
    match t {
        TypeV::Path(p) => {
            let n = last_name(p);
            if n == "Int"@ || n == "Float"@ || n == "Bool"@ || n == "String"@ || n == "Char"@ || n
                == "void"@ {
                None
            } else {
                Some(n)
            }
        },
        _ => None,
    }
}

fn gen_param_decls(params: &Vec<Param>, from: usize) -> (r: Vec<String>)
    ensures
        strs_v(r@) == param_decls(params_v(params@), from as int),
{
    let mut out: Vec<String> = Vec::new();
    let mut i: usize = from;
    while i < params.len()
        invariant
            from <= i,
            i <= params.len() || i == from,
            out.len() == i - from,
            forall|k: int|
                0 <= k < out.len() ==> (#[trigger] out[k])@ == cpp_type(
                    params_v(params@)[from + k].ty,
                ) + " "@ + params_v(params@)[from + k].name,
        decreases params.len() - i,
    {
        let ghost g = param_v(params[i as int]);
        out.push(cat3(&gen_type(&params[i].ty), " ", &params[i].name));
        i = i + 1;
    }
    assert(strs_v(out@) =~= param_decls(params_v(params@), from as int));
    out
}

fn gen_param_names(params: &Vec<Param>, from: usize) -> (r: Vec<String>)
    ensures
        strs_v(r@) == param_names(params_v(params@), from as int),
{
    let mut out: Vec<String> = Vec::new();
    let mut i: usize = from;
    while i < params.len()
        invariant
            from <= i,
            i <= params.len() || i == from,
            out.len() == i - from,
            forall|k: int|
                0 <= k < out.len() ==> (#[trigger] out[k])@ == params_v(params@)[from + k].name,
        decreases params.len() - i,
    {
        let ghost g = param_v(params[i as int]);
        out.push(params[i].name.clone());
        i = i + 1;
    }
    assert(strs_v(out@) =~= param_names(params_v(params@), from as int));
    out
}

fn gen_further(parts: &Vec<String>) -> (r: String)
    ensures
        r@ == further(strs_v(parts@)),
{
    if parts.len() == 0 {
        String::new()
    } else {
        cat2(", ", &join(parts, ", "))
    }
}

fn function_returns_value(t: &Type) -> (r: bool)
    ensures
        r == returns_value(t@),
{
    !matches!(t, Type::Unit) && !str_eq(&gen_type(t), "void")
}

fn trait_returned(t: &Type) -> (r: Option<String>)
    ensures
        opt_str_v(r) == returned_trait(t@),
{
    match t {
        Type::Path(p) => {
            let n = p.last_name();
            if str_eq(&n, "Int") || str_eq(&n, "Float") || str_eq(&n, "Bool") || str_eq(
                &n,
                "String",
            ) || str_eq(&n, "Char") || str_eq(&n, "void") {
                None
            } else {
                Some(n)
            }
        },
        _ => None,
    }
}

/// `acc` and then the fields of a struct from `i` on.
pub open spec fn field_lines(fs: Seq<StructFieldV>, i: int, acc: Seq<char>) -> Seq<char>
    decreases fs.len() - i,
{
    if 0 <= i < fs.len() {
        field_lines(
            fs,
            i + 1,
            line(acc, Seq::empty(), "  "@ + cpp_type(fs[i].ty) + " "@ + fs[i].name + ";"@),
        )
    } else {
        acc
    }
}

pub open spec fn field_decls(fs: Seq<StructFieldV>) -> Seq<Seq<char>> {
    Seq::new(fs.len(), |k: int| cpp_type(fs[k].ty) + " "@ + fs[k].name)
}

pub open spec fn field_setters(fs: Seq<StructFieldV>) -> Seq<Seq<char>> {
    Seq::new(fs.len(), |k: int| fs[k].name + "("@ + fs[k].name + ")"@)
}

/// `acc` and then a struct with a constructor that takes its fields in order.
pub open spec fn struct_text(s: StructV, acc: Seq<char>) -> Seq<char> {
    let none = Seq::<char>::empty();
    let a1 = line(acc, none, "struct "@ + s.name + " {"@);
    let a2 = field_lines(s.fields, 0, a1);
    let a3 = if s.fields.len() > 0 {
        line(
            a2,
            none,
            "  "@ + s.name + "("@ + join_v(field_decls(s.fields), ", "@) + ") : "@ + join_v(
                field_setters(s.fields),
                ", "@,
            ) + " {}"@,
        )
    } else {
        a2
    };
    line(line(a3, none, "};"@), none, Seq::empty())
}

fn emit_struct(s: &Struct, out: &mut String)
    ensures
        final(out)@ == struct_text(s@, old(out)@),
{
    let ghost g = struct_v(*s);
    proof {
        reveal_strlit("");
        assert(""@ =~= Seq::empty());
    }
    emitln(out, "", &cat3("struct ", &s.name, " {"));
    let ghost a1 = out@;
    let mut decls: Vec<String> = Vec::new();
    let mut setters: Vec<String> = Vec::new();
    let mut i: usize = 0;
    while i < s.fields.len()
        invariant
            i <= s.fields.len(),
            ""@ == Seq::<char>::empty(),
            decls.len() == i,
            setters.len() == i,
            field_lines(struct_fields_v(s.fields@), 0, a1) == field_lines(
                struct_fields_v(s.fields@),
                i as int,
                out@,
            ),
            forall|k: int|
                0 <= k < i ==> (#[trigger] decls[k])@ == field_decls(
                    struct_fields_v(s.fields@),
                )[k],
            forall|k: int|
                0 <= k < i ==> (#[trigger] setters[k])@ == field_setters(
                    struct_fields_v(s.fields@),
                )[k],
        decreases s.fields.len() - i,
    {
        let ghost h = struct_field_v(s.fields[i as int]);
        let t = gen_type(&s.fields[i].ty);
        let n = &s.fields[i].name;
        emitln(out, "", &cat5("  ", &t, " ", n, ";"));
        decls.push(cat3(&t, " ", n));
        setters.push(cat4(n, "(", n, ")"));
        i = i + 1;
    }
    assert(strs_v(decls@) =~= field_decls(struct_fields_v(s.fields@)));
    assert(strs_v(setters@) =~= field_setters(struct_fields_v(s.fields@)));
    if s.fields.len() > 0 {
        emitln(
            out,
            "",
            &cat7("  ", &s.name, "(", &join(&decls, ", "), ") : ", &join(&setters, ", "), " {}"),
        );
    }
    emitln(out, "", "};");
    emitln(out, "", "");
}

/// The text of a case of an enum: a struct that holds the payload.
pub open spec fn case_text(c: EnumCaseV) -> Seq<char> {
    match c.payload {
        None => "  struct "@ + c.name + "_t {};"@,
        Some(t) => "  struct "@ + c.name + "_t { "@ + cpp_type(t) + " value; };"@,
    }
}

/// `acc` and then the cases of an enum from `i` on.
pub open spec fn case_lines(cs: Seq<EnumCaseV>, i: int, acc: Seq<char>) -> Seq<char>
    decreases cs.len() - i,
{
    if 0 <= i < cs.len() {
        case_lines(cs, i + 1, line(acc, Seq::empty(), case_text(cs[i])))
    } else {
        acc
    }
}

/// The names of the structs of the cases.
pub open spec fn case_types(cs: Seq<EnumCaseV>) -> Seq<Seq<char>> {
    Seq::new(cs.len(), |k: int| cs[k].name + "_t"@)
}

/// `acc` and then an enum: a struct for each case, and a value of one of them. An enum that
/// is generic has no text of its own.
pub open spec fn enum_text(e: EnumV, acc: Seq<char>) -> Seq<char> {
    let none = Seq::<char>::empty();
    if e.generics.len() > 0 {
        acc
    } else {
        let a1 = line(acc, none, "struct "@ + e.name + " {"@);
        let a2 = case_lines(e.cases, 0, a1);
        let a3 = if e.cases.len() > 0 {
            line(
                a2,
                none,
                "  std::variant<"@ + join_v(case_types(e.cases), ", "@) + "> value;"@,
            )
        } else {
            a2
        };
        line(line(a3, none, "};"@), none, none)
    }
}

fn gen_case(c: &EnumCase) -> (r: String)
    ensures
        r@ == case_text(c@),
{
    let ghost g = enum_case_v(*c);
    match &c.payload {
        None => cat3("  struct ", &c.name, "_t {};"),
        Some(t) => cat5("  struct ", &c.name, "_t { ", &gen_type(t), " value; };"),
    }
}

fn emit_enum(e: &Enum, out: &mut String)
    ensures
        final(out)@ == enum_text(e@, old(out)@),
{
    let ghost g = enum_v(*e);
    proof {
        reveal_strlit("");
        assert(""@ =~= Seq::empty());
    }
    if e.generics.len() > 0 {
        return;
    }
    emitln(out, "", &cat3("struct ", &e.name, " {"));
    let ghost a1 = out@;
    let mut types: Vec<String> = Vec::new();
    let mut i: usize = 0;
    while i < e.cases.len()
        invariant
            i <= e.cases.len(),
            ""@ == Seq::<char>::empty(),
            types.len() == i,
            case_lines(enum_cases_v(e.cases@), 0, a1) == case_lines(
                enum_cases_v(e.cases@),
                i as int,
                out@,
            ),
            forall|k: int|
                0 <= k < i ==> (#[trigger] types[k])@ == case_types(enum_cases_v(e.cases@))[k],
        decreases e.cases.len() - i,
    {
        let ghost h = enum_case_v(e.cases[i as int]);
        emitln(out, "", &gen_case(&e.cases[i]));
        types.push(cat2(&e.cases[i].name, "_t"));
        i = i + 1;
    }
    assert(strs_v(types@) =~= case_types(enum_cases_v(e.cases@)));
    if e.cases.len() > 0 {
        emitln(out, "", &cat3("  std::variant<", &join(&types, ", "), "> value;"));
    }
    emitln(out, "", "};");
    emitln(out, "", "");
}

/// `acc` and then the entries of a vtable from method `i` on.
pub open spec fn vtable_lines(ms: Seq<FunctionV>, i: int, acc: Seq<char>) -> Seq<char>
    decreases ms.len() - i,
{
    if 0 <= i < ms.len() {
        vtable_lines(
            ms,
            i + 1,
            line(
                acc,
                Seq::empty(),
                "  "@ + cpp_type(ms[i].return_type) + " (*"@ + ms[i].name + ")(void*"@ + further(
                    param_decls(ms[i].params, 1),
                ) + ");"@,
            ),
        )
    } else {
        acc
    }
}

/// `acc` and then the calls through a vtable from method `i` on.
pub open spec fn caller_lines(ms: Seq<FunctionV>, i: int, acc: Seq<char>) -> Seq<char>
    decreases ms.len() - i,
{
    if 0 <= i < ms.len() {
        caller_lines(
            ms,
            i + 1,
            line(
                acc,
                Seq::empty(),
                "  "@ + cpp_type(ms[i].return_type) + " "@ + ms[i].name + "("@ + join_v(
                    param_decls(ms[i].params, 1),
                    ", "@,
                ) + ") { return _vt->"@ + ms[i].name + "(_ptr"@ + further(
                    param_names(ms[i].params, 1),
                ) + "); }"@,
            ),
        )
    } else {
        acc
    }
}

/// `acc` and then a trait: its vtable and its fat pointer.
pub open spec fn trait_text(t: TraitDefV, acc: Seq<char>) -> Seq<char> {
    let none = Seq::<char>::empty();
    let a1 = line(acc, none, "// ─── trait "@ + t.name + " ───"@);
    let a2 = line(a1, none, "struct "@ + t.name + "_vtable {"@);
    let a3 = line(a2, none, "  uint32_t type_id;"@);
    let a4 = line(vtable_lines(t.methods, 0, a3), none, "};"@);
    let a5 = line(a4, none, "struct "@ + t.name + " {"@);
    let a6 = line(a5, none, "  void* _ptr;"@);
    let a7 = line(a6, none, "  "@ + t.name + "_vtable* _vt;"@);
    let a8 = line(caller_lines(t.methods, 0, a7), none, "};"@);
    line(a8, none, none)
}

fn emit_vtable_lines(ms: &Vec<Function>, out: &mut String)
    ensures
        final(out)@ == vtable_lines(functions_v(ms@), 0, old(out)@),
{
    proof {
        reveal_strlit("");
        assert(""@ =~= Seq::empty());
    }
    let mut i: usize = 0;
    while i < ms.len()
        invariant
            i <= ms.len(),
            ""@ == Seq::<char>::empty(),
            vtable_lines(functions_v(ms@), 0, old(out)@) == vtable_lines(
                functions_v(ms@),
                i as int,
                out@,
            ),
        decreases ms.len() - i,
    {
        let ghost g = function_v(ms[i as int]);
        let m = &ms[i];
        let params = gen_param_decls(&m.params, 1);
        emitln(
            out,
            "",
            &cat7(
                "  ",
                &gen_type(&m.return_type),
                " (*",
                &m.name,
                ")(void*",
                &gen_further(&params),
                ");",
            ),
        );
        i = i + 1;
    }
}

fn emit_caller_lines(ms: &Vec<Function>, out: &mut String)
    ensures
        final(out)@ == caller_lines(functions_v(ms@), 0, old(out)@),
{
    proof {
        reveal_strlit("");
        assert(""@ =~= Seq::empty());
    }
    let mut i: usize = 0;
    while i < ms.len()
        invariant
            i <= ms.len(),
            ""@ == Seq::<char>::empty(),
            caller_lines(functions_v(ms@), 0, old(out)@) == caller_lines(
                functions_v(ms@),
                i as int,
                out@,
            ),
        decreases ms.len() - i,
    {
        let ghost g = function_v(ms[i as int]);
        let m = &ms[i];
        let decls = gen_param_decls(&m.params, 1);
        let names = gen_param_names(&m.params, 1);
        let mut s = cat7(
            "  ",
            &gen_type(&m.return_type),
            " ",
            &m.name,
            "(",
            &join(&decls, ", "),
            ") { return _vt->",
        );
        s.append(&m.name);
        s.append("(_ptr");
        s.append(&gen_further(&names));
        s.append("); }");
        emitln(out, "", &s);
        i = i + 1;
    }
}

fn emit_trait(t: &TraitDef, out: &mut String)
    ensures
        final(out)@ == trait_text(t@, old(out)@),
{
    let ghost g = trait_def_v(*t);
    proof {
        reveal_strlit("");
        assert(""@ =~= Seq::empty());
    }
    emitln(out, "", &cat3("// ─── trait ", &t.name, " ───"));
    emitln(out, "", &cat3("struct ", &t.name, "_vtable {"));
    emitln(out, "", "  uint32_t type_id;");
    emit_vtable_lines(&t.methods, out);
    emitln(out, "", "};");
    emitln(out, "", &cat3("struct ", &t.name, " {"));
    emitln(out, "", "  void* _ptr;");
    emitln(out, "", &cat3("  ", &t.name, "_vtable* _vt;"));
    emit_caller_lines(&t.methods, out);
    emitln(out, "", "};");
    emitln(out, "", "");
}

// ------------------------------------------------------------------------ type ids

/// The hash of the bytes from `i` on, `h` being that of those before.
pub open spec fn byte_hash(bytes: Seq<u8>, i: int, h: int) -> int
    decreases bytes.len() - i,
{
    if 0 <= i < bytes.len() {
        byte_hash(bytes, i + 1, (h * 31 + bytes[i]) % 4294967296)
    } else {
        h
    }
}

/// The run-time id of a type: its hash in 16 bits, never zero.
pub open spec fn type_id(name: Seq<char>) -> int {
    byte_hash(vstd::utf8::encode_utf8(name), 0, 1) % 65535 + 1
}

/// The run-time id of a type.
pub fn type_id_of(name: &str) -> (r: u32)
    ensures
        r == type_id(name@),
        1 <= r <= 65535,
{
    let bytes = name.as_bytes();
    let mut h: u64 = 1;
    let mut i: usize = 0;
    while i < bytes.len()
        invariant
            i <= bytes.len(),
            h < 4294967296,
            bytes@ == vstd::utf8::encode_utf8(name@),
            byte_hash(bytes@, 0, 1) == byte_hash(bytes@, i as int, h as int),
        decreases bytes.len() - i,
    {
        h = (h * 31 + bytes[i] as u64) % 4294967296;
        i = i + 1;
    }
    (h % 65535) as u32 + 1
}

/// Type ids fit 16 bits and are not zero.
pub proof fn law_type_id_range(name: Seq<char>)
    ensures
        1 <= type_id(name) <= 65535,
{
}

// -------------------------------------------------------------------- impl blocks

/// `acc` and then `, T name` for each parameter from `i` on.
pub open spec fn trampoline_decls(params: Seq<ParamV>, i: int, acc: Seq<char>) -> Seq<char>
    decreases params.len() - i,
{
    if 0 <= i < params.len() {
        trampoline_decls(
            params,
            i + 1,
            acc + (", "@ + cpp_type(params[i].ty) + " "@ + params[i].name),
        )
    } else {
        acc
    }
}

/// `acc` and then `, name` for each parameter from `i` on.
pub open spec fn trampoline_args(params: Seq<ParamV>, i: int, acc: Seq<char>) -> Seq<char>
    decreases params.len() - i,
{
    if 0 <= i < params.len() {
        trampoline_args(params, i + 1, acc + (", "@ + params[i].name))
    } else {
        acc
    }
}

/// `acc` and then a method of an impl block and its trampoline.
pub open spec fn method_text(g: InfoV, target: Seq<char>, m: FunctionV, acc: Seq<char>) -> Seq<char> {
    let none = Seq::<char>::empty();
    let ret = cpp_type(m.return_type);
    let a1 = acc + ("inline "@ + ret + " "@ + target + "__"@ + m.name + "("@ + join_v(
        param_decls(m.params, 0),
        ", "@,
    ) + ") {"@);
    let a2 = stmts_text(
        g,
        None,
        m.body.stmts,
        0,
        returns_value(m.return_type),
        deeper(none),
        a1,
    );
    let a3 = line(a2, none, "}"@);
    let a4 = a3 + ("inline "@ + ret + " "@ + target + "__"@ + m.name + "_vt(void* self"@);
    let a5 = trampoline_decls(m.params, 1, a4);
    let a6 = a5 + (") { return "@ + target + "__"@ + m.name + "(*("@ + target + "*)self"@);
    line(trampoline_args(m.params, 1, a6), none, "); }"@)
}

/// `acc` and then the methods from `i` on.
pub open spec fn methods_text(
    g: InfoV,
    target: Seq<char>,
    ms: Seq<FunctionV>,
    i: int,
    acc: Seq<char>,
) -> Seq<char>
    decreases ms.len() - i,
{
    if 0 <= i < ms.len() {
        methods_text(g, target, ms, i + 1, method_text(g, target, ms[i], acc))
    } else {
        acc
    }
}

/// `acc` and then the entries of a vtable value from method `i` on.
pub open spec fn entry_lines(
    tr: Seq<char>,
    target: Seq<char>,
    ms: Seq<FunctionV>,
    i: int,
    acc: Seq<char>,
) -> Seq<char>
    decreases ms.len() - i,
{
    if 0 <= i < ms.len() {
        entry_lines(
            tr,
            target,
            ms,
            i + 1,
            line(
                acc,
                Seq::empty(),
                "  (decltype("@ + tr + "_vtable::"@ + ms[i].name + "))&"@ + target + "__"@
                    + ms[i].name + "_vt,"@,
            ),
        )
    } else {
        acc
    }
}

/// `acc` and then a free function for each method from `i` on.
pub open spec fn wrapper_texts(
    target: Seq<char>,
    ms: Seq<FunctionV>,
    i: int,
    acc: Seq<char>,
) -> Seq<
    char,
>
    decreases ms.len() - i,
{
    if 0 <= i < ms.len() {
        wrapper_texts(
            target,
            ms,
            i + 1,
            acc + ("inline "@ + cpp_type(ms[i].return_type) + " "@ + ms[i].name + "("@ + join_v(
                param_decls(ms[i].params, 0),
                ", "@,
            ) + ") { return "@ + target + "__"@ + ms[i].name + "("@ + join_v(
                param_names(ms[i].params, 0),
                ", "@,
            ) + "); }"@),
        )
    } else {
        acc
    }
}

/// `acc` and then an impl block.
pub open spec fn impl_text(g: InfoV, imp: ImplBlockV, acc: Seq<char>) -> Seq<char> {
    let none = Seq::<char>::empty();
    let target = impl_target(imp.target_type);
    let tr = imp.trait_name;
    let id = nat_text(type_id(target) as nat);
    let a1 = line(acc, none, "// impl "@ + tr + " for "@ + target + " (id="@ + id + ")"@);
    let a2 = methods_text(g, target, imp.methods, 0, a1);
    let a3 = line(
        a2,
        none,
        "inline "@ + tr + "_vtable __vt_"@ + tr + "_"@ + target + " = {"@,
    );
    let a4 = line(a3, none, "  "@ + id + ","@);
    let a5 = line(entry_lines(tr, target, imp.methods, 0, a4), none, "};"@);
    let a6 = line(
        a5,
        none,
        "inline "@ + tr + " as_"@ + tr + "("@ + target + "* p) { return { p, &__vt_"@ + tr + "_"@
            + target + " }; }"@,
    );
    line(wrapper_texts(target, imp.methods, 0, a6), none, none)
}

fn emit_method(info: &Info, target: &str, m: &Function, out: &mut String)
    ensures
        final(out)@ == method_text(info@, target@, m@, old(out)@),
{
    let ghost g = function_v(*m);
    let ghost bg = block_v(m.body);
    proof {
        reveal_strlit("");
        reveal_strlit("  ");
        assert(""@ =~= Seq::empty());
        assert("  "@ =~= deeper(Seq::empty()));
    }
    let ret = gen_type(&m.return_type);
    let mut head = cat6("inline ", &ret, " ", target, "__", &m.name);
    head.append("(");
    head.append(&join(&gen_param_decls(&m.params, 0), ", "));
    head.append(") {");
    out.append(&head);
    let no_trait: Option<String> = None;
    emit_stmts(
        info,
        &no_trait,
        &m.body.stmts,
        function_returns_value(&m.return_type),
        "  ",
        out,
    );
    emitln(out, "", "}");
    out.append(&cat7("inline ", &ret, " ", target, "__", &m.name, "_vt(void* self"));
    let ghost a4 = out@;
    let mut i: usize = 1;
    while i < m.params.len()
        invariant
            1 <= i,
            trampoline_decls(params_v(m.params@), 1, a4) == trampoline_decls(
                params_v(m.params@),
                i as int,
                out@,
            ),
        decreases m.params.len() - i,
    {
        let ghost h = param_v(m.params[i as int]);
        out.append(&cat4(", ", &gen_type(&m.params[i].ty), " ", &m.params[i].name));
        i = i + 1;
    }
    out.append(&cat7(") { return ", target, "__", &m.name, "(*(", target, "*)self"));
    let ghost a6 = out@;
    let mut k: usize = 1;
    while k < m.params.len()
        invariant
            1 <= k,
            trampoline_args(params_v(m.params@), 1, a6) == trampoline_args(
                params_v(m.params@),
                k as int,
                out@,
            ),
        decreases m.params.len() - k,
    {
        let ghost h = param_v(m.params[k as int]);
        out.append(&cat2(", ", &m.params[k].name));
        k = k + 1;
    }
    emitln(out, "", "); }");
}

fn emit_entries(tr: &str, target: &str, ms: &Vec<Function>, out: &mut String)
    ensures
        final(out)@ == entry_lines(tr@, target@, functions_v(ms@), 0, old(out)@),
{
    proof {
        reveal_strlit("");
        assert(""@ =~= Seq::empty());
    }
    let mut i: usize = 0;
    while i < ms.len()
        invariant
            i <= ms.len(),
            ""@ == Seq::<char>::empty(),
            entry_lines(tr@, target@, functions_v(ms@), 0, old(out)@) == entry_lines(
                tr@,
                target@,
                functions_v(ms@),
                i as int,
                out@,
            ),
        decreases ms.len() - i,
    {
        let ghost g = function_v(ms[i as int]);
        let n = &ms[i].name;
        let mut s = cat7("  (decltype(", tr, "_vtable::", n, "))&", target, "__");
        s.append(n);
        s.append("_vt,");
        emitln(out, "", &s);
        i = i + 1;
    }
}

fn emit_wrappers(target: &str, ms: &Vec<Function>, out: &mut String)
    ensures
        final(out)@ == wrapper_texts(target@, functions_v(ms@), 0, old(out)@),
{
    let mut i: usize = 0;
    while i < ms.len()
        invariant
            i <= ms.len(),
            wrapper_texts(target@, functions_v(ms@), 0, old(out)@) == wrapper_texts(
                target@,
                functions_v(ms@),
                i as int,
                out@,
            ),
        decreases ms.len() - i,
    {
        let ghost g = function_v(ms[i as int]);
        let m = &ms[i];
        let mut s = cat7(
            "inline ",
            &gen_type(&m.return_type),
            " ",
            &m.name,
            "(",
            &join(&gen_param_decls(&m.params, 0), ", "),
            ") { return ",
        );
        s.append(target);
        s.append("__");
        s.append(&m.name);
        s.append("(");
        s.append(&join(&gen_param_names(&m.params, 0), ", "));
        s.append("); }");
        out.append(&s);
        i = i + 1;
    }
}

fn emit_impl(info: &Info, imp: &ImplBlock, out: &mut String)
    ensures
        final(out)@ == impl_text(info@, imp@, old(out)@),
{
    let ghost g = impl_block_v(*imp);
    proof {
        reveal_strlit("");
        assert(""@ =~= Seq::empty());
    }
    let target = target_name(&imp.target_type);
    let tr = &imp.trait_name;
    let id = show_u64(type_id_of(&target) as u64);
    emitln(out, "", &cat7("// impl ", tr, " for ", &target, " (id=", &id, ")"));
    let ghost a1 = out@;
    let mut i: usize = 0;
    while i < imp.methods.len()
        invariant
            i <= imp.methods.len(),
            methods_text(info@, target@, functions_v(imp.methods@), 0, a1) == methods_text(
                info@,
                target@,
                functions_v(imp.methods@),
                i as int,
                out@,
            ),
        decreases imp.methods.len() - i,
    {
        emit_method(info, &target, &imp.methods[i], out);
        i = i + 1;
    }
    emitln(out, "", &cat7("inline ", tr, "_vtable __vt_", tr, "_", &target, " = {"));
    emitln(out, "", &cat3("  ", &id, ","));
    emit_entries(tr, &target, &imp.methods, out);
    emitln(out, "", "};");
    let mut s = cat7("inline ", tr, " as_", tr, "(", &target, "* p) { return { p, &__vt_");
    s.append(tr);
    s.append("_");
    s.append(&target);
    s.append(" }; }");
    emitln(out, "", &s);
    emit_wrappers(&target, &imp.methods, out);
    emitln(out, "", "");
}

// ----------------------------------------------------------------------- functions

/// `acc` and then a function.
pub open spec fn function_text(g: InfoV, f: FunctionV, acc: Seq<char>) -> Seq<char> {
    let none = Seq::<char>::empty();
    let a1 = line(
        acc,
        none,
        cpp_type(f.return_type) + " "@ + f.name + "("@ + join_v(param_decls(f.params, 0), ", "@)
            + ") {"@,
    );
    let a2 = stmts_text(
        g,
        returned_trait(f.return_type),
        f.body.stmts,
        0,
        returns_value(f.return_type),
        deeper(none),
        a1,
    );
    line(line(a2, none, "}"@), none, none)
}

fn emit_function(info: &Info, f: &Function, out: &mut String)
    ensures
        final(out)@ == function_text(info@, f@, old(out)@),
{
    let ghost g = function_v(*f);
    let ghost bg = block_v(f.body);
    proof {
        reveal_strlit("");
        reveal_strlit("  ");
        assert(""@ =~= Seq::empty());
        assert("  "@ =~= deeper(Seq::empty()));
    }
    let ret = trait_returned(&f.return_type);
    emitln(
        out,
        "",
        &cat6(
            &gen_type(&f.return_type),
            " ",
            &f.name,
            "(",
            &join(&gen_param_decls(&f.params, 0), ", "),
            ") {",
        ),
    );
    emit_stmts(info, &ret, &f.body.stmts, function_returns_value(&f.return_type), "  ", out);
    emitln(out, "", "}");
    emitln(out, "", "");
}

// ------------------------------------------------------------------------ dispatch

/// The C++ type of each parameter of a dispatched function: the trait object at a
/// dispatch position, and elsewhere what the first overload has.
pub open spec fn dispatch_params(d: DispatchInfoV) -> Seq<Seq<char>> {
    Seq::new(
        d.positions.len(),
        |i: int|
            match d.positions[i] {
                Some(t) => t,
                None => if d.overloads.len() > 0 && i < d.overloads[0].params.len() {
                    cpp_type(d.overloads[0].params[i])
                } else {
                    "auto"@
                },
            },
    )
}

/// The result type of a dispatched function.
pub open spec fn dispatch_ret(d: DispatchInfoV) -> Seq<char> {
    if d.overloads.len() > 0 {
        cpp_type(d.overloads[0].ret)
    } else {
        "auto"@
    }
}

/// The C++ types of a list.
pub open spec fn type_texts(ts: Seq<TypeV>) -> Seq<Seq<char>> {
    Seq::new(ts.len(), |k: int| cpp_type(ts[k]))
}

/// `acc` and then the declarations of the overloads from `i` on.
pub open spec fn overload_lines(
    name: Seq<char>,
    ovs: Seq<OverloadV>,
    i: int,
    acc: Seq<char>,
) -> Seq<
    char,
>
    decreases ovs.len() - i,
{
    if 0 <= i < ovs.len() {
        overload_lines(
            name,
            ovs,
            i + 1,
            line(
                acc,
                Seq::empty(),
                cpp_type(ovs[i].ret) + " "@ + name + "("@ + join_v(
                    type_texts(ovs[i].params),
                    ", "@,
                ) + ");"@,
            ),
        )
    } else {
        acc
    }
}

/// `acc` and then the declarations of a dispatched function: its overloads, the type
/// of a pointer to it, its dynamic entry, and a template for calls whose types are known.
pub open spec fn dispatch_decl_text(d: DispatchInfoV, acc: Seq<char>) -> Seq<char> {
    let none = Seq::<char>::empty();
    let ret = dispatch_ret(d);
    let params = join_v(dispatch_params(d), ", "@);
    let a1 = overload_lines(d.name, d.overloads, 0, acc);
    let a2 = line(a1, none, "using _fn_"@ + d.name + " = "@ + ret + "(*)("@ + params + ");"@);
    let a3 = line(a2, none, ret + " _d_"@ + d.name + "("@ + params + ");"@);
    line(
        a3,
        none,
        "template<typename... Ts> auto _d_"@ + d.name + "(Ts&&... xs) { return "@ + d.name
            + "(std::forward<Ts>(xs)...); }"@,
    )
}

/// `acc` and then the declarations of the dispatched functions from `i` on.
pub open spec fn dispatch_decl_texts(ds: Seq<DispatchInfoV>, i: int, acc: Seq<char>) -> Seq<char>
    decreases ds.len() - i,
{
    if 0 <= i < ds.len() {
        dispatch_decl_texts(ds, i + 1, dispatch_decl_text(ds[i], acc))
    } else {
        acc
    }
}

/// `acc` and then the declarations of all dispatched functions, if there are any.
pub open spec fn dispatch_decls(ds: Seq<DispatchInfoV>, acc: Seq<char>) -> Seq<char> {
    let none = Seq::<char>::empty();
    if ds.len() == 0 {
        acc
    } else {
        line(
            dispatch_decl_texts(
                ds,
                0,
                line(acc, none, "// ─── dynamic dispatch declarations ───"@),
            ),
            none,
            none,
        )
    }
}

fn gen_dispatch_params(d: &DispatchInfo) -> (r: Vec<String>)
    ensures
        strs_v(r@) == dispatch_params(d@),
{
    let mut out: Vec<String> = Vec::new();
    let mut i: usize = 0;
    while i < d.positions.len()
        invariant
            i <= d.positions.len(),
            out.len() == i,
            forall|k: int| 0 <= k < i ==> (#[trigger] out[k])@ == dispatch_params(d@)[k],
        decreases d.positions.len() - i,
    {
        let t: String = match &d.positions[i] {
            Some(t) => t.clone(),
            None => if d.overloads.len() > 0 && i < d.overloads[0].params.len() {
                gen_type(&d.overloads[0].params[i])
            } else {
                "auto".to_owned()
            },
        };
        out.push(t);
        i = i + 1;
    }
    assert(strs_v(out@) =~= dispatch_params(d@));
    out
}

fn gen_dispatch_ret(d: &DispatchInfo) -> (r: String)
    ensures
        r@ == dispatch_ret(d@),
{
    if d.overloads.len() > 0 {
        gen_type(&d.overloads[0].ret)
    } else {
        "auto".to_owned()
    }
}

fn gen_type_texts(ts: &Vec<Type>) -> (r: Vec<String>)
    ensures
        strs_v(r@) == type_texts(types_v(ts@)),
{
    let mut out: Vec<String> = Vec::new();
    let mut i: usize = 0;
    while i < ts.len()
        invariant
            i <= ts.len(),
            out.len() == i,
            forall|k: int| 0 <= k < i ==> (#[trigger] out[k])@ == type_texts(types_v(ts@))[k],
        decreases ts.len() - i,
    {
        out.push(gen_type(&ts[i]));
        i = i + 1;
    }
    assert(strs_v(out@) =~= type_texts(types_v(ts@)));
    out
}

fn emit_overload_lines(name: &str, ovs: &Vec<Overload>, out: &mut String)
    ensures
        final(out)@ == overload_lines(name@, overloads_v(ovs@), 0, old(out)@),
{
    proof {
        reveal_strlit("");
        assert(""@ =~= Seq::empty());
    }
    let mut i: usize = 0;
    while i < ovs.len()
        invariant
            i <= ovs.len(),
            ""@ == Seq::<char>::empty(),
            overload_lines(name@, overloads_v(ovs@), 0, old(out)@) == overload_lines(
                name@,
                overloads_v(ovs@),
                i as int,
                out@,
            ),
        decreases ovs.len() - i,
    {
        emitln(
            out,
            "",
            &cat6(
                &gen_type(&ovs[i].ret),
                " ",
                name,
                "(",
                &join(&gen_type_texts(&ovs[i].params), ", "),
                ");",
            ),
        );
        i = i + 1;
    }
}

fn emit_dispatch_decl(d: &DispatchInfo, out: &mut String)
    ensures
        final(out)@ == dispatch_decl_text(d@, old(out)@),
{
    proof {
        reveal_strlit("");
        assert(""@ =~= Seq::empty());
    }
    let ret = gen_dispatch_ret(d);
    let params = join(&gen_dispatch_params(d), ", ");
    emit_overload_lines(&d.name, &d.overloads, out);
    emitln(out, "", &cat7("using _fn_", &d.name, " = ", &ret, "(*)(", &params, ");"));
    emitln(out, "", &cat6(&ret, " _d_", &d.name, "(", &params, ");"));
    emitln(
        out,
        "",
        &cat5(
            "template<typename... Ts> auto _d_",
            &d.name,
            "(Ts&&... xs) { return ",
            &d.name,
            "(std::forward<Ts>(xs)...); }",
        ),
    );
}

fn emit_dispatch_decls(info: &Info, out: &mut String)
    ensures
        final(out)@ == dispatch_decls(info@.dispatch, old(out)@),
{
    proof {
        reveal_strlit("");
        assert(""@ =~= Seq::empty());
    }
    if info.dispatch.len() == 0 {
        return;
    }
    emitln(out, "", "// ─── dynamic dispatch declarations ───");
    let ghost a1 = out@;
    let mut i: usize = 0;
    while i < info.dispatch.len()
        invariant
            i <= info.dispatch.len(),
            dispatch_decl_texts(info@.dispatch, 0, a1) == dispatch_decl_texts(
                info@.dispatch,
                i as int,
                out@,
            ),
        decreases info.dispatch.len() - i,
    {
        emit_dispatch_decl(&info.dispatch[i], out);
        i = i + 1;
    }
    emitln(out, "", "");
}

/// A dispatch position: its index among the parameters and its trait.
pub open spec fn dispatch_indices(ps: Seq<Option<Seq<char>>>, i: int, acc: Seq<int>) -> Seq<int>
    decreases ps.len() - i,
{
    if 0 <= i < ps.len() {
        dispatch_indices(
            ps,
            i + 1,
            if ps[i] is Some {
                acc.push(i)
            } else {
                acc
            },
        )
    } else {
        acc
    }
}

/// How well an overload fits types at the dispatch positions from position `i` on, of
/// which `j` were before: the number of exact fits, or nothing where it does not fit.
pub open spec fn fit(
    d: DispatchInfoV,
    ov: OverloadV,
    combo: Seq<Seq<char>>,
    i: int,
    j: int,
    score: int,
) -> Option<int>
    decreases d.positions.len() - i,
{
    if 0 <= i < d.positions.len() {
        match d.positions[i] {
            None => fit(d, ov, combo, i + 1, j, score),
            Some(tr) => match param_name(ov, i) {
                Some(n) => if 0 <= j < combo.len() && n == combo[j] {
                    fit(d, ov, combo, i + 1, j + 1, score + 1)
                } else if n == tr {
                    fit(d, ov, combo, i + 1, j + 1, score)
                } else {
                    None
                },
                None => None,
            },
        }
    } else {
        Some(score)
    }
}

/// The overload of those from `k` on that fits best, the first where some fit equally
/// well; `best` is the one before and how well it fits.
pub open spec fn best_overload(
    d: DispatchInfoV,
    combo: Seq<Seq<char>>,
    k: int,
    best: Option<(int, int)>,
) -> Option<int>
    decreases d.overloads.len() - k,
{
    if 0 <= k < d.overloads.len() {
        match fit(d, d.overloads[k], combo, 0, 0, 0) {
            Some(s) => if best matches Some((_, bs)) && s <= bs {
                best_overload(d, combo, k + 1, best)
            } else {
                best_overload(d, combo, k + 1, Some((k, s)))
            },
            None => best_overload(d, combo, k + 1, best),
        }
    } else {
        match best {
            Some((b, _)) => Some(b),
            None => None,
        }
    }
}

fn fit_of(d: &DispatchInfo, ov: &Overload, combo: &Vec<String>) -> (r: Option<usize>)
    ensures
        match r {
            Some(s) => fit(d@, ov@, strs_v(combo@), 0, 0, 0) == Some(s as int),
            None => fit(d@, ov@, strs_v(combo@), 0, 0, 0) is None,
        },
{
    let mut i: usize = 0;
    let mut j: usize = 0;
    let mut score: usize = 0;
    while i < d.positions.len()
        invariant
            i <= d.positions.len(),
            j <= i,
            score <= i,
            fit(d@, ov@, strs_v(combo@), 0, 0, 0) == fit(
                d@,
                ov@,
                strs_v(combo@),
                i as int,
                j as int,
                score as int,
            ),
        decreases d.positions.len() - i,
    {
        match &d.positions[i] {
            None => {},
            Some(tr) => match ov.param_name(i) {
                Some(n) => {
                    if j < combo.len() && str_eq(&n, &combo[j]) {
                        score = score + 1;
                    } else if !str_eq(&n, tr) {
                        return None;
                    }
                    j = j + 1;
                },
                None => {
                    return None;
                },
            },
        }
        i = i + 1;
    }
    Some(score)
}

/// The overload that fits best, the first where some fit equally well.
pub fn select_overload(d: &DispatchInfo, combo: &Vec<String>) -> (r: Option<usize>)
    ensures
        match r {
            Some(k) => best_overload(d@, strs_v(combo@), 0, None) == Some(k as int) && k
                < d.overloads.len(),
            None => best_overload(d@, strs_v(combo@), 0, None) is None,
        },
{
    let mut best: Option<(usize, usize)> = None;
    let mut k: usize = 0;
    while k < d.overloads.len()
        invariant
            k <= d.overloads.len(),
            best matches Some((b, _)) ==> b < k,
            best_overload(d@, strs_v(combo@), 0, None) == best_overload(
                d@,
                strs_v(combo@),
                k as int,
                match best {
                    Some((b, s)) => Some((b as int, s as int)),
                    None => None,
                },
            ),
        decreases d.overloads.len() - k,
    {
        match fit_of(d, &d.overloads[k], combo) {
            Some(s) => {
                let better: bool = match best {
                    Some((_, bs)) => s > bs,
                    None => true,
                };
                if better {
                    best = Some((k, s));
                }
            },
            None => {},
        }
        k = k + 1;
    }
    match best {
        Some((b, _)) => Some(b),
        None => None,
    }
}

proof fn lemma_best_overload(
    d: DispatchInfoV,
    combo: Seq<Seq<char>>,
    k: int,
    best: Option<(int, int)>,
)
    requires
        0 <= k <= d.overloads.len(),
        best matches Some((b, s)) ==> 0 <= b < k && fit(d, d.overloads[b], combo, 0, 0, 0) == Some(
            s,
        ) && forall|m: int|
            #![trigger d.overloads[m]]
            0 <= m < k ==> (fit(d, d.overloads[m], combo, 0, 0, 0) matches Some(t) ==> t < s || (t
                == s && b <= m)),
        best is None ==> forall|m: int|
            #![trigger d.overloads[m]]
            0 <= m < k ==> fit(d, d.overloads[m], combo, 0, 0, 0) is None,
    ensures
        match best_overload(d, combo, k, best) {
            Some(b) => 0 <= b < d.overloads.len() && (fit(
                d,
                d.overloads[b],
                combo,
                0,
                0,
                0,
            ) matches Some(s) && forall|m: int|
                #![trigger d.overloads[m]]
                0 <= m < d.overloads.len() ==> (fit(
                    d,
                    d.overloads[m],
                    combo,
                    0,
                    0,
                    0,
                ) matches Some(t) ==> t < s || (t == s && b <= m))),
            None => forall|m: int|
                #![trigger d.overloads[m]]
                0 <= m < d.overloads.len() ==> fit(d, d.overloads[m], combo, 0, 0, 0) is None,
        },
    decreases d.overloads.len() - k,
{
    if k < d.overloads.len() {
        match fit(d, d.overloads[k], combo, 0, 0, 0) {
            Some(s) => {
                if best matches Some((_, bs)) && s <= bs {
                    lemma_best_overload(d, combo, k + 1, best);
                } else {
                    lemma_best_overload(d, combo, k + 1, Some((k, s)));
                }
            },
            None => {
                lemma_best_overload(d, combo, k + 1, best);
            },
        }
    }
}

/// The selected overload fits at least as well as every other, and better than every
/// one declared before it; none is selected only where none fits.
pub proof fn law_best_overload(d: DispatchInfoV, combo: Seq<Seq<char>>)
    ensures
        match best_overload(d, combo, 0, None) {
            Some(b) => 0 <= b < d.overloads.len() && (fit(
                d,
                d.overloads[b],
                combo,
                0,
                0,
                0,
            ) matches Some(s) && forall|m: int|
                #![trigger d.overloads[m]]
                0 <= m < d.overloads.len() ==> (fit(
                    d,
                    d.overloads[m],
                    combo,
                    0,
                    0,
                    0,
                ) matches Some(t) ==> t < s || (t == s && b <= m))),
            None => forall|m: int|
                #![trigger d.overloads[m]]
                0 <= m < d.overloads.len() ==> fit(d, d.overloads[m], combo, 0, 0, 0) is None,
        },
{
    lemma_best_overload(d, combo, 0, None);
}

/// The models of a list of combinations.
pub open spec fn combos_v(s: Seq<Vec<String>>) -> Seq<Seq<Seq<char>>> {
    Seq::new(s.len(), |i: int| strs_v(s[i]@))
}

/// `acc` and then the combination with each item of the pool from `i` on.
pub open spec fn extend_one(
    combo: Seq<Seq<char>>,
    pool: Seq<Seq<char>>,
    i: int,
    acc: Seq<Seq<Seq<char>>>,
) -> Seq<Seq<Seq<char>>>
    decreases pool.len() - i,
{
    if 0 <= i < pool.len() {
        extend_one(combo, pool, i + 1, acc.push(combo.push(pool[i])))
    } else {
        acc
    }
}

/// `acc` and then each combination from `i` on with each item of the pool.
pub open spec fn extend_all(
    combos: Seq<Seq<Seq<char>>>,
    pool: Seq<Seq<char>>,
    i: int,
    acc: Seq<Seq<Seq<char>>>,
) -> Seq<Seq<Seq<char>>>
    decreases combos.len() - i,
{
    if 0 <= i < combos.len() {
        extend_all(combos, pool, i + 1, extend_one(combos[i], pool, 0, acc))
    } else {
        acc
    }
}

/// The combinations of one item of each pool from `i` on, behind those given.
pub open spec fn combine(
    pools: Seq<Seq<Seq<char>>>,
    i: int,
    combos: Seq<Seq<Seq<char>>>,
) -> Seq<Seq<Seq<char>>>
    decreases pools.len() - i,
{
    if 0 <= i < pools.len() {
        combine(pools, i + 1, extend_all(combos, pools[i], 0, Seq::empty()))
    } else {
        combos
    }
}

/// All combinations of one item of each pool; the last varies fastest.
pub open spec fn cartesian_v(pools: Seq<Seq<Seq<char>>>) -> Seq<Seq<Seq<char>>> {
    combine(pools, 0, seq![Seq::empty()])
}

fn push_combo(out: &mut Vec<Vec<String>>, c: Vec<String>)
    ensures
        combos_v(final(out)@) == combos_v(old(out)@).push(strs_v(c@)),
{
    out.push(c);
    assert(combos_v(out@) =~= combos_v(old(out)@).push(strs_v(c@)));
}

/// All combinations of one item of each pool; the last varies fastest.
pub fn cartesian(pools: &Vec<Vec<String>>) -> (r: Vec<Vec<String>>)
    ensures
        combos_v(r@) == cartesian_v(combos_v(pools@)),
{
    let mut combos: Vec<Vec<String>> = Vec::new();
    push_combo(&mut combos, Vec::new());
    assert(combos_v(combos@) =~= seq![Seq::empty()]);
    let mut i: usize = 0;
    while i < pools.len()
        invariant
            i <= pools.len(),
            cartesian_v(combos_v(pools@)) == combine(
                combos_v(pools@),
                i as int,
                combos_v(combos@),
            ),
        decreases pools.len() - i,
    {
        combos = extend_combos(&combos, &pools[i]);
        i = i + 1;
    }
    combos
}

fn extend_combos(combos: &Vec<Vec<String>>, pool: &Vec<String>) -> (r: Vec<Vec<String>>)
    ensures
        combos_v(r@) == extend_all(combos_v(combos@), strs_v(pool@), 0, Seq::empty()),
{
    let mut out: Vec<Vec<String>> = Vec::new();
    assert(combos_v(out@) =~= Seq::empty());
    let mut i: usize = 0;
    while i < combos.len()
        invariant
            i <= combos.len(),
            extend_all(combos_v(combos@), strs_v(pool@), 0, Seq::empty()) == extend_all(
                combos_v(combos@),
                strs_v(pool@),
                i as int,
                combos_v(out@),
            ),
        decreases combos.len() - i,
    {
        let ghost before = combos_v(out@);
        let mut k: usize = 0;
        while k < pool.len()
            invariant
                i < combos.len(),
                k <= pool.len(),
                extend_one(strs_v(combos[i as int]@), strs_v(pool@), 0, before) == extend_one(
                    strs_v(combos[i as int]@),
                    strs_v(pool@),
                    k as int,
                    combos_v(out@),
                ),
            decreases pool.len() - k,
        {
            let mut c = crate::text::dup_strs(&combos[i]);
            c.push(pool[k].clone());
            push_combo(&mut out, c);
            k = k + 1;
        }
        i = i + 1;
    }
    out
}

/// The key of a combination from type `j` on: the ids, 16 bits each, the first lowest;
/// four at most.
pub open spec fn packed_key(combo: Seq<Seq<char>>, j: int, unit: int, acc: int) -> int
    decreases combo.len() - j,
{
    if 0 <= j < combo.len() && j < 4 {
        packed_key(combo, j + 1, unit * 65536, acc + type_id(combo[j]) * unit)
    } else {
        acc
    }
}

/// The run-time key of a combination of types.
pub open spec fn dispatch_key(combo: Seq<Seq<char>>) -> int {
    packed_key(combo, 0, 1, 0)
}

/// The run-time key of a combination of types.
pub fn pack_key(combo: &Vec<String>) -> (r: u64)
    ensures
        r == dispatch_key(strs_v(combo@)),
{
    let mut key: u128 = 0;
    let mut unit: u128 = 1;
    let mut j: usize = 0;
    while j < combo.len() && j < 4
        invariant
            j <= combo.len(),
            j <= 4,
            unit == (if j == 0 {
                1int
            } else if j == 1 {
                65536
            } else if j == 2 {
                4294967296
            } else if j == 3 {
                281474976710656
            } else {
                18446744073709551616
            }),
            key < unit,
            packed_key(strs_v(combo@), 0, 1, 0) == packed_key(
                strs_v(combo@),
                j as int,
                unit as int,
                key as int,
            ),
        decreases combo.len() - j,
    {
        let id: u128 = type_id_of(&combo[j]) as u128;
        proof {
            assert(id * unit <= 65535 * unit) by (nonlinear_arith)
                requires
                    id <= 65535,
                    unit >= 0,
            ;
        }
        key = key + id * unit;
        unit = unit * 65536;
        j = j + 1;
    }
    key as u64
}

/// The id at a place, or zero.
spec fn id_at(s: Seq<Seq<char>>, j: int) -> int {
    if 0 <= j < s.len() {
        type_id(s[j])
    } else {
        0
    }
}

proof fn lemma_key_digits(a: Seq<Seq<char>>)
    requires
        a.len() <= 4,
    ensures
        dispatch_key(a) == id_at(a, 0) + id_at(a, 1) * 65536 + id_at(a, 2) * 4294967296 + id_at(
            a,
            3,
        ) * 281474976710656,
        forall|j: int| 0 <= #[trigger] id_at(a, j) <= 65535,
{
    reveal_with_fuel(packed_key, 6);
}

proof fn lemma_digits_equal(
    a0: int,
    a1: int,
    a2: int,
    a3: int,
    b0: int,
    b1: int,
    b2: int,
    b3: int,
)
    requires
        0 <= a0 <= 65535 && 0 <= a1 <= 65535 && 0 <= a2 <= 65535 && 0 <= a3 <= 65535,
        0 <= b0 <= 65535 && 0 <= b1 <= 65535 && 0 <= b2 <= 65535 && 0 <= b3 <= 65535,
        a0 + a1 * 65536 + a2 * 4294967296 + a3 * 281474976710656 == b0 + b1 * 65536 + b2
            * 4294967296 + b3 * 281474976710656,
    ensures
        a0 == b0 && a1 == b1 && a2 == b2 && a3 == b3,
{
}

/// Two combinations of as many types, four at most, have the same key exactly if
/// their types have the same ids, one by one.
pub proof fn law_keys_differ(a: Seq<Seq<char>>, b: Seq<Seq<char>>)
    requires
        a.len() == b.len() <= 4,
    ensures
        dispatch_key(a) == dispatch_key(b) <==> forall|j: int|
            0 <= j < a.len() ==> type_id(#[trigger] a[j]) == type_id(b[j]),
{
    lemma_key_digits(a);
    lemma_key_digits(b);
    if dispatch_key(a) == dispatch_key(b) {
        lemma_digits_equal(
            id_at(a, 0),
            id_at(a, 1),
            id_at(a, 2),
            id_at(a, 3),
            id_at(b, 0),
            id_at(b, 1),
            id_at(b, 2),
            id_at(b, 3),
        );
        assert forall|j: int| 0 <= j < a.len() implies type_id(#[trigger] a[j]) == type_id(b[j]) by {
            assert(id_at(a, j) == id_at(b, j));
        }
    } else if forall|j: int| 0 <= j < a.len() ==> type_id(#[trigger] a[j]) == type_id(b[j]) {
        assert forall|j: int| 0 <= j < 4 implies #[trigger] id_at(a, j) == id_at(b, j) by {
            if j < a.len() {
                assert(type_id(a[j]) == type_id(b[j]));
            }
        }
        assert(id_at(a, 0) == id_at(b, 0) && id_at(a, 1) == id_at(b, 1) && id_at(a, 2) == id_at(
            b,
            2,
        ) && id_at(a, 3) == id_at(b, 3));
    }
}

// ---------------------------------------------------------------- dispatch tables

/// The name of an argument of a dispatched function.
pub open spec fn arg_name(i: int) -> Seq<char> {
    "a"@ + nat_text(i as nat)
}

pub open spec fn arg_names(n: nat) -> Seq<Seq<char>> {
    Seq::new(n, |i: int| arg_name(i))
}

pub open spec fn arg_decls(ts: Seq<Seq<char>>) -> Seq<Seq<char>> {
    Seq::new(ts.len(), |i: int| ts[i] + " a"@ + nat_text(i as nat))
}

/// The arguments that an overload is called with from position `i` on, `j` being the
/// dispatch positions before: one of the exact type is unwrapped.
pub open spec fn call_args_from(
    d: DispatchInfoV,
    ov: OverloadV,
    combo: Seq<Seq<char>>,
    i: int,
    j: int,
    acc: Seq<Seq<char>>,
) -> Seq<Seq<char>>
    decreases d.positions.len() - i,
{
    if 0 <= i < d.positions.len() {
        match d.positions[i] {
            None => call_args_from(d, ov, combo, i + 1, j, acc.push(arg_name(i))),
            Some(_) => if 0 <= j < combo.len() && param_name(ov, i) == Some(combo[j]) {
                call_args_from(
                    d,
                    ov,
                    combo,
                    i + 1,
                    j + 1,
                    acc.push("*("@ + combo[j] + "*)a"@ + nat_text(i as nat) + "._ptr"@),
                )
            } else {
                call_args_from(d, ov, combo, i + 1, j + 1, acc.push(arg_name(i)))
            },
        }
    } else {
        acc
    }
}

/// The lists of types that implement these traits.
pub open spec fn pools_of(impls: Impls, ts: Seq<Seq<char>>) -> Seq<Seq<Seq<char>>> {
    Seq::new(
        ts.len(),
        |k: int|
            match lookup(impls, ts[k]) {
                Some(v) => v,
                None => Seq::empty(),
            },
    )
}

/// `acc` and then the table entries of the combinations from `i` on.
pub open spec fn table_lines(
    d: DispatchInfoV,
    combos: Seq<Seq<Seq<char>>>,
    i: int,
    acc: Seq<char>,
) -> Seq<char>
    decreases combos.len() - i,
{
    if 0 <= i < combos.len() {
        table_lines(
            d,
            combos,
            i + 1,
            match best_overload(d, combos[i], 0, None) {
                None => acc,
                Some(k) => line(
                    acc,
                    Seq::empty(),
                    "  _t_"@ + d.name + "["@ + nat_text(dispatch_key(combos[i]) as nat)
                        + "ULL] = []("@ + join_v(arg_decls(dispatch_params(d)), ", "@) + ") -> "@
                        + dispatch_ret(d) + " { return "@ + d.name + "("@ + join_v(
                        call_args_from(d, d.overloads[k], combos[i], 0, 0, Seq::empty()),
                        ", "@,
                    ) + "); };"@,
                ),
            },
        )
    } else {
        acc
    }
}

/// How the key is computed from the arguments at the dispatch positions from `j` on.
pub open spec fn key_parts(idx: Seq<int>) -> Seq<Seq<char>> {
    Seq::new(
        idx.len(),
        |j: int|
            "((uint64_t)a"@ + nat_text(idx[j] as nat) + "._vt->type_id << "@ + nat_text(
                (16 * j) as nat,
            ) + ")"@,
    )
}

/// `acc` and then the table, the cache and the entry point of a dispatched function.
pub open spec fn dispatcher_text(g: InfoV, d: DispatchInfoV, acc: Seq<char>) -> Seq<char> {
    let none = Seq::<char>::empty();
    let n = d.name;
    let ts = traits_at(d.positions, 0, Seq::empty());
    let idx = dispatch_indices(d.positions, 0, Seq::empty());
    let decls = join_v(arg_decls(dispatch_params(d)), ", "@);
    let names = join_v(arg_names(d.positions.len()), ", "@);
    let a1 = line(
        acc,
        none,
        "// ─── dispatch: "@ + n + " ("@ + nat_text(ts.len()) + "-ary over "@ + join_v(ts, ", "@)
            + ") ───"@,
    );
    let a2 = line(
        a1,
        none,
        "static std::unordered_map<uint64_t, _fn_"@ + n + "> _t_"@ + n + ";"@,
    );
    let a3 = line(
        a2,
        none,
        "static struct { uint64_t k = UINT64_MAX; _fn_"@ + n + " fn = nullptr; } _c_"@ + n + ";"@,
    );
    let a4 = line(a3, none, "static struct _Reg_"@ + n + " { _Reg_"@ + n + "() {"@);
    let a5 = table_lines(d, cartesian_v(pools_of(g.impls, ts)), 0, a4);
    let a6 = line(a5, none, "} } _reg_"@ + n + ";"@);
    let a7 = line(a6, none, dispatch_ret(d) + " _d_"@ + n + "("@ + decls + ") {"@);
    let a8 = line(a7, none, "  uint64_t k = "@ + join_v(key_parts(idx), " | "@) + ";"@);
    let a9 = line(
        a8,
        none,
        "  if (k == _c_"@ + n + ".k) [[likely]] return _c_"@ + n + ".fn("@ + names + ");"@,
    );
    let a10 = line(a9, none, "  auto it = _t_"@ + n + ".find(k);"@);
    let a11 = line(
        a10,
        none,
        "  if (it != _t_"@ + n + ".end()) { _c_"@ + n
            + " = {k, it->second}; return it->second("@ + names + "); }"@,
    );
    let a12 = if d.has_generic_fallback {
        line(a11, none, "  return "@ + n + "("@ + names + ");"@)
    } else {
        line(
            a11,
            none,
            "  std::cerr << \"nova: no matching method for '"@ + n
                + "'\" << std::endl; std::abort();"@,
        )
    };
    line(line(a12, none, "}"@), none, none)
}

/// `acc` and then the dispatchers of the functions from `i` on.
pub open spec fn dispatcher_texts(g: InfoV, i: int, acc: Seq<char>) -> Seq<char>
    decreases g.dispatch.len() - i,
{
    if 0 <= i < g.dispatch.len() {
        dispatcher_texts(g, i + 1, dispatcher_text(g, g.dispatch[i], acc))
    } else {
        acc
    }
}

fn gen_arg_names(n: usize) -> (r: Vec<String>)
    ensures
        strs_v(r@) == arg_names(n as nat),
{
    let mut out: Vec<String> = Vec::new();
    let mut i: usize = 0;
    while i < n
        invariant
            i <= n,
            out.len() == i,
            forall|k: int| 0 <= k < i ==> (#[trigger] out[k])@ == arg_name(k),
        decreases n - i,
    {
        out.push(cat2("a", &show_usize(i)));
        i = i + 1;
    }
    assert(strs_v(out@) =~= arg_names(n as nat));
    out
}

fn gen_arg_decls(ts: &Vec<String>) -> (r: Vec<String>)
    ensures
        strs_v(r@) == arg_decls(strs_v(ts@)),
{
    let mut out: Vec<String> = Vec::new();
    let mut i: usize = 0;
    while i < ts.len()
        invariant
            i <= ts.len(),
            out.len() == i,
            forall|k: int| 0 <= k < i ==> (#[trigger] out[k])@ == arg_decls(strs_v(ts@))[k],
        decreases ts.len() - i,
    {
        out.push(cat3(&ts[i], " a", &show_usize(i)));
        i = i + 1;
    }
    assert(strs_v(out@) =~= arg_decls(strs_v(ts@)));
    out
}

fn gen_call_args(d: &DispatchInfo, ov: &Overload, combo: &Vec<String>) -> (r: Vec<String>)
    ensures
        strs_v(r@) == call_args_from(d@, ov@, strs_v(combo@), 0, 0, Seq::empty()),
{
    let mut out: Vec<String> = Vec::new();
    let mut i: usize = 0;
    let mut j: usize = 0;
    while i < d.positions.len()
        invariant
            i <= d.positions.len(),
            j <= i,
            call_args_from(d@, ov@, strs_v(combo@), 0, 0, Seq::empty()) == call_args_from(
                d@,
                ov@,
                strs_v(combo@),
                i as int,
                j as int,
                strs_v(out@),
            ),
        decreases d.positions.len() - i,
    {
        match &d.positions[i] {
            None => {
                out.push(cat2("a", &show_usize(i)));
            },
            Some(_) => {
                let exact: bool = match ov.param_name(i) {
                    Some(n) => j < combo.len() && str_eq(&n, &combo[j]),
                    None => false,
                };
                if exact {
                    out.push(cat5("*(", &combo[j], "*)a", &show_usize(i), "._ptr"));
                } else {
                    out.push(cat2("a", &show_usize(i)));
                }
                j = j + 1;
            },
        }
        i = i + 1;
    }
    out
}

fn gen_pools(impls: &StrMap<StrList>, ts: &Vec<String>) -> (r: Vec<Vec<String>>)
    ensures
        combos_v(r@) == pools_of(impls@, strs_v(ts@)),
{
    let mut out: Vec<Vec<String>> = Vec::new();
    let mut i: usize = 0;
    while i < ts.len()
        invariant
            i <= ts.len(),
            out.len() == i,
            forall|k: int|
                0 <= k < i ==> strs_v((#[trigger] out[k])@) == pools_of(impls@, strs_v(ts@))[k],
        decreases ts.len() - i,
    {
        let pool: Vec<String> = match impls.get(&ts[i]) {
            Some(l) => crate::text::dup_strs(&l.items),
            None => Vec::new(),
        };
        out.push(pool);
        i = i + 1;
    }
    assert(combos_v(out@) =~= pools_of(impls@, strs_v(ts@)));
    out
}

fn gen_key_parts(ps: &Vec<Option<String>>) -> (r: Vec<String>)
    ensures
        strs_v(r@) == key_parts(dispatch_indices(opt_strs_v(ps@), 0, Seq::empty())),
{
    let mut idx: Vec<usize> = Vec::new();
    let ghost mut iv: Seq<int> = Seq::empty();
    let mut i: usize = 0;
    while i < ps.len()
        invariant
            i <= ps.len(),
            idx.len() <= i,
            iv.len() == idx.len(),
            forall|k: int| 0 <= k < idx.len() ==> idx[k] == #[trigger] iv[k],
            dispatch_indices(opt_strs_v(ps@), 0, Seq::empty()) == dispatch_indices(
                opt_strs_v(ps@),
                i as int,
                iv,
            ),
        decreases ps.len() - i,
    {
        if ps[i].is_some() {
            idx.push(i);
            proof {
                iv = iv.push(i as int);
            }
        }
        i = i + 1;
    }
    let mut out: Vec<String> = Vec::new();
    let mut j: usize = 0;
    while j < idx.len()
        invariant
            j <= idx.len(),
            out.len() == j,
            iv.len() == idx.len(),
            forall|k: int| 0 <= k < idx.len() ==> idx[k] == #[trigger] iv[k],
            forall|k: int| 0 <= k < j ==> (#[trigger] out[k])@ == key_parts(iv)[k],
        decreases idx.len() - j,
    {
        assert(idx[j as int] == iv[j as int]);
        out.push(
            cat5(
                "((uint64_t)a",
                &show_usize(idx[j]),
                "._vt->type_id << ",
                &show_u128(16 * (j as u128)),
                ")",
            ),
        );
        j = j + 1;
    }
    assert(strs_v(out@) =~= key_parts(iv));
    out
}

fn emit_table(d: &DispatchInfo, combos: &Vec<Vec<String>>, out: &mut String)
    ensures
        final(out)@ == table_lines(d@, combos_v(combos@), 0, old(out)@),
{
    proof {
        reveal_strlit("");
        assert(""@ =~= Seq::empty());
    }
    let decls = join(&gen_arg_decls(&gen_dispatch_params(d)), ", ");
    let ret = gen_dispatch_ret(d);
    let mut i: usize = 0;
    while i < combos.len()
        invariant
            i <= combos.len(),
            ""@ == Seq::<char>::empty(),
            decls@ == join_v(arg_decls(dispatch_params(d@)), ", "@),
            ret@ == dispatch_ret(d@),
            table_lines(d@, combos_v(combos@), 0, old(out)@) == table_lines(
                d@,
                combos_v(combos@),
                i as int,
                out@,
            ),
        decreases combos.len() - i,
    {
        match select_overload(d, &combos[i]) {
            None => {},
            Some(k) => {
                let args = gen_call_args(d, &d.overloads[k], &combos[i]);
                let mut s = cat7(
                    "  _t_",
                    &d.name,
                    "[",
                    &show_u64(pack_key(&combos[i])),
                    "ULL] = [](",
                    &decls,
                    ") -> ",
                );
                s.append(&ret);
                s.append(" { return ");
                s.append(&d.name);
                s.append("(");
                s.append(&join(&args, ", "));
                s.append("); };");
                emitln(out, "", &s);
            },
        }
        i = i + 1;
    }
}

fn emit_dispatcher(info: &Info, d: &DispatchInfo, out: &mut String)
    ensures
        final(out)@ == dispatcher_text(info@, d@, old(out)@),
{
    proof {
        reveal_strlit("");
        assert(""@ =~= Seq::empty());
    }
    let n = &d.name;
    let ts = position_traits(&d.positions);
    let decls = join(&gen_arg_decls(&gen_dispatch_params(d)), ", ");
    let names = join(&gen_arg_names(d.positions.len()), ", ");
    emitln(
        out,
        "",
        &cat7(
            "// ─── dispatch: ",
            n,
            " (",
            &show_usize(ts.len()),
            "-ary over ",
            &join(&ts, ", "),
            ") ───",
        ),
    );
    emitln(out, "", &cat5("static std::unordered_map<uint64_t, _fn_", n, "> _t_", n, ";"));
    emitln(
        out,
        "",
        &cat5(
            "static struct { uint64_t k = UINT64_MAX; _fn_",
            n,
            " fn = nullptr; } _c_",
            n,
            ";",
        ),
    );
    emitln(out, "", &cat5("static struct _Reg_", n, " { _Reg_", n, "() {"));
    emit_table(d, &cartesian(&gen_pools(&info.impls, &ts)), out);
    emitln(out, "", &cat3("} } _reg_", n, ";"));
    emitln(out, "", &cat6(&gen_dispatch_ret(d), " _d_", n, "(", &decls, ") {"));
    emitln(out, "", &cat3("  uint64_t k = ", &join(&gen_key_parts(&d.positions), " | "), ";"));
    emitln(
        out,
        "",
        &cat7("  if (k == _c_", n, ".k) [[likely]] return _c_", n, ".fn(", &names, ");"),
    );
    emitln(out, "", &cat3("  auto it = _t_", n, ".find(k);"));
    emitln(
        out,
        "",
        &cat7(
            "  if (it != _t_",
            n,
            ".end()) { _c_",
            n,
            " = {k, it->second}; return it->second(",
            &names,
            "); }",
        ),
    );
    if d.has_generic_fallback {
        emitln(out, "", &cat5("  return ", n, "(", &names, ");"));
    } else {
        emitln(
            out,
            "",
            &cat3(
                "  std::cerr << \"nova: no matching method for '",
                n,
                "'\" << std::endl; std::abort();",
            ),
        );
    }
    emitln(out, "", "}");
    emitln(out, "", "");
}

// ------------------------------------------------------------------------- modules

/// What every generated file starts with.
pub open spec fn header(acc: Seq<char>) -> Seq<char> {
    let none = Seq::<char>::empty();
    let a1 = line(acc, none, "#pragma once\n// ─── Generated by Nova compiler ───"@);
    let a2 = line(a1, none, "#include <string>"@);
    let a3 = line(a2, none, "#include <vector>"@);
    let a4 = line(a3, none, "#include <memory>"@);
    let a5 = line(a4, none, "#include <unordered_map>"@);
    let a6 = line(a5, none, "#include <iostream>"@);
    let a7 = line(a6, none, "#include <cstdint>"@);
    let a8 = line(a7, none, "#include <cstdlib>"@);
    let a9 = line(a8, none, "#include <utility>"@);
    let a10 = line(
        a9,
        none,
        "inline void nova_print_int(int n) { std::cout << n << std::endl; }"@,
    );
    let a11 = line(
        a10,
        none,
        "inline void nova_print(const std::string& s) { std::cout << s; }"@,
    );
    let a12 = line(a11, none, "template<typename T> void nova_print(T v) { std::cout << v; }"@);
    line(a12, none, none)
}

/// An enum that gets a definition is among the items from `i` on.
pub open spec fn defines_enum(items: Seq<ItemV>, i: int) -> bool
    decreases items.len() - i,
{
    if 0 <= i < items.len() {
        (items[i] is Enum && items[i]->Enum_0.generics.len() == 0) || defines_enum(items, i + 1)
    } else {
        false
    }
}

/// What a file with these items starts with: the definitions of enums need one header more.
pub open spec fn preamble(items: Seq<ItemV>) -> Seq<char> {
    if defines_enum(items, 0) {
        line(header(Seq::empty()), Seq::empty(), "#include <variant>"@)
    } else {
        header(Seq::empty())
    }
}

/// `acc` and then the structs, enums and traits of the items from `i` on.
pub open spec fn type_items(items: Seq<ItemV>, i: int, acc: Seq<char>) -> Seq<char>
    decreases items.len() - i,
{
    if 0 <= i < items.len() {
        type_items(
            items,
            i + 1,
            match items[i] {
                ItemV::Struct(s) => struct_text(s, acc),
                ItemV::Enum(e) => enum_text(e, acc),
                ItemV::Trait(t) => trait_text(t, acc),
                _ => acc,
            },
        )
    } else {
        acc
    }
}

/// `acc` and then the impl blocks of the items from `i` on.
pub open spec fn impl_items(g: InfoV, items: Seq<ItemV>, i: int, acc: Seq<char>) -> Seq<char>
    decreases items.len() - i,
{
    if 0 <= i < items.len() {
        impl_items(
            g,
            items,
            i + 1,
            match items[i] {
                ItemV::Impl(imp) => impl_text(g, imp, acc),
                _ => acc,
            },
        )
    } else {
        acc
    }
}

/// `acc` and then the functions of the items from `i` on.
pub open spec fn function_items(g: InfoV, items: Seq<ItemV>, i: int, acc: Seq<char>) -> Seq<char>
    decreases items.len() - i,
{
    if 0 <= i < items.len() {
        function_items(
            g,
            items,
            i + 1,
            match items[i] {
                ItemV::Function(f) => function_text(g, f, acc),
                _ => acc,
            },
        )
    } else {
        acc
    }
}

/// The C++ text of a module: types first, then what is dispatched, impl blocks,
/// functions and the dispatchers.
pub open spec fn cpp_text_of(items: Seq<ItemV>) -> Seq<char> {
    let g = info_of(items);
    let a1 = type_items(items, 0, preamble(items));
    let a2 = dispatch_decls(g.dispatch, a1);
    let a3 = impl_items(g, items, 0, a2);
    let a4 = function_items(g, items, 0, a3);
    dispatcher_texts(g, 0, a4)
}

fn emit_header(out: &mut String)
    ensures
        final(out)@ == header(old(out)@),
{
    proof {
        reveal_strlit("");
        assert(""@ =~= Seq::empty());
    }
    emitln(out, "", "#pragma once\n// ─── Generated by Nova compiler ───");
    emitln(out, "", "#include <string>");
    emitln(out, "", "#include <vector>");
    emitln(out, "", "#include <memory>");
    emitln(out, "", "#include <unordered_map>");
    emitln(out, "", "#include <iostream>");
    emitln(out, "", "#include <cstdint>");
    emitln(out, "", "#include <cstdlib>");
    emitln(out, "", "#include <utility>");
    emitln(out, "", "inline void nova_print_int(int n) { std::cout << n << std::endl; }");
    emitln(out, "", "inline void nova_print(const std::string& s) { std::cout << s; }");
    emitln(out, "", "template<typename T> void nova_print(T v) { std::cout << v; }");
    emitln(out, "", "");
}

/// The generator of C++ text.
pub struct CppGenerator {
    info: Info,
}

fn has_enum_item(items: &Vec<Item>) -> (r: bool)
    ensures
        r == defines_enum(items_v(items@), 0),
{
    let mut i: usize = 0;
    while i < items.len()
        invariant
            i <= items.len(),
            defines_enum(items_v(items@), 0) == defines_enum(items_v(items@), i as int),
        decreases items.len() - i,
    {
        let ghost g = item_v(items[i as int]);
        if let Item::Enum(e) = &items[i] {
            let ghost h = enum_v(*e);
            if e.generics.len() == 0 {
                return true;
            }
        }
        i = i + 1;
    }
    false
}

impl CppGenerator {
    /// What is known of the module that is generated.
    pub closed spec fn info(&self) -> InfoV {
        self.info@
    }

    pub fn new() -> (r: Self)
        ensures
            r.info() == (InfoV {
                dispatch: Seq::empty(),
                trait_methods: Seq::empty(),
                impls: Map::empty(),
            }),
    {
        CppGenerator { info: Info::new() }
    }

    /// The C++ text of a module.
    pub fn generate(self, module: &Module) -> (r: String)
        ensures
            r@ == cpp_text_of(module@.items),
    {
        let gen = CppGenerator { info: Info::collect(module) };
        let mut out = String::new();
        emit_header(&mut out);
        if has_enum_item(&module.items) {
            proof {
                reveal_strlit("");
                assert(""@ =~= Seq::empty());
            }
            emitln(&mut out, "", "#include <variant>");
        }
        gen.emit_type_items(&module.items, &mut out);
        emit_dispatch_decls(&gen.info, &mut out);
        gen.emit_impl_items(&module.items, &mut out);
        gen.emit_function_items(&module.items, &mut out);
        gen.emit_dispatchers(&mut out);
        out
    }

    fn emit_type_items(&self, items: &Vec<Item>, out: &mut String)
        ensures
            final(out)@ == type_items(items_v(items@), 0, old(out)@),
    {
        let mut i: usize = 0;
        while i < items.len()
            invariant
                i <= items.len(),
                type_items(items_v(items@), 0, old(out)@) == type_items(
                    items_v(items@),
                    i as int,
                    out@,
                ),
            decreases items.len() - i,
        {
            let ghost g = item_v(items[i as int]);
            match &items[i] {
                Item::Struct(s) => {
                    emit_struct(s, out);
                },
                Item::Enum(e) => {
                    emit_enum(e, out);
                },
                Item::Trait(t) => {
                    emit_trait(t, out);
                },
                _ => {},
            }
            i = i + 1;
        }
    }

    fn emit_impl_items(&self, items: &Vec<Item>, out: &mut String)
        ensures
            final(out)@ == impl_items(self.info@, items_v(items@), 0, old(out)@),
    {
        let mut i: usize = 0;
        while i < items.len()
            invariant
                i <= items.len(),
                impl_items(self.info@, items_v(items@), 0, old(out)@) == impl_items(
                    self.info@,
                    items_v(items@),
                    i as int,
                    out@,
                ),
            decreases items.len() - i,
        {
            let ghost g = item_v(items[i as int]);
            match &items[i] {
                Item::Impl(imp) => {
                    emit_impl(&self.info, imp, out);
                },
                _ => {},
            }
            i = i + 1;
        }
    }

    fn emit_function_items(&self, items: &Vec<Item>, out: &mut String)
        ensures
            final(out)@ == function_items(self.info@, items_v(items@), 0, old(out)@),
    {
        let mut i: usize = 0;
        while i < items.len()
            invariant
                i <= items.len(),
                function_items(self.info@, items_v(items@), 0, old(out)@) == function_items(
                    self.info@,
                    items_v(items@),
                    i as int,
                    out@,
                ),
            decreases items.len() - i,
        {
            let ghost g = item_v(items[i as int]);
            match &items[i] {
                Item::Function(f) => {
                    emit_function(&self.info, f, out);
                },
                _ => {},
            }
            i = i + 1;
        }
    }

    fn emit_dispatchers(&self, out: &mut String)
        ensures
            final(out)@ == dispatcher_texts(self.info@, 0, old(out)@),
    {
        let mut i: usize = 0;
        while i < self.info.dispatch.len()
            invariant
                i <= self.info.dispatch.len(),
                dispatcher_texts(self.info@, 0, old(out)@) == dispatcher_texts(
                    self.info@,
                    i as int,
                    out@,
                ),
            decreases self.info.dispatch.len() - i,
        {
            emit_dispatcher(&self.info, &self.info.dispatch[i], out);
            i = i + 1;
        }
    }
}

} // verus!
