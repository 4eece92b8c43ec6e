//! What the C++ of a program holds: every item, every statement, every operand, in order.
use vstd::prelude::*;

verus! {

use crate::ast::{
    BinOp, bin_op_of, call_expr, law_operator_text, named_type, path_text, simple_path, type_text,
};
use crate::codegen::cpp::{
    arg_decls, best_overload, call_args_from, caller_lines, cartesian_v, case_lines, case_text,
    coerced, cpp_text_of, deeper, dispatch_decl_text, dispatch_decl_texts, dispatch_decls,
    dispatch_key, dispatch_params, dispatch_ret, dispatcher_text, dispatcher_texts, entry_lines,
    enum_text, expr_text, expr_texts, field_decls, field_lines, field_setters, function_items,
    function_text, further, impl_items, impl_text, is_dispatched, line, method_text, methods_text,
    overload_lines, param_decls, param_names, pools_of, preamble, returned_trait, returns_value,
    runtime_name, stmt_text, stmts_text, struct_text, table_lines, trait_text, trampoline_args,
    trampoline_decls, type_id, type_items, type_texts, vtable_lines, wrapper_texts,
};
use crate::codegen::dispatch::{
    DispatchInfoV, InfoV, OverloadV, cpp_segments, cpp_type, impl_target, info_of, primitive_name,
    traits_at,
};
use crate::lexer::law_kinds_lex_back;
use crate::model::{
    BlockV, EnumCaseV, EnumV, ExprKindV, ExprV, FunctionV, ImplBlockV, ItemV, ParamV, StructFieldV,
    StructV, TraitDefV, TypeV,
};
use crate::spelling::{
    all_in_quotes, law_number_is_read, law_quoted_text_is_read, reads_as, unmarked,
};
use crate::text::{is_digit, join_v, lemma_joined, nat_text};
use crate::token::{Span, TokenKindV, kind_text};
use crate::typeck::{TypeInfoV, built_in};

// ---------------------------------------------------------------------------- texts

/// The part stands in the text at `k`.
pub open spec fn stands(text: Seq<char>, part: Seq<char>, k: int) -> bool {
    0 <= k && k + part.len() <= text.len() && text.subrange(k, k + part.len()) == part
}

/// The part stands somewhere in the text.
pub open spec fn holds(text: Seq<char>, part: Seq<char>) -> bool {
    exists|k: int| stands(text, part, k)
}

/// The longer text is the shorter one with more behind it.
pub open spec fn goes_on(longer: Seq<char>, shorter: Seq<char>) -> bool {
    shorter.len() <= longer.len() && longer.take(shorter.len() as int) == shorter
}

proof fn lemma_goes_on(a: Seq<char>, b: Seq<char>, c: Seq<char>)
    requires
        goes_on(b, a),
        goes_on(c, b),
    ensures
        goes_on(c, a),
{
    assert(c.take(a.len() as int) =~= c.take(b.len() as int).take(a.len() as int));
}

proof fn lemma_added(a: Seq<char>, b: Seq<char>)
    ensures
        goes_on(a + b, a),
{
    assert((a + b).take(a.len() as int) =~= a);
}

proof fn lemma_still_holds(longer: Seq<char>, shorter: Seq<char>, part: Seq<char>)
    requires
        goes_on(longer, shorter),
        holds(shorter, part),
    ensures
        holds(longer, part),
{
    let k = choose|k: int| stands(shorter, part, k);
    assert(longer.subrange(k, k + part.len()) =~= longer.take(shorter.len() as int).subrange(
        k,
        k + part.len(),
    ));
    assert(stands(longer, part, k));
}

proof fn lemma_between(before: Seq<char>, part: Seq<char>, behind: Seq<char>)
    ensures
        holds(before + part + behind, part),
{
    let text = before + part + behind;
    let k = before.len() as int;
    assert(text.subrange(k, k + part.len()) =~= part);
    assert(stands(text, part, k));
}

/// What a part of a text holds, the text holds.
proof fn lemma_inner(text: Seq<char>, part: Seq<char>, inner: Seq<char>)
    requires
        holds(text, part),
        holds(part, inner),
    ensures
        holds(text, inner),
{
    let k = choose|k: int| stands(text, part, k);
    let j = choose|j: int| stands(part, inner, j);
    assert(text.subrange(k + j, k + j + inner.len()) =~= part.subrange(j, j + inner.len()));
    assert(stands(text, inner, k + j));
}

proof fn lemma_line(acc: Seq<char>, ind: Seq<char>, s: Seq<char>)
    ensures
        goes_on(line(acc, ind, s), acc),
        holds(line(acc, ind, s), s),
        line(acc, ind, s) == acc + line(Seq::empty(), ind, s),
{
    lemma_between(acc + ind, s, "\n"@);
    lemma_added(acc, ind + s + "\n"@);
    assert(acc + (ind + s + "\n"@) =~= line(acc, ind, s));
    assert(acc + line(Seq::empty(), ind, s) =~= line(acc, ind, s));
}

// ----------------------------------------------------------------------- statements

/// The text of a statement is put behind what is there.
pub proof fn law_statement_is_added(
    g: InfoV,
    ret: Option<Seq<char>>,
    e: ExprV,
    tail: bool,
    ind: Seq<char>,
    acc: Seq<char>,
)
    ensures
        stmt_text(g, ret, e, tail, ind, acc) == acc + stmt_text(
            g,
            ret,
            e,
            tail,
            ind,
            Seq::empty(),
        ),
    decreases e, 0int,
{
    let none = Seq::<char>::empty();
    match e.kind {
        ExprKindV::Return(Some(x)) => {
            lemma_line(acc, ind, "return "@ + coerced(ret, expr_text(g, *x)) + ";"@);
        },
        ExprKindV::Return(None) => {
            lemma_line(acc, ind, "return;"@);
        },
        ExprKindV::Let { name, ty, value, is_mut } => {
            lemma_line(acc, ind, "auto "@ + name + " = "@ + expr_text(g, *value) + ";"@);
        },
        ExprKindV::If { cond, then_branch, else_branch } => {
            let head = "if ("@ + expr_text(g, *cond) + ") {"@;
            let a1 = line(acc, ind, head);
            let b1 = line(none, ind, head);
            lemma_line(acc, ind, head);
            law_statements_are_added(g, ret, then_branch.stmts, 0, tail, deeper(ind), a1);
            law_statements_are_added(g, ret, then_branch.stmts, 0, tail, deeper(ind), b1);
            let a2 = stmts_text(g, ret, then_branch.stmts, 0, tail, deeper(ind), a1);
            let b2 = stmts_text(g, ret, then_branch.stmts, 0, tail, deeper(ind), b1);
            assert(a2 =~= acc + b2);
            match else_branch {
                Some(b) => {
                    let a3 = line(a2, ind, "} else {"@);
                    let b3 = line(b2, ind, "} else {"@);
                    lemma_line(a2, ind, "} else {"@);
                    lemma_line(b2, ind, "} else {"@);
                    assert(a3 =~= acc + b3);
                    law_statements_are_added(g, ret, b.stmts, 0, tail, deeper(ind), a3);
                    law_statements_are_added(g, ret, b.stmts, 0, tail, deeper(ind), b3);
                    let a4 = stmts_text(g, ret, b.stmts, 0, tail, deeper(ind), a3);
                    let b4 = stmts_text(g, ret, b.stmts, 0, tail, deeper(ind), b3);
                    assert(a4 =~= acc + b4);
                    lemma_line(a4, ind, "}"@);
                    lemma_line(b4, ind, "}"@);
                    assert(line(a4, ind, "}"@) =~= acc + line(b4, ind, "}"@));
                },
                None => {
                    lemma_line(a2, ind, "}"@);
                    lemma_line(b2, ind, "}"@);
                    assert(line(a2, ind, "}"@) =~= acc + line(b2, ind, "}"@));
                },
            }
        },
        _ => {
            let s = expr_text(g, e);
            lemma_line(acc, ind, "return "@ + s + ";"@);
            lemma_line(acc, ind, s + ";"@);
        },
    }
}

/// The same of statements.
pub proof fn law_statements_are_added(
    g: InfoV,
    ret: Option<Seq<char>>,
    stmts: Seq<ExprV>,
    i: int,
    tail: bool,
    ind: Seq<char>,
    acc: Seq<char>,
)
    ensures
        stmts_text(g, ret, stmts, i, tail, ind, acc) == acc + stmts_text(
            g,
            ret,
            stmts,
            i,
            tail,
            ind,
            Seq::empty(),
        ),
    decreases stmts, stmts.len() - i,
{
    let none = Seq::<char>::empty();
    if 0 <= i < stmts.len() {
        let last = i == stmts.len() - 1 && tail;
        law_statement_is_added(g, ret, stmts[i], last, ind, acc);
        let one = stmt_text(g, ret, stmts[i], last, ind, none);
        law_statements_are_added(g, ret, stmts, i + 1, tail, ind, acc + one);
        law_statements_are_added(g, ret, stmts, i + 1, tail, ind, one);
        let rest = stmts_text(g, ret, stmts, i + 1, tail, ind, none);
        assert(acc + one + rest =~= acc + (one + rest));
    } else {
        assert(acc + none =~= acc);
    }
}

/// The text of a conditional is its condition, then the text of its first branch, then
/// `else` and the text of the second where there is one. Both branches are deeper by one
/// level, and are returned from where the conditional is.
pub proof fn law_conditional_text(
    g: InfoV,
    ret: Option<Seq<char>>,
    cond: ExprV,
    yes: BlockV,
    no: Option<BlockV>,
    span: Span,
    tail: bool,
    ind: Seq<char>,
)
    ensures
        ({
            let none = Seq::<char>::empty();
            let e = ExprV {
                kind: ExprKindV::If {
                    cond: Box::new(cond),
                    then_branch: yes,
                    else_branch: no,
                },
                span,
            };
            let first = stmts_text(g, ret, yes.stmts, 0, tail, ind + "  "@, none);
            let opening = ind + "if ("@ + expr_text(g, cond) + ") {\n"@;
            stmt_text(g, ret, e, tail, ind, none) == match no {
                None => opening + first + ind + "}\n"@,
                Some(b) => opening + first + ind + "} else {\n"@ + stmts_text(
                    g,
                    ret,
                    b.stmts,
                    0,
                    tail,
                    ind + "  "@,
                    none,
                ) + ind + "}\n"@,
            }
        }),
{
    let none = Seq::<char>::empty();
    reveal_strlit("\n");
    reveal_strlit(") {");
    reveal_strlit(") {\n");
    reveal_strlit("}");
    reveal_strlit("}\n");
    reveal_strlit("} else {");
    reveal_strlit("} else {\n");
    assert(") {"@ + "\n"@ =~= ") {\n"@);
    assert("}"@ + "\n"@ =~= "}\n"@);
    assert("} else {"@ + "\n"@ =~= "} else {\n"@);
    let head = "if ("@ + expr_text(g, cond) + ") {"@;
    let opening = ind + "if ("@ + expr_text(g, cond) + ") {\n"@;
    let a1 = line(none, ind, head);
    assert(a1 =~= opening);
    law_statements_are_added(g, ret, yes.stmts, 0, tail, deeper(ind), a1);
    let first = stmts_text(g, ret, yes.stmts, 0, tail, ind + "  "@, none);
    let a2 = opening + first;
    match no {
        None => {
            assert(line(a2, ind, "}"@) =~= opening + first + ind + "}\n"@);
        },
        Some(b) => {
            let a3 = line(a2, ind, "} else {"@);
            assert(a3 =~= a2 + ind + "} else {\n"@);
            law_statements_are_added(g, ret, b.stmts, 0, tail, deeper(ind), a3);
            let second = stmts_text(g, ret, b.stmts, 0, tail, ind + "  "@, none);
            assert(line(a3 + second, ind, "}"@) =~= a3 + second + ind + "}\n"@);
        },
    }
}

/// The texts of statements stand one behind the other; only the last of them is returned.
pub proof fn law_statements_text_in_order(
    g: InfoV,
    ret: Option<Seq<char>>,
    a: Seq<ExprV>,
    e: ExprV,
    tail: bool,
    ind: Seq<char>,
)
    ensures
        stmts_text(g, ret, a.push(e), 0, tail, ind, Seq::empty()) == stmts_text(
            g,
            ret,
            a,
            0,
            false,
            ind,
            Seq::empty(),
        ) + stmt_text(g, ret, e, tail, ind, Seq::empty()),
{
    lemma_last_statement(g, ret, a, e, 0, tail, ind, Seq::empty());
    let first = stmts_text(g, ret, a, 0, false, ind, Seq::empty());
    law_statement_is_added(g, ret, e, tail, ind, first);
}

proof fn lemma_last_statement(
    g: InfoV,
    ret: Option<Seq<char>>,
    a: Seq<ExprV>,
    e: ExprV,
    i: int,
    tail: bool,
    ind: Seq<char>,
    acc: Seq<char>,
)
    requires
        0 <= i <= a.len(),
    ensures
        stmts_text(g, ret, a.push(e), i, tail, ind, acc) == stmt_text(
            g,
            ret,
            e,
            tail,
            ind,
            stmts_text(g, ret, a, i, false, ind, acc),
        ),
    decreases a.len() - i,
{
    let all = a.push(e);
    if i < a.len() {
        assert(all[i] == a[i]);
        lemma_last_statement(
            g,
            ret,
            a,
            e,
            i + 1,
            tail,
            ind,
            stmt_text(g, ret, a[i], false, ind, acc),
        );
    } else {
        assert(all[i] == e);
        let next = stmt_text(g, ret, e, tail, ind, acc);
        assert(stmts_text(g, ret, all, i + 1, tail, ind, next) == next);
        assert(stmts_text(g, ret, all, i, tail, ind, acc) == stmts_text(
            g,
            ret,
            all,
            i + 1,
            tail,
            ind,
            next,
        ));
    }
}

/// A value in the last place is written as if it were returned; a declaration and a `return`
/// are the same there as elsewhere.
pub proof fn law_last_value_is_returned(g: InfoV, e: ExprV, span: Span, ind: Seq<char>, acc: Seq<char>)
    ensures
        !(e.kind is Return || e.kind is Let || e.kind is If) ==> stmt_text(
            g,
            None,
            e,
            true,
            ind,
            acc,
        ) == stmt_text(
            g,
            None,
            ExprV { kind: ExprKindV::Return(Some(Box::new(e))), span },
            false,
            ind,
            acc,
        ),
        e.kind is Return || e.kind is Let ==> stmt_text(g, None, e, true, ind, acc) == stmt_text(
            g,
            None,
            e,
            false,
            ind,
            acc,
        ),
{
}

/// A statement stands among these, or in a branch of a conditional among them.
pub open spec fn is_inside(e: ExprV, stmts: Seq<ExprV>) -> bool
    decreases stmts, 0int,
{
    exists|i: int| 0 <= i < stmts.len() && is_within(e, #[trigger] stmts[i])
}

/// A statement is this one, or stands in a branch of it.
pub open spec fn is_within(e: ExprV, s: ExprV) -> bool
    decreases s, 0int,
{
    e == s || match s.kind {
        ExprKindV::If { cond, then_branch, else_branch } => is_inside(e, then_branch.stmts)
            || match else_branch {
            Some(b) => is_inside(e, b.stmts),
            None => false,
        },
        _ => false,
    }
}

/// What a statement computes: the expression that it returns, binds, tests or evaluates.
pub open spec fn computes(e: ExprV) -> Option<ExprV> {
    match e.kind {
        ExprKindV::Return(Some(x)) => Some(*x),
        ExprKindV::Return(None) => None,
        ExprKindV::Let { name, ty, value, is_mut } => Some(*value),
        ExprKindV::If { cond, then_branch, else_branch } => Some(*cond),
        _ => Some(e),
    }
}

/// No statement is left out, however deep it stands: the text holds what it computes.
pub proof fn law_no_statement_is_lost(
    g: InfoV,
    ret: Option<Seq<char>>,
    stmts: Seq<ExprV>,
    tail: bool,
    ind: Seq<char>,
    acc: Seq<char>,
    e: ExprV,
    x: ExprV,
)
    requires
        is_inside(e, stmts),
        computes(e) == Some(x),
    ensures
        holds(stmts_text(g, ret, stmts, 0, tail, ind, acc), expr_text(g, x)),
{
    let i = choose|i: int| 0 <= i < stmts.len() && is_within(e, #[trigger] stmts[i]);
    lemma_inside(g, ret, stmts, 0, i, tail, ind, acc, e, x);
}

proof fn lemma_inside(
    g: InfoV,
    ret: Option<Seq<char>>,
    stmts: Seq<ExprV>,
    j: int,
    i: int,
    tail: bool,
    ind: Seq<char>,
    acc: Seq<char>,
    e: ExprV,
    x: ExprV,
)
    requires
        0 <= j <= i < stmts.len(),
        is_within(e, stmts[i]),
        computes(e) == Some(x),
    ensures
        holds(stmts_text(g, ret, stmts, j, tail, ind, acc), expr_text(g, x)),
    decreases stmts, stmts.len() - j,
{
    let last = j == stmts.len() - 1 && tail;
    let next = stmt_text(g, ret, stmts[j], last, ind, acc);
    if j < i {
        lemma_inside(g, ret, stmts, j + 1, i, tail, ind, next, e, x);
    } else {
        lemma_within(g, ret, stmts[j], last, ind, acc, e, x);
        law_statements_are_added(g, ret, stmts, j + 1, tail, ind, next);
        lemma_added(next, stmts_text(g, ret, stmts, j + 1, tail, ind, Seq::empty()));
        lemma_still_holds(
            stmts_text(g, ret, stmts, j + 1, tail, ind, next),
            next,
            expr_text(g, x),
        );
    }
}

proof fn lemma_within(
    g: InfoV,
    ret: Option<Seq<char>>,
    s: ExprV,
    tail: bool,
    ind: Seq<char>,
    acc: Seq<char>,
    e: ExprV,
    x: ExprV,
)
    requires
        is_within(e, s),
        computes(e) == Some(x),
    ensures
        holds(stmt_text(g, ret, s, tail, ind, acc), expr_text(g, x)),
    decreases s, 0int,
{
    let t = expr_text(g, x);
    match s.kind {
        ExprKindV::If { cond, then_branch, else_branch } => {
            let head = "if ("@ + expr_text(g, *cond) + ") {"@;
            let a1 = line(acc, ind, head);
            let a2 = stmts_text(g, ret, then_branch.stmts, 0, tail, deeper(ind), a1);
            law_statements_are_added(g, ret, then_branch.stmts, 0, tail, deeper(ind), a1);
            lemma_added(
                a1,
                stmts_text(g, ret, then_branch.stmts, 0, tail, deeper(ind), Seq::empty()),
            );
            if e == s {
                lemma_between("if ("@, t, ") {"@);
                lemma_line(acc, ind, head);
                lemma_inner(a1, head, t);
                lemma_still_holds(a2, a1, t);
            } else if is_inside(e, then_branch.stmts) {
                let k = choose|k: int|
                    0 <= k < then_branch.stmts.len() && is_within(
                        e,
                        #[trigger] then_branch.stmts[k],
                    );
                lemma_inside(g, ret, then_branch.stmts, 0, k, tail, deeper(ind), a1, e, x);
            }
            match else_branch {
                None => {
                    lemma_line(a2, ind, "}"@);
                    lemma_still_holds(line(a2, ind, "}"@), a2, t);
                },
                Some(b) => {
                    let a3 = line(a2, ind, "} else {"@);
                    let a4 = stmts_text(g, ret, b.stmts, 0, tail, deeper(ind), a3);
                    law_statements_are_added(g, ret, b.stmts, 0, tail, deeper(ind), a3);
                    lemma_added(
                        a3,
                        stmts_text(g, ret, b.stmts, 0, tail, deeper(ind), Seq::empty()),
                    );
                    lemma_line(a2, ind, "} else {"@);
                    if e == s || is_inside(e, then_branch.stmts) {
                        lemma_still_holds(a3, a2, t);
                        lemma_still_holds(a4, a3, t);
                    } else {
                        let k = choose|k: int|
                            0 <= k < b.stmts.len() && is_within(e, #[trigger] b.stmts[k]);
                        lemma_inside(g, ret, b.stmts, 0, k, tail, deeper(ind), a3, e, x);
                    }
                    lemma_line(a4, ind, "}"@);
                    lemma_still_holds(line(a4, ind, "}"@), a4, t);
                },
            }
        },
        ExprKindV::Return(Some(y)) => {
            let c = coerced(ret, t);
            match ret {
                Some(n) => {
                    lemma_between("as_"@ + n + "(new "@, t, ")"@);
                },
                None => {
                    lemma_between(Seq::empty(), t, Seq::empty());
                    assert(Seq::<char>::empty() + t + Seq::<char>::empty() =~= t);
                },
            }
            lemma_between("return "@, c, ";"@);
            lemma_inner("return "@ + c + ";"@, c, t);
            lemma_line(acc, ind, "return "@ + c + ";"@);
            lemma_inner(line(acc, ind, "return "@ + c + ";"@), "return "@ + c + ";"@, t);
        },
        ExprKindV::Let { name, ty, value, is_mut } => {
            let whole = "auto "@ + name + " = "@ + t + ";"@;
            lemma_between("auto "@ + name + " = "@, t, ";"@);
            lemma_line(acc, ind, whole);
            lemma_inner(line(acc, ind, whole), whole, t);
        },
        ExprKindV::Return(None) => {},
        _ => {
            let a = "return "@ + t + ";"@;
            let b = t + ";"@;
            lemma_between("return "@, t, ";"@);
            lemma_between(Seq::empty(), t, ";"@);
            assert(Seq::<char>::empty() + t + ";"@ =~= b);
            lemma_line(acc, ind, a);
            lemma_line(acc, ind, b);
            lemma_inner(line(acc, ind, a), a, t);
            lemma_inner(line(acc, ind, b), b, t);
        },
    }
}

// ---------------------------------------------------------------------------- items

broadcast proof fn lemma_line_goes_on(acc: Seq<char>, ind: Seq<char>, s: Seq<char>, base: Seq<char>)
    requires
        goes_on(acc, base),
    ensures
        #[trigger] goes_on(line(acc, ind, s), base),
{
    lemma_line(acc, ind, s);
    lemma_goes_on(base, acc, line(acc, ind, s));
}

broadcast proof fn lemma_sum_goes_on(acc: Seq<char>, s: Seq<char>, base: Seq<char>)
    requires
        goes_on(acc, base),
    ensures
        #[trigger] goes_on(acc + s, base),
{
    lemma_added(acc, s);
    lemma_goes_on(base, acc, acc + s);
}

broadcast proof fn lemma_itself(acc: Seq<char>)
    ensures
        #[trigger] goes_on(acc, acc),
{
    assert(acc.take(acc.len() as int) =~= acc);
}

broadcast proof fn lemma_stmts_go_on(
    g: InfoV,
    ret: Option<Seq<char>>,
    stmts: Seq<ExprV>,
    tail: bool,
    ind: Seq<char>,
    acc: Seq<char>,
    base: Seq<char>,
)
    requires
        goes_on(acc, base),
    ensures
        #[trigger] goes_on(stmts_text(g, ret, stmts, 0, tail, ind, acc), base),
{
    law_statements_are_added(g, ret, stmts, 0, tail, ind, acc);
    lemma_sum_goes_on(acc, stmts_text(g, ret, stmts, 0, tail, ind, Seq::empty()), base);
}

broadcast group group_goes_on {
    lemma_line_goes_on,
    lemma_sum_goes_on,
    lemma_itself,
    lemma_stmts_go_on,
}

proof fn lemma_fields(
    fs: Seq<StructFieldV>,
    i: int,
    acc: Seq<char>,
    base: Seq<char>,
)
    requires
        goes_on(acc, base),
    ensures
        goes_on(field_lines(fs, i, acc), base),
    decreases fs.len() - i,
{
    broadcast use group_goes_on;

    if 0 <= i < fs.len() {
        let next = line(acc, Seq::empty(), "  "@ + cpp_type(fs[i].ty) + " "@ + fs[i].name + ";"@);
        lemma_fields(fs, i + 1, next, base);
    }
}

proof fn lemma_cases(
    cs: Seq<EnumCaseV>,
    i: int,
    acc: Seq<char>,
    base: Seq<char>,
)
    requires
        goes_on(acc, base),
    ensures
        goes_on(case_lines(cs, i, acc), base),
    decreases cs.len() - i,
{
    broadcast use group_goes_on;

    if 0 <= i < cs.len() {
        let next = line(acc, Seq::empty(), case_text(cs[i]));
        lemma_cases(cs, i + 1, next, base);
    }
}

proof fn lemma_vtable(
    ms: Seq<FunctionV>,
    i: int,
    acc: Seq<char>,
    base: Seq<char>,
)
    requires
        goes_on(acc, base),
    ensures
        goes_on(vtable_lines(ms, i, acc), base),
    decreases ms.len() - i,
{
    broadcast use group_goes_on;

    if 0 <= i < ms.len() {
        let next = line(acc, Seq::empty(), "  "@ + cpp_type(ms[i].return_type) + " (*"@ + ms[i].name + ")(void*"@ + further(param_decls(ms[i].params, 1)) + ");"@);
        lemma_vtable(ms, i + 1, next, base);
    }
}

proof fn lemma_callers(
    ms: Seq<FunctionV>,
    i: int,
    acc: Seq<char>,
    base: Seq<char>,
)
    requires
        goes_on(acc, base),
    ensures
        goes_on(caller_lines(ms, i, acc), base),
    decreases ms.len() - i,
{
    broadcast use group_goes_on;

    if 0 <= i < ms.len() {
        let next = line(acc, Seq::empty(), "  "@ + cpp_type(ms[i].return_type) + " "@ + ms[i].name + "("@ + join_v(param_decls(ms[i].params, 1), ", "@) + ") { return _vt->"@ + ms[i].name + "(_ptr"@ + further(param_names(ms[i].params, 1)) + "); }"@);
        lemma_callers(ms, i + 1, next, base);
    }
}

proof fn lemma_trampoline_decls(
    ps: Seq<ParamV>,
    i: int,
    acc: Seq<char>,
    base: Seq<char>,
)
    requires
        goes_on(acc, base),
    ensures
        goes_on(trampoline_decls(ps, i, acc), base),
    decreases ps.len() - i,
{
    broadcast use group_goes_on;

    if 0 <= i < ps.len() {
        let next = acc + (", "@ + cpp_type(ps[i].ty) + " "@ + ps[i].name);
        lemma_trampoline_decls(ps, i + 1, next, base);
    }
}

proof fn lemma_trampoline_args(
    ps: Seq<ParamV>,
    i: int,
    acc: Seq<char>,
    base: Seq<char>,
)
    requires
        goes_on(acc, base),
    ensures
        goes_on(trampoline_args(ps, i, acc), base),
    decreases ps.len() - i,
{
    broadcast use group_goes_on;

    if 0 <= i < ps.len() {
        let next = acc + (", "@ + ps[i].name);
        lemma_trampoline_args(ps, i + 1, next, base);
    }
}

proof fn lemma_entries(
    tr: Seq<char>,
    target: Seq<char>,
    ms: Seq<FunctionV>,
    i: int,
    acc: Seq<char>,
    base: Seq<char>,
)
    requires
        goes_on(acc, base),
    ensures
        goes_on(entry_lines(tr, target, ms, i, acc), base),
    decreases ms.len() - i,
{
    broadcast use group_goes_on;

    if 0 <= i < ms.len() {
        let next = line(acc, Seq::empty(), "  (decltype("@ + tr + "_vtable::"@ + ms[i].name + "))&"@ + target + "__"@ + ms[i].name + "_vt,"@);
        lemma_entries(tr, target, ms, i + 1, next, base);
    }
}

proof fn lemma_wrappers(
    target: Seq<char>,
    ms: Seq<FunctionV>,
    i: int,
    acc: Seq<char>,
    base: Seq<char>,
)
    requires
        goes_on(acc, base),
    ensures
        goes_on(wrapper_texts(target, ms, i, acc), base),
    decreases ms.len() - i,
{
    broadcast use group_goes_on;

    if 0 <= i < ms.len() {
        let next = acc + ("inline "@ + cpp_type(ms[i].return_type) + " "@ + ms[i].name + "("@ + join_v(param_decls(ms[i].params, 0), ", "@) + ") { return "@ + target + "__"@ + ms[i].name + "("@ + join_v(param_names(ms[i].params, 0), ", "@) + "); }"@);
        lemma_wrappers(target, ms, i + 1, next, base);
    }
}

proof fn lemma_overloads(
    name: Seq<char>,
    ovs: Seq<OverloadV>,
    i: int,
    acc: Seq<char>,
    base: Seq<char>,
)
    requires
        goes_on(acc, base),
    ensures
        goes_on(overload_lines(name, ovs, i, acc), base),
    decreases ovs.len() - i,
{
    broadcast use group_goes_on;

    if 0 <= i < ovs.len() {
        let next = line(acc, Seq::empty(), cpp_type(ovs[i].ret) + " "@ + name + "("@ + join_v(type_texts(ovs[i].params), ", "@) + ");"@);
        lemma_overloads(name, ovs, i + 1, next, base);
    }
}

proof fn lemma_table(
    d: DispatchInfoV,
    combos: Seq<Seq<Seq<char>>>,
    i: int,
    acc: Seq<char>,
    base: Seq<char>,
)
    requires
        goes_on(acc, base),
    ensures
        goes_on(table_lines(d, combos, i, acc), base),
    decreases combos.len() - i,
{
    broadcast use group_goes_on;

    if 0 <= i < combos.len() {
        match best_overload(d, combos[i], 0, None) {
            None => {
                lemma_table(d, combos, i + 1, acc, base);
            },
            Some(k) => {
                let next = line(
                    acc,
                    Seq::empty(),
                    "  _t_"@ + d.name + "["@ + nat_text(dispatch_key(combos[i]) as nat)
                        + "ULL] = []("@ + join_v(arg_decls(dispatch_params(d)), ", "@) + ") -> "@
                        + dispatch_ret(d) + " { return "@ + d.name + "("@ + join_v(
                        call_args_from(d, d.overloads[k], combos[i], 0, 0, Seq::empty()),
                        ", "@,
                    ) + "); };"@,
                );
                lemma_table(d, combos, i + 1, next, base);
            },
        }
    }
}

proof fn lemma_dispatcher(g: InfoV, i: int, acc: Seq<char>, base: Seq<char>)
    requires
        goes_on(acc, base),
    ensures
        goes_on(dispatcher_texts(g, i, acc), base),
    decreases g.dispatch.len() - i,
{
    broadcast use group_goes_on;

    if 0 <= i < g.dispatch.len() {
        let d = g.dispatch[i];
        let none = Seq::<char>::empty();
        let n = d.name;
        let ts = traits_at(d.positions, 0, Seq::empty());
        let a1 = line(
            acc,
            none,
            "// ─── dispatch: "@ + n + " ("@ + nat_text(ts.len()) + "-ary over "@ + join_v(
                ts,
                ", "@,
            ) + ") ───"@,
        );
        let a2 = line(
            a1,
            none,
            "static std::unordered_map<uint64_t, _fn_"@ + n + "> _t_"@ + n + ";"@,
        );
        let a3 = line(
            a2,
            none,
            "static struct { uint64_t k = UINT64_MAX; _fn_"@ + n + " fn = nullptr; } _c_"@ + n
                + ";"@,
        );
        let a4 = line(a3, none, "static struct _Reg_"@ + n + " { _Reg_"@ + n + "() {"@);
        assert(goes_on(a4, base));
        lemma_table(d, cartesian_v(pools_of(g.impls, ts)), 0, a4, base);
        assert(goes_on(dispatcher_text(g, d, acc), base));
        lemma_dispatcher(g, i + 1, dispatcher_text(g, d, acc), base);
    }
}

proof fn lemma_declared(ds: Seq<DispatchInfoV>, i: int, acc: Seq<char>, base: Seq<char>)
    requires
        goes_on(acc, base),
    ensures
        goes_on(dispatch_decl_texts(ds, i, acc), base),
    decreases ds.len() - i,
{
    broadcast use group_goes_on;

    if 0 <= i < ds.len() {
        lemma_overloads(ds[i].name, ds[i].overloads, 0, acc, base);
        assert(goes_on(dispatch_decl_text(ds[i], acc), base));
        lemma_declared(ds, i + 1, dispatch_decl_text(ds[i], acc), base);
    }
}

proof fn lemma_methods(
    g: InfoV,
    target: Seq<char>,
    ms: Seq<FunctionV>,
    i: int,
    acc: Seq<char>,
    base: Seq<char>,
)
    requires
        goes_on(acc, base),
    ensures
        goes_on(methods_text(g, target, ms, i, acc), base),
    decreases ms.len() - i,
{
    if 0 <= i < ms.len() {
        lemma_method(g, target, ms[i], acc, base);
        lemma_methods(g, target, ms, i + 1, method_text(g, target, ms[i], acc), base);
    }
}

proof fn lemma_method(g: InfoV, target: Seq<char>, m: FunctionV, acc: Seq<char>, base: Seq<char>)
    requires
        goes_on(acc, base),
    ensures
        goes_on(method_text(g, target, m, acc), base),
{
    broadcast use group_goes_on;

    let none = Seq::<char>::empty();
    let ret = cpp_type(m.return_type);
    let a1 = acc + ("inline "@ + ret + " "@ + target + "__"@ + m.name + "("@ + join_v(
        param_decls(m.params, 0),
        ", "@,
    ) + ") {"@);
    let a2 = stmts_text(
        g,
        None,
        m.body.stmts,
        0,
        returns_value(m.return_type),
        deeper(none),
        a1,
    );
    let a3 = line(a2, none, "}"@);
    let a4 = a3 + ("inline "@ + ret + " "@ + target + "__"@ + m.name + "_vt(void* self"@);
    assert(goes_on(a4, base));
    lemma_trampoline_decls(m.params, 1, a4, base);
    let a5 = trampoline_decls(m.params, 1, a4);
    let a6 = a5 + (") { return "@ + target + "__"@ + m.name + "(*("@ + target + "*)self"@);
    assert(goes_on(a6, base));
    lemma_trampoline_args(m.params, 1, a6, base);
}

proof fn lemma_impl(g: InfoV, imp: ImplBlockV, acc: Seq<char>, base: Seq<char>)
    requires
        goes_on(acc, base),
    ensures
        goes_on(impl_text(g, imp, acc), base),
{
    broadcast use group_goes_on;

    let none = Seq::<char>::empty();
    let target = impl_target(imp.target_type);
    let tr = imp.trait_name;
    let id = nat_text(type_id(target) as nat);
    let a1 = line(acc, none, "// impl "@ + tr + " for "@ + target + " (id="@ + id + ")"@);
    assert(goes_on(a1, base));
    lemma_methods(g, target, imp.methods, 0, a1, base);
    let a2 = methods_text(g, target, imp.methods, 0, a1);
    let a3 = line(a2, none, "inline "@ + tr + "_vtable __vt_"@ + tr + "_"@ + target + " = {"@);
    let a4 = line(a3, none, "  "@ + id + ","@);
    assert(goes_on(a4, base));
    lemma_entries(tr, target, imp.methods, 0, a4, base);
    let a5 = line(entry_lines(tr, target, imp.methods, 0, a4), none, "};"@);
    let a6 = line(
        a5,
        none,
        "inline "@ + tr + " as_"@ + tr + "("@ + target + "* p) { return { p, &__vt_"@ + tr + "_"@
            + target + " }; }"@,
    );
    assert(goes_on(a6, base));
    lemma_wrappers(target, imp.methods, 0, a6, base);
}

proof fn lemma_type_item(item: ItemV, acc: Seq<char>, base: Seq<char>)
    requires
        goes_on(acc, base),
    ensures
        item matches ItemV::Struct(s) ==> goes_on(struct_text(s, acc), base),
        item matches ItemV::Enum(e) ==> goes_on(enum_text(e, acc), base),
        item matches ItemV::Trait(t) ==> goes_on(trait_text(t, acc), base),
{
    broadcast use group_goes_on;

    let none = Seq::<char>::empty();
    match item {
        ItemV::Struct(s) => {
            let a1 = line(acc, none, "struct "@ + s.name + " {"@);
            lemma_fields(s.fields, 0, a1, base);
        },
        ItemV::Enum(e) => {
            let a1 = line(acc, none, "struct "@ + e.name + " {"@);
            lemma_cases(e.cases, 0, a1, base);
        },
        ItemV::Trait(t) => {
            let a1 = line(acc, none, "// ─── trait "@ + t.name + " ───"@);
            let a2 = line(a1, none, "struct "@ + t.name + "_vtable {"@);
            let a3 = line(a2, none, "  uint32_t type_id;"@);
            assert(goes_on(a3, base));
            lemma_vtable(t.methods, 0, a3, base);
            let a4 = line(vtable_lines(t.methods, 0, a3), none, "};"@);
            let a5 = line(a4, none, "struct "@ + t.name + " {"@);
            let a6 = line(a5, none, "  void* _ptr;"@);
            let a7 = line(a6, none, "  "@ + t.name + "_vtable* _vt;"@);
            assert(goes_on(a7, base));
            lemma_callers(t.methods, 0, a7, base);
        },
        _ => {},
    }
}

proof fn lemma_type_items(items: Seq<ItemV>, i: int, acc: Seq<char>, base: Seq<char>)
    requires
        goes_on(acc, base),
    ensures
        goes_on(type_items(items, i, acc), base),
    decreases items.len() - i,
{
    if 0 <= i < items.len() {
        lemma_type_item(items[i], acc, base);
        let next = match items[i] {
            ItemV::Struct(s) => struct_text(s, acc),
            ItemV::Enum(e) => enum_text(e, acc),
            ItemV::Trait(t) => trait_text(t, acc),
            _ => acc,
        };
        lemma_type_items(items, i + 1, next, base);
    }
}

proof fn lemma_impl_items(g: InfoV, items: Seq<ItemV>, i: int, acc: Seq<char>, base: Seq<char>)
    requires
        goes_on(acc, base),
    ensures
        goes_on(impl_items(g, items, i, acc), base),
    decreases items.len() - i,
{
    if 0 <= i < items.len() {
        match items[i] {
            ItemV::Impl(imp) => {
                lemma_impl(g, imp, acc, base);
                lemma_impl_items(g, items, i + 1, impl_text(g, imp, acc), base);
            },
            _ => {
                lemma_impl_items(g, items, i + 1, acc, base);
            },
        }
    }
}

proof fn lemma_function_items(g: InfoV, items: Seq<ItemV>, i: int, acc: Seq<char>, base: Seq<char>)
    requires
        goes_on(acc, base),
    ensures
        goes_on(function_items(g, items, i, acc), base),
    decreases items.len() - i,
{
    broadcast use group_goes_on;

    if 0 <= i < items.len() {
        match items[i] {
            ItemV::Function(f) => {
                assert(goes_on(function_text(g, f, acc), base));
                lemma_function_items(g, items, i + 1, function_text(g, f, acc), base);
            },
            _ => {
                lemma_function_items(g, items, i + 1, acc, base);
            },
        }
    }
}

// ------------------------------------------------------------- what a module holds

/// A function is its result type, its name and its parameters in order, then the text of
/// its statements, of which the last is returned unless the function gives nothing.
pub proof fn law_function_text(g: InfoV, f: FunctionV, acc: Seq<char>)
    ensures
        function_text(g, f, acc) == acc + cpp_type(f.return_type) + " "@ + f.name + "("@ + join_v(
            Seq::new(f.params.len(), |k: int| cpp_type(f.params[k].ty) + " "@ + f.params[k].name),
            ", "@,
        ) + ") {\n"@ + stmts_text(
            g,
            returned_trait(f.return_type),
            f.body.stmts,
            0,
            !(f.return_type is Unit) && cpp_type(f.return_type) != "void"@,
            "  "@,
            Seq::empty(),
        ) + "}\n\n"@,
{
    let none = Seq::<char>::empty();
    reveal_strlit("\n");
    reveal_strlit(") {");
    reveal_strlit(") {\n");
    reveal_strlit("}");
    reveal_strlit("}\n\n");
    reveal_strlit("  ");
    assert(deeper(none) =~= "  "@);
    let decls = Seq::new(
        f.params.len(),
        |k: int| cpp_type(f.params[k].ty) + " "@ + f.params[k].name,
    );
    assert(param_decls(f.params, 0) =~= decls);
    let head = cpp_type(f.return_type) + " "@ + f.name + "("@ + join_v(decls, ", "@) + ") {"@;
    let a1 = line(acc, none, head);
    let tail = returns_value(f.return_type);
    let ret = returned_trait(f.return_type);
    law_statements_are_added(g, ret, f.body.stmts, 0, tail, "  "@, a1);
    assert(a1 =~= acc + cpp_type(f.return_type) + " "@ + f.name + "("@ + join_v(decls, ", "@)
        + ") {\n"@);
    let body = stmts_text(g, ret, f.body.stmts, 0, tail, "  "@, none);
    assert(line(line(a1 + body, none, "}"@), none, none) =~= a1 + body + "}\n\n"@);
}

/// Every function of a module is in its text, whole.
pub proof fn law_every_function_is_there(items: Seq<ItemV>, i: int, f: FunctionV)
    requires
        0 <= i < items.len(),
        items[i] == ItemV::Function(f),
    ensures
        holds(cpp_text_of(items), function_text(info_of(items), f, Seq::empty())),
{
    let g = info_of(items);
    let a1 = type_items(items, 0, preamble(items));
    let a2 = dispatch_decls(g.dispatch, a1);
    let a3 = impl_items(g, items, 0, a2);
    let a4 = function_items(g, items, 0, a3);
    lemma_function_is_there(g, items, 0, i, f, a3);
    lemma_itself(a4);
    lemma_dispatcher(g, 0, a4, a4);
    lemma_still_holds(cpp_text_of(items), a4, function_text(g, f, Seq::empty()));
}

proof fn lemma_function_is_there(
    g: InfoV,
    items: Seq<ItemV>,
    j: int,
    i: int,
    f: FunctionV,
    acc: Seq<char>,
)
    requires
        0 <= j <= i < items.len(),
        items[i] == ItemV::Function(f),
    ensures
        holds(function_items(g, items, j, acc), function_text(g, f, Seq::empty())),
    decreases i - j,
{
    if j < i {
        match items[j] {
            ItemV::Function(h) => {
                lemma_function_is_there(g, items, j + 1, i, f, function_text(g, h, acc));
            },
            _ => {
                lemma_function_is_there(g, items, j + 1, i, f, acc);
            },
        }
    } else {
        let none = Seq::<char>::empty();
        let next = function_text(g, f, acc);
        let part = function_text(g, f, none);
        law_function_text(g, f, acc);
        law_function_text(g, f, none);
        assert(acc + part + none =~= next);
        lemma_between(acc, part, none);
        lemma_itself(next);
        lemma_function_items(g, items, j + 1, next, next);
        lemma_still_holds(function_items(g, items, j, acc), next, part);
    }
}

/// Every struct of a module is in its text with each of its fields.
pub proof fn law_every_field_is_there(items: Seq<ItemV>, i: int, s: StructV, k: int)
    requires
        0 <= i < items.len(),
        items[i] == ItemV::Struct(s),
        0 <= k < s.fields.len(),
    ensures
        holds(cpp_text_of(items), "struct "@ + s.name + " {"@),
        holds(
            cpp_text_of(items),
            "  "@ + cpp_type(s.fields[k].ty) + " "@ + s.fields[k].name + ";"@,
        ),
{
    let head = "struct "@ + s.name + " {"@;
    let field = "  "@ + cpp_type(s.fields[k].ty) + " "@ + s.fields[k].name + ";"@;
    lemma_struct_is_there(items, 0, i, s, k, preamble(items));
    lemma_after_types(items, head);
    lemma_after_types(items, field);
}

/// What the types of a module hold, its text holds.
proof fn lemma_after_types(items: Seq<ItemV>, part: Seq<char>)
    requires
        holds(type_items(items, 0, preamble(items)), part),
    ensures
        holds(cpp_text_of(items), part),
{
    broadcast use group_goes_on;

    let g = info_of(items);
    let a1 = type_items(items, 0, preamble(items));
    let none = Seq::<char>::empty();
    let first = line(a1, none, "// ─── dynamic dispatch declarations ───"@);
    lemma_declared(g.dispatch, 0, first, a1);
    let a2 = dispatch_decls(g.dispatch, a1);
    assert(goes_on(a2, a1));
    lemma_impl_items(g, items, 0, a2, a1);
    let a3 = impl_items(g, items, 0, a2);
    lemma_function_items(g, items, 0, a3, a1);
    let a4 = function_items(g, items, 0, a3);
    lemma_dispatcher(g, 0, a4, a1);
    lemma_still_holds(cpp_text_of(items), a1, part);
}

proof fn lemma_struct_is_there(
    items: Seq<ItemV>,
    j: int,
    i: int,
    s: StructV,
    k: int,
    acc: Seq<char>,
)
    requires
        0 <= j <= i < items.len(),
        items[i] == ItemV::Struct(s),
        0 <= k < s.fields.len(),
    ensures
        holds(type_items(items, j, acc), "struct "@ + s.name + " {"@),
        holds(
            type_items(items, j, acc),
            "  "@ + cpp_type(s.fields[k].ty) + " "@ + s.fields[k].name + ";"@,
        ),
    decreases i - j,
{
    broadcast use group_goes_on;

    if j < i {
        let next = match items[j] {
            ItemV::Struct(x) => struct_text(x, acc),
            ItemV::Enum(e) => enum_text(e, acc),
            ItemV::Trait(t) => trait_text(t, acc),
            _ => acc,
        };
        lemma_struct_is_there(items, j + 1, i, s, k, next);
    } else {
        let none = Seq::<char>::empty();
        let head = "struct "@ + s.name + " {"@;
        let field = "  "@ + cpp_type(s.fields[k].ty) + " "@ + s.fields[k].name + ";"@;
        let a1 = line(acc, none, head);
        lemma_line(acc, none, head);
        lemma_itself(a1);
        lemma_fields(s.fields, 0, a1, a1);
        let a2 = field_lines(s.fields, 0, a1);
        lemma_field_is_there(s.fields, 0, k, a1);
        let next = struct_text(s, acc);
        assert(goes_on(next, a2));
        lemma_still_holds(a2, a1, head);
        lemma_still_holds(next, a2, head);
        lemma_still_holds(next, a2, field);
        lemma_type_items(items, j + 1, next, next);
        lemma_still_holds(type_items(items, j, acc), next, head);
        lemma_still_holds(type_items(items, j, acc), next, field);
    }
}

proof fn lemma_field_is_there(fs: Seq<StructFieldV>, j: int, k: int, acc: Seq<char>)
    requires
        0 <= j <= k < fs.len(),
    ensures
        holds(
            field_lines(fs, j, acc),
            "  "@ + cpp_type(fs[k].ty) + " "@ + fs[k].name + ";"@,
        ),
    decreases k - j,
{
    let s = "  "@ + cpp_type(fs[j].ty) + " "@ + fs[j].name + ";"@;
    let next = line(acc, Seq::empty(), s);
    if j < k {
        lemma_field_is_there(fs, j + 1, k, next);
    } else {
        lemma_line(acc, Seq::empty(), s);
        lemma_itself(next);
        lemma_fields(fs, j + 1, next, next);
        lemma_still_holds(field_lines(fs, j, acc), next, s);
    }
}

// ---------------------------------------------------------------------- expressions

/// The operands of an operator stand in brackets around its sign, which is the one that the
/// program writes, and in the order of the program.
pub proof fn law_operation_text(g: InfoV, k: TokenKindV, op: BinOp, l: ExprV, r: ExprV, span: Span)
    requires
        bin_op_of(k) == Some(op),
    ensures
        expr_text(
            g,
            ExprV {
                kind: ExprKindV::Binary { op, left: Box::new(l), right: Box::new(r) },
                span,
            },
        ) == "("@ + expr_text(g, l) + " "@ + kind_text(k) + " "@ + expr_text(g, r) + ")"@,
{
    law_operator_text(k);
}

/// The text of a number that is not negative, of a truth value and of a plain text is one
/// token, which is read as that number, that truth value or that text.
pub proof fn law_literals_read_back(g: InfoV, n: i64, b: bool, s: Seq<char>, span: Span)
    ensures
        n >= 0 ==> ({
            let text = expr_text(g, ExprV { kind: ExprKindV::IntLiteral(n), span });
            reads_as(text, 0, text.len() as int, TokenKindV::IntLiteral(n))
        }),
        ({
            let text = expr_text(g, ExprV { kind: ExprKindV::BoolLiteral(b), span });
            reads_as(
                text,
                0,
                text.len() as int,
                if b {
                    TokenKindV::True
                } else {
                    TokenKindV::False
                },
            )
        }),
        all_in_quotes(s) == s ==> ({
            let text = expr_text(g, ExprV { kind: ExprKindV::StringLiteral(s), span });
            reads_as(text, 0, text.len() as int, TokenKindV::StringLiteral(s))
        }),
{
    if n >= 0 {
        let text = nat_text(n as nat);
        lemma_numeral(n as nat);
        assert(text.subrange(0, text.len() as int) =~= text);
        lemma_unmarked(text);
        law_number_is_read(text, 0, text, n as nat);
    }
    reveal(kind_text);
    law_kinds_lex_back(TokenKindV::True);
    law_kinds_lex_back(TokenKindV::False);
    if all_in_quotes(s) == s {
        reveal_strlit("\"");
        let text = "\""@ + s + "\""@;
        assert(text.subrange(1, 1 + s.len() as int) =~= s);
        law_quoted_text_is_read(text, 0, s);
    }
}

proof fn lemma_numeral(n: nat)
    ensures
        nat_text(n).len() > 0,
        forall|i: int| 0 <= i < nat_text(n).len() ==> is_digit(#[trigger] nat_text(n)[i]),
    decreases n,
{
    if n >= 10 {
        lemma_numeral(n / 10);
        let s = nat_text(n / 10);
        assert forall|i: int| 0 <= i < nat_text(n).len() implies is_digit(
            #[trigger] nat_text(n)[i],
        ) by {
            if i < s.len() {
                assert(nat_text(n)[i] == s[i]);
            }
        }
    }
}

proof fn lemma_unmarked(s: Seq<char>)
    requires
        forall|i: int| 0 <= i < s.len() ==> is_digit(#[trigger] s[i]),
    ensures
        unmarked(s) == s,
    decreases s.len(),
{
    if s.len() > 0 {
        let rest = s.subrange(1, s.len() as int);
        assert forall|i: int| 0 <= i < rest.len() implies is_digit(#[trigger] rest[i]) by {
            assert(rest[i] == s[i + 1]);
        }
        lemma_unmarked(rest);
        assert(is_digit(s[0]));
        assert(seq![s[0]] + rest =~= s);
    }
}

/// One more argument of a plain call stands last in its brackets.
pub proof fn law_argument_text(
    g: InfoV,
    name: Seq<char>,
    args: Seq<ExprV>,
    last: ExprV,
    at: Span,
    span: Span,
)
    requires
        !is_dispatched(g.dispatch, name),
        !g.trait_methods.contains(name),
    ensures
        ({
            let func = ExprV { kind: ExprKindV::Ident(name), span: at };
            let shorter = expr_text(g, call_expr(func, args, span));
            shorter.len() > 0 && expr_text(g, call_expr(func, args.push(last), span))
                == shorter.drop_last() + (if args.len() == 0 {
                ""@
            } else {
                ", "@
            }) + expr_text(g, last) + ")"@
        }),
{
    let func = ExprV { kind: ExprKindV::Ident(name), span: at };
    let a = expr_texts(g, args);
    let b = expr_texts(g, args.push(last));
    let head = runtime_name(name) + "("@;
    let sep = ", "@;
    reveal_strlit("");
    reveal_strlit(")");
    assert(b =~= a.push(expr_text(g, last))) by {
        assert forall|i: int| 0 <= i < b.len() implies b[i] == #[trigger] a.push(
            expr_text(g, last),
        )[i] by {
            if i < args.len() {
                assert(args.push(last)[i] == args[i]);
            }
        }
    }
    lemma_joined(a, expr_text(g, last), sep, 0, Seq::empty());
    let shorter = head + join_v(a, sep) + ")"@;
    assert(expr_text(g, call_expr(func, args, span)) == shorter);
    assert(shorter.drop_last() =~= head + join_v(a, sep));
    assert(expr_text(g, call_expr(func, args.push(last), span)) == head + join_v(b, sep) + ")"@);
    let between = if args.len() == 0 {
        ""@
    } else {
        sep
    };
    assert(head + join_v(b, sep) + ")"@ =~= shorter.drop_last() + between + expr_text(g, last)
        + ")"@);
}

/// A built-in type is written as the type that it is known to stand for.
pub proof fn law_built_in_types(name: Seq<char>, t: TypeV)
    requires
        built_in().types.contains_key(name),
        built_in().types[name] == TypeInfoV::Alias(t),
    ensures
        cpp_type(named_type(name)) == type_text(t),
{
    reveal_strlit("Int");
    reveal_strlit("Float");
    reveal_strlit("Bool");
    reveal_strlit("Char");
    reveal_strlit("String");
    assert("Bool"@[0] == 'B');
    assert("Char"@[0] == 'C');
    assert("Int"@[0] == 'I');
    assert("Float"@[0] == 'F');
    assert("String"@[0] == 'S');
    let known = primitive_name(name);
    let none = Seq::<char>::empty();
    assert(t == named_type(known));
    assert(none + known =~= known);
    let from = simple_path(name).segments;
    let to = simple_path(known).segments;
    assert(cpp_segments(from, 0, none) == cpp_segments(from, 1, none + known));
    assert(cpp_segments(from, 1, known) == known);
    assert(path_text(to, 0, none) == path_text(to, 1, known));
    assert(path_text(to, 1, known) == known);
}

/// Every case of an enum that is not generic is in the text of its module, with the type of
/// what it carries.
pub proof fn law_every_case_is_there(items: Seq<ItemV>, i: int, e: EnumV, k: int)
    requires
        0 <= i < items.len(),
        items[i] == ItemV::Enum(e),
        e.generics.len() == 0,
        0 <= k < e.cases.len(),
    ensures
        holds(cpp_text_of(items), "struct "@ + e.name + " {"@),
        holds(
            cpp_text_of(items),
            "  struct "@ + e.cases[k].name + (match e.cases[k].payload {
                None => "_t {};"@,
                Some(t) => "_t { "@ + cpp_type(t) + " value; };"@,
            }),
        ),
{
    let head = "struct "@ + e.name + " {"@;
    let case = case_text(e.cases[k]);
    if let Some(t) = e.cases[k].payload {
        assert(case =~= "  struct "@ + e.cases[k].name + ("_t { "@ + cpp_type(t) + " value; };"@));
    }
    lemma_enum_is_there(items, 0, i, e, k, preamble(items));
    lemma_after_types(items, head);
    lemma_after_types(items, case);
}

proof fn lemma_enum_is_there(
    items: Seq<ItemV>,
    j: int,
    i: int,
    e: EnumV,
    k: int,
    acc: Seq<char>,
)
    requires
        0 <= j <= i < items.len(),
        items[i] == ItemV::Enum(e),
        e.generics.len() == 0,
        0 <= k < e.cases.len(),
    ensures
        holds(type_items(items, j, acc), "struct "@ + e.name + " {"@),
        holds(type_items(items, j, acc), case_text(e.cases[k])),
    decreases i - j,
{
    broadcast use group_goes_on;

    if j < i {
        let next = match items[j] {
            ItemV::Struct(x) => struct_text(x, acc),
            ItemV::Enum(x) => enum_text(x, acc),
            ItemV::Trait(t) => trait_text(t, acc),
            _ => acc,
        };
        lemma_enum_is_there(items, j + 1, i, e, k, next);
    } else {
        let none = Seq::<char>::empty();
        let head = "struct "@ + e.name + " {"@;
        let a1 = line(acc, none, head);
        lemma_line(acc, none, head);
        lemma_itself(a1);
        lemma_cases(e.cases, 0, a1, a1);
        let a2 = case_lines(e.cases, 0, a1);
        lemma_case_is_there(e.cases, 0, k, a1);
        let next = enum_text(e, acc);
        assert(goes_on(next, a2));
        lemma_still_holds(a2, a1, head);
        lemma_still_holds(next, a2, head);
        lemma_still_holds(next, a2, case_text(e.cases[k]));
        lemma_type_items(items, j + 1, next, next);
        lemma_still_holds(type_items(items, j, acc), next, head);
        lemma_still_holds(type_items(items, j, acc), next, case_text(e.cases[k]));
    }
}

proof fn lemma_case_is_there(cs: Seq<EnumCaseV>, j: int, k: int, acc: Seq<char>)
    requires
        0 <= j <= k < cs.len(),
    ensures
        holds(case_lines(cs, j, acc), case_text(cs[k])),
    decreases k - j,
{
    let s = case_text(cs[j]);
    let next = line(acc, Seq::empty(), s);
    if j < k {
        lemma_case_is_there(cs, j + 1, k, next);
    } else {
        lemma_line(acc, Seq::empty(), s);
        lemma_itself(next);
        lemma_cases(cs, j + 1, next, next);
        lemma_still_holds(case_lines(cs, j, acc), next, s);
    }
}

// --------------------------------------------------------------------------- members

/// The constructor of a struct takes its fields in their order, and sets each to what is
/// given for it.
pub proof fn law_constructor(s: StructV, acc: Seq<char>)
    requires
        s.fields.len() > 0,
    ensures
        holds(
            struct_text(s, acc),
            "  "@ + s.name + "("@ + join_v(
                Seq::new(
                    s.fields.len(),
                    |k: int| cpp_type(s.fields[k].ty) + " "@ + s.fields[k].name,
                ),
                ", "@,
            ) + ") : "@ + join_v(
                Seq::new(s.fields.len(), |k: int| s.fields[k].name + "("@ + s.fields[k].name + ")"@),
                ", "@,
            ) + " {}"@,
        ),
{
    broadcast use group_goes_on;

    let none = Seq::<char>::empty();
    let decls = Seq::new(
        s.fields.len(),
        |k: int| cpp_type(s.fields[k].ty) + " "@ + s.fields[k].name,
    );
    let sets = Seq::new(s.fields.len(), |k: int| s.fields[k].name + "("@ + s.fields[k].name + ")"@);
    assert(field_decls(s.fields) =~= decls);
    assert(field_setters(s.fields) =~= sets);
    let part = "  "@ + s.name + "("@ + join_v(decls, ", "@) + ") : "@ + join_v(sets, ", "@) + " {}"@;
    let a2 = field_lines(s.fields, 0, line(acc, none, "struct "@ + s.name + " {"@));
    let a3 = line(a2, none, part);
    lemma_line(a2, none, part);
    assert(goes_on(struct_text(s, acc), a3));
    lemma_still_holds(struct_text(s, acc), a3, part);
}

/// The place of a method in the table of its trait.
pub open spec fn slot_text(m: FunctionV) -> Seq<char> {
    "  "@ + cpp_type(m.return_type) + " (*"@ + m.name + ")(void*"@ + further(
        param_decls(m.params, 1),
    ) + ");"@
}

/// The call of a method through the table, with everything that is given for its parameters.
pub open spec fn through_text(m: FunctionV) -> Seq<char> {
    "  "@ + cpp_type(m.return_type) + " "@ + m.name + "("@ + join_v(
        param_decls(m.params, 1),
        ", "@,
    ) + ") { return _vt->"@ + m.name + "(_ptr"@ + further(param_names(m.params, 1)) + "); }"@
}

/// Each method of a trait has a place in the table of the trait and is called through it.
pub proof fn law_every_method_is_there(t: TraitDefV, k: int, acc: Seq<char>)
    requires
        0 <= k < t.methods.len(),
    ensures
        holds(trait_text(t, acc), slot_text(t.methods[k])),
        holds(trait_text(t, acc), through_text(t.methods[k])),
{
    broadcast use group_goes_on;

    let none = Seq::<char>::empty();
    let a1 = line(acc, none, "// ─── trait "@ + t.name + " ───"@);
    let a2 = line(a1, none, "struct "@ + t.name + "_vtable {"@);
    let a3 = line(a2, none, "  uint32_t type_id;"@);
    let slots = vtable_lines(t.methods, 0, a3);
    lemma_slot_is_there(t.methods, 0, k, a3);
    let a4 = line(slots, none, "};"@);
    let a5 = line(a4, none, "struct "@ + t.name + " {"@);
    let a6 = line(a5, none, "  void* _ptr;"@);
    let a7 = line(a6, none, "  "@ + t.name + "_vtable* _vt;"@);
    assert(goes_on(a7, slots));
    lemma_callers(t.methods, 0, a7, slots);
    let calls = caller_lines(t.methods, 0, a7);
    lemma_through_is_there(t.methods, 0, k, a7);
    assert(goes_on(trait_text(t, acc), calls));
    lemma_goes_on(slots, calls, trait_text(t, acc));
    lemma_still_holds(trait_text(t, acc), slots, slot_text(t.methods[k]));
    lemma_still_holds(trait_text(t, acc), calls, through_text(t.methods[k]));
}

proof fn lemma_slot_is_there(ms: Seq<FunctionV>, j: int, k: int, acc: Seq<char>)
    requires
        0 <= j <= k < ms.len(),
    ensures
        holds(vtable_lines(ms, j, acc), slot_text(ms[k])),
    decreases k - j,
{
    let part = slot_text(ms[j]);
    let next = line(acc, Seq::empty(), part);
    if j < k {
        lemma_slot_is_there(ms, j + 1, k, next);
    } else {
        lemma_line(acc, Seq::empty(), part);
        lemma_itself(next);
        lemma_vtable(ms, j + 1, next, next);
        lemma_still_holds(vtable_lines(ms, j, acc), next, part);
    }
}

proof fn lemma_through_is_there(ms: Seq<FunctionV>, j: int, k: int, acc: Seq<char>)
    requires
        0 <= j <= k < ms.len(),
    ensures
        holds(caller_lines(ms, j, acc), through_text(ms[k])),
    decreases k - j,
{
    let part = through_text(ms[j]);
    let next = line(acc, Seq::empty(), part);
    if j < k {
        lemma_through_is_there(ms, j + 1, k, next);
    } else {
        lemma_line(acc, Seq::empty(), part);
        lemma_itself(next);
        lemma_callers(ms, j + 1, next, next);
        lemma_still_holds(caller_lines(ms, j, acc), next, part);
    }
}

/// The place of a method of a type in the table of the type.
pub open spec fn entry_text(tr: Seq<char>, target: Seq<char>, m: FunctionV) -> Seq<char> {
    "  (decltype("@ + tr + "_vtable::"@ + m.name + "))&"@ + target + "__"@ + m.name + "_vt,"@
}

/// The free function that stands for a method of a type, and hands on all that it is given.
pub open spec fn free_text(target: Seq<char>, m: FunctionV) -> Seq<char> {
    "inline "@ + cpp_type(m.return_type) + " "@ + m.name + "("@ + join_v(
        param_decls(m.params, 0),
        ", "@,
    ) + ") { return "@ + target + "__"@ + m.name + "("@ + join_v(param_names(m.params, 0), ", "@)
        + "); }"@
}

/// Each method of an impl is there with its statements, has its place in the table of the
/// type, and can be called by its own name.
pub proof fn law_every_impl_is_there(g: InfoV, imp: ImplBlockV, k: int, acc: Seq<char>)
    requires
        0 <= k < imp.methods.len(),
    ensures
        ({
            let m = imp.methods[k];
            let target = impl_target(imp.target_type);
            &&& holds(
                impl_text(g, imp, acc),
                "inline "@ + cpp_type(m.return_type) + " "@ + target + "__"@ + m.name + "("@
                    + join_v(param_decls(m.params, 0), ", "@) + ") {"@ + stmts_text(
                    g,
                    None,
                    m.body.stmts,
                    0,
                    returns_value(m.return_type),
                    "  "@,
                    Seq::empty(),
                ),
            )
            &&& holds(impl_text(g, imp, acc), entry_text(imp.trait_name, target, m))
            &&& holds(impl_text(g, imp, acc), free_text(target, m))
        }),
{
    broadcast use group_goes_on;

    let none = Seq::<char>::empty();
    let m = imp.methods[k];
    let target = impl_target(imp.target_type);
    let tr = imp.trait_name;
    let id = nat_text(type_id(target) as nat);
    let a1 = line(acc, none, "// impl "@ + tr + " for "@ + target + " (id="@ + id + ")"@);
    let a2 = methods_text(g, target, imp.methods, 0, a1);
    lemma_body_is_there(g, target, imp.methods, 0, k, a1);
    let a3 = line(a2, none, "inline "@ + tr + "_vtable __vt_"@ + tr + "_"@ + target + " = {"@);
    let a4 = line(a3, none, "  "@ + id + ","@);
    assert(goes_on(a4, a2));
    let entries = entry_lines(tr, target, imp.methods, 0, a4);
    lemma_entries(tr, target, imp.methods, 0, a4, a2);
    lemma_entry_is_there(tr, target, imp.methods, 0, k, a4);
    let a5 = line(entries, none, "};"@);
    let a6 = line(
        a5,
        none,
        "inline "@ + tr + " as_"@ + tr + "("@ + target + "* p) { return { p, &__vt_"@ + tr + "_"@
            + target + " }; }"@,
    );
    assert(goes_on(a6, entries));
    let wrappers = wrapper_texts(target, imp.methods, 0, a6);
    lemma_wrappers(target, imp.methods, 0, a6, entries);
    lemma_free_is_there(target, imp.methods, 0, k, a6);
    let all = impl_text(g, imp, acc);
    assert(goes_on(all, wrappers));
    lemma_goes_on(entries, wrappers, all);
    lemma_goes_on(a2, entries, all);
    lemma_still_holds(all, wrappers, free_text(target, m));
    lemma_still_holds(all, entries, entry_text(tr, target, m));
    lemma_still_holds(all, a2, body_text(g, target, m));
}

spec fn body_text(g: InfoV, target: Seq<char>, m: FunctionV) -> Seq<char> {
    "inline "@ + cpp_type(m.return_type) + " "@ + target + "__"@ + m.name + "("@ + join_v(
        param_decls(m.params, 0),
        ", "@,
    ) + ") {"@ + stmts_text(
        g,
        None,
        m.body.stmts,
        0,
        returns_value(m.return_type),
        "  "@,
        Seq::empty(),
    )
}

proof fn lemma_body_is_there(
    g: InfoV,
    target: Seq<char>,
    ms: Seq<FunctionV>,
    j: int,
    k: int,
    acc: Seq<char>,
)
    requires
        0 <= j <= k < ms.len(),
    ensures
        holds(methods_text(g, target, ms, j, acc), body_text(g, target, ms[k])),
    decreases k - j,
{
    broadcast use group_goes_on;

    let m = ms[j];
    let next = method_text(g, target, m, acc);
    if j < k {
        lemma_body_is_there(g, target, ms, j + 1, k, next);
    } else {
        let none = Seq::<char>::empty();
        let ret = cpp_type(m.return_type);
        let head = "inline "@ + ret + " "@ + target + "__"@ + m.name + "("@ + join_v(
            param_decls(m.params, 0),
            ", "@,
        ) + ") {"@;
        let tail = returns_value(m.return_type);
        assert(deeper(none) =~= "  "@);
        let a2 = stmts_text(g, None, m.body.stmts, 0, tail, "  "@, acc + head);
        law_statements_are_added(g, None, m.body.stmts, 0, tail, "  "@, acc + head);
        let inner = stmts_text(g, None, m.body.stmts, 0, tail, "  "@, none);
        lemma_between(acc, head + inner, none);
        assert(a2 =~= acc + (head + inner) + none);
        let a4 = line(a2, none, "}"@) + ("inline "@ + ret + " "@ + target + "__"@ + m.name
            + "_vt(void* self"@);
        assert(goes_on(a4, a2));
        lemma_trampoline_decls(m.params, 1, a4, a2);
        let a6 = trampoline_decls(m.params, 1, a4) + (") { return "@ + target + "__"@ + m.name
            + "(*("@ + target + "*)self"@);
        assert(goes_on(a6, a2));
        lemma_trampoline_args(m.params, 1, a6, a2);
        assert(goes_on(next, a2));
        lemma_still_holds(next, a2, body_text(g, target, m));
        lemma_methods(g, target, ms, j + 1, next, next);
        lemma_still_holds(methods_text(g, target, ms, j, acc), next, body_text(g, target, m));
    }
}

proof fn lemma_entry_is_there(
    tr: Seq<char>,
    target: Seq<char>,
    ms: Seq<FunctionV>,
    j: int,
    k: int,
    acc: Seq<char>,
)
    requires
        0 <= j <= k < ms.len(),
    ensures
        holds(entry_lines(tr, target, ms, j, acc), entry_text(tr, target, ms[k])),
    decreases k - j,
{
    let part = entry_text(tr, target, ms[j]);
    let next = line(acc, Seq::empty(), part);
    if j < k {
        lemma_entry_is_there(tr, target, ms, j + 1, k, next);
    } else {
        lemma_line(acc, Seq::empty(), part);
        lemma_itself(next);
        lemma_entries(tr, target, ms, j + 1, next, next);
        lemma_still_holds(entry_lines(tr, target, ms, j, acc), next, part);
    }
}

proof fn lemma_free_is_there(target: Seq<char>, ms: Seq<FunctionV>, j: int, k: int, acc: Seq<char>)
    requires
        0 <= j <= k < ms.len(),
    ensures
        holds(wrapper_texts(target, ms, j, acc), free_text(target, ms[k])),
    decreases k - j,
{
    let part = free_text(target, ms[j]);
    let next = acc + part;
    if j < k {
        lemma_free_is_there(target, ms, j + 1, k, next);
    } else {
        lemma_between(acc, part, Seq::empty());
        assert(acc + part + Seq::<char>::empty() =~= next);
        lemma_itself(next);
        lemma_wrappers(target, ms, j + 1, next, next);
        lemma_still_holds(wrapper_texts(target, ms, j, acc), next, part);
    }
}

} // verus!
