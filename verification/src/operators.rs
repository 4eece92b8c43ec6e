//! What the operators mean, and that the checker, lowering and evaluation agree on it.
//!
//! An operator is known by the sign that a program writes for it. Its results are stated in
//! mathematical integers, and its types by the values that it gives.
use vstd::prelude::*;

verus! {

use crate::ast::{BinOp, UnaryOp, cpp_op_text, named_type, path_text, type_text, types_text};
use crate::grammar::segment_names;
use crate::host::{HostV, StopV};
use crate::interp_model::{Ran, binary_result, unary_result, value_type};
use crate::model::{PathSegmentV, TypeV};
use crate::mono_model::operator_type;
use crate::paths::path_key;
use crate::text::{join_from, join_v};
use crate::token::Span;
use crate::typeck::{accepts, c_operation};
use crate::value::ValueV;

// ------------------------------------------------------------------------- numbers

/// A machine number stands for an integer: it is that integer where 64 bits hold it, and
/// else differs from it by a multiple of two to the 64th.
pub open spec fn stands_for(r: i64, n: int) -> bool {
    &&& i64::MIN <= n <= i64::MAX ==> r == n
    &&& (n - r) % 0x1_0000_0000_0000_0000 == 0
}

/// The number that an operation gave.
pub open spec fn gave_number(r: Ran, n: int) -> bool {
    r matches Ok(ValueV::Int(m)) && stands_for(m, n)
}

/// `+`, `-` and `*` on numbers are those of integers.
pub proof fn law_sums_and_products(h: HostV, op: BinOp, a: i64, b: i64, span: Span)
    ensures
        ({
            let r = binary_result(h, op, ValueV::Int(a), ValueV::Int(b), span);
            &&& cpp_op_text(op) == "+"@ ==> gave_number(r, a + b)
            &&& cpp_op_text(op) == "-"@ ==> gave_number(r, a - b)
            &&& cpp_op_text(op) == "*"@ ==> gave_number(r, a * b)
        }),
{
    lemma_signs(op);
}

/// `/` and `%` on numbers: the quotient times the divisor and the remainder make up the
/// dividend, the remainder is smaller than the divisor and has the sign of the dividend.
/// There is no value exactly where the divisor is zero or the quotient does not fit.
pub proof fn law_quotients_and_remainders(h: HostV, div: BinOp, rem: BinOp, a: i64, b: i64, span: Span)
    requires
        cpp_op_text(div) == "/"@,
        cpp_op_text(rem) == "%"@,
    ensures
        ({
            let q = binary_result(h, div, ValueV::Int(a), ValueV::Int(b), span);
            let r = binary_result(h, rem, ValueV::Int(a), ValueV::Int(b), span);
            if b == 0 || (a == i64::MIN && b == -1) {
                q is Err && r is Err
            } else {
                &&& q matches Ok(ValueV::Int(m))
                &&& r matches Ok(ValueV::Int(n))
                &&& m * b + n == a
                &&& -size(b as int) < n < size(b as int)
                &&& n != 0 ==> (n < 0 <==> a < 0)
            }
        }),
{
    lemma_signs(div);
    lemma_signs(rem);
    let x = a as int;
    let d = b as int;
    if b != 0 {
        lemma_division(size(x), size(d));
        let q = size(x) / size(d);
        let r = size(x) % size(d);
        assert((q * -1) * d == q * (d * -1)) by (nonlinear_arith);
        assert(x * -1 == -x && d * -1 == -d);
        assert(size(d) == 1 ==> q * size(d) == q) by (nonlinear_arith);
        let m = if (x < 0) == (d < 0) {
            q
        } else {
            q * -1
        };
        let n = if x < 0 {
            r * -1
        } else {
            r
        };
        assert(x == 0 ==> q == 0) by (nonlinear_arith)
            requires
                q == size(x) / size(d),
                size(d) > 0,
                x == 0 ==> size(x) == 0,
        ;
        assert(x == 0 ==> r == 0);
        assert(m * d + n == x) by {
            assert((x < 0) == (d < 0) ==> m * d == q * d);
            assert((-q) * (-d) == q * d) by (nonlinear_arith);
            assert(q * (-d) == -(q * d)) by (nonlinear_arith);
            assert((q * -1) * d == -(q * d)) by (nonlinear_arith);
        }
        if a == i64::MIN && b == -1 {
            assert(a.checked_div(b) is None);
        } else {
            assert(i64::MIN <= m <= i64::MAX);
            assert(a.checked_div(b) == Some(m as i64));
            assert(a.checked_rem(b) == Some(n as i64));
        }
    }
}

/// The size of a number, without its sign.
pub open spec fn size(n: int) -> int {
    if n < 0 {
        -n
    } else {
        n
    }
}

proof fn lemma_division(n: int, m: int)
    requires
        n >= 0,
        m > 0,
    ensures
        0 <= n / m <= n,
        (n / m) * m + n % m == n,
        0 <= n % m < m,
        m > 1 ==> 2 * (n / m) <= n,
{
    let q = n / m;
    assert(0 <= q <= n && q * m + n % m == n && 0 <= n % m < m) by (nonlinear_arith)
        requires
            n >= 0,
            m > 0,
            q == n / m,
    ;
    if m > 1 {
        assert(2 * q <= q * m) by (nonlinear_arith)
            requires
                q >= 0,
                m >= 2,
        ;
    }
}

/// The comparisons of numbers are those of integers.
pub proof fn law_comparisons(h: HostV, op: BinOp, a: i64, b: i64, span: Span)
    ensures
        ({
            let r = binary_result(h, op, ValueV::Int(a), ValueV::Int(b), span);
            let (x, y) = (a as int, b as int);
            &&& cpp_op_text(op) == "<"@ ==> r == Ok::<ValueV, StopV>(ValueV::Bool(x < y))
            &&& cpp_op_text(op) == ">"@ ==> r == Ok::<ValueV, StopV>(ValueV::Bool(x > y))
            &&& cpp_op_text(op) == "<="@ ==> r == Ok::<ValueV, StopV>(ValueV::Bool(x <= y))
            &&& cpp_op_text(op) == ">="@ ==> r == Ok::<ValueV, StopV>(ValueV::Bool(x >= y))
            &&& cpp_op_text(op) == "=="@ ==> r == Ok::<ValueV, StopV>(ValueV::Bool(x == y))
            &&& cpp_op_text(op) == "!="@ ==> r == Ok::<ValueV, StopV>(ValueV::Bool(x != y))
        }),
{
    lemma_signs(op);
}

/// `&&` holds of two truths where both hold, `||` where one does.
pub proof fn law_logic(h: HostV, op: BinOp, a: bool, b: bool, span: Span)
    ensures
        ({
            let r = binary_result(h, op, ValueV::Bool(a), ValueV::Bool(b), span);
            &&& cpp_op_text(op) == "&&"@ ==> r == Ok::<ValueV, StopV>(ValueV::Bool(a && b))
            &&& cpp_op_text(op) == "||"@ ==> r == Ok::<ValueV, StopV>(ValueV::Bool(a || b))
            &&& cpp_op_text(op) == "=="@ ==> r == Ok::<ValueV, StopV>(ValueV::Bool(a == b))
            &&& cpp_op_text(op) == "!="@ ==> r == Ok::<ValueV, StopV>(ValueV::Bool(a != b))
        }),
{
    lemma_signs(op);
}

/// `+` on texts puts the second behind the first; equal texts are equal, and no others.
pub proof fn law_texts(h: HostV, op: BinOp, a: Seq<char>, b: Seq<char>, span: Span)
    ensures
        ({
            let r = binary_result(h, op, ValueV::String(a), ValueV::String(b), span);
            &&& cpp_op_text(op) == "+"@ ==> (r matches Ok(ValueV::String(s)) && s.len() == a.len()
                + b.len() && s.take(a.len() as int) == a && s.skip(a.len() as int) == b)
            &&& cpp_op_text(op) == "=="@ ==> r == Ok::<ValueV, StopV>(ValueV::Bool(a == b))
            &&& cpp_op_text(op) == "!="@ ==> r == Ok::<ValueV, StopV>(ValueV::Bool(a != b))
        }),
{
    lemma_signs(op);
    assert((a + b).take(a.len() as int) =~= a);
    assert((a + b).skip(a.len() as int) =~= b);
}

/// A number and its negative make nothing together; a truth and its negation differ.
pub proof fn law_prefixes(h: HostV, a: i64, b: bool, span: Span)
    ensures
        gave_number(unary_result(h, UnaryOp::Neg, ValueV::Int(a), span), -a),
        unary_result(h, UnaryOp::Not, ValueV::Bool(b), span) == Ok::<ValueV, StopV>(
            ValueV::Bool(!b),
        ),
        unary_result(h, UnaryOp::Neg, ValueV::Bool(b), span) is Err,
        unary_result(h, UnaryOp::Not, ValueV::Int(a), span) is Err,
{
}

// --------------------------------------------------------------------------- types

/// The value is one of this type.
pub open spec fn has_type(v: ValueV, t: TypeV) -> bool {
    value_type(v) matches Some(n) && t == named_type(n)
}

/// The key of a path of one name is the name.
pub proof fn lemma_named_key(n: Seq<char>)
    ensures
        named_type(n) is Path,
        path_key(named_type(n)->Path_0) == n,
{
    let p = named_type(n)->Path_0;
    let names = segment_names(p.segments);
    assert(names.len() == 1 && names[0] == n);
    let none = Seq::<char>::empty();
    assert(join_v(names, "::"@) == join_from(names, "::"@, 0, none));
    assert(join_from(names, "::"@, 0, none) == join_from(names, "::"@, 1, none + n));
    assert(none + n =~= n);
}

proof fn lemma_path_text_grows(segs: Seq<PathSegmentV>, i: int, acc: Seq<char>, k: int)
    requires
        0 <= k < acc.len(),
    ensures
        path_text(segs, i, acc).len() >= acc.len(),
        path_text(segs, i, acc)[k] == acc[k],
    decreases segs.len() - i,
{
    if 0 <= i < segs.len() {
        let acc1 = if i > 0 {
            acc + "::"@ + segs[i].name
        } else {
            acc + segs[i].name
        };
        let acc2 = if segs[i].args.len() > 0 {
            acc1 + "["@ + types_text(segs[i].args, 0, Seq::empty()) + "]"@
        } else {
            acc1
        };
        lemma_path_text_grows(segs, i + 1, acc2, k);
    }
}

/// Only the type of one plain name is written as a word.
proof fn lemma_written_string(t: TypeV)
    ensures
        type_text(t) == "String"@ <==> t == named_type("String"@),
{
    reveal_strlit("String");
    reveal_strlit("@");
    reveal_strlit("(");
    reveal_strlit("()");
    reveal_strlit("!");
    reveal_strlit("[");
    reveal_strlit("::");
    let word = "String"@;
    let none = Seq::<char>::empty();
    assert(word[0] == 'S' && word.len() == 6);
    assert forall|k: int| 0 <= k < word.len() implies word[k] != '[' && word[k] != ':' by {
        assert(word[1] == 't' && word[2] == 'r' && word[3] == 'i' && word[4] == 'n' && word[5]
            == 'g');
    }
    let text = type_text(t);
    let named = named_type(word);
    assert(named->Path_0.segments.len() == 1);
    assert(named->Path_0.segments[0].name == word);
    assert(named->Path_0.segments[0].args.len() == 0);
    match t {
        TypeV::Path(p) => {
            let segs = p.segments;
            if segs.len() == 0 {
                assert(path_text(segs, 0, none) == none);
            }
            if segs.len() > 0 {
                let acc1 = none + segs[0].name;
                assert(acc1 =~= segs[0].name);
                let args = "["@ + types_text(segs[0].args, 0, none) + "]"@;
                let acc2 = if segs[0].args.len() > 0 {
                    acc1 + "["@ + types_text(segs[0].args, 0, none) + "]"@
                } else {
                    acc1
                };
                assert(text == path_text(segs, 0, none));
                assert(path_text(segs, 0, none) == path_text(segs, 1, acc2)) by {
                    reveal_with_fuel(path_text, 3);
                }
                let k = acc1.len() as int;
                if segs[0].args.len() > 0 {
                    assert(acc2[k] == '[');
                    lemma_path_text_grows(segs, 1, acc2, k);
                    assert(text[k] == '[');
                    assert(text != word);
                } else if segs.len() > 1 {
                    let acc3 = acc2 + "::"@ + segs[1].name;
                    let acc4 = if segs[1].args.len() > 0 {
                        acc3 + "["@ + types_text(segs[1].args, 0, none) + "]"@
                    } else {
                        acc3
                    };
                    assert(acc4[k] == ':');
                    assert(path_text(segs, 1, acc2) == path_text(segs, 2, acc4)) by {
                        reveal_with_fuel(path_text, 3);
                    }
                    lemma_path_text_grows(segs, 2, acc4, k);
                    assert(text[k] == ':');
                    assert(text != word);
                } else {
                    assert(path_text(segs, 1, acc2) == acc2) by {
                        reveal_with_fuel(path_text, 3);
                    }
                    assert(text == segs[0].name);
                    assert(segs[0].args =~= Seq::empty());
                    assert(segs =~= seq![PathSegmentV { name: segs[0].name, args: Seq::empty() }]);
                }
            }
        },
        TypeV::GcRef(inner) => {
            assert(text[0] == '@');
        },
        TypeV::Function(ft) => {
            assert(text[0] == '(');
        },
        TypeV::Tuple(ts) => {
            assert(text[0] == '(');
        },
        _ => {},
    }
}

proof fn lemma_named_types()
    ensures
        forall|m: Seq<char>, n: Seq<char>|
            #![trigger accepts(named_type(m), named_type(n))]
            accepts(named_type(m), named_type(n)) <==> m == n,
        forall|n: Seq<char>| (#[trigger] type_text(named_type(n))) == "String"@ <==> n == "String"@,
{
    assert forall|m: Seq<char>, n: Seq<char>|
        #![trigger accepts(named_type(m), named_type(n))]
        accepts(named_type(m), named_type(n)) <==> m == n by {
        lemma_named_key(m);
        lemma_named_key(n);
    }
    assert forall|n: Seq<char>| (#[trigger] type_text(named_type(n))) == "String"@ <==> n
        == "String"@ by {
        lemma_written_string(named_type(n));
        lemma_named_key(n);
        lemma_named_key("String"@);
    }
}

proof fn lemma_basic_names_differ()
    ensures
        "Int"@ != "Bool"@,
        "Int"@ != "String"@,
        "Int"@ != "Float"@,
        "Bool"@ != "String"@,
        "Bool"@ != "Float"@,
        "String"@ != "Float"@,
{
    reveal_strlit("Int");
    reveal_strlit("Bool");
    reveal_strlit("String");
    reveal_strlit("Float");
    assert("Int"@[0] == 'I' && "Bool"@[0] == 'B' && "String"@[0] == 'S' && "Float"@[0] == 'F');
}

/// The checker and evaluation agree on operators. Where an operation on values of checked
/// types has a type and a value, the value is of the type. Where one on two values of one
/// type (no floats, on which the outside computes) has a value, it has a type. Operands of
/// different types have none.
pub proof fn law_results_have_their_types(
    h: HostV,
    op: BinOp,
    l: ValueV,
    lt: TypeV,
    ls: Span,
    r: ValueV,
    rt: TypeV,
    rs: Span,
    span: Span,
)
    requires
        has_type(l, lt),
        has_type(r, rt),
    ensures
        ({
            let value = binary_result(h, op, l, r, span);
            let ty = c_operation(op, lt, ls, rt, rs, span);
            &&& value is Ok && ty is Ok ==> has_type(value->Ok_0, ty->Ok_0)
            &&& lt == rt && !(l is Float) && !(r is Float) && value is Ok ==> ty is Ok
            &&& lt != rt ==> ty is Err
        }),
{
    lemma_named_types();
    lemma_basic_names_differ();
    lemma_named_key(value_type(l)->0);
    lemma_named_key(value_type(r)->0);
}

/// Comparisons, `&&` and `||` are truths whatever they are applied to, and no arithmetic is.
pub proof fn law_truths(op: BinOp, lt: TypeV, ls: Span, rt: TypeV, rs: Span, span: Span)
    ensures
        ({
            let s = cpp_op_text(op);
            let truth = s == "=="@ || s == "!="@ || s == "<"@ || s == ">"@ || s == "<="@ || s
                == ">="@ || s == "&&"@ || s == "||"@;
            let b = named_type("Bool"@);
            &&& c_operation(op, lt, ls, rt, rs, span) matches Ok(t) ==> (t == b <==> truth)
            &&& operator_type(op, lt, rt) == b <==> truth
            &&& (s == "&&"@ || s == "||"@) && lt == b && rt == b ==> c_operation(
                op,
                lt,
                ls,
                rt,
                rs,
                span,
            ) is Ok
            &&& (s == "&&"@ || s == "||"@) && c_operation(op, lt, ls, rt, rs, span) is Ok
                ==> accepts(b, lt) && accepts(b, rt)
        }),
{
    lemma_signs(op);
    lemma_named_types();
    lemma_basic_names_differ();
    lemma_named_key("Bool"@);
    lemma_named_key("Int"@);
    lemma_named_key("String"@);
}

/// Lowering gives an operation the type that the checker gives it, so that an instance made
/// for it takes it.
pub proof fn law_lowering_agrees(op: BinOp, lt: TypeV, ls: Span, rt: TypeV, rs: Span, span: Span)
    ensures
        c_operation(op, lt, ls, rt, rs, span) matches Ok(t) ==> operator_type(op, lt, rt) == t,
{
    lemma_written_string(lt);
    lemma_written_string(rt);
}

/// No two operators are written alike, and each as its name says.
pub proof fn lemma_signs(op: BinOp)
    ensures
        cpp_op_text(op) == "+"@ ==> op is Add,
        cpp_op_text(op) == "-"@ ==> op is Sub,
        cpp_op_text(op) == "*"@ ==> op is Mul,
        cpp_op_text(op) == "/"@ ==> op is Div,
        cpp_op_text(op) == "%"@ ==> op is Mod,
        cpp_op_text(op) == "=="@ ==> op is Eq,
        cpp_op_text(op) == "!="@ ==> op is NotEq,
        cpp_op_text(op) == "<"@ ==> op is Lt,
        cpp_op_text(op) == ">"@ ==> op is Gt,
        cpp_op_text(op) == "<="@ ==> op is LtEq,
        cpp_op_text(op) == ">="@ ==> op is GtEq,
        cpp_op_text(op) == "&&"@ ==> op is And,
        cpp_op_text(op) == "||"@ ==> op is Or,
{
    reveal_strlit("+");
    reveal_strlit("-");
    reveal_strlit("*");
    reveal_strlit("/");
    reveal_strlit("%");
    reveal_strlit("==");
    reveal_strlit("!=");
    reveal_strlit("<");
    reveal_strlit(">");
    reveal_strlit("<=");
    reveal_strlit(">=");
    reveal_strlit("&&");
    reveal_strlit("||");
    let s = cpp_op_text(op);
    assert("+"@[0] == '+' && "-"@[0] == '-' && "*"@[0] == '*' && "/"@[0] == '/');
    assert("%"@[0] == '%' && "<"@[0] == '<' && ">"@[0] == '>');
    assert("=="@[0] == '=' && "!="@[0] == '!' && "<="@[0] == '<' && ">="@[0] == '>');
    assert("&&"@[0] == '&' && "||"@[0] == '|');
    assert("<"@.len() == 1 && "<="@.len() == 2 && ">"@.len() == 1 && ">="@.len() == 2);
}

} // verus!
