//! The debug text of syntax trees.
use vstd::prelude::*;
use crate::ast::{
    BinOp, Block, Enum, EnumCase, Expr, ExprKind, Function, FunctionType, GenericParam, ImplBlock,
    Item, LiteralPat, MacroCallItem, MacroDef, MatchArm, Param, Path, PathSegment, Pattern,
    PatternKind, Struct, StructField, TraitDef, Type, TypeAlias, UnaryOp, VarDecl,
};
use crate::model::{
    BlockV, EnumCaseV, EnumV, ExprKindV, ExprV, FunctionTypeV, FunctionV, GenericParamV, ImplBlockV,
    ItemV, LiteralPatV, MacroCallItemV, MacroDefV, MatchArmV, ParamV, PathSegmentV, PathV,
    PatternKindV, PatternV, StructFieldV, StructV, TraitDefV, TypeAliasV, TypeV, VarDeclV,
};
use crate::text::{cat3, show_i64, show_usize};
use crate::token::Span;

verus! {

use crate::model::{
    block_v, enum_case_v, enum_cases_v, enum_v, expr_v, exprs_v, field_inits_v, field_patterns_v,
    function_type_v, function_v, functions_v, generic_param_v, generic_params_v, impl_block_v,
    items_v, macro_call_item_v, macro_def_v, match_arm_v, match_arms_v, param_v, params_v,
    path_segment_v, path_segments_v, path_v, pattern_v, patterns_v, struct_field_v, struct_fields_v,
    struct_v, trait_def_v, type_alias_v, types_v, var_decl_v,
};
use crate::text::{int_text, nat_text, opt_str_v, strs_v};

/// What the `Debug` of `str` writes.
pub uninterp spec fn debug_str(s: Seq<char>) -> Seq<char>;

/// What the `Debug` of `char` writes.
pub uninterp spec fn debug_char(c: char) -> Seq<char>;

/// Calls the `Debug` of `str`, which quotes and escapes the text.
#[verifier::external_body]
pub(crate) fn show_debug_str(s: &str) -> (r: String)
    ensures
        r@ == debug_str(s@),
{
    format!("{:?}", s)
}

/// Calls the `Debug` of `char`, which quotes and escapes the character.
#[verifier::external_body]
pub(crate) fn show_debug_char(c: char) -> (r: String)
    ensures
        r@ == debug_char(c),
{
    format!("{:?}", c)
}

pub open spec fn debug_bool(b: bool) -> Seq<char> {
    if b {
        "true"@
    } else {
        "false"@
    }
}

pub fn show_debug_bool(b: bool) -> (r: String)
    ensures
        r@ == debug_bool(b),
{
    if b {
        "true".to_owned()
    } else {
        "false".to_owned()
    }
}

/// A decimal number is written with a point.
pub open spec fn debug_float(s: Seq<char>) -> Seq<char> {
    if s.contains('.') {
        s
    } else {
        s + ".0"@
    }
}

fn show_debug_float(s: &str) -> (r: String)
    ensures
        r@ == debug_float(s@),
{
    let chars = crate::text::chars_of(s);
    let mut i: usize = 0;
    while i < chars.len()
        invariant
            i <= chars.len(),
            chars@ == s@,
            forall|k: int| 0 <= k < i ==> s@[k] != '.',
        decreases chars.len() - i,
    {
        if chars[i] == '.' {
            assert(s@[i as int] == '.');
            return s.to_owned();
        }
        i = i + 1;
    }
    crate::text::cat2(s, ".0")
}

pub open spec fn debug_span(s: Span) -> Seq<char> {
    "Span { start: "@ + nat_text(s.start as nat) + ", end: "@ + nat_text(s.end as nat) + ", line: "@
        + nat_text(s.line as nat) + ", col: "@ + nat_text(s.col as nat) + " }"@
}

pub fn show_debug_span(s: Span) -> (r: String)
    ensures
        r@ == debug_span(s),
{
    let mut t = "Span { start: ".to_owned();
    t.append(&show_usize(s.start));
    t.append(", end: ");
    t.append(&show_usize(s.end));
    t.append(", line: ");
    t.append(&show_usize(s.line));
    t.append(", col: ");
    t.append(&show_usize(s.col));
    t.append(" }");
    t
}

pub open spec fn debug_bin_op(op: BinOp) -> Seq<char> {
    match op {

        BinOp::Add => "Add"@,
        BinOp::Sub => "Sub"@,
        BinOp::Mul => "Mul"@,
        BinOp::Div => "Div"@,
        BinOp::Mod => "Mod"@,
        BinOp::Eq => "Eq"@,
        BinOp::NotEq => "NotEq"@,
        BinOp::Lt => "Lt"@,
        BinOp::Gt => "Gt"@,
        BinOp::LtEq => "LtEq"@,
        BinOp::GtEq => "GtEq"@,
        BinOp::And => "And"@,
        BinOp::Or => "Or"@,
    }
}

fn show_debug_bin_op(op: BinOp) -> (r: String)
    ensures
        r@ == debug_bin_op(op),
{
    match op {
        BinOp::Add => "Add".to_owned(),
        BinOp::Sub => "Sub".to_owned(),
        BinOp::Mul => "Mul".to_owned(),
        BinOp::Div => "Div".to_owned(),
        BinOp::Mod => "Mod".to_owned(),
        BinOp::Eq => "Eq".to_owned(),
        BinOp::NotEq => "NotEq".to_owned(),
        BinOp::Lt => "Lt".to_owned(),
        BinOp::Gt => "Gt".to_owned(),
        BinOp::LtEq => "LtEq".to_owned(),
        BinOp::GtEq => "GtEq".to_owned(),
        BinOp::And => "And".to_owned(),
        BinOp::Or => "Or".to_owned(),
    }
}

pub open spec fn debug_unary_op(op: UnaryOp) -> Seq<char> {
    match op {
        UnaryOp::Neg => "Neg"@,
        UnaryOp::Not => "Not"@,
    }
}

fn show_debug_unary_op(op: UnaryOp) -> (r: String)
    ensures
        r@ == debug_unary_op(op),
{
    match op {
        UnaryOp::Neg => "Neg".to_owned(),
        UnaryOp::Not => "Not".to_owned(),
    }
}

pub open spec fn debug_opt_str(o: Option<Seq<char>>) -> Seq<char> {
    match o {
        None => "None"@,
        Some(s) => "Some("@ + debug_str(s) + ")"@,
    }
}

pub fn show_debug_opt_str(o: &Option<String>) -> (r: String)
    ensures
        r@ == debug_opt_str(opt_str_v(*o)),
{
    match o {
        None => "None".to_owned(),
        Some(s) => cat3("Some(", &show_debug_str(s), ")"),
    }
}

/// `acc` and then the texts from `i` on, with commas between them.
pub open spec fn debug_strs(xs: Seq<Seq<char>>, i: int, acc: Seq<char>) -> Seq<char>
    decreases xs.len() - i,
{
    if 0 <= i < xs.len() {
        debug_strs(
            xs,
            i + 1,
            if i > 0 {
                acc + ", "@ + debug_str(xs[i])
            } else {
                acc + debug_str(xs[i])
            },
        )
    } else {
        acc + "]"@
    }
}

pub fn show_debug_strs(xs: &Vec<String>) -> (r: String)
    ensures
        r@ == debug_strs(strs_v(xs@), 0, "["@),
{
    let mut s = "[".to_owned();
    let mut i: usize = 0;
    while i < xs.len()
        invariant
            i <= xs.len(),
            debug_strs(strs_v(xs@), 0, "["@) == debug_strs(strs_v(xs@), i as int, s@),
        decreases xs.len() - i,
    {
        if i > 0 {
            s.append(", ");
        }
        s.append(&show_debug_str(&xs[i]));
        i = i + 1;
    }
    s.append("]");
    s
}

pub open spec fn debug_item(x: ItemV) -> Seq<char>
    decreases x, 0int,
{
    match x {
        ItemV::Function(y0) => "Function("@ + debug_function(y0) + ")"@,
        ItemV::Struct(y0) => "Struct("@ + debug_struct(y0) + ")"@,
        ItemV::Enum(y0) => "Enum("@ + debug_enum(y0) + ")"@,
        ItemV::Macro(y0) => "Macro("@ + debug_macro_def(y0) + ")"@,
        ItemV::TypeAlias(y0) => "TypeAlias("@ + debug_type_alias(y0) + ")"@,
        ItemV::VarDecl(y0) => "VarDecl("@ + debug_var_decl(y0) + ")"@,
        ItemV::MacroCall(y0) => "MacroCall("@ + debug_macro_call_item(y0) + ")"@,
        ItemV::Trait(y0) => "Trait("@ + debug_trait_def(y0) + ")"@,
        ItemV::Impl(y0) => "Impl("@ + debug_impl_block(y0) + ")"@,
    }
}

impl Item {
    /// The debug text.
    pub fn debug(&self) -> (r: String)
        ensures
            r@ == debug_item(self@),
        decreases self,
    {
        match self {
            Item::Function(y0) => cat3("Function(", &y0.debug(), ")"),
            Item::Struct(y0) => cat3("Struct(", &y0.debug(), ")"),
            Item::Enum(y0) => cat3("Enum(", &y0.debug(), ")"),
            Item::Macro(y0) => cat3("Macro(", &y0.debug(), ")"),
            Item::TypeAlias(y0) => cat3("TypeAlias(", &y0.debug(), ")"),
            Item::VarDecl(y0) => cat3("VarDecl(", &y0.debug(), ")"),
            Item::MacroCall(y0) => cat3("MacroCall(", &y0.debug(), ")"),
            Item::Trait(y0) => cat3("Trait(", &y0.debug(), ")"),
            Item::Impl(y0) => cat3("Impl(", &y0.debug(), ")"),
        }
    }
}

pub open spec fn debug_function(x: FunctionV) -> Seq<char>
    decreases x, 0int,
{
    "Function { name: "@ + debug_str(x.name) + ", generics: "@
        + debug_generic_params(x.generics, 0, "["@) + ", params: "@
        + debug_params(x.params, 0, "["@) + ", return_type: "@ + debug_type(x.return_type)
        + ", body: "@ + debug_block(x.body) + ", is_pub: "@ + debug_bool(x.is_pub) + ", span: "@
        + debug_span(x.span) + " }"@
}

impl Function {
    /// The debug text.
    pub fn debug(&self) -> (r: String)
        ensures
            r@ == debug_function(self@),
        decreases self,
    {
        let ghost g = function_v(*self);
        let mut s = "Function { name: ".to_owned();
        s.append(&show_debug_str(&self.name));
        s.append(", generics: ");
        s.append(&show_debug_generic_params(&self.generics));
        s.append(", params: ");
        s.append(&show_debug_params(&self.params));
        s.append(", return_type: ");
        s.append(&self.return_type.debug());
        s.append(", body: ");
        s.append(&self.body.debug());
        s.append(", is_pub: ");
        s.append(&show_debug_bool(self.is_pub));
        s.append(", span: ");
        s.append(&show_debug_span(self.span));
        s.append(" }");
        s
    }
}

pub open spec fn debug_param(x: ParamV) -> Seq<char>
    decreases x, 0int,
{
    "Param { name: "@ + debug_str(x.name) + ", ty: "@ + debug_type(x.ty) + ", named: "@
        + debug_bool(x.named) + ", default: "@ + (match x.default {
            None => "None"@,
            Some(y) => "Some("@ + debug_expr(y) + ")"@,
        }) + ", span: "@ + debug_span(x.span) + " }"@
}

impl Param {
    /// The debug text.
    pub fn debug(&self) -> (r: String)
        ensures
            r@ == debug_param(self@),
        decreases self,
    {
        let ghost g = param_v(*self);
        let mut s = "Param { name: ".to_owned();
        s.append(&show_debug_str(&self.name));
        s.append(", ty: ");
        s.append(&self.ty.debug());
        s.append(", named: ");
        s.append(&show_debug_bool(self.named));
        s.append(", default: ");
        s.append(&(match &self.default {
            None => "None".to_owned(),
            Some(y) => cat3("Some(", &y.debug(), ")"),
        }));
        s.append(", span: ");
        s.append(&show_debug_span(self.span));
        s.append(" }");
        s
    }
}

pub open spec fn debug_struct(x: StructV) -> Seq<char>
    decreases x, 0int,
{
    "Struct { name: "@ + debug_str(x.name) + ", generics: "@
        + debug_generic_params(x.generics, 0, "["@) + ", fields: "@
        + debug_struct_fields(x.fields, 0, "["@) + ", is_pub: "@ + debug_bool(x.is_pub)
        + ", span: "@ + debug_span(x.span) + " }"@
}

impl Struct {
    /// The debug text.
    pub fn debug(&self) -> (r: String)
        ensures
            r@ == debug_struct(self@),
        decreases self,
    {
        let ghost g = struct_v(*self);
        let mut s = "Struct { name: ".to_owned();
        s.append(&show_debug_str(&self.name));
        s.append(", generics: ");
        s.append(&show_debug_generic_params(&self.generics));
        s.append(", fields: ");
        s.append(&show_debug_struct_fields(&self.fields));
        s.append(", is_pub: ");
        s.append(&show_debug_bool(self.is_pub));
        s.append(", span: ");
        s.append(&show_debug_span(self.span));
        s.append(" }");
        s
    }
}

pub open spec fn debug_struct_field(x: StructFieldV) -> Seq<char>
    decreases x, 0int,
{
    "StructField { name: "@ + debug_str(x.name) + ", ty: "@ + debug_type(x.ty) + ", span: "@
        + debug_span(x.span) + " }"@
}

impl StructField {
    /// The debug text.
    pub fn debug(&self) -> (r: String)
        ensures
            r@ == debug_struct_field(self@),
        decreases self,
    {
        let ghost g = struct_field_v(*self);
        let mut s = "StructField { name: ".to_owned();
        s.append(&show_debug_str(&self.name));
        s.append(", ty: ");
        s.append(&self.ty.debug());
        s.append(", span: ");
        s.append(&show_debug_span(self.span));
        s.append(" }");
        s
    }
}

pub open spec fn debug_enum(x: EnumV) -> Seq<char>
    decreases x, 0int,
{
    "Enum { name: "@ + debug_str(x.name) + ", generics: "@
        + debug_generic_params(x.generics, 0, "["@) + ", cases: "@
        + debug_enum_cases(x.cases, 0, "["@) + ", is_pub: "@ + debug_bool(x.is_pub) + ", span: "@
        + debug_span(x.span) + " }"@
}

impl Enum {
    /// The debug text.
    pub fn debug(&self) -> (r: String)
        ensures
            r@ == debug_enum(self@),
        decreases self,
    {
        let ghost g = enum_v(*self);
        let mut s = "Enum { name: ".to_owned();
        s.append(&show_debug_str(&self.name));
        s.append(", generics: ");
        s.append(&show_debug_generic_params(&self.generics));
        s.append(", cases: ");
        s.append(&show_debug_enum_cases(&self.cases));
        s.append(", is_pub: ");
        s.append(&show_debug_bool(self.is_pub));
        s.append(", span: ");
        s.append(&show_debug_span(self.span));
        s.append(" }");
        s
    }
}

pub open spec fn debug_enum_case(x: EnumCaseV) -> Seq<char>
    decreases x, 0int,
{
    "EnumCase { name: "@ + debug_str(x.name) + ", payload: "@ + (match x.payload {
        None => "None"@,
        Some(y) => "Some("@ + debug_type(y) + ")"@,
    }) + ", span: "@ + debug_span(x.span) + " }"@
}

impl EnumCase {
    /// The debug text.
    pub fn debug(&self) -> (r: String)
        ensures
            r@ == debug_enum_case(self@),
        decreases self,
    {
        let ghost g = enum_case_v(*self);
        let mut s = "EnumCase { name: ".to_owned();
        s.append(&show_debug_str(&self.name));
        s.append(", payload: ");
        s.append(&(match &self.payload {
            None => "None".to_owned(),
            Some(y) => cat3("Some(", &y.debug(), ")"),
        }));
        s.append(", span: ");
        s.append(&show_debug_span(self.span));
        s.append(" }");
        s
    }
}

pub open spec fn debug_type_alias(x: TypeAliasV) -> Seq<char>
    decreases x, 0int,
{
    "TypeAlias { name: "@ + debug_str(x.name) + ", generics: "@
        + debug_generic_params(x.generics, 0, "["@) + ", ty: "@ + debug_type(x.ty) + ", span: "@
        + debug_span(x.span) + " }"@
}

impl TypeAlias {
    /// The debug text.
    pub fn debug(&self) -> (r: String)
        ensures
            r@ == debug_type_alias(self@),
        decreases self,
    {
        let ghost g = type_alias_v(*self);
        let mut s = "TypeAlias { name: ".to_owned();
        s.append(&show_debug_str(&self.name));
        s.append(", generics: ");
        s.append(&show_debug_generic_params(&self.generics));
        s.append(", ty: ");
        s.append(&self.ty.debug());
        s.append(", span: ");
        s.append(&show_debug_span(self.span));
        s.append(" }");
        s
    }
}

pub open spec fn debug_var_decl(x: VarDeclV) -> Seq<char>
    decreases x, 0int,
{
    "VarDecl { name: "@ + debug_str(x.name) + ", ty: "@ + (match x.ty {
        None => "None"@,
        Some(y) => "Some("@ + debug_type(y) + ")"@,
    }) + ", value: "@ + (match x.value {
        None => "None"@,
        Some(y) => "Some("@ + debug_expr(y) + ")"@,
    }) + ", is_mut: "@ + debug_bool(x.is_mut) + ", span: "@ + debug_span(x.span) + " }"@
}

impl VarDecl {
    /// The debug text.
    pub fn debug(&self) -> (r: String)
        ensures
            r@ == debug_var_decl(self@),
        decreases self,
    {
        let ghost g = var_decl_v(*self);
        let mut s = "VarDecl { name: ".to_owned();
        s.append(&show_debug_str(&self.name));
        s.append(", ty: ");
        s.append(&(match &self.ty {
            None => "None".to_owned(),
            Some(y) => cat3("Some(", &y.debug(), ")"),
        }));
        s.append(", value: ");
        s.append(&(match &self.value {
            None => "None".to_owned(),
            Some(y) => cat3("Some(", &y.debug(), ")"),
        }));
        s.append(", is_mut: ");
        s.append(&show_debug_bool(self.is_mut));
        s.append(", span: ");
        s.append(&show_debug_span(self.span));
        s.append(" }");
        s
    }
}

pub open spec fn debug_generic_param(x: GenericParamV) -> Seq<char>
    decreases x, 0int,
{
    "GenericParam { name: "@ + debug_str(x.name) + ", span: "@ + debug_span(x.span) + " }"@
}

impl GenericParam {
    /// The debug text.
    pub fn debug(&self) -> (r: String)
        ensures
            r@ == debug_generic_param(self@),
        decreases self,
    {
        let ghost g = generic_param_v(*self);
        let mut s = "GenericParam { name: ".to_owned();
        s.append(&show_debug_str(&self.name));
        s.append(", span: ");
        s.append(&show_debug_span(self.span));
        s.append(" }");
        s
    }
}

pub open spec fn debug_type(x: TypeV) -> Seq<char>
    decreases x, 0int,
{
    match x {
        TypeV::Path(y0) => "Path("@ + debug_path(y0) + ")"@,
        TypeV::GcRef(y0) => "GcRef("@ + debug_type(*y0) + ")"@,
        TypeV::Function(y0) => "Function("@ + debug_function_type(y0) + ")"@,
        TypeV::Tuple(y0) => "Tuple("@ + debug_types(y0, 0, "["@) + ")"@,
        TypeV::Unit => "Unit"@,
        TypeV::Never => "Never"@,
    }
}

impl Type {
    /// The debug text.
    pub fn debug(&self) -> (r: String)
        ensures
            r@ == debug_type(self@),
        decreases self,
    {
        match self {
            Type::Path(y0) => cat3("Path(", &y0.debug(), ")"),
            Type::GcRef(y0) => cat3("GcRef(", &y0.debug(), ")"),
            Type::Function(y0) => cat3("Function(", &y0.debug(), ")"),
            Type::Tuple(y0) => cat3("Tuple(", &show_debug_types(y0), ")"),
            Type::Unit => "Unit".to_owned(),
            Type::Never => "Never".to_owned(),
        }
    }
}

pub open spec fn debug_function_type(x: FunctionTypeV) -> Seq<char>
    decreases x, 0int,
{
    "FunctionType { params: "@ + debug_types(x.params, 0, "["@) + ", ret: "@ + debug_type(*x.ret)
        + " }"@
}

impl FunctionType {
    /// The debug text.
    pub fn debug(&self) -> (r: String)
        ensures
            r@ == debug_function_type(self@),
        decreases self,
    {
        let ghost g = function_type_v(*self);
        let mut s = "FunctionType { params: ".to_owned();
        s.append(&show_debug_types(&self.params));
        s.append(", ret: ");
        s.append(&self.ret.debug());
        s.append(" }");
        s
    }
}

pub open spec fn debug_path(x: PathV) -> Seq<char>
    decreases x, 0int,
{
    "Path { segments: "@ + debug_path_segments(x.segments, 0, "["@) + " }"@
}

impl Path {
    /// The debug text.
    pub fn debug(&self) -> (r: String)
        ensures
            r@ == debug_path(self@),
        decreases self,
    {
        let ghost g = path_v(*self);
        let mut s = "Path { segments: ".to_owned();
        s.append(&show_debug_path_segments(&self.segments));
        s.append(" }");
        s
    }
}

pub open spec fn debug_path_segment(x: PathSegmentV) -> Seq<char>
    decreases x, 0int,
{
    "PathSegment { name: "@ + debug_str(x.name) + ", args: "@ + debug_types(x.args, 0, "["@) + " }"@
}

impl PathSegment {
    /// The debug text.
    pub fn debug(&self) -> (r: String)
        ensures
            r@ == debug_path_segment(self@),
        decreases self,
    {
        let ghost g = path_segment_v(*self);
        let mut s = "PathSegment { name: ".to_owned();
        s.append(&show_debug_str(&self.name));
        s.append(", args: ");
        s.append(&show_debug_types(&self.args));
        s.append(" }");
        s
    }
}

pub open spec fn debug_expr(x: ExprV) -> Seq<char>
    decreases x, 0int,
{
    "Expr { kind: "@ + debug_expr_kind(x.kind) + ", span: "@ + debug_span(x.span) + " }"@
}

impl Expr {
    /// The debug text.
    pub fn debug(&self) -> (r: String)
        ensures
            r@ == debug_expr(self@),
        decreases self,
    {
        let ghost g = expr_v(*self);
        let mut s = "Expr { kind: ".to_owned();
        s.append(&self.kind.debug());
        s.append(", span: ");
        s.append(&show_debug_span(self.span));
        s.append(" }");
        s
    }
}

pub open spec fn debug_expr_kind(x: ExprKindV) -> Seq<char>
    decreases x, 0int,
{
    match x {
        ExprKindV::IntLiteral(y0) => "IntLiteral("@ + int_text(y0 as int) + ")"@,
        ExprKindV::FloatLiteral(y0) => "FloatLiteral("@ + debug_float(y0) + ")"@,
        ExprKindV::StringLiteral(y0) => "StringLiteral("@ + debug_str(y0) + ")"@,
        ExprKindV::CharLiteral(y0) => "CharLiteral("@ + debug_char(y0) + ")"@,
        ExprKindV::BoolLiteral(y0) => "BoolLiteral("@ + debug_bool(y0) + ")"@,
        ExprKindV::NilLiteral => "NilLiteral"@,
        ExprKindV::Ident(y0) => "Ident("@ + debug_str(y0) + ")"@,
        ExprKindV::Path(y0) => "Path("@ + debug_strs(y0, 0, "["@) + ")"@,
        ExprKindV::Block(y0) => "Block("@ + debug_block(y0) + ")"@,
        ExprKindV::Binary { op, left, right } => "Binary { op: "@ + debug_bin_op(op) + ", left: "@
            + debug_expr(*left) + ", right: "@ + debug_expr(*right) + " }"@,
        ExprKindV::Unary { op, expr } => "Unary { op: "@ + debug_unary_op(op) + ", expr: "@
            + debug_expr(*expr) + " }"@,
        ExprKindV::Call { func, args } => "Call { func: "@ + debug_expr(*func) + ", args: "@
            + debug_exprs(args, 0, "["@) + " }"@,
        ExprKindV::Field { object, field } => "Field { object: "@ + debug_expr(*object)
            + ", field: "@ + debug_str(field) + " }"@,
        ExprKindV::Index { object, index } => "Index { object: "@ + debug_expr(*object)
            + ", index: "@ + debug_expr(*index) + " }"@,
        ExprKindV::DotAccess { object, field } => "DotAccess { object: "@ + debug_expr(*object)
            + ", field: "@ + debug_str(field) + " }"@,
        ExprKindV::Let { name, ty, value, is_mut } => "Let { name: "@ + debug_str(name)
            + ", ty: "@ + (match ty {
                None => "None"@,
                Some(y) => "Some("@ + debug_type(y) + ")"@,
            }) + ", value: "@ + debug_expr(*value) + ", is_mut: "@ + debug_bool(is_mut) + " }"@,
        ExprKindV::Assign { target, value } => "Assign { target: "@ + debug_expr(*target)
            + ", value: "@ + debug_expr(*value) + " }"@,
        ExprKindV::AssignOp { target, op, value } => "AssignOp { target: "@ + debug_expr(*target)
            + ", op: "@ + debug_bin_op(op) + ", value: "@ + debug_expr(*value) + " }"@,
        ExprKindV::If { cond, then_branch, else_branch } => "If { cond: "@ + debug_expr(*cond)
            + ", then_branch: "@ + debug_block(then_branch) + ", else_branch: "@
            + (match else_branch {
                None => "None"@,
                Some(y) => "Some("@ + debug_block(y) + ")"@,
            }) + " }"@,
        ExprKindV::While { cond, body } => "While { cond: "@ + debug_expr(*cond) + ", body: "@
            + debug_block(body) + " }"@,
        ExprKindV::For { var, iter, body } => "For { var: "@ + debug_str(var) + ", iter: "@
            + debug_expr(*iter) + ", body: "@ + debug_block(body) + " }"@,
        ExprKindV::Return(y0) => "Return("@ + (match y0 {
            None => "None"@,
            Some(y) => "Some("@ + debug_expr(*y) + ")"@,
        }) + ")"@,
        ExprKindV::Match { expr, arms } => "Match { expr: "@ + debug_expr(*expr) + ", arms: "@
            + debug_match_arms(arms, 0, "["@) + " }"@,
        ExprKindV::GcNew { ty, fields } => "GcNew { ty: "@ + debug_type(ty) + ", fields: "@
            + debug_field_inits(fields, 0, "["@) + " }"@,
        ExprKindV::Lambda { params, return_type, body } => "Lambda { params: "@
            + debug_params(params, 0, "["@) + ", return_type: "@ + debug_type(return_type)
            + ", body: "@ + debug_expr(*body) + " }"@,
        ExprKindV::StructLit { path, fields } => "StructLit { path: "@ + debug_strs(path, 0, "["@)
            + ", fields: "@ + debug_field_inits(fields, 0, "["@) + " }"@,
        ExprKindV::EnumCtor { path, case, arg } => "EnumCtor { path: "@
            + debug_strs(path, 0, "["@) + ", case: "@ + debug_str(case) + ", arg: "@
            + (match arg {
                None => "None"@,
                Some(y) => "Some("@ + debug_expr(*y) + ")"@,
            }) + " }"@,
        ExprKindV::Quote(y0) => "Quote("@ + debug_exprs(y0, 0, "["@) + ")"@,
        ExprKindV::Unquote(y0) => "Unquote("@ + debug_expr(*y0) + ")"@,
        ExprKindV::UnquoteIdent(y0) => "UnquoteIdent("@ + debug_str(y0) + ")"@,
        ExprKindV::MacroCall { name, args } => "MacroCall { name: "@ + debug_str(name) + ", args: "@
            + debug_exprs(args, 0, "["@) + " }"@,
        ExprKindV::FuncDef(y0) => "FuncDef("@ + debug_function(y0) + ")"@,
        ExprKindV::CppBlock(y0) => "CppBlock("@ + debug_str(y0) + ")"@,
        ExprKindV::CompileTimeResult(y0) => "CompileTimeResult("@ + debug_items(y0, 0, "["@) + ")"@,
        ExprKindV::NamedArg { name, value } => "NamedArg { name: "@ + debug_str(name) + ", value: "@
            + debug_expr(*value) + " }"@,
    }
}

impl ExprKind {
    /// The debug text.
    #[verifier::rlimit(60)]
    pub fn debug(&self) -> (r: String)
        ensures
            r@ == debug_expr_kind(self@),
        decreases self,
    {
        match self {
            ExprKind::IntLiteral(y0) => cat3("IntLiteral(", &show_i64(*y0), ")"),
            ExprKind::FloatLiteral(y0) => cat3("FloatLiteral(", &show_debug_float(y0), ")"),
            ExprKind::StringLiteral(y0) => cat3("StringLiteral(", &show_debug_str(y0), ")"),
            ExprKind::CharLiteral(y0) => cat3("CharLiteral(", &show_debug_char(*y0), ")"),
            ExprKind::BoolLiteral(y0) => cat3("BoolLiteral(", &show_debug_bool(*y0), ")"),
            ExprKind::NilLiteral => "NilLiteral".to_owned(),
            ExprKind::Ident(y0) => cat3("Ident(", &show_debug_str(y0), ")"),
            ExprKind::Path(y0) => cat3("Path(", &show_debug_strs(y0), ")"),
            ExprKind::Block(y0) => cat3("Block(", &y0.debug(), ")"),
            ExprKind::Binary { op, left, right } => {
                let mut s = "Binary { op: ".to_owned();
                s.append(&show_debug_bin_op(*op));
                s.append(", left: ");
                s.append(&left.debug());
                s.append(", right: ");
                s.append(&right.debug());
                s.append(" }");
                s
            },
            ExprKind::Unary { op, expr } => {
                let mut s = "Unary { op: ".to_owned();
                s.append(&show_debug_unary_op(*op));
                s.append(", expr: ");
                s.append(&expr.debug());
                s.append(" }");
                s
            },
            ExprKind::Call { func, args } => {
                let mut s = "Call { func: ".to_owned();
                s.append(&func.debug());
                s.append(", args: ");
                s.append(&show_debug_exprs(args));
                s.append(" }");
                s
            },
            ExprKind::Field { object, field } => {
                let mut s = "Field { object: ".to_owned();
                s.append(&object.debug());
                s.append(", field: ");
                s.append(&show_debug_str(field));
                s.append(" }");
                s
            },
            ExprKind::Index { object, index } => {
                let mut s = "Index { object: ".to_owned();
                s.append(&object.debug());
                s.append(", index: ");
                s.append(&index.debug());
                s.append(" }");
                s
            },
            ExprKind::DotAccess { object, field } => {
                let mut s = "DotAccess { object: ".to_owned();
                s.append(&object.debug());
                s.append(", field: ");
                s.append(&show_debug_str(field));
                s.append(" }");
                s
            },
            ExprKind::Let { name, ty, value, is_mut } => {
                let mut s = "Let { name: ".to_owned();
                s.append(&show_debug_str(name));
                s.append(", ty: ");
                s.append(&(match ty {
                    None => "None".to_owned(),
                    Some(y) => cat3("Some(", &y.debug(), ")"),
                }));
                s.append(", value: ");
                s.append(&value.debug());
                s.append(", is_mut: ");
                s.append(&show_debug_bool(*is_mut));
                s.append(" }");
                s
            },
            ExprKind::Assign { target, value } => {
                let mut s = "Assign { target: ".to_owned();
                s.append(&target.debug());
                s.append(", value: ");
                s.append(&value.debug());
                s.append(" }");
                s
            },
            ExprKind::AssignOp { target, op, value } => {
                let mut s = "AssignOp { target: ".to_owned();
                s.append(&target.debug());
                s.append(", op: ");
                s.append(&show_debug_bin_op(*op));
                s.append(", value: ");
                s.append(&value.debug());
                s.append(" }");
                s
            },
            ExprKind::If { cond, then_branch, else_branch } => {
                let mut s = "If { cond: ".to_owned();
                s.append(&cond.debug());
                s.append(", then_branch: ");
                s.append(&then_branch.debug());
                s.append(", else_branch: ");
                s.append(&(match else_branch {
                    None => "None".to_owned(),
                    Some(y) => cat3("Some(", &y.debug(), ")"),
                }));
                s.append(" }");
                s
            },
            ExprKind::While { cond, body } => {
                let mut s = "While { cond: ".to_owned();
                s.append(&cond.debug());
                s.append(", body: ");
                s.append(&body.debug());
                s.append(" }");
                s
            },
            ExprKind::For { var, iter, body } => {
                let mut s = "For { var: ".to_owned();
                s.append(&show_debug_str(var));
                s.append(", iter: ");
                s.append(&iter.debug());
                s.append(", body: ");
                s.append(&body.debug());
                s.append(" }");
                s
            },
            ExprKind::Return(y0) => cat3("Return(", &(match y0 {
                None => "None".to_owned(),
                Some(y) => cat3("Some(", &y.debug(), ")"),
            }), ")"),
            ExprKind::Match { expr, arms } => {
                let mut s = "Match { expr: ".to_owned();
                s.append(&expr.debug());
                s.append(", arms: ");
                s.append(&show_debug_match_arms(arms));
                s.append(" }");
                s
            },
            ExprKind::GcNew { ty, fields } => {
                let mut s = "GcNew { ty: ".to_owned();
                s.append(&ty.debug());
                s.append(", fields: ");
                s.append(&show_debug_field_inits(fields));
                s.append(" }");
                s
            },
            ExprKind::Lambda { params, return_type, body } => {
                let mut s = "Lambda { params: ".to_owned();
                s.append(&show_debug_params(params));
                s.append(", return_type: ");
                s.append(&return_type.debug());
                s.append(", body: ");
                s.append(&body.debug());
                s.append(" }");
                s
            },
            ExprKind::StructLit { path, fields } => {
                let mut s = "StructLit { path: ".to_owned();
                s.append(&show_debug_strs(path));
                s.append(", fields: ");
                s.append(&show_debug_field_inits(fields));
                s.append(" }");
                s
            },
            ExprKind::EnumCtor { path, case, arg } => {
                let mut s = "EnumCtor { path: ".to_owned();
                s.append(&show_debug_strs(path));
                s.append(", case: ");
                s.append(&show_debug_str(case));
                s.append(", arg: ");
                s.append(&(match arg {
                    None => "None".to_owned(),
                    Some(y) => cat3("Some(", &y.debug(), ")"),
                }));
                s.append(" }");
                s
            },
            ExprKind::Quote(y0) => cat3("Quote(", &show_debug_exprs(y0), ")"),
            ExprKind::Unquote(y0) => cat3("Unquote(", &y0.debug(), ")"),
            ExprKind::UnquoteIdent(y0) => cat3("UnquoteIdent(", &show_debug_str(y0), ")"),
            ExprKind::MacroCall { name, args } => {
                let mut s = "MacroCall { name: ".to_owned();
                s.append(&show_debug_str(name));
                s.append(", args: ");
                s.append(&show_debug_exprs(args));
                s.append(" }");
                s
            },
            ExprKind::FuncDef(y0) => cat3("FuncDef(", &y0.debug(), ")"),
            ExprKind::CppBlock(y0) => cat3("CppBlock(", &show_debug_str(y0), ")"),
            ExprKind::CompileTimeResult(y0) => cat3(
                "CompileTimeResult(",
                &show_debug_items(y0),
                ")",
            ),
            ExprKind::NamedArg { name, value } => {
                let mut s = "NamedArg { name: ".to_owned();
                s.append(&show_debug_str(name));
                s.append(", value: ");
                s.append(&value.debug());
                s.append(" }");
                s
            },
        }
    }
}

pub open spec fn debug_block(x: BlockV) -> Seq<char>
    decreases x, 0int,
{
    "Block { stmts: "@ + debug_exprs(x.stmts, 0, "["@) + ", span: "@ + debug_span(x.span) + " }"@
}

impl Block {
    /// The debug text.
    pub fn debug(&self) -> (r: String)
        ensures
            r@ == debug_block(self@),
        decreases self,
    {
        let ghost g = block_v(*self);
        let mut s = "Block { stmts: ".to_owned();
        s.append(&show_debug_exprs(&self.stmts));
        s.append(", span: ");
        s.append(&show_debug_span(self.span));
        s.append(" }");
        s
    }
}

pub open spec fn debug_match_arm(x: MatchArmV) -> Seq<char>
    decreases x, 0int,
{
    "MatchArm { pattern: "@ + debug_pattern(x.pattern) + ", guard: "@ + (match x.guard {
        None => "None"@,
        Some(y) => "Some("@ + debug_expr(*y) + ")"@,
    }) + ", body: "@ + debug_expr(*x.body) + " }"@
}

impl MatchArm {
    /// The debug text.
    pub fn debug(&self) -> (r: String)
        ensures
            r@ == debug_match_arm(self@),
        decreases self,
    {
        let ghost g = match_arm_v(*self);
        let mut s = "MatchArm { pattern: ".to_owned();
        s.append(&self.pattern.debug());
        s.append(", guard: ");
        s.append(&(match &self.guard {
            None => "None".to_owned(),
            Some(y) => cat3("Some(", &y.debug(), ")"),
        }));
        s.append(", body: ");
        s.append(&self.body.debug());
        s.append(" }");
        s
    }
}

pub open spec fn debug_pattern(x: PatternV) -> Seq<char>
    decreases x, 0int,
{
    "Pattern { kind: "@ + debug_pattern_kind(x.kind) + ", span: "@ + debug_span(x.span) + " }"@
}

impl Pattern {
    /// The debug text.
    pub fn debug(&self) -> (r: String)
        ensures
            r@ == debug_pattern(self@),
        decreases self,
    {
        let ghost g = pattern_v(*self);
        let mut s = "Pattern { kind: ".to_owned();
        s.append(&self.kind.debug());
        s.append(", span: ");
        s.append(&show_debug_span(self.span));
        s.append(" }");
        s
    }
}

pub open spec fn debug_pattern_kind(x: PatternKindV) -> Seq<char>
    decreases x, 0int,
{
    match x {
        PatternKindV::Wildcard => "Wildcard"@,
        PatternKindV::Literal(y0) => "Literal("@ + debug_literal_pat(y0) + ")"@,
        PatternKindV::Variable { name, is_mut } => "Variable { name: "@ + debug_str(name)
            + ", is_mut: "@ + debug_bool(is_mut) + " }"@,
        PatternKindV::EnumCtor { path, case, inner } => "EnumCtor { path: "@
            + debug_strs(path, 0, "["@) + ", case: "@ + debug_str(case) + ", inner: "@
            + (match inner {
                None => "None"@,
                Some(y) => "Some("@ + debug_pattern(*y) + ")"@,
            }) + " }"@,
        PatternKindV::Struct { path, fields } => "Struct { path: "@ + debug_strs(path, 0, "["@)
            + ", fields: "@ + debug_field_patterns(fields, 0, "["@) + " }"@,
        PatternKindV::Or(y0) => "Or("@ + debug_patterns(y0, 0, "["@) + ")"@,
    }
}

impl PatternKind {
    /// The debug text.
    pub fn debug(&self) -> (r: String)
        ensures
            r@ == debug_pattern_kind(self@),
        decreases self,
    {
        match self {
            PatternKind::Wildcard => "Wildcard".to_owned(),
            PatternKind::Literal(y0) => cat3("Literal(", &y0.debug(), ")"),
            PatternKind::Variable { name, is_mut } => {
                let mut s = "Variable { name: ".to_owned();
                s.append(&show_debug_str(name));
                s.append(", is_mut: ");
                s.append(&show_debug_bool(*is_mut));
                s.append(" }");
                s
            },
            PatternKind::EnumCtor { path, case, inner } => {
                let mut s = "EnumCtor { path: ".to_owned();
                s.append(&show_debug_strs(path));
                s.append(", case: ");
                s.append(&show_debug_str(case));
                s.append(", inner: ");
                s.append(&(match inner {
                    None => "None".to_owned(),
                    Some(y) => cat3("Some(", &y.debug(), ")"),
                }));
                s.append(" }");
                s
            },
            PatternKind::Struct { path, fields } => {
                let mut s = "Struct { path: ".to_owned();
                s.append(&show_debug_strs(path));
                s.append(", fields: ");
                s.append(&show_debug_field_patterns(fields));
                s.append(" }");
                s
            },
            PatternKind::Or(y0) => cat3("Or(", &show_debug_patterns(y0), ")"),
        }
    }
}

pub open spec fn debug_literal_pat(x: LiteralPatV) -> Seq<char>
    decreases x, 0int,
{
    match x {
        LiteralPatV::Int(y0) => "Int("@ + int_text(y0 as int) + ")"@,
        LiteralPatV::Float(y0) => "Float("@ + debug_float(y0) + ")"@,
        LiteralPatV::String(y0) => "String("@ + debug_str(y0) + ")"@,
        LiteralPatV::Char(y0) => "Char("@ + debug_char(y0) + ")"@,
        LiteralPatV::Bool(y0) => "Bool("@ + debug_bool(y0) + ")"@,
        LiteralPatV::Nil => "Nil"@,
    }
}

impl LiteralPat {
    /// The debug text.
    pub fn debug(&self) -> (r: String)
        ensures
            r@ == debug_literal_pat(self@),
        decreases self,
    {
        match self {
            LiteralPat::Int(y0) => cat3("Int(", &show_i64(*y0), ")"),
            LiteralPat::Float(y0) => cat3("Float(", &show_debug_float(y0), ")"),
            LiteralPat::String(y0) => cat3("String(", &show_debug_str(y0), ")"),
            LiteralPat::Char(y0) => cat3("Char(", &show_debug_char(*y0), ")"),
            LiteralPat::Bool(y0) => cat3("Bool(", &show_debug_bool(*y0), ")"),
            LiteralPat::Nil => "Nil".to_owned(),
        }
    }
}

pub open spec fn debug_macro_def(x: MacroDefV) -> Seq<char>
    decreases x, 0int,
{
    "MacroDef { name: "@ + debug_str(x.name) + ", params: "@ + debug_strs(x.params, 0, "["@)
        + ", body: "@ + debug_expr(*x.body) + ", span: "@ + debug_span(x.span) + " }"@
}

impl MacroDef {
    /// The debug text.
    pub fn debug(&self) -> (r: String)
        ensures
            r@ == debug_macro_def(self@),
        decreases self,
    {
        let ghost g = macro_def_v(*self);
        let mut s = "MacroDef { name: ".to_owned();
        s.append(&show_debug_str(&self.name));
        s.append(", params: ");
        s.append(&show_debug_strs(&self.params));
        s.append(", body: ");
        s.append(&self.body.debug());
        s.append(", span: ");
        s.append(&show_debug_span(self.span));
        s.append(" }");
        s
    }
}

pub open spec fn debug_macro_call_item(x: MacroCallItemV) -> Seq<char>
    decreases x, 0int,
{
    "MacroCallItem { name: "@ + debug_str(x.name) + ", args: "@ + debug_exprs(x.args, 0, "["@)
        + ", span: "@ + debug_span(x.span) + " }"@
}

impl MacroCallItem {
    /// The debug text.
    pub fn debug(&self) -> (r: String)
        ensures
            r@ == debug_macro_call_item(self@),
        decreases self,
    {
        let ghost g = macro_call_item_v(*self);
        let mut s = "MacroCallItem { name: ".to_owned();
        s.append(&show_debug_str(&self.name));
        s.append(", args: ");
        s.append(&show_debug_exprs(&self.args));
        s.append(", span: ");
        s.append(&show_debug_span(self.span));
        s.append(" }");
        s
    }
}

pub open spec fn debug_trait_def(x: TraitDefV) -> Seq<char>
    decreases x, 0int,
{
    "TraitDef { name: "@ + debug_str(x.name) + ", generics: "@
        + debug_generic_params(x.generics, 0, "["@) + ", self_alias: "@
        + debug_opt_str(x.self_alias) + ", methods: "@ + debug_functions(x.methods, 0, "["@)
        + ", span: "@ + debug_span(x.span) + " }"@
}

impl TraitDef {
    /// The debug text.
    pub fn debug(&self) -> (r: String)
        ensures
            r@ == debug_trait_def(self@),
        decreases self,
    {
        let ghost g = trait_def_v(*self);
        let mut s = "TraitDef { name: ".to_owned();
        s.append(&show_debug_str(&self.name));
        s.append(", generics: ");
        s.append(&show_debug_generic_params(&self.generics));
        s.append(", self_alias: ");
        s.append(&show_debug_opt_str(&self.self_alias));
        s.append(", methods: ");
        s.append(&show_debug_functions(&self.methods));
        s.append(", span: ");
        s.append(&show_debug_span(self.span));
        s.append(" }");
        s
    }
}

pub open spec fn debug_impl_block(x: ImplBlockV) -> Seq<char>
    decreases x, 0int,
{
    "ImplBlock { trait_name: "@ + debug_str(x.trait_name) + ", generics: "@
        + debug_generic_params(x.generics, 0, "["@) + ", target_type: "@ + debug_type(x.target_type)
        + ", methods: "@ + debug_functions(x.methods, 0, "["@) + ", span: "@ + debug_span(x.span)
        + " }"@
}

impl ImplBlock {
    /// The debug text.
    pub fn debug(&self) -> (r: String)
        ensures
            r@ == debug_impl_block(self@),
        decreases self,
    {
        let ghost g = impl_block_v(*self);
        let mut s = "ImplBlock { trait_name: ".to_owned();
        s.append(&show_debug_str(&self.trait_name));
        s.append(", generics: ");
        s.append(&show_debug_generic_params(&self.generics));
        s.append(", target_type: ");
        s.append(&self.target_type.debug());
        s.append(", methods: ");
        s.append(&show_debug_functions(&self.methods));
        s.append(", span: ");
        s.append(&show_debug_span(self.span));
        s.append(" }");
        s
    }
}

/// `acc` and then the nodes from `i` on, with commas between them.
pub open spec fn debug_enum_cases(xs: Seq<EnumCaseV>, i: int, acc: Seq<char>) -> Seq<char>
    decreases xs, xs.len() - i,
{
    if 0 <= i < xs.len() {
        debug_enum_cases(
            xs,
            i + 1,
            if i > 0 {
                acc + ", "@ + debug_enum_case(xs[i])
            } else {
                acc + debug_enum_case(xs[i])
            },
        )
    } else {
        acc + "]"@
    }
}

fn show_debug_enum_cases(xs: &Vec<EnumCase>) -> (r: String)
    ensures
        r@ == debug_enum_cases(enum_cases_v(xs@), 0, "["@),
    decreases xs,
{
    let mut s = "[".to_owned();
    let mut i: usize = 0;
    while i < xs.len()
        invariant
            i <= xs.len(),
            debug_enum_cases(enum_cases_v(xs@), 0, "["@) == debug_enum_cases(
                enum_cases_v(xs@),
                i as int,
                s@,
            ),
        decreases xs.len() - i,
    {
        let ghost g = enum_cases_v(xs@)[i as int];
        if i > 0 {
            s.append(", ");
        }
        s.append(&xs[i].debug());
        i = i + 1;
    }
    s.append("]");
    s
}

/// `acc` and then the nodes from `i` on, with commas between them.
pub open spec fn debug_exprs(xs: Seq<ExprV>, i: int, acc: Seq<char>) -> Seq<char>
    decreases xs, xs.len() - i,
{
    if 0 <= i < xs.len() {
        debug_exprs(
            xs,
            i + 1,
            if i > 0 {
                acc + ", "@ + debug_expr(xs[i])
            } else {
                acc + debug_expr(xs[i])
            },
        )
    } else {
        acc + "]"@
    }
}

fn show_debug_exprs(xs: &Vec<Expr>) -> (r: String)
    ensures
        r@ == debug_exprs(exprs_v(xs@), 0, "["@),
    decreases xs,
{
    let mut s = "[".to_owned();
    let mut i: usize = 0;
    while i < xs.len()
        invariant
            i <= xs.len(),
            debug_exprs(exprs_v(xs@), 0, "["@) == debug_exprs(exprs_v(xs@), i as int, s@),
        decreases xs.len() - i,
    {
        let ghost g = exprs_v(xs@)[i as int];
        if i > 0 {
            s.append(", ");
        }
        s.append(&xs[i].debug());
        i = i + 1;
    }
    s.append("]");
    s
}

/// `acc` and then the nodes from `i` on, with commas between them.
pub open spec fn debug_field_inits(xs: Seq<(Seq<char>, ExprV)>, i: int, acc: Seq<char>) -> Seq<char>
    decreases xs, xs.len() - i,
{
    if 0 <= i < xs.len() {
        debug_field_inits(
            xs,
            i + 1,
            if i > 0 {
                acc + ", "@ + "("@ + debug_str(xs[i].0) + ", "@ + debug_expr(xs[i].1) + ")"@
            } else {
                acc + "("@ + debug_str(xs[i].0) + ", "@ + debug_expr(xs[i].1) + ")"@
            },
        )
    } else {
        acc + "]"@
    }
}

fn show_debug_field_inits(xs: &Vec<(String, Expr)>) -> (r: String)
    ensures
        r@ == debug_field_inits(field_inits_v(xs@), 0, "["@),
    decreases xs,
{
    let mut s = "[".to_owned();
    let mut i: usize = 0;
    while i < xs.len()
        invariant
            i <= xs.len(),
            debug_field_inits(field_inits_v(xs@), 0, "["@) == debug_field_inits(
                field_inits_v(xs@),
                i as int,
                s@,
            ),
        decreases xs.len() - i,
    {
        let ghost g = field_inits_v(xs@)[i as int];
        if i > 0 {
            s.append(", ");
        }
        s.append("(");
        s.append(&show_debug_str(&xs[i].0));
        s.append(", ");
        s.append(&xs[i].1.debug());
        s.append(")");
        i = i + 1;
    }
    s.append("]");
    s
}

/// `acc` and then the nodes from `i` on, with commas between them.
pub open spec fn debug_field_patterns(
    xs: Seq<(Seq<char>, PatternV)>,
    i: int,
    acc: Seq<char>,
) -> Seq<char>
    decreases xs, xs.len() - i,
{
    if 0 <= i < xs.len() {
        debug_field_patterns(
            xs,
            i + 1,
            if i > 0 {
                acc + ", "@ + "("@ + debug_str(xs[i].0) + ", "@ + debug_pattern(xs[i].1) + ")"@
            } else {
                acc + "("@ + debug_str(xs[i].0) + ", "@ + debug_pattern(xs[i].1) + ")"@
            },
        )
    } else {
        acc + "]"@
    }
}

fn show_debug_field_patterns(xs: &Vec<(String, Pattern)>) -> (r: String)
    ensures
        r@ == debug_field_patterns(field_patterns_v(xs@), 0, "["@),
    decreases xs,
{
    let mut s = "[".to_owned();
    let mut i: usize = 0;
    while i < xs.len()
        invariant
            i <= xs.len(),
            debug_field_patterns(field_patterns_v(xs@), 0, "["@) == debug_field_patterns(
                field_patterns_v(xs@),
                i as int,
                s@,
            ),
        decreases xs.len() - i,
    {
        let ghost g = field_patterns_v(xs@)[i as int];
        if i > 0 {
            s.append(", ");
        }
        s.append("(");
        s.append(&show_debug_str(&xs[i].0));
        s.append(", ");
        s.append(&xs[i].1.debug());
        s.append(")");
        i = i + 1;
    }
    s.append("]");
    s
}

/// `acc` and then the nodes from `i` on, with commas between them.
pub open spec fn debug_functions(xs: Seq<FunctionV>, i: int, acc: Seq<char>) -> Seq<char>
    decreases xs, xs.len() - i,
{
    if 0 <= i < xs.len() {
        debug_functions(
            xs,
            i + 1,
            if i > 0 {
                acc + ", "@ + debug_function(xs[i])
            } else {
                acc + debug_function(xs[i])
            },
        )
    } else {
        acc + "]"@
    }
}

fn show_debug_functions(xs: &Vec<Function>) -> (r: String)
    ensures
        r@ == debug_functions(functions_v(xs@), 0, "["@),
    decreases xs,
{
    let mut s = "[".to_owned();
    let mut i: usize = 0;
    while i < xs.len()
        invariant
            i <= xs.len(),
            debug_functions(functions_v(xs@), 0, "["@) == debug_functions(
                functions_v(xs@),
                i as int,
                s@,
            ),
        decreases xs.len() - i,
    {
        let ghost g = functions_v(xs@)[i as int];
        if i > 0 {
            s.append(", ");
        }
        s.append(&xs[i].debug());
        i = i + 1;
    }
    s.append("]");
    s
}

/// `acc` and then the nodes from `i` on, with commas between them.
pub open spec fn debug_generic_params(xs: Seq<GenericParamV>, i: int, acc: Seq<char>) -> Seq<char>
    decreases xs, xs.len() - i,
{
    if 0 <= i < xs.len() {
        debug_generic_params(
            xs,
            i + 1,
            if i > 0 {
                acc + ", "@ + debug_generic_param(xs[i])
            } else {
                acc + debug_generic_param(xs[i])
            },
        )
    } else {
        acc + "]"@
    }
}

fn show_debug_generic_params(xs: &Vec<GenericParam>) -> (r: String)
    ensures
        r@ == debug_generic_params(generic_params_v(xs@), 0, "["@),
    decreases xs,
{
    let mut s = "[".to_owned();
    let mut i: usize = 0;
    while i < xs.len()
        invariant
            i <= xs.len(),
            debug_generic_params(generic_params_v(xs@), 0, "["@) == debug_generic_params(
                generic_params_v(xs@),
                i as int,
                s@,
            ),
        decreases xs.len() - i,
    {
        let ghost g = generic_params_v(xs@)[i as int];
        if i > 0 {
            s.append(", ");
        }
        s.append(&xs[i].debug());
        i = i + 1;
    }
    s.append("]");
    s
}

/// `acc` and then the nodes from `i` on, with commas between them.
pub open spec fn debug_items(xs: Seq<ItemV>, i: int, acc: Seq<char>) -> Seq<char>
    decreases xs, xs.len() - i,
{
    if 0 <= i < xs.len() {
        debug_items(
            xs,
            i + 1,
            if i > 0 {
                acc + ", "@ + debug_item(xs[i])
            } else {
                acc + debug_item(xs[i])
            },
        )
    } else {
        acc + "]"@
    }
}

pub fn show_debug_items(xs: &Vec<Item>) -> (r: String)
    ensures
        r@ == debug_items(items_v(xs@), 0, "["@),
    decreases xs,
{
    let mut s = "[".to_owned();
    let mut i: usize = 0;
    while i < xs.len()
        invariant
            i <= xs.len(),
            debug_items(items_v(xs@), 0, "["@) == debug_items(items_v(xs@), i as int, s@),
        decreases xs.len() - i,
    {
        let ghost g = items_v(xs@)[i as int];
        if i > 0 {
            s.append(", ");
        }
        s.append(&xs[i].debug());
        i = i + 1;
    }
    s.append("]");
    s
}

/// `acc` and then the nodes from `i` on, with commas between them.
pub open spec fn debug_match_arms(xs: Seq<MatchArmV>, i: int, acc: Seq<char>) -> Seq<char>
    decreases xs, xs.len() - i,
{
    if 0 <= i < xs.len() {
        debug_match_arms(
            xs,
            i + 1,
            if i > 0 {
                acc + ", "@ + debug_match_arm(xs[i])
            } else {
                acc + debug_match_arm(xs[i])
            },
        )
    } else {
        acc + "]"@
    }
}

fn show_debug_match_arms(xs: &Vec<MatchArm>) -> (r: String)
    ensures
        r@ == debug_match_arms(match_arms_v(xs@), 0, "["@),
    decreases xs,
{
    let mut s = "[".to_owned();
    let mut i: usize = 0;
    while i < xs.len()
        invariant
            i <= xs.len(),
            debug_match_arms(match_arms_v(xs@), 0, "["@) == debug_match_arms(
                match_arms_v(xs@),
                i as int,
                s@,
            ),
        decreases xs.len() - i,
    {
        let ghost g = match_arms_v(xs@)[i as int];
        if i > 0 {
            s.append(", ");
        }
        s.append(&xs[i].debug());
        i = i + 1;
    }
    s.append("]");
    s
}

/// `acc` and then the nodes from `i` on, with commas between them.
pub open spec fn debug_params(xs: Seq<ParamV>, i: int, acc: Seq<char>) -> Seq<char>
    decreases xs, xs.len() - i,
{
    if 0 <= i < xs.len() {
        debug_params(
            xs,
            i + 1,
            if i > 0 {
                acc + ", "@ + debug_param(xs[i])
            } else {
                acc + debug_param(xs[i])
            },
        )
    } else {
        acc + "]"@
    }
}

fn show_debug_params(xs: &Vec<Param>) -> (r: String)
    ensures
        r@ == debug_params(params_v(xs@), 0, "["@),
    decreases xs,
{
    let mut s = "[".to_owned();
    let mut i: usize = 0;
    while i < xs.len()
        invariant
            i <= xs.len(),
            debug_params(params_v(xs@), 0, "["@) == debug_params(params_v(xs@), i as int, s@),
        decreases xs.len() - i,
    {
        let ghost g = params_v(xs@)[i as int];
        if i > 0 {
            s.append(", ");
        }
        s.append(&xs[i].debug());
        i = i + 1;
    }
    s.append("]");
    s
}

/// `acc` and then the nodes from `i` on, with commas between them.
pub open spec fn debug_path_segments(xs: Seq<PathSegmentV>, i: int, acc: Seq<char>) -> Seq<char>
    decreases xs, xs.len() - i,
{
    if 0 <= i < xs.len() {
        debug_path_segments(
            xs,
            i + 1,
            if i > 0 {
                acc + ", "@ + debug_path_segment(xs[i])
            } else {
                acc + debug_path_segment(xs[i])
            },
        )
    } else {
        acc + "]"@
    }
}

fn show_debug_path_segments(xs: &Vec<PathSegment>) -> (r: String)
    ensures
        r@ == debug_path_segments(path_segments_v(xs@), 0, "["@),
    decreases xs,
{
    let mut s = "[".to_owned();
    let mut i: usize = 0;
    while i < xs.len()
        invariant
            i <= xs.len(),
            debug_path_segments(path_segments_v(xs@), 0, "["@) == debug_path_segments(
                path_segments_v(xs@),
                i as int,
                s@,
            ),
        decreases xs.len() - i,
    {
        let ghost g = path_segments_v(xs@)[i as int];
        if i > 0 {
            s.append(", ");
        }
        s.append(&xs[i].debug());
        i = i + 1;
    }
    s.append("]");
    s
}

/// `acc` and then the nodes from `i` on, with commas between them.
pub open spec fn debug_patterns(xs: Seq<PatternV>, i: int, acc: Seq<char>) -> Seq<char>
    decreases xs, xs.len() - i,
{
    if 0 <= i < xs.len() {
        debug_patterns(
            xs,
            i + 1,
            if i > 0 {
                acc + ", "@ + debug_pattern(xs[i])
            } else {
                acc + debug_pattern(xs[i])
            },
        )
    } else {
        acc + "]"@
    }
}

fn show_debug_patterns(xs: &Vec<Pattern>) -> (r: String)
    ensures
        r@ == debug_patterns(patterns_v(xs@), 0, "["@),
    decreases xs,
{
    let mut s = "[".to_owned();
    let mut i: usize = 0;
    while i < xs.len()
        invariant
            i <= xs.len(),
            debug_patterns(patterns_v(xs@), 0, "["@) == debug_patterns(
                patterns_v(xs@),
                i as int,
                s@,
            ),
        decreases xs.len() - i,
    {
        let ghost g = patterns_v(xs@)[i as int];
        if i > 0 {
            s.append(", ");
        }
        s.append(&xs[i].debug());
        i = i + 1;
    }
    s.append("]");
    s
}

/// `acc` and then the nodes from `i` on, with commas between them.
pub open spec fn debug_struct_fields(xs: Seq<StructFieldV>, i: int, acc: Seq<char>) -> Seq<char>
    decreases xs, xs.len() - i,
{
    if 0 <= i < xs.len() {
        debug_struct_fields(
            xs,
            i + 1,
            if i > 0 {
                acc + ", "@ + debug_struct_field(xs[i])
            } else {
                acc + debug_struct_field(xs[i])
            },
        )
    } else {
        acc + "]"@
    }
}

fn show_debug_struct_fields(xs: &Vec<StructField>) -> (r: String)
    ensures
        r@ == debug_struct_fields(struct_fields_v(xs@), 0, "["@),
    decreases xs,
{
    let mut s = "[".to_owned();
    let mut i: usize = 0;
    while i < xs.len()
        invariant
            i <= xs.len(),
            debug_struct_fields(struct_fields_v(xs@), 0, "["@) == debug_struct_fields(
                struct_fields_v(xs@),
                i as int,
                s@,
            ),
        decreases xs.len() - i,
    {
        let ghost g = struct_fields_v(xs@)[i as int];
        if i > 0 {
            s.append(", ");
        }
        s.append(&xs[i].debug());
        i = i + 1;
    }
    s.append("]");
    s
}

/// `acc` and then the nodes from `i` on, with commas between them.
pub open spec fn debug_types(xs: Seq<TypeV>, i: int, acc: Seq<char>) -> Seq<char>
    decreases xs, xs.len() - i,
{
    if 0 <= i < xs.len() {
        debug_types(
            xs,
            i + 1,
            if i > 0 {
                acc + ", "@ + debug_type(xs[i])
            } else {
                acc + debug_type(xs[i])
            },
        )
    } else {
        acc + "]"@
    }
}

fn show_debug_types(xs: &Vec<Type>) -> (r: String)
    ensures
        r@ == debug_types(types_v(xs@), 0, "["@),
    decreases xs,
{
    let mut s = "[".to_owned();
    let mut i: usize = 0;
    while i < xs.len()
        invariant
            i <= xs.len(),
            debug_types(types_v(xs@), 0, "["@) == debug_types(types_v(xs@), i as int, s@),
        decreases xs.len() - i,
    {
        let ghost g = types_v(xs@)[i as int];
        if i > 0 {
            s.append(", ");
        }
        s.append(&xs[i].debug());
        i = i + 1;
    }
    s.append("]");
    s
}

} // verus!
