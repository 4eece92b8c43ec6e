//! The models of the syntax tree: the same tree with sequences of characters
//! for names, over which every contract is stated, and copies of its nodes.
use vstd::prelude::*;
use crate::ast::{
    BinOp, Block, Enum, EnumCase, Expr, ExprKind, Function, FunctionType, GenericParam, ImplBlock,
    Import, ImportItem, Item, LiteralPat, MacroCallItem, MacroDef, MatchArm, Module, Param, Path,
    PathSegment, Pattern, PatternKind, Struct, StructField, TraitDef, Type, TypeAlias, UnaryOp,
    VarDecl,
};
use crate::text::{dup_opt_str, dup_strs};
use crate::token::Span;

verus! {

use crate::text::{opt_str_v, strs_v};

/// The model of a [`Module`].
#[verifier::ext_equal]
pub struct ModuleV {
    pub name: Seq<char>,
    pub imports: Seq<ImportV>,
    pub items: Seq<ItemV>,
}

/// The model of a [`Import`].
#[verifier::ext_equal]
pub struct ImportV {
    pub path: Seq<Seq<char>>,
    pub items: Seq<ImportItemV>,
    pub span: Span,
}

/// The model of a [`ImportItem`].
#[verifier::ext_equal]
pub enum ImportItemV {
    All,
    Single { name: Seq<char>, alias: Option<Seq<char>> },
}

/// The model of a [`Item`].
#[verifier::ext_equal]
pub enum ItemV {
    Function(FunctionV),
    Struct(StructV),
    Enum(EnumV),
    Macro(MacroDefV),
    TypeAlias(TypeAliasV),
    VarDecl(VarDeclV),
    MacroCall(MacroCallItemV),
    Trait(TraitDefV),
    Impl(ImplBlockV),
}

/// The model of a [`Function`].
#[verifier::ext_equal]
pub struct FunctionV {
    pub name: Seq<char>,
    pub generics: Seq<GenericParamV>,
    pub params: Seq<ParamV>,
    pub return_type: TypeV,
    pub body: BlockV,
    pub is_pub: bool,
    pub span: Span,
}

/// The model of a [`Param`].
#[verifier::ext_equal]
pub struct ParamV {
    pub name: Seq<char>,
    pub ty: TypeV,
    pub named: bool,
    pub default: Option<ExprV>,
    pub span: Span,
}

/// The model of a [`Struct`].
#[verifier::ext_equal]
pub struct StructV {
    pub name: Seq<char>,
    pub generics: Seq<GenericParamV>,
    pub fields: Seq<StructFieldV>,
    pub is_pub: bool,
    pub span: Span,
}

/// The model of a [`StructField`].
#[verifier::ext_equal]
pub struct StructFieldV {
    pub name: Seq<char>,
    pub ty: TypeV,
    pub span: Span,
}

/// The model of a [`Enum`].
#[verifier::ext_equal]
pub struct EnumV {
    pub name: Seq<char>,
    pub generics: Seq<GenericParamV>,
    pub cases: Seq<EnumCaseV>,
    pub is_pub: bool,
    pub span: Span,
}

/// The model of a [`EnumCase`].
#[verifier::ext_equal]
pub struct EnumCaseV {
    pub name: Seq<char>,
    pub payload: Option<TypeV>,
    pub span: Span,
}

/// The model of a [`TypeAlias`].
#[verifier::ext_equal]
pub struct TypeAliasV {
    pub name: Seq<char>,
    pub generics: Seq<GenericParamV>,
    pub ty: TypeV,
    pub span: Span,
}

/// The model of a [`VarDecl`].
#[verifier::ext_equal]
pub struct VarDeclV {
    pub name: Seq<char>,
    pub ty: Option<TypeV>,
    pub value: Option<ExprV>,
    pub is_mut: bool,
    pub span: Span,
}

/// The model of a [`GenericParam`].
#[verifier::ext_equal]
pub struct GenericParamV {
    pub name: Seq<char>,
    pub span: Span,
}

/// The model of a [`Type`].
#[verifier::ext_equal]
pub enum TypeV {
    Path(PathV),
    GcRef(Box<TypeV>),
    Function(FunctionTypeV),
    Tuple(Seq<TypeV>),
    Unit,
    Never,
}

/// The model of a [`FunctionType`].
#[verifier::ext_equal]
pub struct FunctionTypeV {
    pub params: Seq<TypeV>,
    pub ret: Box<TypeV>,
}

/// The model of a [`Path`].
#[verifier::ext_equal]
pub struct PathV {
    pub segments: Seq<PathSegmentV>,
}

/// The model of a [`PathSegment`].
#[verifier::ext_equal]
pub struct PathSegmentV {
    pub name: Seq<char>,
    pub args: Seq<TypeV>,
}

/// The model of a [`Expr`].
#[verifier::ext_equal]
pub struct ExprV {
    pub kind: ExprKindV,
    pub span: Span,
}

/// The model of a [`ExprKind`].
#[verifier::ext_equal]
#[allow(inconsistent_fields)]
pub enum ExprKindV {
    IntLiteral(i64),
    FloatLiteral(Seq<char>),
    StringLiteral(Seq<char>),
    CharLiteral(char),
    BoolLiteral(bool),
    NilLiteral,
    Ident(Seq<char>),
    Path(Seq<Seq<char>>),
    Block(BlockV),
    Binary { op: BinOp, left: Box<ExprV>, right: Box<ExprV> },
    Unary { op: UnaryOp, expr: Box<ExprV> },
    Call { func: Box<ExprV>, args: Seq<ExprV> },
    Field { object: Box<ExprV>, field: Seq<char> },
    Index { object: Box<ExprV>, index: Box<ExprV> },
    DotAccess { object: Box<ExprV>, field: Seq<char> },
    Let { name: Seq<char>, ty: Option<TypeV>, value: Box<ExprV>, is_mut: bool },
    Assign { target: Box<ExprV>, value: Box<ExprV> },
    AssignOp { target: Box<ExprV>, op: BinOp, value: Box<ExprV> },
    If { cond: Box<ExprV>, then_branch: BlockV, else_branch: Option<BlockV> },
    While { cond: Box<ExprV>, body: BlockV },
    For { var: Seq<char>, iter: Box<ExprV>, body: BlockV },
    Return(Option<Box<ExprV>>),
    Match { expr: Box<ExprV>, arms: Seq<MatchArmV> },
    GcNew { ty: TypeV, fields: Seq<(Seq<char>, ExprV)> },
    Lambda { params: Seq<ParamV>, return_type: TypeV, body: Box<ExprV> },
    StructLit { path: Seq<Seq<char>>, fields: Seq<(Seq<char>, ExprV)> },
    EnumCtor { path: Seq<Seq<char>>, case: Seq<char>, arg: Option<Box<ExprV>> },
    Quote(Seq<ExprV>),
    Unquote(Box<ExprV>),
    UnquoteIdent(Seq<char>),
    MacroCall { name: Seq<char>, args: Seq<ExprV> },
    FuncDef(FunctionV),
    CppBlock(Seq<char>),
    CompileTimeResult(Seq<ItemV>),
    NamedArg { name: Seq<char>, value: Box<ExprV> },
}

/// The model of a [`Block`].
#[verifier::ext_equal]
pub struct BlockV {
    pub stmts: Seq<ExprV>,
    pub span: Span,
}

/// The model of a [`MatchArm`].
#[verifier::ext_equal]
pub struct MatchArmV {
    pub pattern: PatternV,
    pub guard: Option<Box<ExprV>>,
    pub body: Box<ExprV>,
}

/// The model of a [`Pattern`].
#[verifier::ext_equal]
pub struct PatternV {
    pub kind: PatternKindV,
    pub span: Span,
}

/// The model of a [`PatternKind`].
#[verifier::ext_equal]
pub enum PatternKindV {
    Wildcard,
    Literal(LiteralPatV),
    Variable { name: Seq<char>, is_mut: bool },
    EnumCtor { path: Seq<Seq<char>>, case: Seq<char>, inner: Option<Box<PatternV>> },
    Struct { path: Seq<Seq<char>>, fields: Seq<(Seq<char>, PatternV)> },
    Or(Seq<PatternV>),
}

/// The model of a [`LiteralPat`].
#[verifier::ext_equal]
pub enum LiteralPatV {
    Int(i64),
    Float(Seq<char>),
    String(Seq<char>),
    Char(char),
    Bool(bool),
    Nil,
}

/// The model of a [`MacroDef`].
#[verifier::ext_equal]
pub struct MacroDefV {
    pub name: Seq<char>,
    pub params: Seq<Seq<char>>,
    pub body: Box<ExprV>,
    pub span: Span,
}

/// The model of a [`MacroCallItem`].
#[verifier::ext_equal]
pub struct MacroCallItemV {
    pub name: Seq<char>,
    pub args: Seq<ExprV>,
    pub span: Span,
}

/// The model of a [`TraitDef`].
#[verifier::ext_equal]
pub struct TraitDefV {
    pub name: Seq<char>,
    pub generics: Seq<GenericParamV>,
    pub self_alias: Option<Seq<char>>,
    pub methods: Seq<FunctionV>,
    pub span: Span,
}

/// The model of a [`ImplBlock`].
#[verifier::ext_equal]
pub struct ImplBlockV {
    pub trait_name: Seq<char>,
    pub generics: Seq<GenericParamV>,
    pub target_type: TypeV,
    pub methods: Seq<FunctionV>,
    pub span: Span,
}

// ----------------------------------------------------------------------- views

pub open spec fn module_v(x: Module) -> ModuleV
    decreases x,
{
    ModuleV {
        name: x.name@,
        imports: imports_v(x.imports@),
        items: items_v(x.items@),
    }
}

impl View for Module {
    type V = ModuleV;

    open spec fn view(&self) -> ModuleV {
        module_v(*self)
    }
}

pub open spec fn import_v(x: Import) -> ImportV
    decreases x,
{
    ImportV {
        path: strs_v(x.path@),
        items: import_items_v(x.items@),
        span: x.span,
    }
}

impl View for Import {
    type V = ImportV;

    open spec fn view(&self) -> ImportV {
        import_v(*self)
    }
}

pub open spec fn import_item_v(x: ImportItem) -> ImportItemV
    decreases x,
{
    match x {
        ImportItem::All => ImportItemV::All,
        ImportItem::Single { name, alias } => ImportItemV::Single {
            name: name@,
            alias: opt_str_v(alias),
        },
    }
}

impl View for ImportItem {
    type V = ImportItemV;

    open spec fn view(&self) -> ImportItemV {
        import_item_v(*self)
    }
}

pub open spec fn item_v(x: Item) -> ItemV
    decreases x,
{
    match x {
        Item::Function(y0) => ItemV::Function(function_v(y0)),
        Item::Struct(y0) => ItemV::Struct(struct_v(y0)),
        Item::Enum(y0) => ItemV::Enum(enum_v(y0)),
        Item::Macro(y0) => ItemV::Macro(macro_def_v(y0)),
        Item::TypeAlias(y0) => ItemV::TypeAlias(type_alias_v(y0)),
        Item::VarDecl(y0) => ItemV::VarDecl(var_decl_v(y0)),
        Item::MacroCall(y0) => ItemV::MacroCall(macro_call_item_v(y0)),
        Item::Trait(y0) => ItemV::Trait(trait_def_v(y0)),
        Item::Impl(y0) => ItemV::Impl(impl_block_v(y0)),
    }
}

impl View for Item {
    type V = ItemV;

    open spec fn view(&self) -> ItemV {
        item_v(*self)
    }
}

pub open spec fn function_v(x: Function) -> FunctionV
    decreases x,
{
    FunctionV {
        name: x.name@,
        generics: generic_params_v(x.generics@),
        params: params_v(x.params@),
        return_type: type_v(x.return_type),
        body: block_v(x.body),
        is_pub: x.is_pub,
        span: x.span,
    }
}

impl View for Function {
    type V = FunctionV;

    open spec fn view(&self) -> FunctionV {
        function_v(*self)
    }
}

pub open spec fn param_v(x: Param) -> ParamV
    decreases x,
{
    ParamV {
        name: x.name@,
        ty: type_v(x.ty),
        named: x.named,
        default: match x.default {
            None => None,
            Some(y) => Some(expr_v(y)),
        },
        span: x.span,
    }
}

impl View for Param {
    type V = ParamV;

    open spec fn view(&self) -> ParamV {
        param_v(*self)
    }
}

pub open spec fn struct_v(x: Struct) -> StructV
    decreases x,
{
    StructV {
        name: x.name@,
        generics: generic_params_v(x.generics@),
        fields: struct_fields_v(x.fields@),
        is_pub: x.is_pub,
        span: x.span,
    }
}

impl View for Struct {
    type V = StructV;

    open spec fn view(&self) -> StructV {
        struct_v(*self)
    }
}

pub open spec fn struct_field_v(x: StructField) -> StructFieldV
    decreases x,
{
    StructFieldV {
        name: x.name@,
        ty: type_v(x.ty),
        span: x.span,
    }
}

impl View for StructField {
    type V = StructFieldV;

    open spec fn view(&self) -> StructFieldV {
        struct_field_v(*self)
    }
}

pub open spec fn enum_v(x: Enum) -> EnumV
    decreases x,
{
    EnumV {
        name: x.name@,
        generics: generic_params_v(x.generics@),
        cases: enum_cases_v(x.cases@),
        is_pub: x.is_pub,
        span: x.span,
    }
}

impl View for Enum {
    type V = EnumV;

    open spec fn view(&self) -> EnumV {
        enum_v(*self)
    }
}

pub open spec fn enum_case_v(x: EnumCase) -> EnumCaseV
    decreases x,
{
    EnumCaseV {
        name: x.name@,
        payload: match x.payload {
            None => None,
            Some(y) => Some(type_v(y)),
        },
        span: x.span,
    }
}

impl View for EnumCase {
    type V = EnumCaseV;

    open spec fn view(&self) -> EnumCaseV {
        enum_case_v(*self)
    }
}

pub open spec fn type_alias_v(x: TypeAlias) -> TypeAliasV
    decreases x,
{
    TypeAliasV {
        name: x.name@,
        generics: generic_params_v(x.generics@),
        ty: type_v(x.ty),
        span: x.span,
    }
}

impl View for TypeAlias {
    type V = TypeAliasV;

    open spec fn view(&self) -> TypeAliasV {
        type_alias_v(*self)
    }
}

pub open spec fn var_decl_v(x: VarDecl) -> VarDeclV
    decreases x,
{
    VarDeclV {
        name: x.name@,
        ty: match x.ty {
            None => None,
            Some(y) => Some(type_v(y)),
        },
        value: match x.value {
            None => None,
            Some(y) => Some(expr_v(y)),
        },
        is_mut: x.is_mut,
        span: x.span,
    }
}

impl View for VarDecl {
    type V = VarDeclV;

    open spec fn view(&self) -> VarDeclV {
        var_decl_v(*self)
    }
}

pub open spec fn generic_param_v(x: GenericParam) -> GenericParamV
    decreases x,
{
    GenericParamV {
        name: x.name@,
        span: x.span,
    }
}

impl View for GenericParam {
    type V = GenericParamV;

    open spec fn view(&self) -> GenericParamV {
        generic_param_v(*self)
    }
}

pub open spec fn type_v(x: Type) -> TypeV
    decreases x,
{
    match x {
        Type::Path(y0) => TypeV::Path(path_v(y0)),
        Type::GcRef(y0) => TypeV::GcRef(Box::new(type_v(*y0))),
        Type::Function(y0) => TypeV::Function(function_type_v(y0)),
        Type::Tuple(y0) => TypeV::Tuple(types_v(y0@)),
        Type::Unit => TypeV::Unit,
        Type::Never => TypeV::Never,
    }
}

impl View for Type {
    type V = TypeV;

    open spec fn view(&self) -> TypeV {
        type_v(*self)
    }
}

pub open spec fn function_type_v(x: FunctionType) -> FunctionTypeV
    decreases x,
{
    FunctionTypeV {
        params: types_v(x.params@),
        ret: Box::new(type_v(*x.ret)),
    }
}

impl View for FunctionType {
    type V = FunctionTypeV;

    open spec fn view(&self) -> FunctionTypeV {
        function_type_v(*self)
    }
}

pub open spec fn path_v(x: Path) -> PathV
    decreases x,
{
    PathV {
        segments: path_segments_v(x.segments@),
    }
}

impl View for Path {
    type V = PathV;

    open spec fn view(&self) -> PathV {
        path_v(*self)
    }
}

pub open spec fn path_segment_v(x: PathSegment) -> PathSegmentV
    decreases x,
{
    PathSegmentV {
        name: x.name@,
        args: types_v(x.args@),
    }
}

impl View for PathSegment {
    type V = PathSegmentV;

    open spec fn view(&self) -> PathSegmentV {
        path_segment_v(*self)
    }
}

pub open spec fn expr_v(x: Expr) -> ExprV
    decreases x,
{
    ExprV {
        kind: expr_kind_v(x.kind),
        span: x.span,
    }
}

impl View for Expr {
    type V = ExprV;

    open spec fn view(&self) -> ExprV {
        expr_v(*self)
    }
}

pub open spec fn expr_kind_v(x: ExprKind) -> ExprKindV
    decreases x,
{
    match x {
        ExprKind::IntLiteral(y0) => ExprKindV::IntLiteral(y0),
        ExprKind::FloatLiteral(y0) => ExprKindV::FloatLiteral(y0@),
        ExprKind::StringLiteral(y0) => ExprKindV::StringLiteral(y0@),
        ExprKind::CharLiteral(y0) => ExprKindV::CharLiteral(y0),
        ExprKind::BoolLiteral(y0) => ExprKindV::BoolLiteral(y0),
        ExprKind::NilLiteral => ExprKindV::NilLiteral,
        ExprKind::Ident(y0) => ExprKindV::Ident(y0@),
        ExprKind::Path(y0) => ExprKindV::Path(strs_v(y0@)),
        ExprKind::Block(y0) => ExprKindV::Block(block_v(y0)),
        ExprKind::Binary { op, left, right } => ExprKindV::Binary {
            op: op,
            left: Box::new(expr_v(*left)),
            right: Box::new(expr_v(*right)),
        },
        ExprKind::Unary { op, expr } => ExprKindV::Unary { op: op, expr: Box::new(expr_v(*expr)) },
        ExprKind::Call { func, args } => ExprKindV::Call {
            func: Box::new(expr_v(*func)),
            args: exprs_v(args@),
        },
        ExprKind::Field { object, field } => ExprKindV::Field {
            object: Box::new(expr_v(*object)),
            field: field@,
        },
        ExprKind::Index { object, index } => ExprKindV::Index {
            object: Box::new(expr_v(*object)),
            index: Box::new(expr_v(*index)),
        },
        ExprKind::DotAccess { object, field } => ExprKindV::DotAccess {
            object: Box::new(expr_v(*object)),
            field: field@,
        },
        ExprKind::Let { name, ty, value, is_mut } => ExprKindV::Let {
            name: name@,
            ty: match ty {
                None => None,
                Some(y) => Some(type_v(y)),
            },
            value: Box::new(expr_v(*value)),
            is_mut: is_mut,
        },
        ExprKind::Assign { target, value } => ExprKindV::Assign {
            target: Box::new(expr_v(*target)),
            value: Box::new(expr_v(*value)),
        },
        ExprKind::AssignOp { target, op, value } => ExprKindV::AssignOp {
            target: Box::new(expr_v(*target)),
            op: op,
            value: Box::new(expr_v(*value)),
        },
        ExprKind::If { cond, then_branch, else_branch } => ExprKindV::If {
            cond: Box::new(expr_v(*cond)),
            then_branch: block_v(then_branch),
            else_branch: match else_branch {
                None => None,
                Some(y) => Some(block_v(y)),
            },
        },
        ExprKind::While { cond, body } => ExprKindV::While {
            cond: Box::new(expr_v(*cond)),
            body: block_v(body),
        },
        ExprKind::For { var, iter, body } => ExprKindV::For {
            var: var@,
            iter: Box::new(expr_v(*iter)),
            body: block_v(body),
        },
        ExprKind::Return(y0) => ExprKindV::Return(match y0 {
            None => None,
            Some(y) => Some(Box::new(expr_v(*y))),
        }),
        ExprKind::Match { expr, arms } => ExprKindV::Match {
            expr: Box::new(expr_v(*expr)),
            arms: match_arms_v(arms@),
        },
        ExprKind::GcNew { ty, fields } => ExprKindV::GcNew {
            ty: type_v(ty),
            fields: field_inits_v(fields@),
        },
        ExprKind::Lambda { params, return_type, body } => ExprKindV::Lambda {
            params: params_v(params@),
            return_type: type_v(return_type),
            body: Box::new(expr_v(*body)),
        },
        ExprKind::StructLit { path, fields } => ExprKindV::StructLit {
            path: strs_v(path@),
            fields: field_inits_v(fields@),
        },
        ExprKind::EnumCtor { path, case, arg } => ExprKindV::EnumCtor {
            path: strs_v(path@),
            case: case@,
            arg: match arg {
                None => None,
                Some(y) => Some(Box::new(expr_v(*y))),
            },
        },
        ExprKind::Quote(y0) => ExprKindV::Quote(exprs_v(y0@)),
        ExprKind::Unquote(y0) => ExprKindV::Unquote(Box::new(expr_v(*y0))),
        ExprKind::UnquoteIdent(y0) => ExprKindV::UnquoteIdent(y0@),
        ExprKind::MacroCall { name, args } => ExprKindV::MacroCall {
            name: name@,
            args: exprs_v(args@),
        },
        ExprKind::FuncDef(y0) => ExprKindV::FuncDef(function_v(y0)),
        ExprKind::CppBlock(y0) => ExprKindV::CppBlock(y0@),
        ExprKind::CompileTimeResult(y0) => ExprKindV::CompileTimeResult(items_v(y0@)),
        ExprKind::NamedArg { name, value } => ExprKindV::NamedArg {
            name: name@,
            value: Box::new(expr_v(*value)),
        },
    }
}

impl View for ExprKind {
    type V = ExprKindV;

    open spec fn view(&self) -> ExprKindV {
        expr_kind_v(*self)
    }
}

pub open spec fn block_v(x: Block) -> BlockV
    decreases x,
{
    BlockV {
        stmts: exprs_v(x.stmts@),
        span: x.span,
    }
}

impl View for Block {
    type V = BlockV;

    open spec fn view(&self) -> BlockV {
        block_v(*self)
    }
}

pub open spec fn match_arm_v(x: MatchArm) -> MatchArmV
    decreases x,
{
    MatchArmV {
        pattern: pattern_v(x.pattern),
        guard: match x.guard {
            None => None,
            Some(y) => Some(Box::new(expr_v(*y))),
        },
        body: Box::new(expr_v(*x.body)),
    }
}

impl View for MatchArm {
    type V = MatchArmV;

    open spec fn view(&self) -> MatchArmV {
        match_arm_v(*self)
    }
}

pub open spec fn pattern_v(x: Pattern) -> PatternV
    decreases x,
{
    PatternV {
        kind: pattern_kind_v(x.kind),
        span: x.span,
    }
}

impl View for Pattern {
    type V = PatternV;

    open spec fn view(&self) -> PatternV {
        pattern_v(*self)
    }
}

pub open spec fn pattern_kind_v(x: PatternKind) -> PatternKindV
    decreases x,
{
    match x {
        PatternKind::Wildcard => PatternKindV::Wildcard,
        PatternKind::Literal(y0) => PatternKindV::Literal(literal_pat_v(y0)),
        PatternKind::Variable { name, is_mut } => PatternKindV::Variable {
            name: name@,
            is_mut: is_mut,
        },
        PatternKind::EnumCtor { path, case, inner } => PatternKindV::EnumCtor {
            path: strs_v(path@),
            case: case@,
            inner: match inner {
                None => None,
                Some(y) => Some(Box::new(pattern_v(*y))),
            },
        },
        PatternKind::Struct { path, fields } => PatternKindV::Struct {
            path: strs_v(path@),
            fields: field_patterns_v(fields@),
        },
        PatternKind::Or(y0) => PatternKindV::Or(patterns_v(y0@)),
    }
}

impl View for PatternKind {
    type V = PatternKindV;

    open spec fn view(&self) -> PatternKindV {
        pattern_kind_v(*self)
    }
}

pub open spec fn literal_pat_v(x: LiteralPat) -> LiteralPatV
    decreases x,
{
    match x {
        LiteralPat::Int(y0) => LiteralPatV::Int(y0),
        LiteralPat::Float(y0) => LiteralPatV::Float(y0@),
        LiteralPat::String(y0) => LiteralPatV::String(y0@),
        LiteralPat::Char(y0) => LiteralPatV::Char(y0),
        LiteralPat::Bool(y0) => LiteralPatV::Bool(y0),
        LiteralPat::Nil => LiteralPatV::Nil,
    }
}

impl View for LiteralPat {
    type V = LiteralPatV;

    open spec fn view(&self) -> LiteralPatV {
        literal_pat_v(*self)
    }
}

pub open spec fn macro_def_v(x: MacroDef) -> MacroDefV
    decreases x,
{
    MacroDefV {
        name: x.name@,
        params: strs_v(x.params@),
        body: Box::new(expr_v(*x.body)),
        span: x.span,
    }
}

impl View for MacroDef {
    type V = MacroDefV;

    open spec fn view(&self) -> MacroDefV {
        macro_def_v(*self)
    }
}

pub open spec fn macro_call_item_v(x: MacroCallItem) -> MacroCallItemV
    decreases x,
{
    MacroCallItemV {
        name: x.name@,
        args: exprs_v(x.args@),
        span: x.span,
    }
}

impl View for MacroCallItem {
    type V = MacroCallItemV;

    open spec fn view(&self) -> MacroCallItemV {
        macro_call_item_v(*self)
    }
}

pub open spec fn trait_def_v(x: TraitDef) -> TraitDefV
    decreases x,
{
    TraitDefV {
        name: x.name@,
        generics: generic_params_v(x.generics@),
        self_alias: opt_str_v(x.self_alias),
        methods: functions_v(x.methods@),
        span: x.span,
    }
}

impl View for TraitDef {
    type V = TraitDefV;

    open spec fn view(&self) -> TraitDefV {
        trait_def_v(*self)
    }
}

pub open spec fn impl_block_v(x: ImplBlock) -> ImplBlockV
    decreases x,
{
    ImplBlockV {
        trait_name: x.trait_name@,
        generics: generic_params_v(x.generics@),
        target_type: type_v(x.target_type),
        methods: functions_v(x.methods@),
        span: x.span,
    }
}

impl View for ImplBlock {
    type V = ImplBlockV;

    open spec fn view(&self) -> ImplBlockV {
        impl_block_v(*self)
    }
}

pub open spec fn enum_cases_v(s: Seq<EnumCase>) -> Seq<EnumCaseV>
    decreases s,
{
    Seq::new(
        s.len(),
        |i: int|
            if 0 <= i < s.len() {
                enum_case_v(s[i])
            } else {
                arbitrary()
            },
    )
}

pub open spec fn exprs_v(s: Seq<Expr>) -> Seq<ExprV>
    decreases s,
{
    Seq::new(
        s.len(),
        |i: int|
            if 0 <= i < s.len() {
                expr_v(s[i])
            } else {
                arbitrary()
            },
    )
}

pub open spec fn field_inits_v(s: Seq<(String, Expr)>) -> Seq<(Seq<char>, ExprV)>
    decreases s,
{
    Seq::new(
        s.len(),
        |i: int|
            if 0 <= i < s.len() {
                (s[i].0@, expr_v(s[i].1))
            } else {
                arbitrary()
            },
    )
}

pub open spec fn field_patterns_v(s: Seq<(String, Pattern)>) -> Seq<(Seq<char>, PatternV)>
    decreases s,
{
    Seq::new(
        s.len(),
        |i: int|
            if 0 <= i < s.len() {
                (s[i].0@, pattern_v(s[i].1))
            } else {
                arbitrary()
            },
    )
}

pub open spec fn functions_v(s: Seq<Function>) -> Seq<FunctionV>
    decreases s,
{
    Seq::new(
        s.len(),
        |i: int|
            if 0 <= i < s.len() {
                function_v(s[i])
            } else {
                arbitrary()
            },
    )
}

pub open spec fn generic_params_v(s: Seq<GenericParam>) -> Seq<GenericParamV>
    decreases s,
{
    Seq::new(
        s.len(),
        |i: int|
            if 0 <= i < s.len() {
                generic_param_v(s[i])
            } else {
                arbitrary()
            },
    )
}

pub open spec fn import_items_v(s: Seq<ImportItem>) -> Seq<ImportItemV>
    decreases s,
{
    Seq::new(
        s.len(),
        |i: int|
            if 0 <= i < s.len() {
                import_item_v(s[i])
            } else {
                arbitrary()
            },
    )
}

pub open spec fn imports_v(s: Seq<Import>) -> Seq<ImportV>
    decreases s,
{
    Seq::new(
        s.len(),
        |i: int|
            if 0 <= i < s.len() {
                import_v(s[i])
            } else {
                arbitrary()
            },
    )
}

pub open spec fn items_v(s: Seq<Item>) -> Seq<ItemV>
    decreases s,
{
    Seq::new(
        s.len(),
        |i: int|
            if 0 <= i < s.len() {
                item_v(s[i])
            } else {
                arbitrary()
            },
    )
}

pub open spec fn match_arms_v(s: Seq<MatchArm>) -> Seq<MatchArmV>
    decreases s,
{
    Seq::new(
        s.len(),
        |i: int|
            if 0 <= i < s.len() {
                match_arm_v(s[i])
            } else {
                arbitrary()
            },
    )
}

pub open spec fn params_v(s: Seq<Param>) -> Seq<ParamV>
    decreases s,
{
    Seq::new(
        s.len(),
        |i: int|
            if 0 <= i < s.len() {
                param_v(s[i])
            } else {
                arbitrary()
            },
    )
}

pub open spec fn path_segments_v(s: Seq<PathSegment>) -> Seq<PathSegmentV>
    decreases s,
{
    Seq::new(
        s.len(),
        |i: int|
            if 0 <= i < s.len() {
                path_segment_v(s[i])
            } else {
                arbitrary()
            },
    )
}

pub open spec fn patterns_v(s: Seq<Pattern>) -> Seq<PatternV>
    decreases s,
{
    Seq::new(
        s.len(),
        |i: int|
            if 0 <= i < s.len() {
                pattern_v(s[i])
            } else {
                arbitrary()
            },
    )
}

pub open spec fn struct_fields_v(s: Seq<StructField>) -> Seq<StructFieldV>
    decreases s,
{
    Seq::new(
        s.len(),
        |i: int|
            if 0 <= i < s.len() {
                struct_field_v(s[i])
            } else {
                arbitrary()
            },
    )
}

pub open spec fn types_v(s: Seq<Type>) -> Seq<TypeV>
    decreases s,
{
    Seq::new(
        s.len(),
        |i: int|
            if 0 <= i < s.len() {
                type_v(s[i])
            } else {
                arbitrary()
            },
    )
}

// ---------------------------------------------------------- views of built lists

pub broadcast proof fn lemma_enum_cases_empty()
    ensures
        #[trigger] enum_cases_v(Seq::<EnumCase>::empty()) == Seq::<EnumCaseV>::empty(),
{
    assert(enum_cases_v(Seq::<EnumCase>::empty()) =~= Seq::<EnumCaseV>::empty());
}

pub broadcast proof fn lemma_enum_cases_push(s: Seq<EnumCase>, x: EnumCase)
    ensures
        #[trigger] enum_cases_v(s.push(x)) == enum_cases_v(s).push(enum_case_v(x)),
{
    assert(enum_cases_v(s.push(x)) =~= enum_cases_v(s).push(enum_case_v(x)));
}

pub broadcast proof fn lemma_exprs_empty()
    ensures
        #[trigger] exprs_v(Seq::<Expr>::empty()) == Seq::<ExprV>::empty(),
{
    assert(exprs_v(Seq::<Expr>::empty()) =~= Seq::<ExprV>::empty());
}

pub broadcast proof fn lemma_exprs_push(s: Seq<Expr>, x: Expr)
    ensures
        #[trigger] exprs_v(s.push(x)) == exprs_v(s).push(expr_v(x)),
{
    assert(exprs_v(s.push(x)) =~= exprs_v(s).push(expr_v(x)));
}

pub broadcast proof fn lemma_field_inits_empty()
    ensures
        #[trigger] field_inits_v(Seq::<(String, Expr)>::empty()) == Seq::<(
            Seq<char>,
            ExprV,
        )>::empty(),
{
    assert(field_inits_v(Seq::<(String, Expr)>::empty()) =~= Seq::<(Seq<char>, ExprV)>::empty());
}

pub broadcast proof fn lemma_field_inits_push(s: Seq<(String, Expr)>, x: (String, Expr))
    ensures
        #[trigger] field_inits_v(s.push(x)) == field_inits_v(s).push((x.0@, expr_v(x.1))),
{
    assert(field_inits_v(s.push(x)) =~= field_inits_v(s).push((x.0@, expr_v(x.1))));
}

pub broadcast proof fn lemma_field_patterns_empty()
    ensures
        #[trigger] field_patterns_v(Seq::<(String, Pattern)>::empty()) == Seq::<(
            Seq<char>,
            PatternV,
        )>::empty(),
{
    assert(
        field_patterns_v(Seq::<(String, Pattern)>::empty()) =~= Seq::<(
            Seq<char>,
            PatternV,
        )>::empty()
    );
}

pub broadcast proof fn lemma_field_patterns_push(s: Seq<(String, Pattern)>, x: (String, Pattern))
    ensures
        #[trigger] field_patterns_v(s.push(x)) == field_patterns_v(s).push((x.0@, pattern_v(x.1))),
{
    assert(field_patterns_v(s.push(x)) =~= field_patterns_v(s).push((x.0@, pattern_v(x.1))));
}

pub broadcast proof fn lemma_functions_empty()
    ensures
        #[trigger] functions_v(Seq::<Function>::empty()) == Seq::<FunctionV>::empty(),
{
    assert(functions_v(Seq::<Function>::empty()) =~= Seq::<FunctionV>::empty());
}

pub broadcast proof fn lemma_functions_push(s: Seq<Function>, x: Function)
    ensures
        #[trigger] functions_v(s.push(x)) == functions_v(s).push(function_v(x)),
{
    assert(functions_v(s.push(x)) =~= functions_v(s).push(function_v(x)));
}

pub broadcast proof fn lemma_generic_params_empty()
    ensures
        #[trigger] generic_params_v(Seq::<GenericParam>::empty()) == Seq::<GenericParamV>::empty(),
{
    assert(generic_params_v(Seq::<GenericParam>::empty()) =~= Seq::<GenericParamV>::empty());
}

pub broadcast proof fn lemma_generic_params_push(s: Seq<GenericParam>, x: GenericParam)
    ensures
        #[trigger] generic_params_v(s.push(x)) == generic_params_v(s).push(generic_param_v(x)),
{
    assert(generic_params_v(s.push(x)) =~= generic_params_v(s).push(generic_param_v(x)));
}

pub broadcast proof fn lemma_import_items_empty()
    ensures
        #[trigger] import_items_v(Seq::<ImportItem>::empty()) == Seq::<ImportItemV>::empty(),
{
    assert(import_items_v(Seq::<ImportItem>::empty()) =~= Seq::<ImportItemV>::empty());
}

pub broadcast proof fn lemma_import_items_push(s: Seq<ImportItem>, x: ImportItem)
    ensures
        #[trigger] import_items_v(s.push(x)) == import_items_v(s).push(import_item_v(x)),
{
    assert(import_items_v(s.push(x)) =~= import_items_v(s).push(import_item_v(x)));
}

pub broadcast proof fn lemma_imports_empty()
    ensures
        #[trigger] imports_v(Seq::<Import>::empty()) == Seq::<ImportV>::empty(),
{
    assert(imports_v(Seq::<Import>::empty()) =~= Seq::<ImportV>::empty());
}

pub broadcast proof fn lemma_imports_push(s: Seq<Import>, x: Import)
    ensures
        #[trigger] imports_v(s.push(x)) == imports_v(s).push(import_v(x)),
{
    assert(imports_v(s.push(x)) =~= imports_v(s).push(import_v(x)));
}

pub broadcast proof fn lemma_items_empty()
    ensures
        #[trigger] items_v(Seq::<Item>::empty()) == Seq::<ItemV>::empty(),
{
    assert(items_v(Seq::<Item>::empty()) =~= Seq::<ItemV>::empty());
}

pub broadcast proof fn lemma_items_push(s: Seq<Item>, x: Item)
    ensures
        #[trigger] items_v(s.push(x)) == items_v(s).push(item_v(x)),
{
    assert(items_v(s.push(x)) =~= items_v(s).push(item_v(x)));
}

pub broadcast proof fn lemma_match_arms_empty()
    ensures
        #[trigger] match_arms_v(Seq::<MatchArm>::empty()) == Seq::<MatchArmV>::empty(),
{
    assert(match_arms_v(Seq::<MatchArm>::empty()) =~= Seq::<MatchArmV>::empty());
}

pub broadcast proof fn lemma_match_arms_push(s: Seq<MatchArm>, x: MatchArm)
    ensures
        #[trigger] match_arms_v(s.push(x)) == match_arms_v(s).push(match_arm_v(x)),
{
    assert(match_arms_v(s.push(x)) =~= match_arms_v(s).push(match_arm_v(x)));
}

pub broadcast proof fn lemma_params_empty()
    ensures
        #[trigger] params_v(Seq::<Param>::empty()) == Seq::<ParamV>::empty(),
{
    assert(params_v(Seq::<Param>::empty()) =~= Seq::<ParamV>::empty());
}

pub broadcast proof fn lemma_params_push(s: Seq<Param>, x: Param)
    ensures
        #[trigger] params_v(s.push(x)) == params_v(s).push(param_v(x)),
{
    assert(params_v(s.push(x)) =~= params_v(s).push(param_v(x)));
}

pub broadcast proof fn lemma_path_segments_empty()
    ensures
        #[trigger] path_segments_v(Seq::<PathSegment>::empty()) == Seq::<PathSegmentV>::empty(),
{
    assert(path_segments_v(Seq::<PathSegment>::empty()) =~= Seq::<PathSegmentV>::empty());
}

pub broadcast proof fn lemma_path_segments_push(s: Seq<PathSegment>, x: PathSegment)
    ensures
        #[trigger] path_segments_v(s.push(x)) == path_segments_v(s).push(path_segment_v(x)),
{
    assert(path_segments_v(s.push(x)) =~= path_segments_v(s).push(path_segment_v(x)));
}

pub broadcast proof fn lemma_patterns_empty()
    ensures
        #[trigger] patterns_v(Seq::<Pattern>::empty()) == Seq::<PatternV>::empty(),
{
    assert(patterns_v(Seq::<Pattern>::empty()) =~= Seq::<PatternV>::empty());
}

pub broadcast proof fn lemma_patterns_push(s: Seq<Pattern>, x: Pattern)
    ensures
        #[trigger] patterns_v(s.push(x)) == patterns_v(s).push(pattern_v(x)),
{
    assert(patterns_v(s.push(x)) =~= patterns_v(s).push(pattern_v(x)));
}

pub broadcast proof fn lemma_struct_fields_empty()
    ensures
        #[trigger] struct_fields_v(Seq::<StructField>::empty()) == Seq::<StructFieldV>::empty(),
{
    assert(struct_fields_v(Seq::<StructField>::empty()) =~= Seq::<StructFieldV>::empty());
}

pub broadcast proof fn lemma_struct_fields_push(s: Seq<StructField>, x: StructField)
    ensures
        #[trigger] struct_fields_v(s.push(x)) == struct_fields_v(s).push(struct_field_v(x)),
{
    assert(struct_fields_v(s.push(x)) =~= struct_fields_v(s).push(struct_field_v(x)));
}

pub broadcast proof fn lemma_types_empty()
    ensures
        #[trigger] types_v(Seq::<Type>::empty()) == Seq::<TypeV>::empty(),
{
    assert(types_v(Seq::<Type>::empty()) =~= Seq::<TypeV>::empty());
}

pub broadcast proof fn lemma_types_push(s: Seq<Type>, x: Type)
    ensures
        #[trigger] types_v(s.push(x)) == types_v(s).push(type_v(x)),
{
    assert(types_v(s.push(x)) =~= types_v(s).push(type_v(x)));
}

pub broadcast group group_list_views {
    lemma_enum_cases_empty,
    lemma_enum_cases_push,
    lemma_exprs_empty,
    lemma_exprs_push,
    lemma_field_inits_empty,
    lemma_field_inits_push,
    lemma_field_patterns_empty,
    lemma_field_patterns_push,
    lemma_functions_empty,
    lemma_functions_push,
    lemma_generic_params_empty,
    lemma_generic_params_push,
    lemma_import_items_empty,
    lemma_import_items_push,
    lemma_imports_empty,
    lemma_imports_push,
    lemma_items_empty,
    lemma_items_push,
    lemma_match_arms_empty,
    lemma_match_arms_push,
    lemma_params_empty,
    lemma_params_push,
    lemma_path_segments_empty,
    lemma_path_segments_push,
    lemma_patterns_empty,
    lemma_patterns_push,
    lemma_struct_fields_empty,
    lemma_struct_fields_push,
    lemma_types_empty,
    lemma_types_push,
    crate::text::lemma_strs_empty,
    crate::text::lemma_strs_push,
}

// ---------------------------------------------------------------------- copies

impl Module {
    /// A copy with the same model.
    pub fn dup(&self) -> (r: Self)
        ensures
            r@ == self@,
        decreases self,
    {
        Module {
            name: self.name.clone(),
            imports: dup_imports(&self.imports),
            items: dup_items(&self.items),
        }
    }
}

impl Import {
    /// A copy with the same model.
    pub fn dup(&self) -> (r: Self)
        ensures
            r@ == self@,
        decreases self,
    {
        Import {
            path: dup_strs(&self.path),
            items: dup_import_items(&self.items),
            span: self.span,
        }
    }
}

impl ImportItem {
    /// A copy with the same model.
    pub fn dup(&self) -> (r: Self)
        ensures
            r@ == self@,
        decreases self,
    {
        match self {
            ImportItem::All => ImportItem::All,
            ImportItem::Single { name, alias } => ImportItem::Single {
                name: name.clone(),
                alias: dup_opt_str(alias),
            },
        }
    }
}

impl Item {
    /// A copy with the same model.
    pub fn dup(&self) -> (r: Self)
        ensures
            r@ == self@,
        decreases self,
    {
        match self {
            Item::Function(y0) => Item::Function(y0.dup()),
            Item::Struct(y0) => Item::Struct(y0.dup()),
            Item::Enum(y0) => Item::Enum(y0.dup()),
            Item::Macro(y0) => Item::Macro(y0.dup()),
            Item::TypeAlias(y0) => Item::TypeAlias(y0.dup()),
            Item::VarDecl(y0) => Item::VarDecl(y0.dup()),
            Item::MacroCall(y0) => Item::MacroCall(y0.dup()),
            Item::Trait(y0) => Item::Trait(y0.dup()),
            Item::Impl(y0) => Item::Impl(y0.dup()),
        }
    }
}

impl Function {
    /// A copy with the same model.
    pub fn dup(&self) -> (r: Self)
        ensures
            r@ == self@,
        decreases self,
    {
        Function {
            name: self.name.clone(),
            generics: dup_generic_params(&self.generics),
            params: dup_params(&self.params),
            return_type: self.return_type.dup(),
            body: self.body.dup(),
            is_pub: self.is_pub,
            span: self.span,
        }
    }
}

impl Param {
    /// A copy with the same model.
    pub fn dup(&self) -> (r: Self)
        ensures
            r@ == self@,
        decreases self,
    {
        Param {
            name: self.name.clone(),
            ty: self.ty.dup(),
            named: self.named,
            default: match &self.default {
                None => None,
                Some(y) => Some(y.dup()),
            },
            span: self.span,
        }
    }
}

impl Struct {
    /// A copy with the same model.
    pub fn dup(&self) -> (r: Self)
        ensures
            r@ == self@,
        decreases self,
    {
        Struct {
            name: self.name.clone(),
            generics: dup_generic_params(&self.generics),
            fields: dup_struct_fields(&self.fields),
            is_pub: self.is_pub,
            span: self.span,
        }
    }
}

impl StructField {
    /// A copy with the same model.
    pub fn dup(&self) -> (r: Self)
        ensures
            r@ == self@,
        decreases self,
    {
        StructField {
            name: self.name.clone(),
            ty: self.ty.dup(),
            span: self.span,
        }
    }
}

impl Enum {
    /// A copy with the same model.
    pub fn dup(&self) -> (r: Self)
        ensures
            r@ == self@,
        decreases self,
    {
        Enum {
            name: self.name.clone(),
            generics: dup_generic_params(&self.generics),
            cases: dup_enum_cases(&self.cases),
            is_pub: self.is_pub,
            span: self.span,
        }
    }
}

impl EnumCase {
    /// A copy with the same model.
    pub fn dup(&self) -> (r: Self)
        ensures
            r@ == self@,
        decreases self,
    {
        EnumCase {
            name: self.name.clone(),
            payload: match &self.payload {
                None => None,
                Some(y) => Some(y.dup()),
            },
            span: self.span,
        }
    }
}

impl TypeAlias {
    /// A copy with the same model.
    pub fn dup(&self) -> (r: Self)
        ensures
            r@ == self@,
        decreases self,
    {
        TypeAlias {
            name: self.name.clone(),
            generics: dup_generic_params(&self.generics),
            ty: self.ty.dup(),
            span: self.span,
        }
    }
}

impl VarDecl {
    /// A copy with the same model.
    pub fn dup(&self) -> (r: Self)
        ensures
            r@ == self@,
        decreases self,
    {
        VarDecl {
            name: self.name.clone(),
            ty: match &self.ty {
                None => None,
                Some(y) => Some(y.dup()),
            },
            value: match &self.value {
                None => None,
                Some(y) => Some(y.dup()),
            },
            is_mut: self.is_mut,
            span: self.span,
        }
    }
}

impl GenericParam {
    /// A copy with the same model.
    pub fn dup(&self) -> (r: Self)
        ensures
            r@ == self@,
        decreases self,
    {
        GenericParam {
            name: self.name.clone(),
            span: self.span,
        }
    }
}

impl Type {
    /// A copy with the same model.
    pub fn dup(&self) -> (r: Self)
        ensures
            r@ == self@,
        decreases self,
    {
        match self {
            Type::Path(y0) => Type::Path(y0.dup()),
            Type::GcRef(y0) => Type::GcRef(Box::new(y0.dup())),
            Type::Function(y0) => Type::Function(y0.dup()),
            Type::Tuple(y0) => Type::Tuple(dup_types(y0)),
            Type::Unit => Type::Unit,
            Type::Never => Type::Never,
        }
    }
}

impl FunctionType {
    /// A copy with the same model.
    pub fn dup(&self) -> (r: Self)
        ensures
            r@ == self@,
        decreases self,
    {
        FunctionType {
            params: dup_types(&self.params),
            ret: Box::new(self.ret.dup()),
        }
    }
}

impl Path {
    /// A copy with the same model.
    pub fn dup(&self) -> (r: Self)
        ensures
            r@ == self@,
        decreases self,
    {
        Path {
            segments: dup_path_segments(&self.segments),
        }
    }
}

impl PathSegment {
    /// A copy with the same model.
    pub fn dup(&self) -> (r: Self)
        ensures
            r@ == self@,
        decreases self,
    {
        PathSegment {
            name: self.name.clone(),
            args: dup_types(&self.args),
        }
    }
}

impl Expr {
    /// A copy with the same model.
    pub fn dup(&self) -> (r: Self)
        ensures
            r@ == self@,
        decreases self,
    {
        Expr {
            kind: self.kind.dup(),
            span: self.span,
        }
    }
}

impl ExprKind {
    /// A copy with the same model.
    pub fn dup(&self) -> (r: Self)
        ensures
            r@ == self@,
        decreases self,
    {
        match self {
            ExprKind::IntLiteral(y0) => ExprKind::IntLiteral(*y0),
            ExprKind::FloatLiteral(y0) => ExprKind::FloatLiteral(y0.clone()),
            ExprKind::StringLiteral(y0) => ExprKind::StringLiteral(y0.clone()),
            ExprKind::CharLiteral(y0) => ExprKind::CharLiteral(*y0),
            ExprKind::BoolLiteral(y0) => ExprKind::BoolLiteral(*y0),
            ExprKind::NilLiteral => ExprKind::NilLiteral,
            ExprKind::Ident(y0) => ExprKind::Ident(y0.clone()),
            ExprKind::Path(y0) => ExprKind::Path(dup_strs(y0)),
            ExprKind::Block(y0) => ExprKind::Block(y0.dup()),
            ExprKind::Binary { op, left, right } => ExprKind::Binary {
                op: *op,
                left: Box::new(left.dup()),
                right: Box::new(right.dup()),
            },
            ExprKind::Unary { op, expr } => ExprKind::Unary { op: *op, expr: Box::new(expr.dup()) },
            ExprKind::Call { func, args } => ExprKind::Call {
                func: Box::new(func.dup()),
                args: dup_exprs(args),
            },
            ExprKind::Field { object, field } => ExprKind::Field {
                object: Box::new(object.dup()),
                field: field.clone(),
            },
            ExprKind::Index { object, index } => ExprKind::Index {
                object: Box::new(object.dup()),
                index: Box::new(index.dup()),
            },
            ExprKind::DotAccess { object, field } => ExprKind::DotAccess {
                object: Box::new(object.dup()),
                field: field.clone(),
            },
            ExprKind::Let { name, ty, value, is_mut } => ExprKind::Let {
                name: name.clone(),
                ty: match ty {
                    None => None,
                    Some(y) => Some(y.dup()),
                },
                value: Box::new(value.dup()),
                is_mut: *is_mut,
            },
            ExprKind::Assign { target, value } => ExprKind::Assign {
                target: Box::new(target.dup()),
                value: Box::new(value.dup()),
            },
            ExprKind::AssignOp { target, op, value } => ExprKind::AssignOp {
                target: Box::new(target.dup()),
                op: *op,
                value: Box::new(value.dup()),
            },
            ExprKind::If { cond, then_branch, else_branch } => ExprKind::If {
                cond: Box::new(cond.dup()),
                then_branch: then_branch.dup(),
                else_branch: match else_branch {
                    None => None,
                    Some(y) => Some(y.dup()),
                },
            },
            ExprKind::While { cond, body } => ExprKind::While {
                cond: Box::new(cond.dup()),
                body: body.dup(),
            },
            ExprKind::For { var, iter, body } => ExprKind::For {
                var: var.clone(),
                iter: Box::new(iter.dup()),
                body: body.dup(),
            },
            ExprKind::Return(y0) => ExprKind::Return(match y0 {
                None => None,
                Some(y) => Some(Box::new(y.dup())),
            }),
            ExprKind::Match { expr, arms } => ExprKind::Match {
                expr: Box::new(expr.dup()),
                arms: dup_match_arms(arms),
            },
            ExprKind::GcNew { ty, fields } => ExprKind::GcNew {
                ty: ty.dup(),
                fields: dup_field_inits(fields),
            },
            ExprKind::Lambda { params, return_type, body } => ExprKind::Lambda {
                params: dup_params(params),
                return_type: return_type.dup(),
                body: Box::new(body.dup()),
            },
            ExprKind::StructLit { path, fields } => ExprKind::StructLit {
                path: dup_strs(path),
                fields: dup_field_inits(fields),
            },
            ExprKind::EnumCtor { path, case, arg } => ExprKind::EnumCtor {
                path: dup_strs(path),
                case: case.clone(),
                arg: match arg {
                    None => None,
                    Some(y) => Some(Box::new(y.dup())),
                },
            },
            ExprKind::Quote(y0) => ExprKind::Quote(dup_exprs(y0)),
            ExprKind::Unquote(y0) => ExprKind::Unquote(Box::new(y0.dup())),
            ExprKind::UnquoteIdent(y0) => ExprKind::UnquoteIdent(y0.clone()),
            ExprKind::MacroCall { name, args } => ExprKind::MacroCall {
                name: name.clone(),
                args: dup_exprs(args),
            },
            ExprKind::FuncDef(y0) => ExprKind::FuncDef(y0.dup()),
            ExprKind::CppBlock(y0) => ExprKind::CppBlock(y0.clone()),
            ExprKind::CompileTimeResult(y0) => ExprKind::CompileTimeResult(dup_items(y0)),
            ExprKind::NamedArg { name, value } => ExprKind::NamedArg {
                name: name.clone(),
                value: Box::new(value.dup()),
            },
        }
    }
}

impl Block {
    /// A copy with the same model.
    pub fn dup(&self) -> (r: Self)
        ensures
            r@ == self@,
        decreases self,
    {
        Block {
            stmts: dup_exprs(&self.stmts),
            span: self.span,
        }
    }
}

impl MatchArm {
    /// A copy with the same model.
    pub fn dup(&self) -> (r: Self)
        ensures
            r@ == self@,
        decreases self,
    {
        MatchArm {
            pattern: self.pattern.dup(),
            guard: match &self.guard {
                None => None,
                Some(y) => Some(Box::new(y.dup())),
            },
            body: Box::new(self.body.dup()),
        }
    }
}

impl Pattern {
    /// A copy with the same model.
    pub fn dup(&self) -> (r: Self)
        ensures
            r@ == self@,
        decreases self,
    {
        Pattern {
            kind: self.kind.dup(),
            span: self.span,
        }
    }
}

impl PatternKind {
    /// A copy with the same model.
    pub fn dup(&self) -> (r: Self)
        ensures
            r@ == self@,
        decreases self,
    {
        match self {
            PatternKind::Wildcard => PatternKind::Wildcard,
            PatternKind::Literal(y0) => PatternKind::Literal(y0.dup()),
            PatternKind::Variable { name, is_mut } => PatternKind::Variable {
                name: name.clone(),
                is_mut: *is_mut,
            },
            PatternKind::EnumCtor { path, case, inner } => PatternKind::EnumCtor {
                path: dup_strs(path),
                case: case.clone(),
                inner: match inner {
                    None => None,
                    Some(y) => Some(Box::new(y.dup())),
                },
            },
            PatternKind::Struct { path, fields } => PatternKind::Struct {
                path: dup_strs(path),
                fields: dup_field_patterns(fields),
            },
            PatternKind::Or(y0) => PatternKind::Or(dup_patterns(y0)),
        }
    }
}

impl LiteralPat {
    /// A copy with the same model.
    pub fn dup(&self) -> (r: Self)
        ensures
            r@ == self@,
        decreases self,
    {
        match self {
            LiteralPat::Int(y0) => LiteralPat::Int(*y0),
            LiteralPat::Float(y0) => LiteralPat::Float(y0.clone()),
            LiteralPat::String(y0) => LiteralPat::String(y0.clone()),
            LiteralPat::Char(y0) => LiteralPat::Char(*y0),
            LiteralPat::Bool(y0) => LiteralPat::Bool(*y0),
            LiteralPat::Nil => LiteralPat::Nil,
        }
    }
}

impl MacroDef {
    /// A copy with the same model.
    pub fn dup(&self) -> (r: Self)
        ensures
            r@ == self@,
        decreases self,
    {
        MacroDef {
            name: self.name.clone(),
            params: dup_strs(&self.params),
            body: Box::new(self.body.dup()),
            span: self.span,
        }
    }
}

impl MacroCallItem {
    /// A copy with the same model.
    pub fn dup(&self) -> (r: Self)
        ensures
            r@ == self@,
        decreases self,
    {
        MacroCallItem {
            name: self.name.clone(),
            args: dup_exprs(&self.args),
            span: self.span,
        }
    }
}

impl TraitDef {
    /// A copy with the same model.
    pub fn dup(&self) -> (r: Self)
        ensures
            r@ == self@,
        decreases self,
    {
        TraitDef {
            name: self.name.clone(),
            generics: dup_generic_params(&self.generics),
            self_alias: dup_opt_str(&self.self_alias),
            methods: dup_functions(&self.methods),
            span: self.span,
        }
    }
}

impl ImplBlock {
    /// A copy with the same model.
    pub fn dup(&self) -> (r: Self)
        ensures
            r@ == self@,
        decreases self,
    {
        ImplBlock {
            trait_name: self.trait_name.clone(),
            generics: dup_generic_params(&self.generics),
            target_type: self.target_type.dup(),
            methods: dup_functions(&self.methods),
            span: self.span,
        }
    }
}

pub fn dup_enum_cases(v: &Vec<EnumCase>) -> (r: Vec<EnumCase>)
    ensures
        enum_cases_v(r@) == enum_cases_v(v@),
    decreases v,
{
    let mut r: Vec<EnumCase> = Vec::new();
    let mut i: usize = 0;
    while i < v.len()
        invariant
            i <= v.len(),
            r.len() == i,
            forall|k: int|
                0 <= k < i ==> enum_case_v(#[trigger] r[k]) == enum_case_v(v[k]),
        decreases v.len() - i,
    {
        r.push(v[i].dup());
        i += 1;
    }
    assert(enum_cases_v(r@) =~= enum_cases_v(v@));
    r
}

pub fn dup_exprs(v: &Vec<Expr>) -> (r: Vec<Expr>)
    ensures
        exprs_v(r@) == exprs_v(v@),
    decreases v,
{
    let mut r: Vec<Expr> = Vec::new();
    let mut i: usize = 0;
    while i < v.len()
        invariant
            i <= v.len(),
            r.len() == i,
            forall|k: int|
                0 <= k < i ==> expr_v(#[trigger] r[k]) == expr_v(v[k]),
        decreases v.len() - i,
    {
        r.push(v[i].dup());
        i += 1;
    }
    assert(exprs_v(r@) =~= exprs_v(v@));
    r
}

pub fn dup_field_inits(v: &Vec<(String, Expr)>) -> (r: Vec<(String, Expr)>)
    ensures
        field_inits_v(r@) == field_inits_v(v@),
    decreases v,
{
    let mut r: Vec<(String, Expr)> = Vec::new();
    let mut i: usize = 0;
    while i < v.len()
        invariant
            i <= v.len(),
            r.len() == i,
            forall|k: int|
                0 <= k < i ==> (#[trigger] r[k]).0@ == v[k].0@ && expr_v(r[k].1) == expr_v(v[k].1),
        decreases v.len() - i,
    {
        let x = (v[i].0.clone(), v[i].1.dup());
        r.push(x);
        i += 1;
    }
    assert(field_inits_v(r@) =~= field_inits_v(v@));
    r
}

pub fn dup_field_patterns(v: &Vec<(String, Pattern)>) -> (r: Vec<(String, Pattern)>)
    ensures
        field_patterns_v(r@) == field_patterns_v(v@),
    decreases v,
{
    let mut r: Vec<(String, Pattern)> = Vec::new();
    let mut i: usize = 0;
    while i < v.len()
        invariant
            i <= v.len(),
            r.len() == i,
            forall|k: int|
                0 <= k < i ==> (
                    #[trigger] r[k]
                ).0@ == v[k].0@ && pattern_v(r[k].1) == pattern_v(v[k].1),
        decreases v.len() - i,
    {
        let x = (v[i].0.clone(), v[i].1.dup());
        r.push(x);
        i += 1;
    }
    assert(field_patterns_v(r@) =~= field_patterns_v(v@));
    r
}

pub fn dup_functions(v: &Vec<Function>) -> (r: Vec<Function>)
    ensures
        functions_v(r@) == functions_v(v@),
    decreases v,
{
    let mut r: Vec<Function> = Vec::new();
    let mut i: usize = 0;
    while i < v.len()
        invariant
            i <= v.len(),
            r.len() == i,
            forall|k: int|
                0 <= k < i ==> function_v(#[trigger] r[k]) == function_v(v[k]),
        decreases v.len() - i,
    {
        r.push(v[i].dup());
        i += 1;
    }
    assert(functions_v(r@) =~= functions_v(v@));
    r
}

pub fn dup_generic_params(v: &Vec<GenericParam>) -> (r: Vec<GenericParam>)
    ensures
        generic_params_v(r@) == generic_params_v(v@),
    decreases v,
{
    let mut r: Vec<GenericParam> = Vec::new();
    let mut i: usize = 0;
    while i < v.len()
        invariant
            i <= v.len(),
            r.len() == i,
            forall|k: int|
                0 <= k < i ==> generic_param_v(#[trigger] r[k]) == generic_param_v(v[k]),
        decreases v.len() - i,
    {
        r.push(v[i].dup());
        i += 1;
    }
    assert(generic_params_v(r@) =~= generic_params_v(v@));
    r
}

pub fn dup_import_items(v: &Vec<ImportItem>) -> (r: Vec<ImportItem>)
    ensures
        import_items_v(r@) == import_items_v(v@),
    decreases v,
{
    let mut r: Vec<ImportItem> = Vec::new();
    let mut i: usize = 0;
    while i < v.len()
        invariant
            i <= v.len(),
            r.len() == i,
            forall|k: int|
                0 <= k < i ==> import_item_v(#[trigger] r[k]) == import_item_v(v[k]),
        decreases v.len() - i,
    {
        r.push(v[i].dup());
        i += 1;
    }
    assert(import_items_v(r@) =~= import_items_v(v@));
    r
}

pub fn dup_imports(v: &Vec<Import>) -> (r: Vec<Import>)
    ensures
        imports_v(r@) == imports_v(v@),
    decreases v,
{
    let mut r: Vec<Import> = Vec::new();
    let mut i: usize = 0;
    while i < v.len()
        invariant
            i <= v.len(),
            r.len() == i,
            forall|k: int|
                0 <= k < i ==> import_v(#[trigger] r[k]) == import_v(v[k]),
        decreases v.len() - i,
    {
        r.push(v[i].dup());
        i += 1;
    }
    assert(imports_v(r@) =~= imports_v(v@));
    r
}

pub fn dup_items(v: &Vec<Item>) -> (r: Vec<Item>)
    ensures
        items_v(r@) == items_v(v@),
    decreases v,
{
    let mut r: Vec<Item> = Vec::new();
    let mut i: usize = 0;
    while i < v.len()
        invariant
            i <= v.len(),
            r.len() == i,
            forall|k: int|
                0 <= k < i ==> item_v(#[trigger] r[k]) == item_v(v[k]),
        decreases v.len() - i,
    {
        r.push(v[i].dup());
        i += 1;
    }
    assert(items_v(r@) =~= items_v(v@));
    r
}

pub fn dup_match_arms(v: &Vec<MatchArm>) -> (r: Vec<MatchArm>)
    ensures
        match_arms_v(r@) == match_arms_v(v@),
    decreases v,
{
    let mut r: Vec<MatchArm> = Vec::new();
    let mut i: usize = 0;
    while i < v.len()
        invariant
            i <= v.len(),
            r.len() == i,
            forall|k: int|
                0 <= k < i ==> match_arm_v(#[trigger] r[k]) == match_arm_v(v[k]),
        decreases v.len() - i,
    {
        r.push(v[i].dup());
        i += 1;
    }
    assert(match_arms_v(r@) =~= match_arms_v(v@));
    r
}

pub fn dup_params(v: &Vec<Param>) -> (r: Vec<Param>)
    ensures
        params_v(r@) == params_v(v@),
    decreases v,
{
    let mut r: Vec<Param> = Vec::new();
    let mut i: usize = 0;
    while i < v.len()
        invariant
            i <= v.len(),
            r.len() == i,
            forall|k: int|
                0 <= k < i ==> param_v(#[trigger] r[k]) == param_v(v[k]),
        decreases v.len() - i,
    {
        r.push(v[i].dup());
        i += 1;
    }
    assert(params_v(r@) =~= params_v(v@));
    r
}

pub fn dup_path_segments(v: &Vec<PathSegment>) -> (r: Vec<PathSegment>)
    ensures
        path_segments_v(r@) == path_segments_v(v@),
    decreases v,
{
    let mut r: Vec<PathSegment> = Vec::new();
    let mut i: usize = 0;
    while i < v.len()
        invariant
            i <= v.len(),
            r.len() == i,
            forall|k: int|
                0 <= k < i ==> path_segment_v(#[trigger] r[k]) == path_segment_v(v[k]),
        decreases v.len() - i,
    {
        r.push(v[i].dup());
        i += 1;
    }
    assert(path_segments_v(r@) =~= path_segments_v(v@));
    r
}

pub fn dup_patterns(v: &Vec<Pattern>) -> (r: Vec<Pattern>)
    ensures
        patterns_v(r@) == patterns_v(v@),
    decreases v,
{
    let mut r: Vec<Pattern> = Vec::new();
    let mut i: usize = 0;
    while i < v.len()
        invariant
            i <= v.len(),
            r.len() == i,
            forall|k: int|
                0 <= k < i ==> pattern_v(#[trigger] r[k]) == pattern_v(v[k]),
        decreases v.len() - i,
    {
        r.push(v[i].dup());
        i += 1;
    }
    assert(patterns_v(r@) =~= patterns_v(v@));
    r
}

pub fn dup_struct_fields(v: &Vec<StructField>) -> (r: Vec<StructField>)
    ensures
        struct_fields_v(r@) == struct_fields_v(v@),
    decreases v,
{
    let mut r: Vec<StructField> = Vec::new();
    let mut i: usize = 0;
    while i < v.len()
        invariant
            i <= v.len(),
            r.len() == i,
            forall|k: int|
                0 <= k < i ==> struct_field_v(#[trigger] r[k]) == struct_field_v(v[k]),
        decreases v.len() - i,
    {
        r.push(v[i].dup());
        i += 1;
    }
    assert(struct_fields_v(r@) =~= struct_fields_v(v@));
    r
}

pub fn dup_types(v: &Vec<Type>) -> (r: Vec<Type>)
    ensures
        types_v(r@) == types_v(v@),
    decreases v,
{
    let mut r: Vec<Type> = Vec::new();
    let mut i: usize = 0;
    while i < v.len()
        invariant
            i <= v.len(),
            r.len() == i,
            forall|k: int|
                0 <= k < i ==> type_v(#[trigger] r[k]) == type_v(v[k]),
        decreases v.len() - i,
    {
        r.push(v[i].dup());
        i += 1;
    }
    assert(types_v(r@) =~= types_v(v@));
    r
}


/// The model of an optional type.
pub open spec fn opt_type_v(o: Option<Type>) -> Option<TypeV> {
    match o {
        None => None,
        Some(t) => Some(t@),
    }
}

/// The model of an optional expression.
pub open spec fn opt_expr_v(o: Option<Expr>) -> Option<ExprV> {
    match o {
        None => None,
        Some(e) => Some(e@),
    }
}

/// The model of an optional block.
pub open spec fn opt_block_v(o: Option<Block>) -> Option<BlockV> {
    match o {
        None => None,
        Some(b) => Some(b@),
    }
}

} // verus!
