//! The values that programs compute with when they are interpreted.
use vstd::prelude::*;
use crate::maps::Dup;

verus! {

use crate::ast::{Enum, Expr, Import, ImportItem, Item, Module, Struct};
use crate::debug::{
    debug_bool, debug_expr, debug_item, debug_items, debug_opt_str, debug_span, debug_str,
    debug_strs, show_debug_bool, show_debug_items, show_debug_opt_str, show_debug_span,
    show_debug_str, show_debug_strs,
};
use crate::host::{FloatOp, Host, HostV, Stop, StopV, float_result, ran};
use crate::model::{
    ExprV, ImportItemV, ImportV, ItemV, ModuleV, dup_items, import_item_v, import_items_v, import_v,
    imports_v, items_v, module_v,
};
use crate::text::{cat3, cat5, cat7, int_text, show_i64, str_eq};

/// A value.
#[derive(Debug)]
pub enum Value {
    Int(i64),
    /// A floating-point number as a decimal text.
    Float(String),
    String(String),
    Bool(bool),
    Expr(Expr),
    Items(Vec<Item>),
    Item(Item),
    List(Vec<Value>),
    Module(Module),
    /// A struct: the name of its type, by which overloads are chosen, and its fields.
    Struct(String, Vec<(String, Value)>),
    /// A case of an enum with its payload.
    Enum(String, Option<Box<Value>>),
    Nil,
}

/// The model of a [`Value`].
#[verifier::ext_equal]
pub enum ValueV {
    Int(i64),
    Float(Seq<char>),
    String(Seq<char>),
    Bool(bool),
    Expr(ExprV),
    Items(Seq<ItemV>),
    Item(ItemV),
    List(Seq<ValueV>),
    Module(ModuleV),
    Struct(Seq<char>, Seq<(Seq<char>, ValueV)>),
    Enum(Seq<char>, Option<Box<ValueV>>),
    Nil,
}

pub open spec fn value_v(x: Value) -> ValueV
    decreases x,
{
    match x {
        Value::Int(n) => ValueV::Int(n),
        Value::Float(s) => ValueV::Float(s@),
        Value::String(s) => ValueV::String(s@),
        Value::Bool(b) => ValueV::Bool(b),
        Value::Expr(e) => ValueV::Expr(e@),
        Value::Items(v) => ValueV::Items(items_v(v@)),
        Value::Item(i) => ValueV::Item(i@),
        Value::List(v) => ValueV::List(values_v(v@)),
        Value::Module(m) => ValueV::Module(m@),
        Value::Struct(n, fs) => ValueV::Struct(n@, value_fields_v(fs@)),
        Value::Enum(n, p) => ValueV::Enum(
            n@,
            match p {
                None => None,
                Some(v) => Some(Box::new(value_v(*v))),
            },
        ),
        Value::Nil => ValueV::Nil,
    }
}

pub open spec fn values_v(s: Seq<Value>) -> Seq<ValueV>
    decreases s,
{
    Seq::new(
        s.len(),
        |i: int|
            if 0 <= i < s.len() {
                value_v(s[i])
            } else {
                arbitrary()
            },
    )
}

pub open spec fn value_fields_v(s: Seq<(String, Value)>) -> Seq<(Seq<char>, ValueV)>
    decreases s,
{
    Seq::new(
        s.len(),
        |i: int|
            if 0 <= i < s.len() {
                (s[i].0@, value_v(s[i].1))
            } else {
                arbitrary()
            },
    )
}

impl View for Value {
    type V = ValueV;

    open spec fn view(&self) -> ValueV {
        value_v(*self)
    }
}

pub broadcast proof fn lemma_values_push(s: Seq<Value>, x: Value)
    ensures
        #[trigger] values_v(s.push(x)) == values_v(s).push(value_v(x)),
{
    assert(values_v(s.push(x)) =~= values_v(s).push(value_v(x)));
}

pub broadcast proof fn lemma_values_empty()
    ensures
        #[trigger] values_v(Seq::<Value>::empty()) == Seq::<ValueV>::empty(),
{
    assert(values_v(Seq::<Value>::empty()) =~= Seq::<ValueV>::empty());
}

pub broadcast proof fn lemma_value_fields_push(s: Seq<(String, Value)>, x: (String, Value))
    ensures
        #[trigger] value_fields_v(s.push(x)) == value_fields_v(s).push((x.0@, value_v(x.1))),
{
    assert(value_fields_v(s.push(x)) =~= value_fields_v(s).push((x.0@, value_v(x.1))));
}

pub broadcast proof fn lemma_value_fields_empty()
    ensures
        #[trigger] value_fields_v(Seq::<(String, Value)>::empty()) == Seq::<
            (Seq<char>, ValueV),
        >::empty(),
{
    assert(value_fields_v(Seq::<(String, Value)>::empty()) =~= Seq::<
        (Seq<char>, ValueV),
    >::empty());
}

pub broadcast group group_value_views {
    lemma_values_push,
    lemma_values_empty,
    lemma_value_fields_push,
    lemma_value_fields_empty,
}

impl Value {
    pub fn dup(&self) -> (r: Self)
        ensures
            r@ == self@,
        decreases self,
    {
        let ghost g = value_v(*self);
        let r = match self {
            Value::Int(n) => Value::Int(*n),
            Value::Float(s) => Value::Float(s.clone()),
            Value::String(s) => Value::String(s.clone()),
            Value::Bool(b) => Value::Bool(*b),
            Value::Expr(e) => Value::Expr(e.dup()),
            Value::Items(v) => Value::Items(dup_items(v)),
            Value::Item(i) => Value::Item(i.dup()),
            Value::List(v) => Value::List(dup_values(v)),
            Value::Module(m) => Value::Module(m.dup()),
            Value::Struct(n, fs) => Value::Struct(n.clone(), dup_value_fields(fs)),
            Value::Enum(n, p) => Value::Enum(
                n.clone(),
                match p {
                    None => None,
                    Some(v) => Some(Box::new(v.dup())),
                },
            ),
            Value::Nil => Value::Nil,
        };
        let ghost rv = value_v(r);
        r
    }
}

impl Dup for Value {
    fn copy(&self) -> (r: Self) {
        self.dup()
    }
}

pub fn dup_values(v: &Vec<Value>) -> (r: Vec<Value>)
    ensures
        values_v(r@) == values_v(v@),
        r.len() == v.len(),
    decreases v,
{
    let mut r: Vec<Value> = Vec::new();
    let mut i: usize = 0;
    while i < v.len()
        invariant
            i <= v.len(),
            r.len() == i,
            forall|k: int| 0 <= k < i ==> value_v(#[trigger] r[k]) == value_v(v[k]),
        decreases v.len() - i,
    {
        r.push(v[i].dup());
        i = i + 1;
    }
    assert(values_v(r@) =~= values_v(v@));
    r
}

pub fn dup_value_fields(v: &Vec<(String, Value)>) -> (r: Vec<(String, Value)>)
    ensures
        value_fields_v(r@) == value_fields_v(v@),
    decreases v,
{
    let mut r: Vec<(String, Value)> = Vec::new();
    let mut i: usize = 0;
    while i < v.len()
        invariant
            i <= v.len(),
            r.len() == i,
            forall|k: int|
                0 <= k < i ==> (#[trigger] r[k]).0@ == v[k].0@ && value_v(r[k].1) == value_v(
                    v[k].1,
                ),
        decreases v.len() - i,
    {
        let x = (v[i].0.clone(), v[i].1.dup());
        r.push(x);
        i = i + 1;
    }
    assert(value_fields_v(r@) =~= value_fields_v(v@));
    r
}

// ------------------------------------------------------------------------- fields

/// Where a field stands among those from `i` on.
pub open spec fn field_place(fs: Seq<(Seq<char>, ValueV)>, name: Seq<char>, i: int) -> Option<int>
    decreases fs.len() - i,
{
    if 0 <= i < fs.len() {
        if fs[i].0 == name {
            Some(i)
        } else {
            field_place(fs, name, i + 1)
        }
    } else {
        None
    }
}

/// The fields with one set: a field that is there gets the new value, a new one comes last.
pub open spec fn set_field(
    fs: Seq<(Seq<char>, ValueV)>,
    name: Seq<char>,
    v: ValueV,
) -> Seq<(Seq<char>, ValueV)> {
    match field_place(fs, name, 0) {
        Some(k) => fs.update(k, (name, v)),
        None => fs.push((name, v)),
    }
}

/// The value of a field.
pub open spec fn get_field(fs: Seq<(Seq<char>, ValueV)>, name: Seq<char>) -> Option<ValueV> {
    match field_place(fs, name, 0) {
        Some(k) => Some(fs[k].1),
        None => None,
    }
}

proof fn lemma_field_place(fs: Seq<(Seq<char>, ValueV)>, name: Seq<char>, i: int)
    requires
        0 <= i,
    ensures
        match field_place(fs, name, i) {
            Some(k) => i <= k < fs.len() && fs[k].0 == name && forall|j: int|
                i <= j < k ==> (#[trigger] fs[j]).0 != name,
            None => forall|j: int| i <= j < fs.len() ==> (#[trigger] fs[j]).0 != name,
        },
    decreases fs.len() - i,
{
    if i < fs.len() && fs[i].0 != name {
        lemma_field_place(fs, name, i + 1);
    }
}

/// A field that was set has the value that it was set to.
pub proof fn law_set_field_is_read(fs: Seq<(Seq<char>, ValueV)>, name: Seq<char>, v: ValueV)
    ensures
        get_field(set_field(fs, name, v), name) == Some(v),
{
    let gs = set_field(fs, name, v);
    lemma_field_place(fs, name, 0);
    lemma_field_place(gs, name, 0);
    match field_place(fs, name, 0) {
        Some(k) => {
            assert(gs[k].0 == name);
            match field_place(gs, name, 0) {
                Some(j) => {
                    if j < k {
                        assert(gs[j] == fs[j]);
                    }
                },
                None => {},
            }
        },
        None => {
            assert(gs[fs.len() as int].0 == name);
            match field_place(gs, name, 0) {
                Some(j) => {
                    if j < fs.len() {
                        assert(gs[j] == fs[j]);
                    }
                },
                None => {},
            }
        },
    }
}

pub fn find_value_field(fs: &Vec<(String, Value)>, name: &str) -> (r: Option<usize>)
    ensures
        match r {
            Some(k) => field_place(value_fields_v(fs@), name@, 0) == Some(k as int) && k < fs.len(),
            None => field_place(value_fields_v(fs@), name@, 0) is None,
        },
{
    let mut i: usize = 0;
    while i < fs.len()
        invariant
            i <= fs.len(),
            field_place(value_fields_v(fs@), name@, 0) == field_place(
                value_fields_v(fs@),
                name@,
                i as int,
            ),
        decreases fs.len() - i,
    {
        let ghost f = value_fields_v(fs@)[i as int];
        if str_eq(&fs[i].0, name) {
            return Some(i);
        }
        i = i + 1;
    }
    None
}

/// One field set.
pub fn put_field(fs: &mut Vec<(String, Value)>, name: &str, v: Value)
    ensures
        value_fields_v(final(fs)@) == set_field(value_fields_v(old(fs)@), name@, v@),
{
    match find_value_field(fs, name) {
        Some(k) => {
            fs.set(k, (name.to_owned(), v));
            assert(value_fields_v(fs@) =~= value_fields_v(old(fs)@).update(
                k as int,
                (name@, v@),
            ));
        },
        None => {
            fs.push((name.to_owned(), v));
            assert(value_fields_v(fs@) =~= value_fields_v(old(fs)@).push((name@, v@)));
        },
    }
}

// -------------------------------------------------------------------- debug texts

/// The debug text of an import item.
pub open spec fn debug_import_item(x: ImportItemV) -> Seq<char> {
    match x {
        ImportItemV::All => "All"@,
        ImportItemV::Single { name, alias } => "Single { name: "@ + debug_str(name) + ", alias: "@
            + debug_opt_str(alias) + " }"@,
    }
}

/// `acc` and then the import items from `i` on, with commas between them.
pub open spec fn debug_import_items(xs: Seq<ImportItemV>, i: int, acc: Seq<char>) -> Seq<char>
    decreases xs.len() - i,
{
    if 0 <= i < xs.len() {
        debug_import_items(
            xs,
            i + 1,
            (if i > 0 {
                acc + ", "@
            } else {
                acc
            }) + debug_import_item(xs[i]),
        )
    } else {
        acc + "]"@
    }
}

/// The debug text of an import.
pub open spec fn debug_import(x: ImportV) -> Seq<char> {
    "Import { path: "@ + debug_strs(x.path, 0, "["@) + ", items: "@ + debug_import_items(
        x.items,
        0,
        "["@,
    ) + ", span: "@ + debug_span(x.span) + " }"@
}

/// `acc` and then the imports from `i` on, with commas between them.
pub open spec fn debug_imports(xs: Seq<ImportV>, i: int, acc: Seq<char>) -> Seq<char>
    decreases xs.len() - i,
{
    if 0 <= i < xs.len() {
        debug_imports(
            xs,
            i + 1,
            (if i > 0 {
                acc + ", "@
            } else {
                acc
            }) + debug_import(xs[i]),
        )
    } else {
        acc + "]"@
    }
}

/// The debug text of a module.
pub open spec fn debug_module(m: ModuleV) -> Seq<char> {
    "Module { name: "@ + debug_str(m.name) + ", imports: "@ + debug_imports(m.imports, 0, "["@)
        + ", items: "@ + debug_items(m.items, 0, "["@) + " }"@
}

fn show_debug_import_items(xs: &Vec<ImportItem>) -> (r: String)
    ensures
        r@ == debug_import_items(import_items_v(xs@), 0, "["@),
{
    let mut s = "[".to_owned();
    let mut i: usize = 0;
    while i < xs.len()
        invariant
            i <= xs.len(),
            debug_import_items(import_items_v(xs@), 0, "["@) == debug_import_items(
                import_items_v(xs@),
                i as int,
                s@,
            ),
        decreases xs.len() - i,
    {
        let ghost g = import_item_v(xs[i as int]);
        if i > 0 {
            s.append(", ");
        }
        let t = match &xs[i] {
            ImportItem::All => "All".to_owned(),
            ImportItem::Single { name, alias } => {
                let n = show_debug_str(name);
                let a = show_debug_opt_str(alias);
                cat5("Single { name: ", &n, ", alias: ", &a, " }")
            },
        };
        s.append(&t);
        i = i + 1;
    }
    s.append("]");
    s
}

fn show_debug_imports(xs: &Vec<Import>) -> (r: String)
    ensures
        r@ == debug_imports(imports_v(xs@), 0, "["@),
{
    let mut s = "[".to_owned();
    let mut i: usize = 0;
    while i < xs.len()
        invariant
            i <= xs.len(),
            debug_imports(imports_v(xs@), 0, "["@) == debug_imports(
                imports_v(xs@),
                i as int,
                s@,
            ),
        decreases xs.len() - i,
    {
        let ghost g = import_v(xs[i as int]);
        if i > 0 {
            s.append(", ");
        }
        let p = show_debug_strs(&xs[i].path);
        let items = show_debug_import_items(&xs[i].items);
        let sp = show_debug_span(xs[i].span);
        let t = cat7("Import { path: ", &p, ", items: ", &items, ", span: ", &sp, " }");
        s.append(&t);
        i = i + 1;
    }
    s.append("]");
    s
}

fn show_debug_module(m: &Module) -> (r: String)
    ensures
        r@ == debug_module(m@),
{
    let ghost g = module_v(*m);
    let n = show_debug_str(&m.name);
    let imports = show_debug_imports(&m.imports);
    let items = show_debug_items(&m.items);
    cat7("Module { name: ", &n, ", imports: ", &imports, ", items: ", &items, " }")
}

/// The debug text of a value, or the question about a number in it.
pub open spec fn debug_value(h: HostV, v: ValueV) -> Result<Seq<char>, StopV>
    decreases v, 0int,
{
    match v {
        ValueV::Int(n) => Ok("Int("@ + int_text(n as int) + ")"@),
        ValueV::Float(s) => wrapped("Float("@, float_result(h, FloatOp::ShowDebug, s, ""@)),
        ValueV::String(s) => Ok("String("@ + debug_str(s) + ")"@),
        ValueV::Bool(b) => Ok("Bool("@ + debug_bool(b) + ")"@),
        ValueV::Expr(e) => Ok("Expr("@ + debug_expr(e) + ")"@),
        ValueV::Items(xs) => Ok("Items("@ + debug_items(xs, 0, "["@) + ")"@),
        ValueV::Item(x) => Ok("Item("@ + debug_item(x) + ")"@),
        ValueV::List(xs) => wrapped("List("@, debug_values(h, xs, 0, "["@)),
        ValueV::Module(m) => Ok("Module("@ + debug_module(m) + ")"@),
        ValueV::Struct(n, fs) => wrapped(
            "Struct("@ + debug_str(n) + ", "@,
            debug_value_fields(h, fs, 0, "{"@),
        ),
        ValueV::Enum(n, None) => Ok("Enum("@ + debug_str(n) + ", None)"@),
        ValueV::Enum(n, Some(p)) => match debug_value(h, *p) {
            Ok(t) => Ok("Enum("@ + debug_str(n) + ", Some("@ + t + "))"@),
            Err(s) => Err(s),
        },
        ValueV::Nil => Ok("Nil"@),
    }
}

/// A text in brackets behind a name.
pub open spec fn wrapped(name: Seq<char>, r: Result<Seq<char>, StopV>) -> Result<Seq<char>, StopV> {
    match r {
        Ok(t) => Ok(name + t + ")"@),
        Err(s) => Err(s),
    }
}

/// `acc` and then the values from `i` on, with commas between them.
pub open spec fn debug_values(h: HostV, xs: Seq<ValueV>, i: int, acc: Seq<char>) -> Result<
    Seq<char>,
    StopV,
>
    decreases xs, xs.len() - i,
{
    if 0 <= i < xs.len() {
        match debug_value(h, xs[i]) {
            Err(s) => Err(s),
            Ok(t) => debug_values(
                h,
                xs,
                i + 1,
                (if i > 0 {
                    acc + ", "@
                } else {
                    acc
                }) + t,
            ),
        }
    } else {
        Ok(acc + "]"@)
    }
}

/// `acc` and then the fields from `i` on, with commas between them.
pub open spec fn debug_value_fields(
    h: HostV,
    xs: Seq<(Seq<char>, ValueV)>,
    i: int,
    acc: Seq<char>,
) -> Result<Seq<char>, StopV>
    decreases xs, xs.len() - i,
{
    if 0 <= i < xs.len() {
        match debug_value(h, xs[i].1) {
            Err(s) => Err(s),
            Ok(t) => debug_value_fields(
                h,
                xs,
                i + 1,
                (if i > 0 {
                    acc + ", "@
                } else {
                    acc
                }) + debug_str(xs[i].0) + ": "@ + t,
            ),
        }
    } else {
        Ok(acc + "}"@)
    }
}

impl Value {
    /// The debug text, or the question about a number in it.
    pub fn debug(&self, h: &Host) -> (r: Result<String, Stop>)
        ensures
            ran(r) == debug_value(h@, self@),
        decreases self,
    {
        let ghost g = value_v(*self);
        match self {
            Value::Int(n) => Ok(cat3("Int(", &show_i64(*n), ")")),
            Value::Float(s) => {
                let t = h.float(FloatOp::ShowDebug, s, "")?;
                Ok(cat3("Float(", &t, ")"))
            },
            Value::String(s) => Ok(cat3("String(", &show_debug_str(s), ")")),
            Value::Bool(b) => Ok(cat3("Bool(", &show_debug_bool(*b), ")")),
            Value::Expr(e) => Ok(cat3("Expr(", &e.debug(), ")")),
            Value::Items(v) => Ok(cat3("Items(", &show_debug_items(v), ")")),
            Value::Item(i) => Ok(cat3("Item(", &i.debug(), ")")),
            Value::List(v) => {
                let t = show_debug_values(h, v)?;
                Ok(cat3("List(", &t, ")"))
            },
            Value::Module(m) => Ok(cat3("Module(", &show_debug_module(m), ")")),
            Value::Struct(n, fs) => {
                let t = show_debug_value_fields(h, fs)?;
                let name = show_debug_str(n);
                Ok(cat5("Struct(", &name, ", ", &t, ")"))
            },
            Value::Enum(n, None) => {
                let name = show_debug_str(n);
                Ok(cat3("Enum(", &name, ", None)"))
            },
            Value::Enum(n, Some(p)) => {
                let t = p.debug(h)?;
                let name = show_debug_str(n);
                Ok(cat5("Enum(", &name, ", Some(", &t, "))"))
            },
            Value::Nil => Ok("Nil".to_owned()),
        }
    }
}

fn show_debug_values(h: &Host, xs: &Vec<Value>) -> (r: Result<String, Stop>)
    ensures
        ran(r) == debug_values(h@, values_v(xs@), 0, "["@),
    decreases xs,
{
    let mut s = "[".to_owned();
    let mut i: usize = 0;
    while i < xs.len()
        invariant
            i <= xs.len(),
            debug_values(h@, values_v(xs@), 0, "["@) == debug_values(
                h@,
                values_v(xs@),
                i as int,
                s@,
            ),
        decreases xs.len() - i,
    {
        let ghost g = values_v(xs@)[i as int];
        let t = xs[i].debug(h)?;
        if i > 0 {
            s.append(", ");
        }
        s.append(&t);
        i = i + 1;
    }
    s.append("]");
    Ok(s)
}

fn show_debug_value_fields(h: &Host, xs: &Vec<(String, Value)>) -> (r: Result<String, Stop>)
    ensures
        ran(r) == debug_value_fields(h@, value_fields_v(xs@), 0, "{"@),
    decreases xs,
{
    let mut s = "{".to_owned();
    let mut i: usize = 0;
    while i < xs.len()
        invariant
            i <= xs.len(),
            debug_value_fields(h@, value_fields_v(xs@), 0, "{"@) == debug_value_fields(
                h@,
                value_fields_v(xs@),
                i as int,
                s@,
            ),
        decreases xs.len() - i,
    {
        let ghost g = value_fields_v(xs@)[i as int];
        let t = xs[i].1.debug(h)?;
        if i > 0 {
            s.append(", ");
        }
        s.append(&show_debug_str(&xs[i].0));
        s.append(": ");
        s.append(&t);
        i = i + 1;
    }
    s.append("}");
    Ok(s)
}

} // verus!
