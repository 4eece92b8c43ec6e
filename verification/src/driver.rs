//! The compiler as a whole: from a source text to C++, or to what a program prints.
use vstd::prelude::*;

verus! {

use crate::ast::Module;
use crate::codegen::cpp::{CppGenerator, cpp_text_of};
use crate::error::{CompileError, CompileErrorV, res_v};
use crate::expand_model::{Expansion, first_macros, y_module};
use crate::host::{Host, HostV, Stop, StopV, or_stop, ran};
use crate::import_macro::ImportMacro;
use crate::interp_model::{Called, Ctx, e_call};
use crate::interpreter::{Interpreter, Program, ctx, functions_from, impls_of, structs_from};
use crate::macro_expand::MacroExpander;
use crate::model::{ModuleV, group_list_views};
use crate::mono::Mono;
use crate::mono_model::{is_concrete, lowered_module};
use crate::resolve::{apply_resolutions, resolve_items};
use crate::source::{parse_source, parsed};
use crate::text::{cat3, dup_strs, opt_str_v, strs_v};
use crate::token::{Span, zero_span};
use crate::typeck::{TypeChecker, add_items, built_in, check_items};
use crate::value::{Value, values_v};

broadcast use group_list_views;

/// Where modules are looked for: next to the file, then in the directories that are named,
/// then in the working directory.
pub open spec fn search_order(dir: Option<Seq<char>>, libs: Seq<Seq<char>>) -> Seq<Seq<char>> {
    (match dir {
        Some(d) => seq![d],
        None => Seq::empty(),
    }) + libs + seq!["."@]
}

/// Where modules are looked for.
pub fn search_paths(dir: Option<String>, libs: &Vec<String>) -> (r: Vec<String>)
    ensures
        strs_v(r@) == search_order(opt_str_v(dir), strs_v(libs@)),
{
    let mut out: Vec<String> = Vec::new();
    let ghost start = match opt_str_v(dir) {
        Some(d) => seq![d],
        None => Seq::empty(),
    };
    if let Some(d) = dir {
        out.push(d);
    }
    assert(strs_v(out@) =~= start);
    let mut i: usize = 0;
    assert(start + strs_v(libs@).take(0) =~= start);
    while i < libs.len()
        invariant
            i <= libs.len(),
            strs_v(out@) == start + strs_v(libs@).take(i as int),
        decreases libs.len() - i,
    {
        out.push(libs[i].clone());
        i = i + 1;
        assert(strs_v(out@) =~= start + strs_v(libs@).take(i as int));
    }
    out.push(".".to_owned());
    assert(strs_v(libs@).take(i as int) =~= strs_v(libs@));
    assert(strs_v(out@) =~= search_order(opt_str_v(dir), strs_v(libs@)));
    out
}

/// A module with its macros expanded.
pub open spec fn expanded(h: HostV, dirs: Seq<Seq<char>>, m: ModuleV, fuel: nat) -> Result<
    ModuleV,
    StopV,
> {
    match first_macros(h, dirs) {
        Err(s) => Err(s),
        Ok(macros) => {
            let x = Expansion {
                macros,
                dirs,
                ctx: Ctx {
                    dirs,
                    structs: structs_from(m.items, 0, Map::empty()),
                    functions: Map::empty(),
                    impls: Map::empty(),
                    runtime: false,
                    host: h,
                },
            };
            match y_module(x, fuel, m.items).0 {
                Err(s) => Err(s),
                Ok(items) => Ok(ModuleV { items, ..m }),
            }
        },
    }
}

/// A module with its macros expanded.
pub fn expand(module: Module, dirs: &Vec<String>, host: &Host, fuel: u64) -> (r: Result<
    Module,
    Stop,
>)
    ensures
        ran(r) == expanded(host@, strs_v(dirs@), module@, fuel as nat),
{
    let importer = ImportMacro::new(dup_strs(dirs));
    let interpreter = Interpreter::new(dup_strs(dirs));
    let mut expander = MacroExpander::new(importer, interpreter, host)?;
    expander.register_structs(&module);
    let mut m = module;
    expander.expand_module(&mut m, host, fuel)?;
    Ok(m)
}

/// A module whose types fit, with its dot accesses resolved.
pub open spec fn checked(m: ModuleV) -> Result<ModuleV, CompileErrorV> {
    match check_items(add_items(built_in(), m.items, 0), m.items, 0, Map::empty()) {
        Err(e) => Err(e),
        Ok(res) => Ok(ModuleV { items: resolve_items(m.items, res), ..m }),
    }
}

/// A module whose types fit, with its dot accesses resolved.
pub fn check(module: Module) -> (r: Result<Module, CompileError>)
    ensures
        res_v(r) == checked(module@),
{
    let mut checker = TypeChecker::new();
    checker.register_types(&module);
    let resolutions = checker.check_module(&module)?;
    let mut m = module;
    apply_resolutions(&mut m, &resolutions);
    Ok(m)
}

/// A source text as a module that is ready to be generated: parsed, with its macros
/// expanded, without generics, and with types that fit.
pub open spec fn prepared(
    h: HostV,
    dirs: Seq<Seq<char>>,
    src: Seq<char>,
    name: Seq<char>,
    fuel: nat,
) -> Result<ModuleV, StopV> {
    match parsed(src, name) {
        Err(e) => Err(StopV::Error(e)),
        Ok(m) => match expanded(h, dirs, m, fuel) {
            Err(s) => Err(s),
            Ok(m1) => match lowered_module(m1) {
                Err(e) => Err(StopV::Error(e)),
                Ok(m2) => or_stop(checked(m2)),
            },
        },
    }
}

/// A source text as a module that is ready to be generated: nothing in it has a parameter
/// of type.
pub fn prepare(src: &str, name: &str, dirs: &Vec<String>, host: &Host, fuel: u64) -> (r: Result<
    Module,
    Stop,
>)
    ensures
        ran(r) == prepared(host@, strs_v(dirs@), src@, name@, fuel as nat),
        r is Ok ==> forall|i: int|
            0 <= i < r->Ok_0@.items.len() ==> is_concrete(#[trigger] r->Ok_0@.items[i]),
{
    let m = match parse_source(src, name) {
        Err(e) => {
            return Err(Stop::Error(e));
        },
        Ok(m) => m,
    };
    let m1 = expand(m, dirs, host, fuel)?;
    let m2 = match Mono::lower(&m1) {
        Err(e) => {
            return Err(Stop::Error(e));
        },
        Ok(m) => m,
    };
    let ghost lowered = m2@;
    match check(m2) {
        Err(e) => Err(Stop::Error(e)),
        Ok(m) => {
            assert forall|i: int| 0 <= i < m@.items.len() implies is_concrete(
                #[trigger] m@.items[i],
            ) by {
                assert(is_concrete(lowered.items[i]));
            }
            Ok(m)
        },
    }
}

/// The C++ of a source text.
pub open spec fn cpp_of(
    h: HostV,
    dirs: Seq<Seq<char>>,
    src: Seq<char>,
    name: Seq<char>,
    fuel: nat,
) -> Result<Seq<char>, StopV> {
    match prepared(h, dirs, src, name, fuel) {
        Err(s) => Err(s),
        Ok(m) => Ok(cpp_text_of(m.items)),
    }
}

/// The C++ of a source text.
pub fn compile(src: &str, name: &str, dirs: &Vec<String>, host: &Host, fuel: u64) -> (r: Result<
    String,
    Stop,
>)
    ensures
        ran(r) == cpp_of(host@, strs_v(dirs@), src@, name@, fuel as nat),
{
    let m = prepare(src, name, dirs, host, fuel)?;
    Ok(CppGenerator::new().generate(&m))
}

/// A generated text behind the runtime that it needs.
pub fn bundle(runtime: &str, cpp: &str) -> (r: String)
    ensures
        r@ == runtime@ + "\n"@ + cpp@,
{
    cat3(runtime, "\n", cpp)
}

/// A source text as a module that is ready to be run: parsed, with its macros expanded,
/// and with types that fit.
pub open spec fn runnable(
    h: HostV,
    dirs: Seq<Seq<char>>,
    src: Seq<char>,
    name: Seq<char>,
    fuel: nat,
) -> Result<ModuleV, StopV> {
    match parsed(src, name) {
        Err(e) => Err(StopV::Error(e)),
        Ok(m) => match expanded(h, dirs, m, fuel) {
            Err(s) => Err(s),
            Ok(m1) => or_stop(checked(m1)),
        },
    }
}

/// A program that runs a module.
pub open spec fn program_of(dirs: Seq<Seq<char>>, m: ModuleV) -> Program {
    Program {
        dirs,
        structs: structs_from(m.items, 0, Map::empty()),
        functions: functions_from(m.items, 0, Map::empty()),
        impls: impls_of(m.items, 0, Map::empty()),
        runtime: true,
    }
}

/// A call of `main` in the module of a source text: its value and what it printed.
pub open spec fn run_of(
    h: HostV,
    dirs: Seq<Seq<char>>,
    src: Seq<char>,
    name: Seq<char>,
    fuel: nat,
) -> Called {
    match runnable(h, dirs, src, name, fuel) {
        Err(s) => (Err(s), Seq::empty()),
        Ok(m) => e_call(
            ctx(program_of(dirs, m), h),
            fuel,
            "main"@,
            Seq::empty(),
            zero_span(),
            Seq::empty(),
        ),
    }
}

/// Runs the module of a source text: its value and what it printed.
pub fn interpret(src: &str, name: &str, dirs: &Vec<String>, host: &Host, fuel: u64) -> (r: (
    Result<Value, Stop>,
    String,
))
    ensures
        (ran(r.0), r.1@) == run_of(host@, strs_v(dirs@), src@, name@, fuel as nat),
{
    let mut out = String::new();
    let m = match parse_source(src, name) {
        Err(e) => {
            return (Err(Stop::Error(e)), out);
        },
        Ok(m) => m,
    };
    let m1 = match expand(m, dirs, host, fuel) {
        Err(s) => {
            return (Err(s), out);
        },
        Ok(m) => m,
    };
    let m2 = match check(m1) {
        Err(e) => {
            return (Err(Stop::Error(e)), out);
        },
        Ok(m) => m,
    };
    let mut rt = Interpreter::new(dup_strs(dirs));
    rt.enable_runtime_mode();
    rt.register_module(&m2);
    let args: Vec<Value> = Vec::new();
    assert(values_v(args@) =~= Seq::empty());
    let r = rt.call_function("main", &args, Span::zero(), host, fuel, &mut out);
    (r, out)
}

} // verus!
