//! Programs without generics.
use nova::ast::{Item, Type};
use nova::error::CompileError;
use nova::maps::StrMap;
use nova::mono::{substitute_type, type_mangle, Mono};
use nova::resolve::{apply_resolutions, ResolutionMap, ResolvedAs};
use nova::source::parse_source;
use nova::typeck::TypeChecker;

fn lowered(src: &str) -> Result<Vec<Item>, CompileError> {
    Ok(Mono::lower(&parse_source(src, "m").unwrap())?.items)
}

fn names(items: &[Item]) -> Vec<String> {
    items
        .iter()
        .map(|i| match i {
            Item::Struct(s) => format!("struct {}", s.name),
            Item::Enum(e) => format!("enum {}", e.name),
            Item::Function(f) => format!("func {}", f.name),
            Item::VarDecl(v) => format!("var {}", v.name),
            i => panic!("{:?}", i),
        })
        .collect()
}

#[test]
fn only_what_is_reached_is_kept() {
    let src = "enum Option[T] { case some(T), case none }
struct Pair[A, B] { a: A, b: B }
struct Unused[T] { x: T }
func id[T](x: T) -> T { return x }
func never[T](x: T) -> T { return x }
let o: Option[Pair[Int, Bool]] = .some(Pair { a: 1, b: true })
let n: Option[Int] = .none
func main() { let k = id(42) }
";
    let items = lowered(src).unwrap();
    assert_eq!(
        names(&items),
        vec![
            "struct Pair__int__bool",
            "enum Option__Pair__int__bool",
            "enum Option__int",
            "func main",
            "func id__int",
            "var o",
            "var n",
        ]
    );
    for i in &items {
        match i {
            Item::Struct(s) => assert!(s.generics.is_empty()),
            Item::Enum(e) => assert!(e.generics.is_empty()),
            Item::Function(f) => assert!(f.generics.is_empty()),
            _ => {}
        }
    }
}

#[test]
fn arguments_are_counted() {
    let message = |src: &str| match lowered(src) {
        Err(CompileError::TypeError { message, .. }) => message,
        r => panic!("{:?}", r.is_ok()),
    };
    assert_eq!(
        message("struct P[A, B] { a: A, b: B }\nfunc f(p: P[Int]) { }"),
        "type 'P' expects 2 type arguments, got 1"
    );
    assert_eq!(message("struct Q { a: Int }\nfunc f(p: Q[Int]) { }"), "type 'Q' takes no type arguments");
}

#[test]
fn aliases_are_seen_through() {
    let src = "struct Box[T] { x: T }
type IntBox = Box[Int]
func f(b: IntBox) -> Int { return 0 }
";
    let items = lowered(src).unwrap();
    match &items[1] {
        Item::Function(f) => assert_eq!(f.params[0].ty.display(), "Box__int"),
        i => panic!("{:?}", i),
    }
}

#[test]
fn substitution() {
    let mut map: StrMap<Type> = StrMap::new();
    map.insert("T", Type::path("Int"));
    assert_eq!(substitute_type(&Type::path("T"), &map).display(), "Int");
    assert_eq!(substitute_type(&Type::gc_ref(Type::path("T")), &map).display(), "@Int");
    assert_eq!(substitute_type(&Type::path("U"), &map).display(), "U");
    let none: StrMap<Type> = StrMap::new();
    assert_eq!(substitute_type(&Type::path("T"), &none).display(), "T");
}

#[test]
fn types_of_variables() {
    let src = "struct Pair[A, B] { a: A, b: B }
func f(p: Pair[Bool, Int]) -> Int {
    let q = p
    let n: Int = 1
    return n
}
";
    let module = parse_source(src, "m").unwrap();
    let f = match &module.items[1] {
        Item::Function(f) => f,
        i => panic!("{:?}", i),
    };
    let end = src.len() - 3;
    let shown = |name: &str, at: usize| Mono::infer_var_type_at(&module, f, name, at).map(|t| t.display());
    assert_eq!(shown("p", end), Some("Pair[Bool, Int]".to_string()));
    assert_eq!(shown("q", end), Some("Pair[Bool, Int]".to_string()));
    assert_eq!(shown("n", end), Some("Int".to_string()));
    assert_eq!(shown("n", src.find("let n").unwrap()), None);
    assert_eq!(shown("z", end), None);
}

#[test]
fn dot_accesses_are_resolved() {
    let src = "struct P { x: Int }
func twice(p: P) -> Int { return p.x + p.x }
func main() -> Int {
    let p = P { x: 1 }
    return p.twice
}
";
    let mut module = parse_source(src, "m").unwrap();
    let mut checker = TypeChecker::new();
    checker.register_types(&module);
    let resolutions = checker.check_module(&module).unwrap();
    apply_resolutions(&mut module, &resolutions);
    let text = nova::debug::show_debug_items(&module.items);
    assert!(!text.contains("DotAccess"), "{}", text);
    assert!(text.contains("Field { object:"));
    assert!(text.contains("Call { func: Expr { kind: Ident(\"twice\")"));
    let before = parse_source(src, "m").unwrap();
    let mut after = parse_source(src, "m").unwrap();
    apply_resolutions(&mut after, &ResolutionMap::new());
    assert_eq!(
        nova::debug::show_debug_items(&before.items),
        nova::debug::show_debug_items(&after.items)
    );
}

#[test]
fn dot_accesses_are_resolved_at_every_depth() {
    let src = "func f(p: P) { if p.on { } }";
    let at = src.find("p.on").unwrap();
    let mut module = parse_source(src, "m").unwrap();
    let mut resolutions = ResolutionMap::new();
    resolutions.insert(at, ResolvedAs::Field);
    apply_resolutions(&mut module, &resolutions);
    let text = nova::debug::show_debug_items(&module.items);
    assert!(!text.contains("DotAccess"), "{}", text);
    assert!(text.contains("field: \"on\""), "{}", text);

    let everywhere = [
        "func f(p: P) { while p.on { } }",
        "func f(p: P) { for x in p.on { } }",
        "func f(p: P) { g(-p.on) }",
        "func f(p: P) { a[p.on] }",
        "func f(p: P) { match p.on { case _ => 1 } }",
        "func f(p: P) { Q { x: p.on } }",
        "func f(p: P) { @Q { x: p.on } }",
        "func f(p: P) { x += p.on }",
        "func f(p: P) { .some(p.on) }",
        "impl T for P { func f(p: P) { p.on } }",
        "trait T { func f(p: P) { p.on } }",
        "let v = p.on",
    ];
    for src in everywhere {
        let mut module = match parse_source(src, "m") {
            Ok(m) => m,
            Err(e) => panic!("{}: {}", src, e.display()),
        };
        let before = nova::debug::show_debug_items(&module.items);
        if !before.contains("DotAccess") {
            continue;
        }
        let mut resolutions = ResolutionMap::new();
        for at in 0..src.len() {
            resolutions.insert(at, ResolvedAs::Field);
        }
        apply_resolutions(&mut module, &resolutions);
        let after = nova::debug::show_debug_items(&module.items);
        assert!(!after.contains("DotAccess"), "{}", src);
    }
}

#[test]
fn a_case_fits_only_its_enum() {
    let check = |src: &str| {
        let module = parse_source(src, "m").unwrap();
        let mut checker = TypeChecker::new();
        checker.register_types(&module);
        checker.check_module(&module).map(|_| ())
    };
    let color = "enum Color { case red, case mixed(Int) }\n";
    assert!(check(&format!("{}let c: Color = .red", color)).is_ok());
    assert!(check(&format!("{}func f() {{ let c: Color = .mixed(1) }}", color)).is_ok());
    for wrong in ["let c: Int = .red", "let c: Color = .blue"] {
        match check(&format!("{}{}", color, wrong)) {
            Err(CompileError::TypeError { message, .. }) => {
                assert!(message.starts_with("Type mismatch: expected '"), "{}", message);
            }
            _ => panic!("{}", wrong),
        }
    }
}

#[test]
fn lowered_names_are_distinct_and_methods_plain() {
    let src = "struct Box[T] { x: T }
struct A { b: Box[Int] }
struct B { b: Box[Int] }
trait Shape { func area(s: Self) -> Int }
impl Shape for A { func area(a: A) -> Int { return 1 } }
func main() { }
";
    let items = lowered(src).unwrap();
    let structs: Vec<&str> = items
        .iter()
        .filter_map(|i| match i {
            Item::Struct(s) => Some(s.name.as_str()),
            _ => None,
        })
        .collect();
    assert_eq!(structs, vec!["A", "B", "Box__int"]);
    for i in &items {
        match i {
            Item::Trait(t) => assert!(t.methods.iter().all(|m| m.generics.is_empty())),
            Item::Impl(b) => assert!(b.methods.iter().all(|m| m.generics.is_empty())),
            _ => {}
        }
    }
}

#[test]
fn instances_have_names_that_cpp_can_read() {
    let src = "struct Pair[A, B] { a: A, b: B }
struct Box[T] { x: T }
func f(p: Pair[@Box[Int], (Int) -> Bool]) { }
";
    let items = lowered(src).unwrap();
    for i in &items {
        let name = match i {
            Item::Struct(s) => &s.name,
            Item::Function(f) => &f.name,
            _ => continue,
        };
        assert!(name.chars().all(|c| c.is_ascii_alphanumeric() || c == '_'), "{}", name);
        assert!(!name.starts_with(|c: char| c.is_ascii_digit()));
    }
}

#[test]
fn types_become_parts_of_names() {
    assert_eq!(type_mangle(&Type::path("Int")), "int");
    assert_eq!(type_mangle(&Type::path("Point")), "Point");
    assert_eq!(type_mangle(&Type::gc_ref(Type::path("Float"))), "gc__double");
    assert_eq!(type_mangle(&Type::Unit), "unit");
    assert_eq!(type_mangle(&Type::Never), "never");
    assert_eq!(type_mangle(&Type::Tuple(vec![Type::Unit])), "tuple");
}
