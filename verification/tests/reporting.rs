//! Errors, profiles and the registry of traits.
use nova::ast::{Function, Item, Type};
use nova::error::CompileError;
use nova::profiler::Profiler;
use nova::source::parse_source;
use nova::token::Span;
use nova::traits::{TraitInfo, TraitRegistry};

/// A text without the sequences that style it.
fn unstyled(s: &str) -> String {
    let mut out = String::new();
    let mut inside = false;
    for c in s.chars() {
        if inside {
            inside = c != 'm';
        } else if c == '\u{1b}' {
            inside = true;
        } else {
            out.push(c);
        }
    }
    out
}

#[test]
fn short_texts_of_errors() {
    let span = Span::new(0, 1, 1, 1);
    assert_eq!(CompileError::lex("m", span).display(), "Lex error");
    assert_eq!(CompileError::parse("m", span).display(), "Parse error");
    assert_eq!(CompileError::type_err("m", span).display(), "Type error");
    assert_eq!(CompileError::macro_err("m", span).display(), "Macro error");
    assert_eq!(CompileError::IoError("gone".to_string()).display(), "I/O error: gone");
    assert_eq!(CompileError::Generic("bad".to_string()).display(), "bad");
}

#[test]
fn reports_show_the_source() {
    let source = "let x = 1\nlet y = `\n";
    let error = CompileError::lex("Unexpected character", Span::new(18, 19, 2, 9));
    let report = error.display_with_source(source, "demo.nv");
    assert!(report.contains("Unexpected character"));
    let plain = unstyled(&report);
    assert!(plain.starts_with("Error: Unexpected character\n"), "{}", plain);
    assert!(plain.contains("demo.nv"), "{}", plain);
    assert!(plain.contains("let y = `"), "{}", plain);
    assert!(!plain.contains("let x"), "{}", plain);
    let other = CompileError::lex("Other", Span::new(18, 19, 2, 9)).display_with_source(source, "demo.nv");
    assert_ne!(report, other);
}

#[test]
fn errors_without_a_place_are_plain() {
    let io = CompileError::IoError("gone".to_string());
    assert_eq!(io.display_with_source("x", "demo.nv"), "I/O error: gone");
    let generic = CompileError::Generic("bad".to_string());
    assert_eq!(generic.display_with_source("x", "demo.nv"), "bad");
}

#[test]
fn profiles_add_up() {
    let mut p = Profiler::new(true);
    p.start_at("lex", 10);
    p.end_at(1_500_010);
    p.start_at("parse", 2_000_000);
    p.end_at(2_500_000);
    p.start_at("lex", 3_000_000);
    p.end_at(3_000_001);
    let report = p.report().unwrap();
    assert_eq!(report.phases.len(), 2);
    assert_eq!(report.phases[0].name, "lex");
    assert_eq!(report.phases[0].nanos, 1_500_001);
    assert_eq!(report.total, 2_000_001);
}

#[test]
fn phases_are_listed_in_the_order_of_their_first_use() {
    let mut p = Profiler::new(true);
    p.start_at("macro expand", 100);
    p.start_at("import", 150);
    p.end_at(170);
    p.end_at(200);
    let report = p.report().unwrap();
    let listed: Vec<(String, u128)> =
        report.phases.iter().map(|x| (x.name.clone(), x.nanos)).collect();
    assert_eq!(listed, vec![("macro expand".to_string(), 100), ("import".to_string(), 20)]);
    assert_eq!(report.total, 120);

    let mut q = Profiler::new(true);
    q.start("macro expand");
    q.start("import");
    q.end();
    q.end();
    let names: Vec<String> = q.report().unwrap().phases.iter().map(|x| x.name.clone()).collect();
    assert_eq!(names, vec!["macro expand", "import"]);
}

#[test]
fn a_phase_is_listed_once_it_has_ended() {
    let mut p = Profiler::new(true);
    p.start_at("outer", 0);
    p.start_at("inner", 10);
    assert!(p.report().unwrap().phases.is_empty());
    p.end_at(10);
    let names = |p: &Profiler| -> Vec<String> {
        p.report().unwrap().phases.iter().map(|x| x.name.clone()).collect()
    };
    assert_eq!(names(&p), vec!["inner"]);
    assert_eq!(p.report().unwrap().total, 0);
    p.end_at(30);
    assert_eq!(names(&p), vec!["outer", "inner"]);
    assert_eq!(p.report().unwrap().total, 30);
}

#[test]
fn a_profile_that_is_off_reports_nothing() {
    let mut p = Profiler::new(false);
    p.start("lex");
    p.end();
    assert!(p.report().is_none());
}

#[test]
fn an_end_without_a_start_changes_nothing() {
    let mut p = Profiler::new(true);
    p.end_at(5);
    assert!(p.report().is_none() || p.report().unwrap().phases.is_empty());
    p.start("lex");
    p.end();
    assert_eq!(p.report().unwrap().phases.len(), 1);
}

#[test]
fn registered_traits_are_not_concrete() {
    let mut traits = TraitRegistry::new();
    assert!(traits.is_concrete(&Type::path("Shape")));
    traits.register_trait(TraitInfo { name: "Shape".to_string(), generics: vec![], methods: vec![] });
    assert!(!traits.is_concrete(&Type::path("Shape")));
    assert!(traits.is_concrete(&Type::path("Circle")));
}

fn methods(src: &str) -> Vec<Function> {
    let module = parse_source(src, "m").unwrap();
    module
        .items
        .into_iter()
        .map(|i| match i {
            Item::Function(f) => f,
            i => panic!("{:?}", i),
        })
        .collect()
}

fn shapes() -> TraitRegistry {
    let mut traits = TraitRegistry::new();
    let ms = methods("func area(s: Shape) -> Float { }\nfunc scale(s: Shape, by: Int, name: String) { }");
    traits.register_trait(TraitInfo { name: "Shape".to_string(), generics: vec![], methods: ms });
    traits
}

#[test]
fn methods_take_managed_references() {
    let mut traits = TraitRegistry::new();
    let methods = methods("func link(s: Shape, to: @Int) -> @@Shape { }");
    traits.register_trait(TraitInfo { name: "Shape".to_string(), generics: vec![], methods });
    let text = traits.codegen_trait_decl("Shape");
    let entry = "  nova::gc_ptr<nova::gc_ptr<Shape>> (*link)(void*, nova::gc_ptr<int32_t> to);";
    assert!(text.contains(entry), "{}", text);
}

#[test]
fn trait_declarations() {
    let expected = "// \u{2500}\u{2500}\u{2500} trait Shape \u{2500}\u{2500}\u{2500}
struct Shape_vtable {
  uint32_t type_id;
  double (*area)(void*);
  auto (*scale)(void*, int32_t by, std::string name);
};

struct Shape {
  void* _ptr;
  Shape_vtable* _vt;
  double area() {
    return _vt->area(_ptr);
  }
  auto scale(int32_t by, std::string name) {
    return _vt->scale(_ptr, by, name);
  }
};

";
    assert_eq!(shapes().codegen_trait_decl("Shape"), expected);
    assert_eq!(shapes().codegen_trait_decl("Gone"), "");
}

#[test]
fn trait_implementations() {
    let expected = "// impl Shape for Circle
inline Shape_vtable __Shape_vt_Circle = {
  Circle_type_id,
  (double (*)(void*))&Circle__area,
  (auto (*)(void*, int32_t, std::string))&Circle__scale,
};

inline Shape as_Shape(Circle* p) {
  return { p, &__Shape_vt_Circle };
}

";
    let mut traits = shapes();
    traits.register_impl("Shape", "Circle", methods("func area(c: Circle) -> Float { }"));
    assert_eq!(traits.codegen_impl("Shape", "Circle"), expected);
    assert_eq!(traits.codegen_impl("Gone", "Circle"), "");
    assert_eq!(traits.impls.get("Shape").unwrap().types.get("Circle").unwrap().functions.len(), 1);
}

#[test]
fn dispatch_calls() {
    let expected = "// Multi-dispatch: hit(
//   a: Shape
//   b: Ray
// )
static struct {
  uint64_t key = 0;
  auto* fn = (decltype(&dispatch_impl_0))nullptr;
} _cache;

auto hit(Shape& a, Ray& b) {
  uint64_t k = 0;
  k |= (uint64_t)a._vt->type_id << (0 * 16);
  k |= (uint64_t)b._vt->type_id << (1 * 16);
  if (k == _cache.key) [[likely]] return _cache.fn(a._ptr, b._ptr);
  auto it = _dispatch_table.find(k);
  if (it != _dispatch_table.end()) {
    _cache.key = k;
    _cache.fn = it->second;
    return _cache.fn(a._ptr, b._ptr);
  }
  throw std::runtime_error(\"No matching dispatch\");
}

";
    let args = vec![
        ("a".to_string(), "Shape".to_string()),
        ("b".to_string(), "Ray".to_string()),
    ];
    assert_eq!(shapes().codegen_dispatch_call("hit", &args), expected);
}
