//! The C++ that programs become.
use nova::ast::Type;
use nova::codegen::cpp::{cartesian, pack_key, type_id_of};
use nova::codegen::dispatch::{gen_type, text_less};
use nova::driver;
use nova::error::CompileError;
use nova::host::{Host, Stop};

const HEADER: &str = "#pragma once
// ─── Generated by Nova compiler ───
#include <string>
#include <vector>
#include <memory>
#include <unordered_map>
#include <iostream>
#include <cstdint>
#include <cstdlib>
#include <utility>
inline void nova_print_int(int n) { std::cout << n << std::endl; }
inline void nova_print(const std::string& s) { std::cout << s; }
template<typename T> void nova_print(T v) { std::cout << v; }

";

fn compile(src: &str) -> Result<String, Stop> {
    driver::compile(src, "main", &vec![], &Host::new(), 10_000)
}

fn body(src: &str) -> String {
    let text = compile(src).unwrap();
    assert!(text.starts_with(HEADER));
    text[HEADER.len()..].to_string()
}

fn message(src: &str) -> String {
    match compile(src) {
        Err(Stop::Error(CompileError::TypeError { message, .. })) => message,
        r => panic!("{:?}", r),
    }
}

#[test]
fn structs_and_functions() {
    let src = "struct Point { x: Int, y: Float }
func add(a: Int, b: Int) -> Int { return a + b }
func main() {
    let p = Point { x: 1, y: 2.5 }
    print_int(add(p.x, 2))
    print(\"done\")
}
";
    let expected = "struct Point {
  int x;
  double y;
  Point(int x, double y) : x(x), y(y) {}
};

int add(int a, int b) {
  return (a + b);
}

void main() {
  auto p = Point { 1, 2.5 };
  nova_print_int(add(p.x, 2));
  nova_print(\"done\");
}

";
    assert_eq!(body(src), expected);
}

#[test]
fn branches_and_tail_values() {
    let src = "func max(a: Int, b: Int) -> Int {
    if a > b { a } else { b }
}
";
    let expected = "int max(int a, int b) {
  if ((a > b)) {
    return a;
  } else {
    return b;
  }
}

";
    assert_eq!(body(src), expected);
}

#[test]
fn values_of_other_types_are_boxed_when_returned() {
    let src = "struct P { x: Int }
func make() -> P { return P { x: 1 } }
";
    assert!(body(src).contains("P make() {\n  return as_P(new P { 1 });\n}\n"));
}

#[test]
fn generics_become_concrete() {
    let src = "struct Pair[A, B] { a: A, b: B }
func id[T](x: T) -> T { return x }
func swap[A, B](p: Pair[A, B]) -> Pair[B, A] {
    return Pair { a: p.b, b: p.a }
}
func unused[T](x: T) -> T { return x }
func main() {
    let k = id(42)
    let q = swap(Pair { a: 1, b: true })
}
";
    let expected = "struct Pair__bool__int {
  bool a;
  int b;
  Pair__bool__int(bool a, int b) : a(a), b(b) {}
};

struct Pair__int__bool {
  int a;
  bool b;
  Pair__int__bool(int a, bool b) : a(a), b(b) {}
};

void main() {
  auto k = id__int(42);
  auto q = swap__int__bool(Pair__int__bool { 1, true });
}

int id__int(int x) {
  return x;
}

Pair__bool__int swap__int__bool(Pair__int__bool p) {
  return as_Pair__bool__int(new Pair__bool__int { p.b, p.a });
}

";
    assert_eq!(body(src), expected);
}

#[test]
fn enum_values_read_the_declared_type() {
    let src = "enum Option[T] { case some(T), case none }
struct Pair[A, B] { a: A, b: B }
let o: Option[Pair[Int, Bool]] = .some(Pair { a: 1, b: true })
let n: Option[Int] = .none
func main() { let m: Option[Int] = .none }
";
    let text = body(src);
    assert!(text.contains("struct Pair__int__bool {"));
    assert!(text.contains("EnumCtor { path: [\"Option__int\"], case: \"none\", arg: None }"));
}

#[test]
fn traits_and_dispatch() {
    let src = "trait Matrix {
    func size(m: Self) -> Int
}
struct Dense { n: Int }
struct Hot { n: Int }
impl Matrix for Dense {
    func size(m: Dense) -> Int { return m.n }
}
impl Matrix for Hot {
    func size(m: Hot) -> Int { return 1 }
}
func inner(a: Matrix, b: Matrix) -> Int { return 0 }
func inner(a: Dense, b: Hot) -> Int { return 1 }
func show(m: Matrix) -> Int { return m.size() }
func main() {
    let d = Dense { n: 4 }
    print_int(inner(d, Hot { n: 4 }))
}
";
    let dense = type_id_of("Dense");
    let hot = type_id_of("Hot");
    let key = |a: u32, b: u32| a as u64 | ((b as u64) << 16);
    let text = body(src);
    let trait_part = "// ─── trait Matrix ───
struct Matrix_vtable {
  uint32_t type_id;
  int (*size)(void*);
};
struct Matrix {
  void* _ptr;
  Matrix_vtable* _vt;
  int size() { return _vt->size(_ptr); }
};

";
    assert!(text.contains(trait_part));
    let decls = "// ─── dynamic dispatch declarations ───
int inner(Matrix, Matrix);
int inner(Dense, Hot);
using _fn_inner = int(*)(Matrix, Matrix);
int _d_inner(Matrix, Matrix);
template<typename... Ts> auto _d_inner(Ts&&... xs) { return inner(std::forward<Ts>(xs)...); }

";
    assert!(text.contains(decls));
    let implementation = format!(
        "// impl Matrix for Hot (id={hot})
inline int Hot__size(Hot m) {{  return 1;
}}
inline int Hot__size_vt(void* self) {{ return Hot__size(*(Hot*)self); }}
inline Matrix_vtable __vt_Matrix_Hot = {{
  {hot},
  (decltype(Matrix_vtable::size))&Hot__size_vt,
}};
inline Matrix as_Matrix(Hot* p) {{ return {{ p, &__vt_Matrix_Hot }}; }}
inline int size(Hot m) {{ return Hot__size(m); }}
"
    );
    assert!(text.contains(&implementation), "{}", text);
    assert!(text.contains("int show(Matrix m) {\n  return m.size();\n}\n"));
    assert!(text.contains("  nova_print_int(_d_inner(d, Hot { 4 }));\n"));
    let table = format!(
        "// ─── dispatch: inner (2-ary over Matrix, Matrix) ───
static std::unordered_map<uint64_t, _fn_inner> _t_inner;
static struct {{ uint64_t k = UINT64_MAX; _fn_inner fn = nullptr; }} _c_inner;
static struct _Reg_inner {{ _Reg_inner() {{
  _t_inner[{}ULL] = [](Matrix a0, Matrix a1) -> int {{ return inner(a0, a1); }};
  _t_inner[{}ULL] = [](Matrix a0, Matrix a1) -> int {{ return inner(*(Dense*)a0._ptr, *(Hot*)a1._ptr); }};
  _t_inner[{}ULL] = [](Matrix a0, Matrix a1) -> int {{ return inner(a0, a1); }};
  _t_inner[{}ULL] = [](Matrix a0, Matrix a1) -> int {{ return inner(a0, a1); }};
}} }} _reg_inner;
int _d_inner(Matrix a0, Matrix a1) {{
  uint64_t k = ((uint64_t)a0._vt->type_id << 0) | ((uint64_t)a1._vt->type_id << 16);
  if (k == _c_inner.k) [[likely]] return _c_inner.fn(a0, a1);
  auto it = _t_inner.find(k);
  if (it != _t_inner.end()) {{ _c_inner = {{k, it->second}}; return it->second(a0, a1); }}
  return inner(a0, a1);
}}

",
        key(dense, dense),
        key(dense, hot),
        key(hot, dense),
        key(hot, hot)
    );
    assert!(text.ends_with(&table), "{}", text);
}

#[test]
fn type_ids() {
    let fold = |s: &str| s.bytes().fold(1u32, |h, b| h.wrapping_mul(31).wrapping_add(b as u32)) % 65535 + 1;
    for name in ["", "Dense", "HotVector", "A very long name of a type, and \u{e9}"] {
        assert_eq!(type_id_of(name), fold(name));
        assert!(type_id_of(name) >= 1 && type_id_of(name) <= 65535);
    }
}

#[test]
fn keys_tell_combinations_apart() {
    let a = vec!["Dense".to_string(), "Hot".to_string()];
    let b = vec!["Hot".to_string(), "Dense".to_string()];
    assert_eq!(pack_key(&a), type_id_of("Dense") as u64 | ((type_id_of("Hot") as u64) << 16));
    assert_ne!(pack_key(&a), pack_key(&b));
}

#[test]
fn all_combinations() {
    let pools = vec![
        vec!["a".to_string(), "b".to_string()],
        vec!["x".to_string(), "y".to_string()],
    ];
    let all = cartesian(&pools);
    assert_eq!(all, vec![vec!["a", "x"], vec!["a", "y"], vec!["b", "x"], vec!["b", "y"]]);
    assert_eq!(cartesian(&vec![]), vec![Vec::<String>::new()]);
}

#[test]
fn names_are_ordered_as_texts() {
    assert!(text_less("Pair__bool", "Pair__int"));
    assert!(text_less("A", "AB"));
    assert!(!text_less("b", "a"));
    assert!(!text_less("a", "a"));
}

#[test]
fn type_errors() {
    assert_eq!(message("func main() { let x: Int = true }"), "Type mismatch: expected 'Int', got 'Bool'");
    assert_eq!(message("func main() { y }"), "Undefined: 'y'");
    assert_eq!(message("func f() -> Int { return 1 + true }"), "Type mismatch: expected 'Int', got 'Bool'");
    assert_eq!(message("func f() { if 1 { } }"), "Type mismatch: expected 'Bool', got 'Int'");
    assert_eq!(
        message("func f(a: Int) { }\nfunc f(b: Int) { }\nfunc main() { f(1) }"),
        "Ambiguous call"
    );
    assert_eq!(
        message("struct P { x: Int }\nfunc main() { let p = P { x: 1 }\n p.z }"),
        "No field 'z' on 'P' and no matching function"
    );
}

#[test]
fn the_runtime_comes_first() {
    assert_eq!(driver::bundle("// gc", "int x;"), "// gc\nint x;");
}

#[test]
fn search_order() {
    let libs = vec!["a".to_string(), "b".to_string()];
    assert_eq!(driver::search_paths(Some("dir".to_string()), &libs), vec!["dir", "a", "b", "."]);
    assert_eq!(driver::search_paths(None, &libs), vec!["a", "b", "."]);
}

#[test]
fn every_enum_instance_is_defined() {
    let src = "enum Option[T] { case some(T), case none }
enum Void { }
let n: Option[Int] = .none
func main() { }
";
    let module = nova::source::parse_source(src, "m").unwrap();
    let lowered = nova::mono::Mono::lower(&module).unwrap();
    let text = nova::codegen::cpp::CppGenerator::new().generate(&lowered);
    let option = "struct Option__int {
  struct some_t { int value; };
  struct none_t {};
  std::variant<some_t, none_t> value;
};
";
    assert!(text.contains(option), "{}", text);
    assert!(text.contains("struct Void {\n};\n"), "{}", text);
    assert!(text.contains("#include <variant>\n"), "{}", text);
    let unlowered = nova::codegen::cpp::CppGenerator::new().generate(&module);
    assert!(!unlowered.contains("struct Option "), "{}", unlowered);
    let none = nova::source::parse_source("func main() { }", "m").unwrap();
    assert!(!nova::codegen::cpp::CppGenerator::new().generate(&none).contains("variant"));
}

#[test]
fn managed_references_are_smart_pointers() {
    let text = body("struct Node { value: Int, next: @Node }\nfunc same(n: @Node) -> @Node { n }");
    assert!(text.contains("  nova::gc_ptr<Node> next;"), "{}", text);
    assert!(text.contains("nova::gc_ptr<Node> same(nova::gc_ptr<Node> n)"), "{}", text);
    let nested = Type::gc_ref(Type::gc_ref(Type::path("Int")));
    assert_eq!(gen_type(&nested), "nova::gc_ptr<nova::gc_ptr<int>>");
    assert_eq!(gen_type(&Type::Never), "auto");
}
