//! Macros and imports.
use nova::driver;
use nova::error::CompileError;
use nova::host::{FileState, FloatFact, FloatOp, Host, Stop};

fn num(s: &str) -> f64 {
    s.parse().unwrap()
}

fn float(op: FloatOp, a: &str, b: &str) -> String {
    match op {
        FloatOp::Neg => format!("{}", -num(a)),
        FloatOp::Add => format!("{}", num(a) + num(b)),
        FloatOp::Sub => format!("{}", num(a) - num(b)),
        FloatOp::Mul => format!("{}", num(a) * num(b)),
        FloatOp::Div => format!("{}", num(a) / num(b)),
        FloatOp::Equal => format!("{}", num(a) == num(b)),
        FloatOp::Less => format!("{}", num(a) < num(b)),
        FloatOp::Greater => format!("{}", num(a) > num(b)),
        FloatOp::LessOrEqual => format!("{}", num(a) <= num(b)),
        FloatOp::GreaterOrEqual => format!("{}", num(a) >= num(b)),
        FloatOp::Show => format!("{}", num(a)),
        FloatOp::ShowDebug => format!("{:?}", num(a)),
        FloatOp::ShowFixed => format!("{:.6}", num(a)),
    }
}

/// Runs a computation until it asks nothing more; only the given files exist.
fn with_files<T>(files: &[(&str, &str)], run: impl Fn(&Host) -> Result<T, Stop>) -> Result<T, Stop> {
    let mut host = Host::new();
    loop {
        match run(&host) {
            Err(Stop::AskFile(p)) => {
                let state = match files.iter().find(|f| f.0 == p) {
                    Some(f) => FileState::Text(f.1.to_string()),
                    None => FileState::Missing,
                };
                host.tell_file(&p, state);
            }
            Err(Stop::AskFloat(op, a, b)) => {
                let result = float(op, &a, &b);
                host.tell_float(FloatFact { op, a, b, result });
            }
            r => return r,
        }
    }
}

fn run(files: &[(&str, &str)], src: &str) -> Result<String, Stop> {
    let dirs = vec!["lib".to_string(), ".".to_string()];
    with_files(files, |h| match driver::interpret(src, "main", &dirs, h, 10_000) {
        (Err(s), _) => Err(s),
        (Ok(_), out) => Ok(out),
    })
}

fn message(r: Result<String, Stop>) -> String {
    match r {
        Err(Stop::Error(CompileError::MacroError { message, .. })) => message,
        Err(Stop::Error(CompileError::Generic(message))) => message,
        r => panic!("{:?}", r),
    }
}

const MATH: &str = "pub func square(x: Int) -> Int { return x * x }
pub func cube(x: Int) -> Int { return x * x * x }
func secret(x: Int) -> Int { return x }
";

#[test]
fn quoted_functions_are_spliced() {
    let src = "macro make_adder(name, amount) {
        quote {
            func $name(x: Int) -> Int {
                return x + $amount
            }
        }
    }
    @make_adder(add_five, 5)
    @make_adder(add_ten, 10)
    func main() {
        println(add_five(1))
        println(add_ten(1))
    }";
    assert_eq!(run(&[], src).unwrap(), "6\n11\n");
}

#[test]
fn unquoted_expressions_are_evaluated() {
    let src = "macro add_sum(name, amount) {
        quote {
            func $name(x: Int) -> Int { return x + $(amount + 100) }
        }
    }
    @add_sum(f, 5)
    func main() { println(f(1)) }";
    assert_eq!(run(&[], src).unwrap(), "106\n");
}

#[test]
fn import_everything_public() {
    let src = "@import(\"std.math\")
    func main() { println(square(5) + cube(2)) }";
    assert_eq!(run(&[("lib/std/math.nv", MATH)], src).unwrap(), "33\n");
    let hidden = "@import(\"std.math\")
    func main() { println(secret(5)) }";
    assert_eq!(message(run(&[("lib/std/math.nv", MATH)], hidden)), "Unknown: 'secret'");
}

#[test]
fn import_of_some_items() {
    let src = "@import(\"std.math\", square)
    func main() { println(square(5)) }";
    assert_eq!(run(&[("./std/math.nv", MATH)], src).unwrap(), "25\n");
    let other = "@import(\"std.math\", \"square\")
    func main() { println(cube(5)) }";
    assert_eq!(message(run(&[("./std/math.nv", MATH)], other)), "Unknown: 'cube'");
}

#[test]
fn import_with_renaming() {
    let src = "@import(\"std.math\", square = sq, cube = cb)
    func main() { println(sq(3) + cb(2)) }";
    assert_eq!(run(&[("lib/std/math/mod.nv", MATH)], src).unwrap(), "17\n");
}

#[test]
fn the_first_directory_wins() {
    let src = "@import(\"m\")
    func main() { println(f()) }";
    let files = [
        ("./m.nv", "pub func f() -> Int { return 2 }"),
        ("lib/m.nv", "pub func f() -> Int { return 1 }"),
    ];
    assert_eq!(run(&files, src).unwrap(), "1\n");
}

#[test]
fn a_missing_module_is_an_error() {
    let src = "@import(\"std.gone\")\nfunc main() { }";
    assert_eq!(
        message(run(&[], src)),
        "Module not found: 'std.gone'. Searched in: [\"lib\", \".\"]"
    );
}

#[test]
fn items_can_be_built() {
    let src = "macro getter(owner, field) {
        splice(make_function(\"get\", list(list(\"p\", owner)), \"Int\", make_return(make_field(make_ident(\"p\"), field))))
    }
    struct Point { x: Int, y: Int }
    @getter(\"Point\", \"y\")
    func main() {
        let p = Point { x: 1, y: 2 }
        println(get(p))
    }";
    assert_eq!(run(&[], src).unwrap(), "2\n");
}

#[test]
fn macros_can_look_at_types() {
    let src = "macro count(owner) {
        let n = 0
        for f in struct_fields(lookup_type(owner)) { n += 1 }
        splice(make_function(\"count\", list(), \"Int\", make_return(make_int(n))))
    }
    struct Point { x: Int, y: Int }
    @count(\"Point\")
    func main() { println(count()) }";
    assert_eq!(run(&[], src).unwrap(), "2\n");
}

#[test]
fn macros_can_fail() {
    let src = "macro bad() { error(\"not today\") }
    @bad()
    func main() { }";
    assert_eq!(message(run(&[], src)), "not today");
}

#[test]
fn macros_are_expanded_at_every_depth() {
    let src = "macro five() { quote { 5 } }
struct P { x: Int }
impl Show for P { func show(p: P) -> Int { return @five() } }
trait Show { func show(s: Self) -> Int }
func id(n: Int) -> Int { return n }
func main() { println(id(~n: @five())) }
";
    let module = nova::source::parse_source(src, "m").unwrap();
    let dirs = vec![".".to_string()];
    let expanded = with_files(&[], |h| driver::expand(module.dup(), &dirs, h, 10_000)).unwrap();
    let text = nova::debug::show_debug_items(&expanded.items);
    assert!(!text.contains("MacroCall"), "{}", text);
    assert!(text.contains("IntLiteral(5)"), "{}", text);
}
