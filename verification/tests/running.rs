//! Programs that the interpreter runs.
use nova::ast::Expr;
use nova::driver;
use nova::error::CompileError;
use nova::host::{FileState, FloatFact, FloatOp, Host, Stop};
use nova::interpreter::Interpreter;
use nova::lexer::Lexer;
use nova::maps::StrMap;
use nova::parser::Parser;
use nova::value::Value;

fn num(s: &str) -> f64 {
    s.parse().unwrap()
}

fn float(op: FloatOp, a: &str, b: &str) -> String {
    match op {
        FloatOp::Neg => format!("{}", -num(a)),
        FloatOp::Add => format!("{}", num(a) + num(b)),
        FloatOp::Sub => format!("{}", num(a) - num(b)),
        FloatOp::Mul => format!("{}", num(a) * num(b)),
        FloatOp::Div => format!("{}", num(a) / num(b)),
        FloatOp::Equal => format!("{}", num(a) == num(b)),
        FloatOp::Less => format!("{}", num(a) < num(b)),
        FloatOp::Greater => format!("{}", num(a) > num(b)),
        FloatOp::LessOrEqual => format!("{}", num(a) <= num(b)),
        FloatOp::GreaterOrEqual => format!("{}", num(a) >= num(b)),
        FloatOp::Show => format!("{}", num(a)),
        FloatOp::ShowDebug => format!("{:?}", num(a)),
        FloatOp::ShowFixed => format!("{:.6}", num(a)),
    }
}

/// Runs a computation until it asks nothing more; only the given files exist.
fn with_files<T>(files: &[(&str, &str)], run: impl Fn(&Host) -> Result<T, Stop>) -> Result<T, Stop> {
    let mut host = Host::new();
    loop {
        match run(&host) {
            Err(Stop::AskFile(p)) => {
                let state = match files.iter().find(|f| f.0 == p) {
                    Some(f) => FileState::Text(f.1.to_string()),
                    None => FileState::Missing,
                };
                host.tell_file(&p, state);
            }
            Err(Stop::AskFloat(op, a, b)) => {
                let result = float(op, &a, &b);
                host.tell_float(FloatFact { op, a, b, result });
            }
            r => return r,
        }
    }
}

/// The value of `main` and what was printed.
fn run_with(files: &[(&str, &str)], src: &str, fuel: u64) -> (Result<String, Stop>, String) {
    let dirs = vec![".".to_string()];
    let done = with_files(files, |h| match driver::interpret(src, "main", &dirs, h, fuel) {
        (Err(Stop::AskFile(p)), _) => Err(Stop::AskFile(p)),
        (Err(Stop::AskFloat(op, a, b)), _) => Err(Stop::AskFloat(op, a, b)),
        (Err(s), out) => Ok((Err(s), out)),
        (Ok(v), out) => Ok((Ok(v.debug(h)?), out)),
    });
    done.unwrap()
}

fn run(src: &str) -> (String, String) {
    let (v, out) = run_with(&[], src, 10_000);
    (v.unwrap(), out)
}

fn printed(src: &str) -> String {
    run(src).1
}

/// The message of the error that stops a program.
fn failure(src: &str) -> String {
    match run_with(&[], src, 10_000).0 {
        Err(Stop::Error(CompileError::MacroError { message, .. })) => message,
        Err(Stop::Error(CompileError::TypeError { message, .. })) => message,
        r => panic!("{:?}", r),
    }
}

fn expr(src: &str) -> Expr {
    let tokens = Lexer::new(src).tokenize().unwrap();
    Parser::new(tokens, src).parse_expr().unwrap()
}

/// The value of one expression, without a type check.
fn eval(src: &str) -> Result<String, Stop> {
    let e = expr(src);
    with_files(&[], |h| {
        let interpreter = Interpreter::new(vec![]);
        let mut env: StrMap<Value> = StrMap::new();
        let mut out = String::new();
        interpreter.eval(&e, &mut env, h, 10_000, &mut out)?.debug(h)
    })
}

fn eval_failure(src: &str) -> String {
    match eval(src) {
        Err(Stop::Error(CompileError::MacroError { message, .. })) => message,
        r => panic!("{:?}", r),
    }
}

#[test]
fn integer_arithmetic() {
    let src = "func main() {
        println(1 + 2 * 3)
        println(7 / 2)
        println((0 - 7) / 2)
        println((0 - 7) % 3)
    }";
    assert_eq!(printed(src), "7\n3\n-3\n-1\n");
}

#[test]
fn integer_arithmetic_wraps_and_division_can_fail() {
    assert_eq!(eval("9223372036854775807 + 1").unwrap(), "Int(-9223372036854775808)");
    assert_eq!(eval_failure("1 / 0"), "attempt to divide by zero");
    assert_eq!(eval_failure("1 % 0"), "attempt to calculate the remainder with a divisor of zero");
}

#[test]
fn recursion() {
    let src = "func fact(n: Int) -> Int {
        if n < 2 { return 1 } else { return n * fact(n - 1) }
    }
    func main() -> Int { return fact(5) }";
    assert_eq!(run(src), ("Int(120)".to_string(), String::new()));
}

#[test]
fn while_loops() {
    let src = "func main() -> Int {
        var i: Int = 0
        var sum: Int = 0
        while i < 5 {
            sum = sum + i
            i += 1
        }
        return sum
    }";
    assert_eq!(run(src).0, "Int(10)");
}

#[test]
fn lists_and_for_loops() {
    let src = "func main() {
        let xs = list_push(list(10, 20), 30)
        for x in xs { print_int(x) }
        println(\"\")
        println(xs[1])
    }";
    assert_eq!(printed(src), "102030\n20\n");
}

#[test]
fn strings_and_booleans() {
    let src = "func main() {
        println(\"a\" + \"b\")
        println(1 < 2 && 2 < 1)
        println(1 == 1 || false)
        print(\"no newline\")
    }";
    assert_eq!(printed(src), "ab\nfalse\ntrue\nno newline");
}

#[test]
fn floats_are_asked_for() {
    assert_eq!(eval("1.5 + 2.25").unwrap(), "Float(3.75)");
    assert_eq!(eval("1.5 * 2.0").unwrap(), "Float(3.0)");
    assert_eq!(eval("1.5 < 2.0").unwrap(), "Bool(true)");
    assert_eq!(eval("-1.5").unwrap(), "Float(-1.5)");
    let src = "func main() { println(2.50) }";
    assert_eq!(printed(src), "2.5\n");
}

#[test]
fn struct_values() {
    let src = "struct Point { x: Int, y: Int }
    func main() {
        let p = Point { x: 1, y: 2 }
        println(p.y)
        println(p)
    }";
    assert_eq!(printed(src), "2\nStruct(\"Point\", {\"x\": Int(1), \"y\": Int(2)})\n");
}

#[test]
fn pattern_matching() {
    let src = "enum Option { case some(Int), case none }
    func show(o: Option) -> Int {
        match o {
            case .some(let n) if n > 2 => n
            case .some(_) => 2
            case .none => 0
        }
    }
    func main() {
        let a = .some(7)
        match a {
            case .some(let n) if n > 5 => println(n)
            case _ => println(\"other\")
        }
        match 3 {
            case 1 => println(\"one\")
            case k => println(k)
        }
    }";
    assert_eq!(printed(src), "7\n3\n");
    assert_eq!(eval_failure("match 3 { case 1 => 2 }"), "No matching pattern");
}

#[test]
fn overloads_go_by_the_types_of_the_arguments() {
    let src = "trait Matrix { func size(m: Self) -> Int }
    struct Dense { n: Int }
    struct Hot { n: Int }
    impl Matrix for Dense { func size(m: Dense) -> Int { return m.n } }
    impl Matrix for Hot { func size(m: Hot) -> Int { return 1 } }
    func inner(a: Matrix, b: Matrix) -> Int { return 0 }
    func inner(a: Matrix, b: Hot) -> Int { return 1 }
    func inner(a: Dense, b: Hot) -> Int { return 2 }
    func pair(a: Matrix, b: Matrix) -> Int { return inner(a, b) }
    func main() {
        let d = Dense { n: 4 }
        let h = Hot { n: 4 }
        println(inner(d, h))
    }";
    assert_eq!(printed(src), "2\n");
}

#[test]
fn enum_values_fit_declared_types() {
    let src = "enum Option { case some(Int), case none }
    func main() {
        let o: Option = .some(1)
        println(o)
        println(.none == .none)
    }";
    assert_eq!(printed(src), "Enum(\"some\", Some(Int(1)))\ntrue\n");
    assert_eq!(
        failure("func main() { let o: Int = .none }"),
        "Type mismatch: expected 'Int', got '()'"
    );
}

#[test]
fn errors_of_running() {
    assert_eq!(failure("func main() { println(x) }"), "Undefined: 'x'");
    assert_eq!(failure("func main() { nothing() }"), "Unknown: 'nothing'");
    assert_eq!(failure("func main() { let x: Int = \"a\" }"), "Type mismatch: expected 'Int', got 'String'");
    assert_eq!(failure("func f(a: Int) { }\nfunc main() { f(1, 2) }"), "No matching overload for 'f'");
    assert_eq!(eval_failure("list(1)[3]"), "Index out of bounds");
    assert_eq!(eval_failure("1 + true"), "Cannot add these types");
    assert_eq!(eval_failure("1 < true"), "Cannot compare");
    assert_eq!(eval_failure("!1"), "Cannot ! this type");
    assert_eq!(eval_failure("-true"), "Cannot negate this type");
    assert_eq!(eval_failure("if 1 { 2 }"), "If condition must be bool");
    assert_eq!(eval_failure("while 1 { 2 }"), "While condition must be bool");
    assert_eq!(eval_failure("for x in 1 { 2 }"), "Can only iterate over lists");
    assert_eq!(eval_failure("println(1)"), "Unknown: 'println'");
    assert_eq!(eval_failure("read_file(1)"), "Expected string argument");
    assert_eq!(eval_failure("read_file(\"gone\")"), "File not found: 'gone'");
}

#[test]
fn exit_in_raw_code() {
    let src = "func main() { @cpp { std::exit(1); } }";
    assert!(matches!(run_with(&[], src, 10_000).0, Err(Stop::Exit(1))));
}

#[test]
fn endless_loops_run_out_of_fuel() {
    let src = "func main() { while true { 1 } }";
    assert!(matches!(run_with(&[], src, 1_000).0, Err(Stop::OutOfFuel)));
}

#[test]
fn files_can_be_read() {
    let src = "func main() { print(read_file(\"data.txt\")) }";
    let (v, out) = run_with(&[("./data.txt", "hello")], src, 10_000);
    assert_eq!(v.unwrap(), "Nil");
    assert_eq!(out, "hello");
}

#[test]
fn sources_can_be_parsed_and_looked_at() {
    assert_eq!(eval("parse(\"func f() { }\").name").unwrap(), "String(\"imported\")");
    let kinds = "{
        let names = list()
        for i in parse(\"func f() { } struct S { }\").items { names = list_push(names, i.kind + i.name) }
        names
    }";
    assert_eq!(eval(kinds).unwrap(), "List([String(\"Functionf\"), String(\"StructS\")])");
    let renamed = "{
        let r = \"\"
        for i in parse(\"func f() { }\").items { r = set_name(i, \"g\").name }
        r
    }";
    assert_eq!(eval(renamed).unwrap(), "String(\"g\")");
}
