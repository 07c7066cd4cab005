use yun_lib::interpreter::error::InterpreterError;
use yun_lib::interpreter::error::RuntimeErrorType;
use yun_lib::interpreter::exporter::Module;
use yun_lib::interpreter::object::Object;
use yun_lib::interpreter::scanner::token::token_type::TokenType;
use yun_lib::interpreter::Interpreter;

const BUDGET: u64 = 1_000_000;

fn run(code: &str) -> (Result<Object, InterpreterError>, Vec<String>) {
    let mut interpreter = Interpreter::new();
    let result = interpreter.run(code, Vec::new(), BUDGET);
    let output = interpreter.output().clone();
    (result, output)
}

fn text_of(result: Result<Object, InterpreterError>) -> String {
    match result {
        Ok(_) => panic!("no error"),
        Err(error) => error.to_string(),
    }
}

fn output_of(code: &str) -> Vec<String> {
    let (result, output) = run(code);
    if let Err(error) = &result {
        panic!("{}", error.to_string());
    }
    output
}

fn error_of(code: &str) -> String {
    match run(code).0 {
        Ok(_) => panic!("no error"),
        Err(error) => error.to_string(),
    }
}

#[test]
fn closure_captures_lexical_environment() {
    let code = "let a = \"global\";\n{\n  fun show() { print a; }\n  show();\n  let a = \"block\";\n  show();\n}\n";
    assert_eq!(output_of(code), vec!["global", "global"]);
}

#[test]
fn fibonacci() {
    let code = "fun fib(n){ if (n<2) return n; return fib(n-1)+fib(n-2); }\nprint fib(10);";
    assert_eq!(output_of(code), vec!["55"]);
}

#[test]
fn inheritance_and_super() {
    let code = "class A { greet(){ print \"A\"; } }\nclass B < A { greet(){ super.greet(); print \"B\"; } }\nB().greet();";
    assert_eq!(output_of(code), vec!["A", "B"]);
}

#[test]
fn initializer_return_short_circuits_to_self() {
    let code = "class C { init(){ self.x = 1; return; self.x = 2; } }\nprint C().x;";
    assert_eq!(output_of(code), vec!["1"]);
}

#[test]
fn arithmetic_type_error_is_attributed_to_the_operator() {
    let (result, output) = run("print 1 + \"a\";");
    assert!(output.is_empty());
    match result {
        Err(InterpreterError::RuntimeError(error)) => {
            assert_eq!(error.token.get_type(), TokenType::Plus);
            assert_eq!(error.token.get_lexeme(), "+");
            match &error.ty {
                RuntimeErrorType::CannotAddTypes(a, b) => {
                    assert_eq!(a, "number");
                    assert_eq!(b, "string");
                }
                _ => panic!("wrong kind"),
            }
            assert_eq!(error.to_string(), "[1:9] Error at '+': Cannot add types 'number' and 'string'\n");
        }
        _ => panic!("no runtime error"),
    }
}

#[test]
fn for_desugaring() {
    let code = "let s = 0;\nfor (let i = 1; i <= 3; i = i + 1) s = s + i;\nprint s;";
    assert_eq!(output_of(code), vec!["6"]);
}

#[test]
fn for_without_parts_runs_until_return() {
    let code = "fun f() { let i = 0; for (;;) { i = i + 1; if (i == 4) return i; } }\nprint f();";
    assert_eq!(output_of(code), vec!["4"]);
}

#[test]
fn self_is_the_instance_in_methods_of_subclasses() {
    let code = "class A { me() { return self; } name() { return \"A\"; } }\n\
                class B < A { name() { return \"B\"; } both() { return super.name() + self.name(); } }\n\
                let b = B();\nb.tag = \"x\";\nprint b.me().tag;\nprint b.both();\nprint b.me().name();";
    assert_eq!(output_of(code), vec!["x", "AB", "B"]);
}

#[test]
fn super_inside_a_nested_block_finds_the_instance() {
    let code = "class A { greet() { print self.n; } }\n\
                class B < A { greet() { if (true) { { super.greet(); } } } }\n\
                let b = B();\nb.n = 7;\nb.greet();";
    assert_eq!(output_of(code), vec!["7"]);
}

#[test]
fn construction_yields_the_instance_whatever_init_returns() {
    let code = "class P { init(x) { self.x = x; return; } }\nlet p = P(3);\nprint p.x;\nprint p;\nprint P;";
    assert_eq!(output_of(code), vec!["3", "P instance", "P"]);
}

#[test]
fn lists_grow_at_their_end() {
    let code = "let a = [1, \"two\"];\nlet b = a + 3;\nprint b;\nprint a;\nprint get(b, 2);\nprint get(b, 5);\nprint [] + nil;";
    assert_eq!(output_of(code), vec!["[1, \"two\", 3]", "[1, \"two\"]", "3", "nil", "[nil]"]);
}

#[test]
fn numbers_are_written_without_a_needless_point() {
    let code = "print 7 / 2;\nprint 10 / 5;\nprint 0.1 + 0.2;\nprint -3;\nprint 1 / 0;\nprint 45.67;";
    assert_eq!(output_of(code), vec!["3.5", "2", "0.30000000000000004", "-3", "inf", "45.67"]);
}

#[test]
fn strings_concatenate_and_compare() {
    let code = "print \"a\" + \"b\";\nprint \"a\" < \"b\";\nprint \"b\" <= \"a\";\nprint \"a\" == \"a\";\nprint \"a\" != \"a\";";
    assert_eq!(output_of(code), vec!["ab", "true", "false", "true", "false"]);
}

#[test]
fn logical_operators_short_circuit() {
    let code = "fun t() { print \"t\"; return true; }\nfun f() { print \"f\"; return false; }\n\
                print f() and t();\nprint t() or f();\nprint nil or \"x\";\nprint 0 and 1;";
    assert_eq!(output_of(code), vec!["f", "false", "t", "true", "x", "1"]);
}

#[test]
fn negation_and_not() {
    let code = "print !nil;\nprint !0;\nprint !true;\nprint -(2 + 3);";
    assert_eq!(output_of(code), vec!["true", "false", "false", "-5"]);
    assert_eq!(error_of("print -\"a\";"), "[1:7] Error at '-': Cannot negate 'string'\n");
}

#[test]
fn arithmetic_errors_name_both_types() {
    assert_eq!(error_of("1 - nil;"), "[1:3] Error at '-': Cannot subtract 'number' and 'nil'\n");
    assert_eq!(error_of("true * 2;"), "[1:6] Error at '*': Cannot multiply 'boolean' and 'number'\n");
    assert_eq!(error_of("[1] / 2;"), "[1:5] Error at '/': Cannot divide 'list' and 'number'\n");
}

#[test]
fn blocks_shadow_and_restore() {
    let code = "let a = 1;\n{ let a = 2; print a; { a = 3; print a; } print a; }\nprint a;";
    assert_eq!(output_of(code), vec!["2", "3", "3", "1"]);
}

#[test]
fn while_re_evaluates_its_condition() {
    let code = "let i = 0;\nwhile (i < 3) { print i; i = i + 1; }";
    assert_eq!(output_of(code), vec!["0", "1", "2"]);
}

#[test]
fn closures_keep_their_own_frames() {
    let code = "fun counter() { let n = 0; fun next() { n = n + 1; return n; } return next; }\n\
                let a = counter();\nlet b = counter();\nprint a();\nprint a();\nprint b();";
    assert_eq!(output_of(code), vec!["1", "2", "1"]);
}

#[test]
fn undefined_and_uninitialized_variables() {
    assert_eq!(error_of("print x;"), "[1:7] Error at 'x': Undefined variable 'x'\n");
    assert_eq!(error_of("x = 1;"), "[1:1] Error at 'x': Undefined variable 'x'\n");
    assert_eq!(error_of("let x;\nprint x;"), "[2:6] Error at 'x': Variable 'x' is not initialized\n");
}

#[test]
fn calls_check_arity_and_callability() {
    assert_eq!(
        error_of("fun f(a) {}\nf(1, 2);"),
        "[2:6] Error at ')': Arity of functions not equal size of args\n"
    );
    assert_eq!(error_of("let x = 1;\nx();"), "[2:2] Error at ')': Not callable\n");
    assert_eq!(output_of("fun f(a, b) { return a + b; }\nprint f(1, 2);"), vec!["3"]);
}

#[test]
fn properties_need_instances() {
    assert_eq!(error_of("let x = 1;\nx.y;"), "[2:2] Error at 'y': Only instances have properties\n");
    assert_eq!(error_of("let x = 1;\nx.y = 2;"), "[2:2] Error at 'y': Only instances have properties\n");
    assert_eq!(error_of("class A {}\nA().y;"), "[2:4] Error at 'y': Undefined property 'y'\n");
}

#[test]
fn superclass_must_be_a_class() {
    assert_eq!(error_of("let x = 1;\nclass A < x {}"), "[2:10] Error at 'x': Superclass must be class\n");
}

#[test]
fn user_panic_is_reported_at_the_call() {
    assert_eq!(error_of("panic(\"boom\");"), "[1:13] Panic: boom\n");
}

#[test]
fn exit_is_a_signal_with_its_code() {
    match run("print 1;\nexitWithCode(3);\nprint 2;") {
        (Err(InterpreterError::Exit(3)), output) => assert_eq!(output, vec!["1"]),
        _ => panic!("no exit"),
    }
    match run("exit();").0 {
        Err(InterpreterError::Exit(0)) => {}
        _ => panic!("no exit"),
    }
    assert_eq!(
        error_of("exitWithCode(\"a\");"),
        "[1:17] Error at ')': this type 'string' cannot be represented as a number\n"
    );
}

#[test]
fn string_native_writes_any_value() {
    let code = "print string(12) + string(true) + string(nil) + string([1]);\nprint string(clock) == \"<function#2 clock>\";";
    assert_eq!(output_of(code), vec!["12truenil[1]", "true"]);
}

#[test]
fn clock_and_elapsed_are_numbers() {
    let code = "let c = clock();\nprint c > 0;\nlet i = instant();\nprint i;\nprint elapsed(i) >= 0;\nprint elapsed(1);";
    assert_eq!(output_of(code), vec!["true", "<native object>", "true", "nil"]);
}

#[test]
fn statement_results() {
    match run("1 + 2;").0 {
        Ok(Object::Number(n)) => assert_eq!(f64::from_bits(n.to_bits()), 3.0),
        _ => panic!("no number"),
    }
    match run("").0 {
        Ok(Object::Void) => {}
        _ => panic!("no void"),
    }
    assert_eq!(output_of("fun f() {}\nprint f();"), vec![""]);
}

#[test]
fn budget_bounds_runaway_programs() {
    let mut interpreter = Interpreter::new();
    match interpreter.run("while (true) {}", Vec::new(), 1000) {
        Err(InterpreterError::BudgetExhausted) => {}
        _ => panic!("no budget error"),
    }
    let mut interpreter = Interpreter::new();
    match interpreter.run("fun f() { return f(); }\nf();", Vec::new(), 1000) {
        Err(InterpreterError::BudgetExhausted) => {}
        _ => panic!("no budget error"),
    }
}

#[test]
fn parse_errors_are_aggregated() {
    let text = error_of("let = 1;\nprint 2;\nprint ;\n");
    assert_eq!(
        text,
        "[1:5] Error at '=': Expected variable name!\n[3:6] Error at ';': Expected expression!\n"
    );
    assert_eq!(error_of("1 = 2;"), "[1:3] Error at '=': Invalid assignment target!\n");
    assert_eq!(error_of("print 1"), "[1:9] Error at end: Expected ';' after expression!\n");
}

#[test]
fn resolver_errors() {
    assert_eq!(error_of("return 1;"), "[1:1] Error at 'return': Can't return from top level code!\n");
    assert_eq!(error_of("{ let a = a; }"), "[1:11] Error at 'a': Can't read local variable in it's own init!\n");
    assert_eq!(error_of("print self;"), "[1:7] Error at 'self': Can't use 'self' outside of a class!\n");
    assert_eq!(
        error_of("class A { init() { return 1; } }"),
        "[1:20] Error at 'return': Can't return from initializer!\n"
    );
    assert_eq!(error_of("class A < A {}"), "[1:11] Error at 'A': A class can't inherit from itself!\n");
    assert_eq!(
        error_of("class A { f() { super.f(); } }"),
        "[1:17] Error at 'super': Can't use 'super' in class without superclasses!\n"
    );
    assert_eq!(error_of("super.f();"), "[1:1] Error at 'super': Can't use 'super' outside of a class!\n");
}

#[test]
fn scanner_errors_end_the_run() {
    assert_eq!(error_of("print 1;\n#"), "[2:1] Error: Unexpected character '#'\n");
}

#[test]
fn modules_export_their_statements() {
    let mut interpreter = Interpreter::new();
    let modules = vec![
        Module {
            path: "lib/math".to_string(),
            source: "export fun double(x) { return 2 * x; }\nprint \"hidden\";\nfun private() {}".to_string(),
        },
        Module { path: "lib/base".to_string(), source: "export let base = 10;".to_string() },
    ];
    let result = interpreter.run("use \"lib/base\";\nuse \"lib/math\";\nprint double(base);", modules, BUDGET);
    assert!(result.is_ok());
    assert_eq!(interpreter.output().clone(), vec!["20"]);
}

#[test]
fn a_use_inside_a_module_is_dropped_with_its_other_private_statements() {
    let mut interpreter = Interpreter::new();
    let modules = vec![
        Module { path: "a".to_string(), source: "use \"a\";\nuse \"b\";\nexport let x = 1;".to_string() },
        Module { path: "b".to_string(), source: "export let y = 2;".to_string() },
    ];
    let result = interpreter.run("use \"a\";\nprint x;\nprint y;", modules, BUDGET);
    assert_eq!(interpreter.output().clone(), vec!["1"]);
    assert_eq!(text_of(result), "[3:6] Error at 'y': Undefined variable 'y'\n");
}

#[test]
fn modules_private_statements_are_dropped() {
    let mut interpreter = Interpreter::new();
    let modules = vec![Module { path: "m".to_string(), source: "fun private() {}\nexport let shown = 1;".to_string() }];
    let result = interpreter.run("use \"m\";\nprint shown;\nprint private;", modules, BUDGET);
    assert_eq!(interpreter.output().clone(), vec!["1"]);
    assert_eq!(text_of(result), "[3:6] Error at 'private': Undefined variable 'private'\n");
}

#[test]
fn module_errors() {
    let mut interpreter = Interpreter::new();
    let result = interpreter.run("use 1;", Vec::new(), BUDGET);
    assert_eq!(text_of(result), "[1:1] Error at 'use': Expected path string after use\n");
    let mut interpreter = Interpreter::new();
    let result = interpreter.run("use \"missing\";", Vec::new(), BUDGET);
    assert_eq!(text_of(result), "[1:1] Error at 'use': Module not found\n");
}

#[test]
fn a_session_keeps_its_globals_between_runs() {
    let mut interpreter = Interpreter::new();
    assert!(interpreter.run("let a = 1;\nfun inc() { a = a + 1; return a; }", Vec::new(), BUDGET).is_ok());
    assert!(interpreter.run("print inc();", Vec::new(), BUDGET).is_ok());
    assert!(interpreter.run("print inc() + a;", Vec::new(), BUDGET).is_ok());
    assert_eq!(interpreter.output().clone(), vec!["2", "6"]);
}

#[test]
fn if_takes_the_branch_of_a_truthy_condition() {
    let code = "if (1 < 2) print \"yes\"; else print \"no\";\nif (nil) print \"a\"; else print \"b\";\nif (1) print \"c\"; else print \"d\";\nif (false) print \"e\"; else print \"f\";\nif (\"\") print \"g\";";
    assert_eq!(output_of(code), vec!["yes", "b", "c", "f", "g"]);
}

#[test]
fn callables_are_equal_by_identity() {
    let code = "fun f() {}\nfun g() {}\nlet h = f;\nprint f == h;\nprint f == g;\nprint clock == clock;";
    assert_eq!(output_of(code), vec!["true", "false", "true"]);
}

#[test]
fn double_negation_tells_truthiness() {
    let code = "print !!nil;\nprint !!0;\nprint !!\"\";\nprint !!false;\nprint --3;";
    assert_eq!(output_of(code), vec!["false", "true", "true", "false", "3"]);
}

#[test]
fn super_starts_at_the_declared_superclass() {
    let code = "class A { m(){ print \"A\"; } }\nclass B < A { m(){ print \"B\"; super.m(); } }\nclass C < B {}\nC().m();";
    assert_eq!(output_of(code), vec!["B", "A"]);
}

#[test]
fn get_counts_from_zero_and_gives_nil_past_the_end() {
    let code = "let l = [10, 20, 30];\nprint get(l, 1);\nprint get(l, 3);\nprint get(l, 0);";
    assert_eq!(output_of(code), vec!["20", "nil", "10"]);
}

#[test]
fn elapsed_of_no_reading_is_nil() {
    let code = "print elapsed(1);\nprint elapsed(nil);\nprint elapsed(\"now\");";
    assert_eq!(output_of(code), vec!["nil", "nil", "nil"]);
}

#[test]
fn a_loop_that_assigns_keeps_one_binding() {
    let code = "let s = 0;\nlet i = 0;\nwhile (i < 2000) { s = s + i; i = i + 1; }\nprint s;\nclass P { init() { self.x = 0; } }\nlet p = P();\nfor (let k = 0; k < 500; k = k + 1) p.x = p.x + 2;\nprint p.x;\nlet s = \"again\";\nprint s;";
    assert_eq!(output_of(code), vec!["1999000", "1000", "again"]);
}

#[test]
fn a_return_ends_at_its_call() {
    let code = "fun f() { while (true) { return 7; } }\nprint f();\nclass C { init() { return; } m() { return self; } }\nprint C().m() == nil;";
    assert_eq!(output_of(code), vec!["7", "false"]);
}

#[test]
fn lines_around_a_reading_of_the_clock_keep_their_order() {
    let code = "print \"a\";\nlet t = clock();\nprint \"b\";\nlet i = instant();\nprint \"c\";\nprint elapsed(i) >= 0;\nprint t > 0;";
    assert_eq!(output_of(code), vec!["a", "b", "c", "true", "true"]);
}
