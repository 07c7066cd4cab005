use yun_lib::interpreter::error::InterpreterError;
use yun_lib::interpreter::object::Object;
use yun_lib::interpreter::Interpreter;

const BUDGET: u64 = 10_000_000;

fn run_script(code: &str) -> (Result<Object, InterpreterError>, Vec<String>) {
    let mut interpreter = Interpreter::default();
    let result = interpreter.run(code, Vec::new(), BUDGET);
    let output = interpreter.output().clone();
    (result, output)
}

#[test]
fn hello_world() {
    let (result, output) = run_script("print \"Hello, World!\";");
    assert!(result.is_ok());
    assert_eq!(output, vec!["Hello, World!".to_string()]);
}

#[test]
fn vars() {
    let (result, output) = run_script(
        "let a = 1;\nlet b = 2;\nlet c;\nprint a + b;\na = \"now a string\";\nprint a;\nlet a = 10;\nprint a * b;",
    );
    assert!(result.is_ok());
    assert_eq!(
        output,
        vec!["3".to_string(), "now a string".to_string(), "20".to_string()]
    );
}

#[test]
fn blocks() {
    let (result, output) = run_script(
        "let a = \"global a\";\nlet b = \"global b\";\n{\n  let a = \"outer a\";\n  {\n    let a = \"inner a\";\n    print a;\n    print b;\n  }\n  print a;\n}\nprint a;",
    );
    assert!(result.is_ok());
    assert_eq!(
        output,
        vec![
            "inner a".to_string(),
            "global b".to_string(),
            "outer a".to_string(),
            "global a".to_string()
        ]
    );
}

#[test]
fn loops() {
    let (result, output) = run_script(
        "let i = 0;\nwhile (i < 3) {\n  print i;\n  i = i + 1;\n}\nfor (let j = 0; j < 3; j = j + 1) {\n  print j * 10;\n}",
    );
    assert!(result.is_ok());
    assert_eq!(
        output,
        vec![
            "0".to_string(),
            "1".to_string(),
            "2".to_string(),
            "0".to_string(),
            "10".to_string(),
            "20".to_string()
        ]
    );
}

#[test]
#[should_panic]
fn panic() {
    let (result, _) = run_script("print \"before\";\npanic(\"this script gives up\");\nprint \"after\";");
    assert!(result.is_ok());
}

#[test]
fn functions() {
    let (result, output) = run_script(
        "fun add(a, b) {\n  return a + b;\n}\nfun greet(name) {\n  print \"Hello, \" + name + \"!\";\n}\nfun nothing() {}\nprint add(1, 2);\ngreet(\"Yun\");\nprint nothing();\nprint add;",
    );
    assert!(result.is_ok());
    assert_eq!(output[0], "3");
    assert_eq!(output[1], "Hello, Yun!");
    assert_eq!(output.len(), 4);
}

#[test]
fn fib() {
    let (result, output) = run_script(
        "fun fib(n) {\n  if (n < 2) return n;\n  return fib(n - 1) + fib(n - 2);\n}\nfor (let i = 0; i < 10; i = i + 1) {\n  print fib(i);\n}",
    );
    assert!(result.is_ok());
    assert_eq!(
        output,
        vec!["0", "1", "1", "2", "3", "5", "8", "13", "21", "34"]
            .into_iter()
            .map(String::from)
            .collect::<Vec<String>>()
    );
}

#[test]
fn benchmark() {
    let (result, output) = run_script(
        "fun fib(n) {\n  if (n < 2) return n;\n  return fib(n - 1) + fib(n - 2);\n}\nlet start = instant();\nprint fib(15);\nprint elapsed(start) >= 0;",
    );
    assert!(result.is_ok());
    assert_eq!(output, vec!["610".to_string(), "true".to_string()]);
}

#[test]
fn closures() {
    let (result, output) = run_script(
        "fun makeCounter() {\n  let i = 0;\n  fun count() {\n    i = i + 1;\n    print i;\n  }\n  return count;\n}\nlet counter = makeCounter();\ncounter();\ncounter();",
    );
    assert!(result.is_ok());
    assert_eq!(output, vec!["1".to_string(), "2".to_string()]);
}

#[test]
fn closures_2() {
    let (result, output) = run_script(
        "let a = \"global\";\n{\n  fun showA() {\n    print a;\n  }\n  showA();\n  let a = \"block\";\n  showA();\n}",
    );
    assert!(result.is_ok());
    assert_eq!(output, vec!["global".to_string(), "global".to_string()]);
}

#[test]
fn class() {
    let (result, output) = run_script(
        "class Animal {\n  init(name) {\n    self.name = name;\n  }\n  speak() {\n    print self.name + \" makes a sound\";\n  }\n}\nclass Dog < Animal {\n  speak() {\n    super.speak();\n    print self.name + \" barks\";\n  }\n}\nlet dog = Dog(\"Rex\");\ndog.speak();\nprint dog.name;",
    );
    assert!(result.is_ok());
    assert_eq!(
        output,
        vec![
            "Rex makes a sound".to_string(),
            "Rex barks".to_string(),
            "Rex".to_string()
        ]
    );
}
