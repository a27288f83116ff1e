use traceback_derive::function::Function;
use traceback_derive::rewrite::RewriteError;
use traceback_derive::syntax::{Expr, Part};
use traceback_derive::traceback;

fn tokens(text: &str) -> Part {
    Part::Tokens(text.to_string())
}

fn leaf(text: &str) -> Expr {
    Expr::Other(vec![tokens(text)])
}

fn caller_of_tasks() -> Function {
    Function {
        head: "pub fn".to_string(),
        name: "caller_of_tasks".to_string(),
        params: "(limit: usize)".to_string(),
        output: "-> Result<(), TracebackError>".to_string(),
        body: vec![
            Part::Sub(Expr::Try(Box::new(leaf("task_that_may_fail()")))),
            tokens(";"),
            Part::Sub(Expr::Try(Box::new(leaf("other_task_that_may_fail()")))),
            tokens("; let first ="),
            Part::Sub(Expr::Index(Box::new(leaf("TASKS")), Box::new(leaf("limit")))),
            tokens("; Ok(())"),
        ],
    }
}

#[test]
fn signature_comes_back_character_for_character() {
    let input = caller_of_tasks();
    let output = traceback("", &input).unwrap();
    assert_eq!(output.head, "pub fn");
    assert_eq!(output.name, "caller_of_tasks");
    assert_eq!(output.params, "(limit: usize)");
    assert_eq!(output.output, "-> Result<(), TracebackError>");
    assert_eq!(output.head.as_bytes(), input.head.as_bytes());
    assert_eq!(output.name.as_bytes(), input.name.as_bytes());
    assert_eq!(output.params.as_bytes(), input.params.as_bytes());
    assert_eq!(output.output.as_bytes(), input.output.as_bytes());
}

#[test]
fn signature_is_not_parsed() {
    let input = Function {
        head: "#[weird(] fn".to_string(),
        name: "näme".to_string(),
        params: "<T>(a: [u8; SIZES[0]], b: T?)".to_string(),
        output: "".to_string(),
        body: vec![],
    };
    let output = traceback("", &input).unwrap();
    assert_eq!(output, input);
}

#[test]
fn body_is_rewritten() {
    let output = traceback("", &caller_of_tasks()).unwrap();
    let expected_body = vec![
        Part::Sub(Expr::try_dispatch(leaf("task_that_may_fail()"))),
        tokens(";"),
        Part::Sub(Expr::try_dispatch(leaf("other_task_that_may_fail()"))),
        tokens("; let first ="),
        Part::Sub(Expr::index_dispatch(
            leaf("TASKS"),
            leaf("limit"),
            "limit",
            "TASKS",
        )),
        tokens("; Ok(())"),
    ];
    assert_eq!(output.body, expected_body);
}

#[test]
fn attribute_parameters_have_no_say() {
    let input = caller_of_tasks();
    let plain = traceback("", &input);
    assert_eq!(traceback("verbose = true", &input), plain);
    assert_eq!(traceback("((( not even tokens", &input), plain);
    assert!(plain.is_ok());
}

#[test]
fn function_text_is_signature_then_body() {
    let function = Function {
        head: "fn".to_string(),
        name: "f".to_string(),
        params: "(v: Vec<u8>)".to_string(),
        output: "-> u8".to_string(),
        body: vec![Part::Sub(Expr::Index(
            Box::new(leaf("v")),
            Box::new(leaf("0")),
        ))],
    };
    assert_eq!(function.to_text(), "fn f(v: Vec<u8>) -> u8 { v[0] }");
}

#[test]
fn function_without_body_or_return_type() {
    let function = Function {
        head: "fn".to_string(),
        name: "f".to_string(),
        params: "()".to_string(),
        output: "".to_string(),
        body: vec![],
    };
    assert_eq!(function.to_text(), "fn f()  {  }");
    assert_eq!(traceback("", &function), Ok(Function {
        head: "fn".to_string(),
        name: "f".to_string(),
        params: "()".to_string(),
        output: "".to_string(),
        body: vec![],
    }));
}

#[test]
fn rewritten_function_is_a_function_for_syn() {
    let output = traceback("", &caller_of_tasks()).unwrap();
    let text = output.to_text();
    let parsed = syn::parse_str::<syn::ItemFn>(&text).unwrap();
    assert_eq!(parsed.sig.ident.to_string(), "caller_of_tasks");
    assert_eq!(parsed.sig.inputs.len(), 1);
    assert_eq!(parsed.block.stmts.len(), 4);
    assert_eq!(
        text,
        "pub fn caller_of_tasks(limit: usize) -> Result<(), TracebackError> { { match ( task_that_may_fail() ) { Ok(val) => Ok(val), Err(e) => Err(traceback!(err e)) } }? ; { match ( other_task_that_may_fail() ) { Ok(val) => Ok(val), Err(e) => Err(traceback!(err e)) } }? ; let first = (*match ( TASKS ).get( limit ) { Some(value) => value, None => { return Err(traceback!(format!(\"Error while indexing into {} in variable {:?}\", \"limit\" , \"TASKS\" ))); }, }) ; Ok(()) }"
    );
}

#[test]
fn a_refused_replacement_fails_the_function() {
    let mut input = caller_of_tasks();
    input
        .body
        .push(Part::Sub(Expr::Try(Box::new(leaf("point(")))));
    assert_eq!(traceback("", &input), Err(RewriteError::TryDispatch));

    let mut input = caller_of_tasks();
    input.body.insert(
        0,
        Part::Sub(Expr::Index(Box::new(leaf("v")), Box::new(leaf("{")))),
    );
    assert_eq!(traceback("", &input), Err(RewriteError::IndexDispatch));
}

#[test]
fn a_copy_is_equal_and_rewrites_alike() {
    let input = caller_of_tasks();
    let copy = input.clone();
    assert_eq!(copy, input);
    assert_eq!(traceback("", &copy), traceback("", &input));
}
