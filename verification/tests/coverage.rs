use traceback_derive::coverage::parts_are_wrapped;
use traceback_derive::syntax::{Expr, Part};

fn tokens(text: &str) -> Part {
    Part::Tokens(text.to_string())
}

fn leaf(text: &str) -> Expr {
    Expr::Other(vec![tokens(text)])
}

fn try_of(inner: Expr) -> Expr {
    Expr::Try(Box::new(inner))
}

fn index_of(base: Expr, index: Expr) -> Expr {
    Expr::Index(Box::new(base), Box::new(index))
}

fn sample() -> Expr {
    Expr::Other(vec![
        tokens("let total ="),
        Part::Sub(try_of(index_of(
            try_of(leaf("load()")),
            index_of(leaf("keys"), leaf("0")),
        ))),
        tokens("+"),
        Part::Sub(Expr::Other(vec![
            tokens("("),
            Part::Sub(try_of(try_of(leaf("twice()")))),
            tokens(")"),
        ])),
        tokens(";"),
    ])
}

fn count_tries(expr: &Expr) -> usize {
    match expr {
        Expr::Try(inner) => 1 + count_tries(inner),
        Expr::Index(base, index) => count_tries(base) + count_tries(index),
        Expr::Other(parts) => parts
            .iter()
            .map(|part| match part {
                Part::Tokens(_) => 0,
                Part::Sub(expr) => count_tries(expr),
            })
            .sum(),
    }
}

fn count_indexings(expr: &Expr) -> usize {
    match expr {
        Expr::Try(inner) => count_indexings(inner),
        Expr::Index(base, index) => 1 + count_indexings(base) + count_indexings(index),
        Expr::Other(parts) => parts
            .iter()
            .map(|part| match part {
                Part::Tokens(_) => 0,
                Part::Sub(expr) => count_indexings(expr),
            })
            .sum(),
    }
}

fn count_guards(expr: &Expr) -> usize {
    match expr {
        Expr::Try(inner) => count_guards(inner),
        Expr::Index(base, index) => count_guards(base) + count_guards(index),
        Expr::Other(parts) => {
            let inside: usize = parts
                .iter()
                .map(|part| match part {
                    Part::Tokens(_) => 0,
                    Part::Sub(expr) => count_guards(expr),
                })
                .sum();
            if expr.is_try_block() {
                inside + 1
            } else {
                inside
            }
        }
    }
}

#[test]
fn plain_try_and_index_are_not_wrapped() {
    assert!(!try_of(leaf("f()")).is_wrapped());
    assert!(!index_of(leaf("v"), leaf("0")).is_wrapped());
    assert!(!sample().is_wrapped());
}

#[test]
fn a_tree_without_sites_is_wrapped() {
    assert!(leaf("a + b").is_wrapped());
    assert!(Expr::Other(vec![]).is_wrapped());
    assert!(tokens("x").is_wrapped());
    assert!(parts_are_wrapped(&vec![]));
}

#[test]
fn one_pass_leaves_nothing_to_rewrite() {
    let output = sample().rewrite().unwrap();
    assert!(output.is_wrapped());
    assert_eq!(count_indexings(&output), 0);
}

#[test]
fn one_pass_guards_no_try_twice() {
    let input = sample();
    let output = input.rewrite().unwrap();
    assert_eq!(count_tries(&input), 4);
    assert_eq!(count_tries(&output), 4);
    assert_eq!(count_guards(&input), 0);
    assert_eq!(count_guards(&output), 4);

    let single = try_of(leaf("f()")).rewrite().unwrap();
    assert_eq!(count_tries(&single), 1);
    let Expr::Try(block) = single else {
        panic!("a guarded try is a try");
    };
    let Expr::Other(parts) = *block else {
        panic!("a guarded try applies to a block");
    };
    assert_eq!(parts[1], Part::Sub(leaf("f()")));
}

#[test]
fn a_second_pass_finds_the_guards_and_wraps_them_again() {
    let once = try_of(leaf("f()")).rewrite().unwrap();
    let twice = once.rewrite().unwrap();
    assert_eq!(count_tries(&twice), 1);
    assert_eq!(count_guards(&once), 1);
    assert_eq!(count_guards(&twice), 2);
    assert!(twice.is_wrapped());
    assert_eq!(twice, Expr::try_dispatch(Expr::Other(vec![
        tokens("{ match ("),
        Part::Sub(leaf("f()")),
        tokens(") { Ok(val) => Ok(val), Err(e) => Err(traceback!(err e)) } }"),
    ])));
}

#[test]
fn try_block_is_told_by_its_shape() {
    let block = Expr::Other(vec![
        tokens("{ match ("),
        Part::Sub(leaf("f()")),
        tokens(") { Ok(val) => Ok(val), Err(e) => Err(traceback!(err e)) } }"),
    ]);
    assert!(block.is_try_block());
    assert!(try_of(block).is_wrapped());

    let other_arms = Expr::Other(vec![
        tokens("{ match ("),
        Part::Sub(leaf("f()")),
        tokens(") { Ok(val) => Ok(val), Err(e) => Err(e) } }"),
    ]);
    assert!(!other_arms.is_try_block());
    assert!(!try_of(other_arms).is_wrapped());

    let no_operand = Expr::Other(vec![
        tokens("{ match ("),
        tokens("f()"),
        tokens(") { Ok(val) => Ok(val), Err(e) => Err(traceback!(err e)) } }"),
    ]);
    assert!(!no_operand.is_try_block());
    assert!(!Expr::Other(vec![tokens("{ match (")]).is_try_block());
    assert!(!try_of(leaf("x")).is_try_block());
    assert!(!index_of(leaf("x"), leaf("0")).is_try_block());
}

#[test]
fn a_guard_around_an_unwrapped_operand_is_not_wrapped() {
    let block = Expr::Other(vec![
        tokens("{ match ("),
        Part::Sub(index_of(leaf("v"), leaf("0"))),
        tokens(") { Ok(val) => Ok(val), Err(e) => Err(traceback!(err e)) } }"),
    ]);
    assert!(block.is_try_block());
    assert!(!try_of(block).is_wrapped());
}

#[test]
fn parts_are_wrapped_when_each_is() {
    let good = vec![tokens("a"), Part::Sub(leaf("b"))];
    assert!(parts_are_wrapped(&good));
    let bad = vec![
        tokens("a"),
        Part::Sub(leaf("b")),
        Part::Sub(try_of(leaf("c"))),
    ];
    assert!(!parts_are_wrapped(&bad));
    assert!(!Part::Sub(try_of(leaf("c"))).is_wrapped());
}
