use monadicast::ast::{BinaryOp, Expr, Stmt};
use monadicast::while_loop::{Bound, ForLoop, WhileLoopReplacer};

fn path(name: &str) -> Expr {
    Expr::Path { qualified: false, segments: vec![name.to_string()] }
}

fn lit(v: u128) -> Expr {
    Expr::IntLit { value: v, suffix: String::new() }
}

fn bin(l: Expr, op: BinaryOp, r: Expr) -> Expr {
    Expr::Binary { left: Box::new(l), op, right: Box::new(r) }
}

fn assign(l: Expr, r: Expr) -> Expr {
    Expr::Assign { left: Box::new(l), right: Box::new(r) }
}

fn cast_local(name: &str, v: u128) -> Stmt {
    Stmt::Local {
        name: Some(name.to_string()),
        init: Some(Expr::Cast { operand: Box::new(lit(v)) }),
    }
}

fn while_stmt(cond: Expr, body: Vec<Stmt>) -> Stmt {
    Stmt::Expr(Expr::While { cond: Box::new(cond), body })
}

fn body_call() -> Stmt {
    Stmt::Expr(Expr::MethodCall {
        receiver: Box::new(path("v")),
        method: "push".to_string(),
        args: vec![],
    })
}

fn lower(stmts: Vec<Stmt>) -> Vec<Option<ForLoop>> {
    let mut w = WhileLoopReplacer::new();
    stmts.iter().map(|s| w.visit_stmt(s)).collect()
}

#[test]
fn counting_loop_becomes_exclusive_range() {
    let r = lower(vec![
        cast_local("i", 0),
        while_stmt(
            bin(path("i"), BinaryOp::Lt, path("n")),
            vec![body_call(), Stmt::Expr(assign(path("i"), bin(path("i"), BinaryOp::Add, lit(1))))],
        ),
    ]);
    assert!(r[0].is_none());
    let f = r[1].as_ref().unwrap();
    assert_eq!(f.var, "i");
    assert_eq!(f.lower, 0);
    assert!(matches!(&f.upper, Bound::Name(n) if n == "n"));
    assert!(!f.inclusive);
    assert_eq!(f.kept, vec![0]);
}

#[test]
fn le_against_literal_is_inclusive_range() {
    let r = lower(vec![
        cast_local("i", 1),
        while_stmt(
            bin(path("i"), BinaryOp::Le, lit(10)),
            vec![Stmt::Expr(bin(path("i"), BinaryOp::AddAssign, lit(1))), body_call()],
        ),
    ]);
    let f = r[1].as_ref().unwrap();
    assert_eq!(f.lower, 1);
    assert!(matches!(&f.upper, Bound::Literal { value: 10, suffix } if suffix.is_empty()));
    assert!(f.inclusive);
    assert_eq!(f.kept, vec![1]);
}

#[test]
fn increment_by_other_than_one_is_left_alone() {
    let r = lower(vec![
        cast_local("i", 0),
        while_stmt(
            bin(path("i"), BinaryOp::Lt, path("n")),
            vec![body_call(), Stmt::Expr(assign(path("i"), bin(path("i"), BinaryOp::Add, lit(2))))],
        ),
        while_stmt(
            bin(path("i"), BinaryOp::Lt, path("n")),
            vec![Stmt::Expr(bin(path("i"), BinaryOp::AddAssign, lit(3)))],
        ),
    ]);
    assert!(r[1].is_none());
    assert!(r[2].is_none());
}

#[test]
fn equality_condition_is_left_alone() {
    for op in [BinaryOp::Eq, BinaryOp::Ne, BinaryOp::Gt, BinaryOp::Ge] {
        let r = lower(vec![
            cast_local("i", 0),
            while_stmt(bin(path("i"), op, path("n")), vec![body_call()]),
        ]);
        assert!(r[1].is_none());
    }
}

#[test]
fn recorded_bound_variable_gives_its_value() {
    let r = lower(vec![
        cast_local("i", 2),
        cast_local("m", 7),
        while_stmt(bin(path("i"), BinaryOp::Lt, path("m")), vec![]),
    ]);
    let f = r[2].as_ref().unwrap();
    assert_eq!(f.lower, 2);
    assert!(matches!(f.upper, Bound::Value(7)));
    assert!(f.kept.is_empty());
}

#[test]
fn later_declaration_hides_earlier_value() {
    let mut w = WhileLoopReplacer::new();
    w.visit_stmt(&cast_local("i", 2));
    w.visit_stmt(&cast_local("i", 5));
    assert_eq!(w.lookup_var(&"i".to_string()), Some(5));
    assert_eq!(w.lookup_var(&"j".to_string()), None);
}

#[test]
fn unrecorded_variable_or_odd_bound_is_no_match() {
    let r = lower(vec![
        Stmt::Local { name: Some("i".to_string()), init: Some(lit(0)) },
        while_stmt(bin(path("i"), BinaryOp::Lt, path("n")), vec![]),
        cast_local("j", 0),
        while_stmt(bin(path("j"), BinaryOp::Lt, Expr::OtherLit), vec![]),
        while_stmt(bin(path("j"), BinaryOp::Lt, bin(path("n"), BinaryOp::Sub, lit(1))), vec![]),
    ]);
    assert!(r.iter().all(|x| x.is_none()));
}

#[test]
fn other_assignments_to_the_variable_are_kept() {
    // while i < n { i = 0; f(i); i += 1; }
    let r = lower(vec![
        cast_local("i", 0),
        while_stmt(
            bin(path("i"), BinaryOp::Lt, path("n")),
            vec![
                Stmt::Expr(assign(path("i"), lit(0))),
                body_call(),
                Stmt::Expr(bin(path("i"), BinaryOp::AddAssign, lit(1))),
            ],
        ),
    ]);
    let f = r[1].as_ref().unwrap();
    assert_eq!(f.kept, vec![0, 1]);
    assert_eq!(f.lower, 0);
}

#[test]
fn suffixed_and_large_literal_bounds_pass_through() {
    let big = Expr::IntLit { value: 5_000_000_000, suffix: "u64".to_string() };
    let r = lower(vec![
        cast_local("i", 3),
        while_stmt(bin(path("i"), BinaryOp::Lt, big), vec![]),
    ]);
    let f = r[1].as_ref().unwrap();
    assert!(matches!(&f.upper, Bound::Literal { value: 5_000_000_000, suffix } if suffix == "u64"));
}

#[test]
fn block_scope_forgets_inner_variables() {
    let mut w = WhileLoopReplacer::new();
    w.visit_stmt(&cast_local("i", 1));
    let mark = w.scope_mark();
    w.visit_stmt(&cast_local("j", 2));
    w.visit_stmt(&cast_local("i", 4));
    assert_eq!(w.lookup_var(&"i".to_string()), Some(4));
    w.leave_scope(mark);
    assert_eq!(w.lookup_var(&"i".to_string()), Some(1));
    assert_eq!(w.lookup_var(&"j".to_string()), None);
}

#[test]
fn increment_statement_shapes() {
    let w = WhileLoopReplacer::new();
    let i = "i".to_string();
    assert!(w.is_increment_stmt(&Stmt::Expr(assign(path("i"), bin(path("i"), BinaryOp::Add, lit(1)))), &i));
    assert!(w.is_increment_stmt(&Stmt::Expr(bin(path("i"), BinaryOp::AddAssign, lit(1))), &i));
    let one_usize = Expr::IntLit { value: 1, suffix: "usize".to_string() };
    assert!(w.is_increment_stmt(&Stmt::Expr(bin(path("i"), BinaryOp::AddAssign, one_usize)), &i));
    assert!(!w.is_increment_stmt(&Stmt::Expr(bin(path("i"), BinaryOp::AddAssign, lit(2))), &i));
    assert!(!w.is_increment_stmt(&Stmt::Expr(assign(path("i"), bin(path("i"), BinaryOp::Sub, lit(1)))), &i));
    assert!(!w.is_increment_stmt(&Stmt::Expr(assign(path("j"), bin(path("j"), BinaryOp::Add, lit(1)))), &i));
}
