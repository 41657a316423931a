//! Loop lowering: a counting `while` loop over an induction variable becomes
//! an iteration over a range, without its explicit unit increment.
use vstd::prelude::*;
use crate::ast::{BinaryOp, Expr, Stmt};

verus! {

/// The upper bound of a range: the value of a recorded variable, an integer
/// literal as written, or a name passed through.
#[derive(Clone, Debug)]
pub enum Bound {
    Value(u128),
    Literal { value: u128, suffix: String },
    Name(String),
}

/// The range iteration that replaces a counting loop: `for var in
/// lower..upper` (or `..=` when `inclusive`), whose body is the statements of
/// the loop body at the positions `kept`, in order.
#[derive(Clone, Debug)]
pub struct ForLoop {
    pub var: String,
    pub lower: u128,
    pub upper: Bound,
    pub inclusive: bool,
    pub kept: Vec<usize>,
}

/// The loop lowering engine. `loop_vars` holds the induction variables
/// recorded so far, with their initial values; a later entry for a name
/// hides the earlier ones.
#[derive(Clone, Debug)]
pub struct WhileLoopReplacer {
    loop_vars: Vec<(String, u128)>,
}

impl View for WhileLoopReplacer {
    type V = Seq<(String, u128)>;

    /// The recorded induction variables, in the order recorded.
    closed spec fn view(&self) -> Seq<(String, u128)> {
        self.loop_vars@
    }
}

/// The initial value recorded for `k`.
pub open spec fn var_lookup(s: Seq<(String, u128)>, k: Seq<char>) -> Option<u128>
    decreases s.len(),
{
    if s.len() == 0 {
        None
    } else if s.last().0@ == k {
        Some(s.last().1)
    } else {
        var_lookup(s.drop_last(), k)
    }
}

/// The identifier of an expression that is one plain identifier.
pub open spec fn simple_ident(e: Expr) -> Option<String> {
    match e {
        Expr::Path { qualified, segments } => if !qualified && segments@.len() == 1 {
            Some(segments@[0])
        } else {
            None
        },
        _ => None,
    }
}

/// Whether `e` is the plain identifier `v`.
pub open spec fn is_ident(e: Expr, v: Seq<char>) -> bool {
    simple_ident(e) matches Some(n) && n@ == v
}

/// The induction variable that a statement declares: `let v = lit as T;`
/// with an integer literal.
pub open spec fn induction_init(st: Stmt) -> Option<(String, u128)> {
    match st {
        Stmt::Local { name: Some(n), init: Some(Expr::Cast { operand }) } => match *operand {
            Expr::IntLit { value, suffix: _ } => Some((n, value)),
            _ => None,
        },
        _ => None,
    }
}

/// Whether `e` is the integer literal 1, with or without a suffix.
pub open spec fn is_one(e: Expr) -> bool {
    e matches Expr::IntLit { value, .. } && value == 1
}

/// The step by which `st` increments `v`, where it is `v = v + e` or
/// `v += e`.
pub open spec fn increment_step(st: Stmt, v: Seq<char>) -> Option<Expr> {
    match st {
        Stmt::Expr(Expr::Assign { left, right }) => if is_ident(*left, v) {
            match *right {
                Expr::Binary { left: l, op: BinaryOp::Add, right: r } => if is_ident(*l, v) {
                    Some(*r)
                } else {
                    None
                },
                _ => None,
            }
        } else {
            None
        },
        Stmt::Expr(Expr::Binary { left, op: BinaryOp::AddAssign, right }) => if is_ident(
            *left,
            v,
        ) {
            Some(*right)
        } else {
            None
        },
        _ => None,
    }
}

/// Whether `st` is `v = v + 1` or `v += 1`.
pub open spec fn is_increment(st: Stmt, v: Seq<char>) -> bool {
    increment_step(st, v) matches Some(e) && is_one(e)
}

/// Whether `st` increments `v` by something other than 1.
pub open spec fn is_other_increment(st: Stmt, v: Seq<char>) -> bool {
    increment_step(st, v) matches Some(e) && !is_one(e)
}

/// The upper bound that a comparison's right side gives: a recorded variable
/// gives its value, an integer literal itself, another identifier its name.
pub open spec fn upper_bound(vars: Seq<(String, u128)>, e: Expr) -> Option<Bound> {
    match e {
        Expr::IntLit { value, suffix } => Some(Bound::Literal { value, suffix }),
        _ => match simple_ident(e) {
            Some(n) => match var_lookup(vars, n@) {
                Some(x) => Some(Bound::Value(x)),
                None => Some(Bound::Name(n)),
            },
            None => None,
        },
    }
}

/// The positions of the statements of `body` that are no unit increment of `v`.
pub open spec fn kept_indices(body: Seq<Stmt>, v: Seq<char>) -> Seq<usize>
    decreases body.len(),
{
    if body.len() == 0 {
        Seq::empty()
    } else if is_increment(body.last(), v) {
        kept_indices(body.drop_last(), v)
    } else {
        kept_indices(body.drop_last(), v).push((body.len() - 1) as usize)
    }
}

/// The counting loop that `while cond { body }` is, if any: `cond` compares a
/// recorded variable `v` by `<` or `<=` with a bound, and no statement of
/// `body` increments `v` by anything but 1. Gives the variable, its initial
/// value, the bound and whether the range is inclusive. Every statement of
/// the body other than a unit increment of `v` is kept (`kept_indices`),
/// assignments to `v` included.
pub open spec fn loop_shape(vars: Seq<(String, u128)>, cond: Expr, body: Seq<Stmt>) -> Option<
    (String, u128, Bound, bool),
> {
    match cond {
        Expr::Binary { left, op, right } => match simple_ident(*left) {
            Some(v) => match (var_lookup(vars, v@), upper_bound(vars, *right)) {
                (Some(lo), Some(up)) => if (op == BinaryOp::Lt || op == BinaryOp::Le) && (forall|
                    j: int,
                | 0 <= j < body.len() ==> !is_other_increment(#[trigger] body[j], v@)) {
                    Some((v, lo, up, op == BinaryOp::Le))
                } else {
                    None
                },
                _ => None,
            },
            None => None,
        },
        _ => None,
    }
}

/// The loop that replaces `while cond { body }` with the variables `vars`
/// recorded, `None` where it is no counting loop. The replacement keeps
/// every statement of `body` but the unit increments of its variable, in
/// order; other assignments to the variable are kept too.
pub open spec fn lowered(vars: Seq<(String, u128)>, cond: Expr, body: Seq<Stmt>, r: Option<ForLoop>) -> bool {
    match loop_shape(vars, cond, body) {
        Some((v, lo, up, inclusive)) => r matches Some(f) && f.var == v && f.lower == lo
            && f.upper == up && f.inclusive == inclusive && f.kept@ == kept_indices(body, v@),
        None => r is None,
    }
}

/// The identifier of `e`, if it is one plain identifier.
fn simple_ident_of(e: &Expr) -> (r: Option<&String>)
    ensures
        match r {
            Some(n) => simple_ident(*e) == Some(*n),
            None => simple_ident(*e) is None,
        },
{
    match e {
        Expr::Path { qualified, segments } => {
            if !*qualified && segments.len() == 1 {
                Some(&segments[0])
            } else {
                None
            }
        },
        _ => None,
    }
}

/// Whether `e` is the plain identifier `v`.
fn is_ident_of(e: &Expr, v: &String) -> (r: bool)
    ensures
        r == is_ident(*e, v@),
{
    match simple_ident_of(e) {
        Some(n) => n.eq(v),
        None => false,
    }
}

/// Whether `e` is the integer literal 1.
fn is_one_of(e: &Expr) -> (r: bool)
    ensures
        r == is_one(*e),
{
    match e {
        Expr::IntLit { value, suffix: _ } => *value == 1,
        _ => false,
    }
}

/// The step by which `st` increments `v`, if it is such an increment.
fn increment_step_of<'a>(st: &'a Stmt, v: &String) -> (r: Option<&'a Expr>)
    ensures
        match r {
            Some(e) => increment_step(*st, v@) == Some(*e),
            None => increment_step(*st, v@) is None,
        },
{
    match st {
        Stmt::Expr(Expr::Assign { left, right }) => {
            if !is_ident_of(&**left, v) {
                return None;
            }
            match &**right {
                Expr::Binary { left: l, op: BinaryOp::Add, right: r } => {
                    if is_ident_of(&**l, v) {
                        Some(&**r)
                    } else {
                        None
                    }
                },
                _ => None,
            }
        },
        Stmt::Expr(Expr::Binary { left, op: BinaryOp::AddAssign, right }) => {
            if is_ident_of(&**left, v) {
                Some(&**right)
            } else {
                None
            }
        },
        _ => None,
    }
}

impl WhileLoopReplacer {
    /// An engine with no induction variable recorded.
    pub fn new() -> (r: WhileLoopReplacer)
        ensures
            r@.len() == 0,
    {
        WhileLoopReplacer { loop_vars: Vec::new() }
    }

    /// A mark of the variables recorded so far, taken on entering a block.
    pub fn scope_mark(&self) -> (r: usize)
        ensures
            r == self@.len(),
    {
        self.loop_vars.len()
    }

    /// Leaves a block entered at `mark`: the variables recorded inside it
    /// are forgotten, those recorded before it stay.
    pub fn leave_scope(&mut self, mark: usize)
        ensures
            mark <= old(self)@.len() ==> final(self)@ == old(
                self,
            )@.take(mark as int),
            mark > old(self)@.len() ==> final(self)@ == old(self)@,
    {
        self.loop_vars.truncate(mark);
    }

    /// The initial value recorded for `k`.
    pub fn lookup_var(&self, k: &String) -> (r: Option<u128>)
        ensures
            r == var_lookup(self@, k@),
    {
        let mut i: usize = self.loop_vars.len();
        assert(self@.take(i as int) =~= self@);
        while i > 0
            invariant
                i <= self@.len(),
                var_lookup(self@, k@) == var_lookup(self@.take(i as int), k@),
            decreases i,
        {
            let ghost t = self@.take(i as int);
            assert(t.drop_last() =~= self@.take(i - 1));
            assert(t.last() == self@[i - 1]);
            if self.loop_vars[i - 1].0.eq(k) {
                return Some(self.loop_vars[i - 1].1);
            }
            i = i - 1;
        }
        None
    }

    /// Whether `stmt` is `var_name = var_name + 1` or `var_name += 1`.
    pub fn is_increment_stmt(&self, stmt: &Stmt, var_name: &String) -> (r: bool)
        ensures
            r == is_increment(*stmt, var_name@),
    {
        match increment_step_of(stmt, var_name) {
            Some(e) => is_one_of(e),
            None => false,
        }
    }

    /// The upper bound that the right side `e` of a loop condition gives.
    pub fn upper_bound_of(&self, e: &Expr) -> (r: Option<Bound>)
        ensures
            r == upper_bound(self@, *e),
    {
        match e {
            Expr::IntLit { value, suffix } => Some(
                Bound::Literal { value: *value, suffix: suffix.clone() },
            ),
            _ => match simple_ident_of(e) {
                Some(n) => match self.lookup_var(n) {
                    Some(x) => Some(Bound::Value(x)),
                    None => Some(Bound::Name(n.clone())),
                },
                None => None,
            },
        }
    }

    /// The positions of the statements of `body` that are kept in the
    /// lowered loop: all but the unit increments of `v`.
    pub fn kept_statements(&self, body: &Vec<Stmt>, v: &String) -> (r: Vec<usize>)
        ensures
            r@ == kept_indices(body@, v@),
    {
        let mut r: Vec<usize> = Vec::new();
        let mut i: usize = 0;
        while i < body.len()
            invariant
                i <= body@.len(),
                r@ == kept_indices(body@.take(i as int), v@),
            decreases body@.len() - i,
        {
            assert(body@.take(i + 1).drop_last() =~= body@.take(i as int));
            if !self.is_increment_stmt(&body[i], v) {
                r.push(i);
            }
            i = i + 1;
        }
        assert(body@.take(body@.len() as int) =~= body@);
        r
    }

    /// Whether no statement of `body` increments `v` by anything but 1.
    fn no_other_increments(&self, body: &Vec<Stmt>, v: &String) -> (r: bool)
        ensures
            r == (forall|j: int| 0 <= j < body@.len() ==> !is_other_increment(#[trigger] body@[j], v@)),
    {
        let mut i: usize = 0;
        while i < body.len()
            invariant
                i <= body@.len(),
                forall|j: int| 0 <= j < i ==> !is_other_increment(#[trigger] body@[j], v@),
            decreases body@.len() - i,
        {
            match increment_step_of(&body[i], v) {
                Some(e) => {
                    if !is_one_of(e) {
                        return false;
                    }
                },
                None => {},
            }
            i = i + 1;
        }
        true
    }

    /// Matches `while cond { body }` against a counting loop and gives the
    /// range iteration that replaces it; `None` leaves the loop as it is,
    /// which is so for every comparison but `<` and `<=`.
    pub fn match_while(&self, cond: &Expr, body: &Vec<Stmt>) -> (r: Option<ForLoop>)
        ensures
            lowered(self@, *cond, body@, r),
            (cond matches Expr::Binary { op, .. } && op != BinaryOp::Lt && op != BinaryOp::Le)
                ==> r is None,
    {
        match cond {
            Expr::Binary { left, op, right } => {
                let v = match simple_ident_of(&**left) {
                    Some(v) => v,
                    None => {
                        return None;
                    },
                };
                let lo = match self.lookup_var(v) {
                    Some(lo) => lo,
                    None => {
                        return None;
                    },
                };
                let up = match self.upper_bound_of(&**right) {
                    Some(up) => up,
                    None => {
                        return None;
                    },
                };
                if !(*op == BinaryOp::Lt || *op == BinaryOp::Le) {
                    return None;
                }
                if !self.no_other_increments(body, v) {
                    return None;
                }
                let kept = self.kept_statements(body, v);
                Some(
                    ForLoop {
                        var: v.clone(),
                        lower: lo,
                        upper: up,
                        inclusive: *op == BinaryOp::Le,
                        kept,
                    },
                )
            },
            _ => None,
        }
    }

    /// Visits one statement of a block, in order: a declaration of an
    /// induction variable is recorded; a counting loop gives its
    /// replacement; any other statement gives `None` and changes nothing.
    pub fn visit_stmt(&mut self, stmt: &Stmt) -> (r: Option<ForLoop>)
        ensures
            final(self)@ == match induction_init(*stmt) {
                Some(e) => old(self)@.push(e),
                None => old(self)@,
            },
            match *stmt {
                Stmt::Expr(Expr::While { cond, body }) => lowered(old(self)@, *cond, body@, r),
                _ => r is None,
            },
    {
        match stmt {
            Stmt::Local { name: Some(n), init: Some(Expr::Cast { operand }) } => {
                match &**operand {
                    Expr::IntLit { value, suffix: _ } => {
                        self.loop_vars.push((n.clone(), *value));
                    },
                    _ => {},
                }
                None
            },
            Stmt::Expr(Expr::While { cond, body }) => self.match_while(&**cond, body),
            _ => None,
        }
    }
}

} // verus!
