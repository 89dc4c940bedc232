//! Expressions and statements as executable values.
use vstd::prelude::*;
use crate::ast::{Arm, Ast, BinOp, CaseBlock, Clause, RedOp};
use crate::signal::WireVar;

verus! {

/// One entry of a branch chain.
#[derive(Debug)]
pub struct IfElseAST {
    pub(crate) if_: bool,
    pub(crate) cond: Box<E>,
    pub(crate) stmt: Vec<Box<E>>,
}

/// A case statement.
#[derive(Debug)]
pub struct CaseStmt {
    pub(crate) CaseVar: WireVar,
    pub(crate) Select: Vec<Case_>,
}

/// One clause of a case statement.
#[derive(Debug)]
pub struct Case_ {
    pub CaseT: Box<E>,
    pub CaseS: Vec<Box<E>>,
}

/// An expression or statement.
#[derive(Debug)]
pub enum E {
    Null,
    Ldc(WireVar),
    Num(i32),
    No(Box<E>),
    Red(RedOp, Box<E>),
    Bin(BinOp, Box<E>, Box<E>),
    PL(Box<E>, Box<E>, Box<E>),
    SB(Box<E>, Box<E>),
    CS(CaseStmt),
    BL(Vec<IfElseAST>),
    Func(Box<E>, Vec<Box<E>>),
    MEM(Box<E>, Box<E>),
    MBT(Box<E>, Box<E>, Box<E>),
    Node(String),
}

/// The model of an expression or statement.
pub open spec fn ast_of(e: E) -> Ast
    decreases e,
{
    match e {
        E::Null => Ast::Null,
        E::Ldc(w) => Ast::Ident(w@),
        E::Num(i) => Ast::Const(i as int),
        E::No(x) => Ast::Not(Box::new(ast_of(*x))),
        E::Red(op, x) => Ast::Reduce(op, Box::new(ast_of(*x))),
        E::Bin(op, l, r) => Ast::Binary(op, Box::new(ast_of(*l)), Box::new(ast_of(*r))),
        E::PL(c, t, f) => Ast::Ternary(
            Box::new(ast_of(*c)),
            Box::new(ast_of(*t)),
            Box::new(ast_of(*f)),
        ),
        E::SB(l, r) => Ast::Assign(Box::new(ast_of(*l)), Box::new(ast_of(*r))),
        E::CS(c) => Ast::Case(case_of(c)),
        E::BL(arms) => Ast::Branch(arms_of(arms@)),
        E::Func(f, args) => Ast::Call(Box::new(ast_of(*f)), asts(args@)),
        E::MEM(b, a) => Ast::Index(Box::new(ast_of(*b)), Box::new(ast_of(*a))),
        E::MBT(b, h, l) => Ast::Slice(
            Box::new(ast_of(*b)),
            Box::new(ast_of(*h)),
            Box::new(ast_of(*l)),
        ),
        E::Node(s) => Ast::Tag(s@),
    }
}

/// The models of a list of expressions or statements.
pub open spec fn asts(items: Seq<Box<E>>) -> Seq<Ast>
    decreases items,
{
    Seq::new(
        items.len(),
        |i: int|
            if 0 <= i < items.len() {
                ast_of(*items[i])
            } else {
                Ast::Null
            },
    )
}

/// The model of one entry of a branch chain.
pub open(crate) spec fn arm_of(a: IfElseAST) -> Arm
    decreases a,
{
    Arm { is_if: a.if_, cond: ast_of(*a.cond), body: asts(a.stmt@) }
}

/// The models of the entries of a branch chain.
pub open spec fn arms_of(arms: Seq<IfElseAST>) -> Seq<Arm>
    decreases arms,
{
    Seq::new(
        arms.len(),
        |i: int|
            if 0 <= i < arms.len() {
                arm_of(arms[i])
            } else {
                Arm { is_if: true, cond: Ast::Null, body: Seq::empty() }
            },
    )
}

/// The model of a case statement.
pub open(crate) spec fn case_of(c: CaseStmt) -> CaseBlock
    decreases c,
{
    CaseBlock { selector: c.CaseVar@, clauses: clauses_of(c.Select@) }
}

/// The model of one clause of a case statement.
pub open spec fn clause_of(c: Case_) -> Clause
    decreases c,
{
    Clause { label: ast_of(*c.CaseT), body: asts(c.CaseS@) }
}

/// The models of the clauses of a case statement.
pub open spec fn clauses_of(clauses: Seq<Case_>) -> Seq<Clause>
    decreases clauses,
{
    Seq::new(
        clauses.len(),
        |i: int|
            if 0 <= i < clauses.len() {
                clause_of(clauses[i])
            } else {
                Clause { label: Ast::Null, body: Seq::empty() }
            },
    )
}

impl View for E {
    type V = Ast;

    open spec fn view(&self) -> Ast {
        ast_of(*self)
    }
}

impl View for IfElseAST {
    type V = Arm;

    open spec fn view(&self) -> Arm {
        arm_of(*self)
    }
}

impl View for CaseStmt {
    type V = CaseBlock;

    open spec fn view(&self) -> CaseBlock {
        case_of(*self)
    }
}

impl View for Case_ {
    type V = Clause;

    open spec fn view(&self) -> Clause {
        clause_of(*self)
    }
}

/// A copy of a list of expressions or statements.
pub fn clone_list(items: &Vec<Box<E>>) -> (r: Vec<Box<E>>)
    ensures
        asts(r@) == asts(items@),
    decreases items,
{
    let mut out: Vec<Box<E>> = Vec::new();
    let mut i: usize = 0;
    while i < items.len()
        invariant
            i <= items.len(),
            out@.len() == i,
            forall|j: int| 0 <= j < i ==> out@[j]@ == items@[j]@,
        decreases items.len() - i,
    {
        let c = clone_expr(&items[i]);
        out.push(Box::new(c));
        i = i + 1;
    }
    assert(asts(out@) =~= asts(items@));
    out
}

/// A copy of the entries of a branch chain.
pub fn clone_arms(arms: &Vec<IfElseAST>) -> (r: Vec<IfElseAST>)
    ensures
        arms_of(r@) == arms_of(arms@),
    decreases arms,
{
    let mut out: Vec<IfElseAST> = Vec::new();
    let mut i: usize = 0;
    while i < arms.len()
        invariant
            i <= arms.len(),
            out@.len() == i,
            forall|j: int| 0 <= j < i ==> out@[j]@ == arms@[j]@,
        decreases arms.len() - i,
    {
        let a = &arms[i];
        let c = clone_expr(&a.cond);
        let s = clone_list(&a.stmt);
        out.push(IfElseAST { if_: a.if_, cond: Box::new(c), stmt: s });
        i = i + 1;
    }
    assert(arms_of(out@) =~= arms_of(arms@));
    out
}

/// A copy of the clauses of a case statement.
pub fn clone_clauses(clauses: &Vec<Case_>) -> (r: Vec<Case_>)
    ensures
        clauses_of(r@) == clauses_of(clauses@),
    decreases clauses,
{
    let mut out: Vec<Case_> = Vec::new();
    let mut i: usize = 0;
    while i < clauses.len()
        invariant
            i <= clauses.len(),
            out@.len() == i,
            forall|j: int| 0 <= j < i ==> out@[j]@ == clauses@[j]@,
        decreases clauses.len() - i,
    {
        let a = &clauses[i];
        let c = clone_expr(&a.CaseT);
        let s = clone_list(&a.CaseS);
        out.push(Case_ { CaseT: Box::new(c), CaseS: s });
        i = i + 1;
    }
    assert(clauses_of(out@) =~= clauses_of(clauses@));
    out
}

/// A copy of an expression or statement.
pub fn clone_expr(e: &E) -> (r: E)
    ensures
        r@ == e@,
    decreases e,
{
    match e {
        E::Null => E::Null,
        E::Ldc(w) => E::Ldc(w.clone()),
        E::Num(i) => E::Num(*i),
        E::No(x) => E::No(Box::new(clone_expr(x))),
        E::Red(op, x) => E::Red(*op, Box::new(clone_expr(x))),
        E::Bin(op, l, r) => E::Bin(*op, Box::new(clone_expr(l)), Box::new(clone_expr(r))),
        E::PL(c, t, f) => E::PL(
            Box::new(clone_expr(c)),
            Box::new(clone_expr(t)),
            Box::new(clone_expr(f)),
        ),
        E::SB(l, r) => E::SB(Box::new(clone_expr(l)), Box::new(clone_expr(r))),
        E::CS(c) => {
            let copy = CaseStmt { CaseVar: c.CaseVar.clone(), Select: clone_clauses(&c.Select) };
            assert(case_of(copy) == case_of(*c));
            E::CS(copy)
        },
        E::BL(arms) => E::BL(clone_arms(arms)),
        E::Func(f, args) => E::Func(Box::new(clone_expr(f)), clone_list(args)),
        E::MEM(b, a) => E::MEM(Box::new(clone_expr(b)), Box::new(clone_expr(a))),
        E::MBT(b, h, l) => E::MBT(
            Box::new(clone_expr(b)),
            Box::new(clone_expr(h)),
            Box::new(clone_expr(l)),
        ),
        E::Node(s) => E::Node(s.clone()),
    }
}

impl Clone for E {
    fn clone(&self) -> (r: Self)
        ensures
            r@ == self@,
    {
        clone_expr(self)
    }
}

impl Clone for IfElseAST {
    fn clone(&self) -> (r: Self)
        ensures
            r@ == self@,
    {
        IfElseAST {
            if_: self.if_,
            cond: Box::new(clone_expr(&self.cond)),
            stmt: clone_list(&self.stmt),
        }
    }
}

impl Clone for CaseStmt {
    fn clone(&self) -> (r: Self)
        ensures
            r@ == self@,
    {
        CaseStmt { CaseVar: self.CaseVar.clone(), Select: clone_clauses(&self.Select) }
    }
}

impl Clone for Case_ {
    fn clone(&self) -> (r: Self)
        ensures
            r@ == self@,
    {
        Case_ { CaseT: Box::new(clone_expr(&self.CaseT)), CaseS: clone_list(&self.CaseS) }
    }
}

} // verus!
