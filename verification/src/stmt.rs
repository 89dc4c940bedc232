//! Building statements: branch chains, case statements and statement
//! lists.
use vstd::prelude::*;
use crate::ast::{
    all_well_formed, blank_signal, chain_open, has_default, well_formed, Arm, Ast, CaseBlock,
    Clause, Signal,
};
use crate::builder::Operand;
use crate::error::ModelError;
use crate::expr::{arms_of, asts, clauses_of, CaseStmt, Case_, IfElseAST, E};
use crate::signal::WireVar;

verus! {

/// A node continued by one more entry of its branch chain. Only an open
/// branch chain can be continued.
pub open spec fn with_arm(a: Ast, arm: Arm) -> Result<Ast, ModelError> {
    match a {
        Ast::Branch(arms) => if chain_open(arms) {
            Ok(Ast::Branch(arms.push(arm)))
        } else {
            Err(ModelError::ChainClosed)
        },
        _ => Err(ModelError::NotBranchChain),
    }
}

/// A node continued by one more clause of its case statement. Only a case
/// statement can be continued, and by a default clause only while it has
/// none.
pub open spec fn with_clause(a: Ast, clause: Clause) -> Result<Ast, ModelError> {
    match a {
        Ast::Case(c) => if clause.label is Null && has_default(c.clauses) {
            Err(ModelError::DuplicateDefault)
        } else {
            Ok(Ast::Case(CaseBlock { clauses: c.clauses.push(clause), ..c }))
        },
        _ => Err(ModelError::NotCaseBlock),
    }
}

/// A statement list whose last statement is continued by one more entry
/// of its branch chain.
pub open spec fn last_with_arm(body: Seq<Ast>, arm: Arm) -> Result<Seq<Ast>, ModelError> {
    if body.len() == 0 {
        Err(ModelError::NotBranchChain)
    } else {
        match with_arm(body.last(), arm) {
            Ok(a) => Ok(body.drop_last().push(a)),
            Err(e) => Err(e),
        }
    }
}

/// A statement list whose last statement is continued by one more clause
/// of its case statement.
pub open spec fn last_with_clause(body: Seq<Ast>, clause: Clause) -> Result<
    Seq<Ast>,
    ModelError,
> {
    if body.len() == 0 {
        Err(ModelError::NotCaseBlock)
    } else {
        match with_clause(body.last(), clause) {
            Ok(a) => Ok(body.drop_last().push(a)),
            Err(e) => Err(e),
        }
    }
}

/// The selector of a case statement on the given expression: the
/// identifier itself, or a blank one where the expression is no
/// identifier.
pub open spec fn selector_of(a: Ast) -> Signal {
    match a {
        Ast::Ident(s) => s,
        _ => blank_signal(),
    }
}

/// Whether a chain can be continued.
pub fn is_open(arms: &Vec<IfElseAST>) -> (r: bool)
    ensures
        r == chain_open(arms_of(arms@)),
{
    arms.len() == 0 || arms[arms.len() - 1].if_
}

/// Whether a case statement holds a default clause.
pub fn holds_default(clauses: &Vec<Case_>) -> (r: bool)
    ensures
        r == has_default(clauses_of(clauses@)),
{
    let mut i: usize = 0;
    while i < clauses.len()
        invariant
            i <= clauses.len(),
            forall|k: int| 0 <= k < i ==> !((#[trigger] clauses_of(clauses@)[k]).label is Null),
        decreases clauses.len() - i,
    {
        if let E::Null = *clauses[i].CaseT {
            assert(clauses_of(clauses@)[i as int].label is Null);
            return true;
        }
        i = i + 1;
    }
    false
}

/// Why a node cannot be continued by one more entry of its branch chain,
/// if it cannot.
pub fn can_take_arm(node: &E, arm: &IfElseAST) -> (r: Option<ModelError>)
    ensures
        match with_arm(node@, arm@) {
            Ok(_) => r is None,
            Err(e) => r == Some(e),
        },
{
    match node {
        E::BL(arms) => {
            if is_open(arms) {
                None
            } else {
                Some(ModelError::ChainClosed)
            }
        },
        _ => Some(ModelError::NotBranchChain),
    }
}

/// Why a node cannot be continued by one more clause of its case
/// statement, if it cannot.
pub fn can_take_clause(node: &E, clause: &Case_) -> (r: Option<ModelError>)
    ensures
        match with_clause(node@, clause@) {
            Ok(_) => r is None,
            Err(e) => r == Some(e),
        },
{
    match node {
        E::CS(c) => {
            let is_default = if let E::Null = *clause.CaseT {
                true
            } else {
                false
            };
            assert(node@ == Ast::Case(c@));
            if is_default && holds_default(&c.Select) {
                Some(ModelError::DuplicateDefault)
            } else {
                None
            }
        },
        _ => Some(ModelError::NotCaseBlock),
    }
}

/// Continues a node by one more entry of its branch chain.
pub fn add_arm(node: Box<E>, arm: IfElseAST) -> (r: Result<Box<E>, ModelError>)
    ensures
        match with_arm(node@, arm@) {
            Ok(a) => r is Ok && r->Ok_0@ == a,
            Err(e) => r is Err && r->Err_0 == e,
        },
{
    match *node {
        E::BL(arms) => {
            if is_open(&arms) {
                let mut arms = arms;
                let ghost before = arms_of(arms@);
                arms.push(arm);
                assert(arms_of(arms@) =~= before.push(arm@));
                Ok(Box::new(E::BL(arms)))
            } else {
                Err(ModelError::ChainClosed)
            }
        },
        _ => Err(ModelError::NotBranchChain),
    }
}

/// Continues a node by one more clause of its case statement.
pub fn add_clause(node: Box<E>, clause: Case_) -> (r: Result<Box<E>, ModelError>)
    ensures
        match with_clause(node@, clause@) {
            Ok(a) => r is Ok && r->Ok_0@ == a,
            Err(e) => r is Err && r->Err_0 == e,
        },
{
    match *node {
        E::CS(c) => {
            let is_default = if let E::Null = *clause.CaseT {
                true
            } else {
                false
            };
            assert(node@ == Ast::Case(c@));
            if is_default && holds_default(&c.Select) {
                Err(ModelError::DuplicateDefault)
            } else {
                let mut c = c;
                let ghost before = c@;
                c.Select.push(clause);
                assert(clauses_of(c.Select@) =~= before.clauses.push(clause@));
                assert(c@ == (CaseBlock { clauses: before.clauses.push(clause@), ..before }));
                Ok(Box::new(E::CS(c)))
            }
        },
        _ => Err(ModelError::NotCaseBlock),
    }
}

/// Continues the last statement of a list by one more entry of its branch
/// chain. Where that cannot be done the list stays as it is.
pub fn add_arm_to_last(body: &mut Vec<Box<E>>, arm: IfElseAST) -> (r: Result<(), ModelError>)
    ensures
        match last_with_arm(asts(old(body)@), arm@) {
            Ok(b) => r is Ok && asts(final(body)@) == b,
            Err(e) => r is Err && r->Err_0 == e && asts(final(body)@) == asts(old(body)@),
        },
{
    let n = body.len();
    if n == 0 {
        return Err(ModelError::NotBranchChain);
    }
    let ghost start = asts(body@);
    assert(start.last() == body@[n - 1]@);
    let refusal = can_take_arm(&body[n - 1], &arm);
    if let Some(e) = refusal {
        return Err(e);
    }
    let last = body.pop().unwrap();
    assert(asts(body@) =~= start.drop_last());
    let ghost rest = asts(body@);
    match add_arm(last, arm) {
        Ok(next) => {
            body.push(next);
            assert(asts(body@) =~= rest.push(next@));
            Ok(())
        },
        Err(e) => Err(e),
    }
}

/// Continues the last statement of a list by one more clause of its case
/// statement. Where that cannot be done the list stays as it is.
pub fn add_clause_to_last(body: &mut Vec<Box<E>>, clause: Case_) -> (r: Result<(), ModelError>)
    ensures
        match last_with_clause(asts(old(body)@), clause@) {
            Ok(b) => r is Ok && asts(final(body)@) == b,
            Err(e) => r is Err && r->Err_0 == e && asts(final(body)@) == asts(old(body)@),
        },
{
    let n = body.len();
    if n == 0 {
        return Err(ModelError::NotCaseBlock);
    }
    let ghost start = asts(body@);
    assert(start.last() == body@[n - 1]@);
    let refusal = can_take_clause(&body[n - 1], &clause);
    if let Some(e) = refusal {
        return Err(e);
    }
    let last = body.pop().unwrap();
    assert(asts(body@) =~= start.drop_last());
    let ghost rest = asts(body@);
    match add_clause(last, clause) {
        Ok(next) => {
            body.push(next);
            assert(asts(body@) =~= rest.push(next@));
            Ok(())
        },
        Err(e) => Err(e),
    }
}

/// A branch chain of one entry: `if (c)` with the body `s`.
pub fn If<T: Operand>(c: T, s: Vec<Box<E>>) -> (r: Box<E>)
    ensures
        r@ == Ast::Branch(seq![Arm { is_if: true, cond: c.ast(), body: asts(s@) }]),
{
    let mut arms: Vec<IfElseAST> = Vec::new();
    arms.push(IfElseAST { if_: true, cond: c.expr(), stmt: s });
    assert(arms_of(arms@) =~= seq![Arm { is_if: true, cond: c.ast(), body: asts(s@) }]);
    Box::new(E::BL(arms))
}

/// Continuing a branch chain.
pub trait Ifset: Sized {
    /// The chain with one more `else if`.
    fn Else_If<T: Operand>(self, c: T, s: Vec<Box<E>>) -> Result<Box<E>, ModelError>;

    /// The chain closed by an `else`.
    fn Else(self, s: Vec<Box<E>>) -> Result<Box<E>, ModelError>;
}

impl Ifset for Box<E> {
    /// The chain with one more `else if`. Fails where `self` is no branch
    /// chain, or one that an `else` has closed.
    fn Else_If<T: Operand>(self, c: T, s: Vec<Box<E>>) -> (r: Result<Box<E>, ModelError>)
        ensures
            match with_arm(self@, Arm { is_if: true, cond: c.ast(), body: asts(s@) }) {
                Ok(a) => r is Ok && r->Ok_0@ == a,
                Err(e) => r is Err && r->Err_0 == e,
            },
    {
        add_arm(self, IfElseAST { if_: true, cond: c.expr(), stmt: s })
    }

    /// The chain closed by an `else`. Fails where `self` is no branch
    /// chain, or one that an `else` has closed already.
    fn Else(self, s: Vec<Box<E>>) -> (r: Result<Box<E>, ModelError>)
        ensures
            match with_arm(self@, Arm { is_if: false, cond: Ast::Null, body: asts(s@) }) {
                Ok(a) => r is Ok && r->Ok_0@ == a,
                Err(e) => r is Err && r->Err_0 == e,
            },
    {
        add_arm(self, IfElseAST { if_: false, cond: Box::new(E::Null), stmt: s })
    }
}

/// A case statement without clauses that selects on the given identifier.
pub fn Case<T: Operand>(sel: T) -> (r: Box<E>)
    ensures
        r@ == Ast::Case(CaseBlock { selector: selector_of(sel.ast()), clauses: Seq::empty() }),
{
    let e = sel.expr();
    let var = match *e {
        E::Ldc(wr) => wr,
        _ => WireVar::new(),
    };
    let c = CaseStmt { CaseVar: var, Select: Vec::new() };
    assert(clauses_of(c.Select@) =~= Seq::empty());
    assert(c@ == (CaseBlock { selector: selector_of(sel.ast()), clauses: Seq::empty() }));
    Box::new(E::CS(c))
}

/// Continuing a case statement.
pub trait Caseset: Sized {
    /// The case statement with one more clause.
    fn S<T: Operand>(self, c: T, s: Vec<Box<E>>) -> Result<Box<E>, ModelError>;

    /// The case statement with its default clause.
    fn Default(self, s: Vec<Box<E>>) -> Result<Box<E>, ModelError>;
}

impl Caseset for Box<E> {
    /// The case statement with one more clause, labelled `c`. Fails where
    /// `self` is no case statement.
    fn S<T: Operand>(self, c: T, s: Vec<Box<E>>) -> (r: Result<Box<E>, ModelError>)
        ensures
            match with_clause(self@, Clause { label: c.ast(), body: asts(s@) }) {
                Ok(a) => r is Ok && r->Ok_0@ == a,
                Err(e) => r is Err && r->Err_0 == e,
            },
    {
        add_clause(self, Case_ { CaseT: c.expr(), CaseS: s })
    }

    /// The case statement with its default clause. Fails where `self` is
    /// no case statement, or has a default clause already.
    fn Default(self, s: Vec<Box<E>>) -> (r: Result<Box<E>, ModelError>)
        ensures
            match with_clause(self@, Clause { label: Ast::Null, body: asts(s@) }) {
                Ok(a) => r is Ok && r->Ok_0@ == a,
                Err(e) => r is Err && r->Err_0 == e,
            },
    {
        add_clause(self, Case_ { CaseT: Box::new(E::Null), CaseS: s })
    }
}

impl CaseStmt {
    /// Sets the identifier that the case statement selects on.
    pub fn SetCaseV(&mut self, v: WireVar)
        ensures
            final(self)@ == (CaseBlock { selector: v@, ..old(self)@ }),
    {
        self.CaseVar = v;
    }

    /// Adds a clause, whatever the statement holds already.
    pub fn SetCaseS<T: Operand>(&mut self, cond: T, stmt: Vec<Box<E>>)
        ensures
            final(self)@ == (CaseBlock {
                clauses: old(self)@.clauses.push(Clause { label: cond.ast(), body: asts(stmt@) }),
                ..old(self)@
            }),
    {
        let ghost before = clauses_of(self.Select@);
        let c = Case_ { CaseT: cond.expr(), CaseS: stmt };
        self.Select.push(c);
        assert(clauses_of(self.Select@) =~= before.push(c@));
    }

    /// The identifier that the case statement selects on.
    pub fn getCaseV(&self) -> (r: WireVar)
        ensures
            r@ == self@.selector,
    {
        self.CaseVar.clone()
    }

    /// The clauses of the case statement.
    pub fn getSelect(&self) -> (r: Vec<Case_>)
        ensures
            clauses_of(r@) == self@.clauses,
    {
        crate::expr::clone_clauses(&self.Select)
    }
}

impl IfElseAST {
    /// Whether the entry is an `if` or `else if`.
    pub fn getIfFlag(&self) -> (r: bool)
        ensures
            r == self@.is_if,
    {
        self.if_
    }

    /// The condition of the entry.
    pub fn getTerms(&self) -> (r: Box<E>)
        ensures
            r@ == self@.cond,
    {
        Box::new(crate::expr::clone_expr(&self.cond))
    }

    /// The body of the entry.
    pub fn getStatement(&self) -> (r: Vec<Box<E>>)
        ensures
            asts(r@) == self@.body,
    {
        crate::expr::clone_list(&self.stmt)
    }
}

/// A statement list of one statement.
pub fn Form<T: Operand>(formu: T) -> (r: Vec<Box<E>>)
    ensures
        asts(r@) == seq![formu.ast()],
{
    let mut tmp: Vec<Box<E>> = Vec::new();
    tmp.push(formu.expr());
    assert(asts(tmp@) =~= seq![formu.ast()]);
    tmp
}

/// Continuing a statement list.
pub trait AddForm<T> where T: Operand {
    /// The list with one more statement at its end.
    fn Form(self, formu: T) -> Vec<Box<E>>;
}

impl<T: Operand> AddForm<T> for Vec<Box<E>> {
    fn Form(self, formu: T) -> (r: Vec<Box<E>>)
        ensures
            asts(r@) == asts(self@).push(formu.ast()),
    {
        let mut tmp = self;
        tmp.push(formu.expr());
        assert(asts(tmp@) =~= asts(self@).push(formu.ast()));
        tmp
    }
}

/// Continuing a well-formed branch chain by a well-formed entry gives a
/// well-formed chain: the `else`, if there is one, stays the single last
/// entry.
pub proof fn lemma_with_arm_well_formed(a: Ast, arm: Arm)
    requires
        well_formed(a),
        well_formed(arm.cond),
        all_well_formed(arm.body),
        with_arm(a, arm) is Ok,
    ensures
        well_formed(with_arm(a, arm)->Ok_0),
{
    let arms = a->Branch_0;
    let next = arms.push(arm);
    assert forall|i: int| 0 <= i < next.len() - 1 implies (#[trigger] next[i]).is_if by {
        if i < arms.len() - 1 {
            assert(next[i] == arms[i]);
        } else {
            assert(next[i] == arms.last());
        }
    }
    assert forall|i: int| 0 <= i < next.len() implies well_formed((#[trigger] next[i]).cond)
        && all_well_formed(next[i].body) by {
        if i < arms.len() {
            assert(next[i] == arms[i]);
        }
    }
}

/// Continuing a well-formed case statement by a well-formed clause gives a
/// well-formed case statement: it holds at most one default clause.
pub proof fn lemma_with_clause_well_formed(a: Ast, clause: Clause)
    requires
        well_formed(a),
        well_formed(clause.label),
        all_well_formed(clause.body),
        with_clause(a, clause) is Ok,
    ensures
        well_formed(with_clause(a, clause)->Ok_0),
{
    let c = a->Case_0;
    let next = c.clauses.push(clause);
    assert forall|i: int, j: int|
        0 <= i < next.len() && 0 <= j < next.len() && (#[trigger] next[i]).label is Null && (
        #[trigger] next[j]).label is Null implies i == j by {
        if i < c.clauses.len() && j < c.clauses.len() {
            assert(next[i] == c.clauses[i]);
            assert(next[j] == c.clauses[j]);
        } else if i < c.clauses.len() {
            assert(next[i] == c.clauses[i]);
            assert(has_default(c.clauses));
        } else if j < c.clauses.len() {
            assert(next[j] == c.clauses[j]);
            assert(has_default(c.clauses));
        }
    }
    assert forall|i: int| 0 <= i < next.len() implies well_formed((#[trigger] next[i]).label)
        && all_well_formed(next[i].body) by {
        if i < c.clauses.len() {
            assert(next[i] == c.clauses[i]);
        }
    }
}

/// Continuing the last statement of a well-formed list by a well-formed
/// entry gives a well-formed list.
pub proof fn lemma_last_with_arm_well_formed(body: Seq<Ast>, arm: Arm)
    requires
        all_well_formed(body),
        well_formed(arm.cond),
        all_well_formed(arm.body),
        last_with_arm(body, arm) is Ok,
    ensures
        all_well_formed(last_with_arm(body, arm)->Ok_0),
{
    let next = last_with_arm(body, arm)->Ok_0;
    lemma_with_arm_well_formed(body.last(), arm);
    assert forall|i: int| 0 <= i < next.len() implies well_formed(#[trigger] next[i]) by {
        if i < body.len() - 1 {
            assert(next[i] == body[i]);
        }
    }
}

/// Continuing the last statement of a well-formed list by a well-formed
/// clause gives a well-formed list.
pub proof fn lemma_last_with_clause_well_formed(body: Seq<Ast>, clause: Clause)
    requires
        all_well_formed(body),
        well_formed(clause.label),
        all_well_formed(clause.body),
        last_with_clause(body, clause) is Ok,
    ensures
        all_well_formed(last_with_clause(body, clause)->Ok_0),
{
    let next = last_with_clause(body, clause)->Ok_0;
    lemma_with_clause_well_formed(body.last(), clause);
    assert forall|i: int| 0 <= i < next.len() implies well_formed(#[trigger] next[i]) by {
        if i < body.len() - 1 {
            assert(next[i] == body[i]);
        }
    }
}

/// A branch chain of one entry with a well-formed condition and body is
/// well formed.
pub proof fn lemma_if_well_formed(cond: Ast, body: Seq<Ast>)
    requires
        well_formed(cond),
        all_well_formed(body),
    ensures
        well_formed(Ast::Branch(seq![Arm { is_if: true, cond: cond, body: body }])),
{
}

} // verus!
