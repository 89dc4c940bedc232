//! Continuous assignments, clocked processes and callable functions.
use vstd::prelude::*;
use crate::ast::{blank_signal, Arm, Ast, CaseBlock, Clause, IOType, Signal};
use crate::builder::Operand;
use crate::error::ModelError;
use crate::expr::{asts, clone_expr, clone_list, IfElseAST, Case_, E};
use crate::render::{body_text, emit, emit_all, is_blocking, text};
use crate::signal::{signals, WireVar};
use crate::stmt::{
    add_arm_to_last, add_clause_to_last, last_with_arm, last_with_clause, selector_of, Case, If,
};
use crate::text::{
    concat, decimal, decimal_text, join, lemma_concat_push, lemma_join_push, same_text,
};

verus! {

/// A continuous assignment: the target takes the value at all times.
pub struct Connection {
    pub target: Ast,
    pub value: Ast,
}

/// One trigger of a clocked process: a signal, and which of its edges
/// counts.
pub struct Trigger {
    pub signal: Signal,
    /// The rising edge counts; otherwise the falling one.
    pub rising: bool,
}

/// A clocked process: the triggers in the order in which they were given,
/// the name of its assignment style, and its statements.
pub struct Process {
    pub name: Seq<char>,
    pub body: Seq<Ast>,
    pub triggers: Seq<Trigger>,
}

/// A callable function: the identifier that names it and carries its
/// result, its inputs, and its statements.
pub struct Callable {
    pub top: Signal,
    pub inputs: Seq<Signal>,
    pub body: Seq<Ast>,
}

/// The text of a continuous assignment.
pub open spec fn assign_text(c: Connection) -> Seq<char> {
    "assign "@ + text(c.target, false, false, 0) + " = "@ + text(c.value, false, false, 0) + ";"@
}

/// The text of the continuous assignments of a unit, one per line.
pub open spec fn assigns_text(list: Seq<Connection>) -> Seq<char> {
    concat(list.map_values(|c: Connection| "    "@ + assign_text(c) + "\n"@))
}

/// The text of one trigger: the edge, then the signal.
pub open spec fn trigger_text(t: Trigger) -> Seq<char> {
    (if t.rising {
        "posedge "@
    } else {
        "negedge "@
    }) + t.signal.name
}

/// The texts of the triggers of a process, in the order in which the
/// triggers were given.
pub open spec fn edge_texts(p: Process) -> Seq<Seq<char>> {
    p.triggers.map_values(|t: Trigger| trigger_text(t))
}

/// The signals of the triggers of one kind, rising or falling, in the
/// order in which the triggers were given.
pub open spec fn edges_of(triggers: Seq<Trigger>, rising: bool) -> Seq<Signal>
    decreases triggers.len(),
{
    if triggers.len() == 0 {
        Seq::empty()
    } else if triggers.last().rising == rising {
        edges_of(triggers.drop_last(), rising).push(triggers.last().signal)
    } else {
        edges_of(triggers.drop_last(), rising)
    }
}

/// The text of a clocked process: the trigger list joined by `or`, the
/// statements two levels in, and the closing line.
pub open spec fn process_text(p: Process) -> Seq<char> {
    "    always @("@ + join(edge_texts(p), " or "@) + ") begin"@ + "\n"@ + body_text(
        p.body,
        is_blocking(p.name),
        2,
    ) + "\n"@ + "    end"@
}

/// The text of the clocked processes of a unit, in their order.
pub open spec fn processes_text(list: Seq<Process>) -> Seq<char> {
    concat(list.map_values(|p: Process| process_text(p)))
}

/// The declaration of one input of a function.
pub open spec fn input_text(s: Signal) -> Seq<char> {
    if s.width > 0 {
        "        input ["@ + decimal(s.width - 1) + ":0]"@ + s.name
    } else {
        "        input "@ + s.name
    }
}

/// The text of a callable function.
pub open spec fn callable_text(f: Callable) -> Seq<char> {
    "\n    function ["@ + decimal(f.top.width - 1) + ":0] "@ + f.top.name + "(\n"@ + join(
        f.inputs.map_values(|s: Signal| input_text(s)),
        ",\n"@,
    ) + "\n    );\n"@ + body_text(f.body, true, 2) + "    endfunction\n\n"@
}

/// The text of the callable functions of a unit, in their order.
pub open spec fn callables_text(list: Seq<Callable>) -> Seq<char> {
    concat(list.map_values(|f: Callable| callable_text(f)))
}

/// A process with one more rising edge, where the expression is an
/// identifier; the process as it is where it is not.
pub open spec fn with_posedge(p: Process, edge: Ast) -> Process {
    match edge {
        Ast::Ident(s) => Process {
            triggers: p.triggers.push(Trigger { signal: s, rising: true }),
            ..p
        },
        _ => p,
    }
}

/// A process with one more falling edge, where the expression is an
/// identifier; the process as it is where it is not.
pub open spec fn with_negedge(p: Process, edge: Ast) -> Process {
    match edge {
        Ast::Ident(s) => Process {
            triggers: p.triggers.push(Trigger { signal: s, rising: false }),
            ..p
        },
        _ => p,
    }
}

/// A process without triggers and statements, with procedural
/// assignments.
pub open spec fn empty_process() -> Process {
    Process { name: "block"@, body: Seq::empty(), triggers: Seq::empty() }
}

/// A continuous assignment.
#[derive(Debug)]
pub struct Assign {
    pub(crate) lhs: Box<E>,
    pub(crate) rhs: Box<E>,
}

impl View for Assign {
    type V = Connection;

    open(crate) spec fn view(&self) -> Connection {
        Connection { target: self.lhs@, value: self.rhs@ }
    }
}

impl Clone for Assign {
    fn clone(&self) -> (r: Self)
        ensures
            r@ == self@,
    {
        Assign { lhs: Box::new(clone_expr(&self.lhs)), rhs: Box::new(clone_expr(&self.rhs)) }
    }
}

/// The connections that a list of assignments stands for.
pub open spec fn connections(list: Seq<Assign>) -> Seq<Connection> {
    list.map_values(|a: Assign| a@)
}

impl Assign {
    /// An assignment between two blank identifiers.
    pub fn new() -> (r: Assign)
        ensures
            r@ == (Connection {
                target: Ast::Ident(blank_signal()),
                value: Ast::Ident(blank_signal()),
            }),
    {
        Assign {
            lhs: Box::new(E::Ldc(WireVar::new())),
            rhs: Box::new(E::Ldc(WireVar::new())),
        }
    }

    /// Sets the target.
    pub fn lhs<T: Operand>(&mut self, lhs: T) -> (r: Assign)
        ensures
            final(self)@ == (Connection { target: lhs.ast(), ..old(self)@ }),
            r@ == final(self)@,
    {
        self.lhs = lhs.expr();
        self.clone()
    }

    /// Sets the value.
    pub fn rhs<T: Operand>(&mut self, rhs: T) -> (r: Assign)
        ensures
            final(self)@ == (Connection { value: rhs.ast(), ..old(self)@ }),
            r@ == final(self)@,
    {
        self.rhs = rhs.expr();
        self.clone()
    }

    /// The text of the assignment.
    pub fn print(&self) -> (r: String)
        ensures
            r@ == assign_text(self@),
    {
        let mut st = String::from_str("assign ");
        let l = emit(&self.lhs, false, false, 0);
        st.append(l.as_str());
        st.append(" = ");
        let v = emit(&self.rhs, false, false, 0);
        st.append(v.as_str());
        st.append(";");
        st
    }

    /// The text of a list of assignments, one per line.
    pub fn print_list(list: &[Assign]) -> (r: String)
        ensures
            r@ == assigns_text(connections(list@)),
    {
        let mut st = String::new();
        let ghost lines = connections(list@).map_values(
            |c: Connection| "    "@ + assign_text(c) + "\n"@,
        );
        let mut i: usize = 0;
        while i < list.len()
            invariant
                i <= list.len(),
                lines == connections(list@).map_values(
                    |c: Connection| "    "@ + assign_text(c) + "\n"@,
                ),
                st@ == concat(lines.take(i as int)),
            decreases list.len() - i,
        {
            proof {
                lemma_concat_push(lines.take(i as int), lines[i as int]);
                assert(lines.take(i as int).push(lines[i as int]) =~= lines.take(i + 1));
            }
            let mut line = String::from_str("    ");
            let a = list[i].print();
            line.append(a.as_str());
            line.append("\n");
            st.append(line.as_str());
            i = i + 1;
        }
        assert(lines.take(i as int) =~= lines);
        st
    }
}

/// Making a continuous assignment from its target.
pub trait SetEqual<T> where T: Operand {
    /// The assignment of `rhs` to `self`.
    fn _e(&self, rhs: T) -> Assign;

    /// The assignment of `rhs` to `self`.
    fn _ve(&self, rhs: T) -> Assign;
}

impl<T: Operand> SetEqual<T> for Box<E> {
    fn _e(&self, rhs: T) -> (r: Assign)
        ensures
            r@ == (Connection { target: self@, value: rhs.ast() }),
    {
        Assign { lhs: Box::new(clone_expr(self)), rhs: rhs.expr() }
    }

    fn _ve(&self, rhs: T) -> (r: Assign)
        ensures
            r@ == (Connection { target: self@, value: rhs.ast() }),
    {
        Assign { lhs: Box::new(clone_expr(self)), rhs: rhs.expr() }
    }
}

/// One trigger of a clocked process.
#[derive(Debug)]
pub struct Edge {
    pub(crate) wire: WireVar,
    pub(crate) rising: bool,
}

impl View for Edge {
    type V = Trigger;

    open(crate) spec fn view(&self) -> Trigger {
        Trigger { signal: self.wire@, rising: self.rising }
    }
}

impl Clone for Edge {
    fn clone(&self) -> (r: Self)
        ensures
            r@ == self@,
    {
        Edge { wire: self.wire.clone(), rising: self.rising }
    }
}

/// The triggers that a list of trigger values stands for.
pub open spec fn triggers(list: Seq<Edge>) -> Seq<Trigger> {
    list.map_values(|e: Edge| e@)
}

/// A clocked process.
#[derive(Debug)]
pub struct Always {
    pub(crate) name: String,
    pub(crate) stmt: Vec<Box<E>>,
    pub(crate) edges: Vec<Edge>,
}

impl View for Always {
    type V = Process;

    open(crate) spec fn view(&self) -> Process {
        Process { name: self.name@, body: asts(self.stmt@), triggers: triggers(self.edges@) }
    }
}

impl Clone for Always {
    fn clone(&self) -> (r: Self)
        ensures
            r@ == self@,
    {
        let edges = self.edges.clone();
        assert(triggers(edges@) =~= triggers(self.edges@));
        Always { name: self.name.clone(), stmt: clone_list(&self.stmt), edges: edges }
    }
}

/// The processes that a list of process values stands for.
pub open spec fn process_views(list: Seq<Always>) -> Seq<Process> {
    list.map_values(|a: Always| a@)
}

/// A process that one rising edge of the given identifier triggers.
pub fn posedge<T: Operand>(edge: T) -> (r: Always)
    ensures
        r@ == with_posedge(empty_process(), edge.ast()),
{
    let mut tmp = Always::new();
    tmp.posedge(edge)
}

/// A process that one falling edge of the given identifier triggers.
pub fn negedge<T: Operand>(edge: T) -> (r: Always)
    ensures
        r@ == with_negedge(empty_process(), edge.ast()),
{
    let mut tmp = Always::new();
    tmp.negedge(edge)
}

/// A process without triggers.
pub fn onedge() -> (r: Always)
    ensures
        r@ == empty_process(),
{
    Always::new()
}

impl Always {
    /// A process without triggers and statements.
    pub fn new() -> (r: Always)
        ensures
            r@ == empty_process(),
    {
        let r = Always {
            name: String::from_str("block"),
            stmt: Vec::new(),
            edges: Vec::new(),
        };
        assert(asts(r.stmt@) =~= Seq::empty());
        assert(triggers(r.edges@) =~= Seq::empty());
        r
    }

    /// The name of the assignment style.
    pub fn blockout(&self) -> (r: String)
        ensures
            r@ == self@.name,
    {
        self.name.clone()
    }

    /// Makes the assignments of the process procedural (`=`).
    pub fn block(&mut self) -> (r: Always)
        ensures
            final(self)@ == (Process { name: "block"@, ..old(self)@ }),
            r@ == final(self)@,
    {
        self.name = String::from_str("block");
        self.clone()
    }

    /// Makes the assignments of the process clocked (`<=`).
    pub fn non(&mut self) -> (r: Always)
        ensures
            final(self)@ == (Process { name: "Non"@, ..old(self)@ }),
            r@ == final(self)@,
    {
        self.name = String::from_str("Non");
        self.clone()
    }

    /// Adds a rising edge of the given identifier to the triggers.
    pub fn posedge<T: Operand>(&mut self, edge: T) -> (r: Always)
        ensures
            final(self)@ == with_posedge(old(self)@, edge.ast()),
            r@ == final(self)@,
    {
        let e = edge.expr();
        match *e {
            E::Ldc(wr) => {
                let edge = Edge { wire: wr, rising: true };
                self.edges.push(edge);
                assert(triggers(self.edges@) =~= triggers(old(self).edges@).push(edge@));
            },
            _ => {},
        }
        self.clone()
    }

    /// Adds a falling edge of the given identifier to the triggers.
    pub fn negedge<T: Operand>(&mut self, edge: T) -> (r: Always)
        ensures
            final(self)@ == with_negedge(old(self)@, edge.ast()),
            r@ == final(self)@,
    {
        let e = edge.expr();
        match *e {
            E::Ldc(wr) => {
                let edge = Edge { wire: wr, rising: false };
                self.edges.push(edge);
                assert(triggers(self.edges@) =~= triggers(old(self).edges@).push(edge@));
            },
            _ => {},
        }
        self.clone()
    }

    /// Adds a branch chain of one entry to the statements.
    pub fn if_<T: Operand>(&mut self, c: T, s: Vec<Box<E>>) -> (r: Always)
        ensures
            final(self)@ == (Process {
                body: old(self)@.body.push(
                    Ast::Branch(seq![Arm { is_if: true, cond: c.ast(), body: asts(s@) }]),
                ),
                ..old(self)@
            }),
            r@ == final(self)@,
    {
        let i = If(c, s);
        self.stmt.push(i);
        assert(asts(self.stmt@) =~= asts(old(self).stmt@).push(i@));
        self.clone()
    }

    /// Continues the last statement, a branch chain, by an `else if`.
    /// Fails, and changes nothing, where the last statement is no open
    /// branch chain.
    pub fn else_if<T: Operand>(&mut self, c: T, s: Vec<Box<E>>) -> (r: Result<Always, ModelError>)
        ensures
            match last_with_arm(
                old(self)@.body,
                Arm { is_if: true, cond: c.ast(), body: asts(s@) },
            ) {
                Ok(b) => r is Ok && final(self)@ == (Process { body: b, ..old(self)@ })
                    && r->Ok_0@ == final(self)@,
                Err(e) => r is Err && r->Err_0 == e && final(self)@ == old(self)@,
            },
    {
        let arm = IfElseAST { if_: true, cond: c.expr(), stmt: s };
        match add_arm_to_last(&mut self.stmt, arm) {
            Ok(()) => Ok(self.clone()),
            Err(e) => Err(e),
        }
    }

    /// Closes the last statement, a branch chain, by an `else`. Fails, and
    /// changes nothing, where the last statement is no open branch chain.
    pub fn else_(&mut self, s: Vec<Box<E>>) -> (r: Result<Always, ModelError>)
        ensures
            match last_with_arm(
                old(self)@.body,
                Arm { is_if: false, cond: Ast::Null, body: asts(s@) },
            ) {
                Ok(b) => r is Ok && final(self)@ == (Process { body: b, ..old(self)@ })
                    && r->Ok_0@ == final(self)@,
                Err(e) => r is Err && r->Err_0 == e && final(self)@ == old(self)@,
            },
    {
        let arm = IfElseAST { if_: false, cond: Box::new(E::Null), stmt: s };
        match add_arm_to_last(&mut self.stmt, arm) {
            Ok(()) => Ok(self.clone()),
            Err(e) => Err(e),
        }
    }

    /// Adds a case statement without clauses to the statements.
    pub fn Case<T: Operand>(&mut self, sel: T) -> (r: Always)
        ensures
            final(self)@ == (Process {
                body: old(self)@.body.push(
                    Ast::Case(
                        CaseBlock { selector: selector_of(sel.ast()), clauses: Seq::empty() },
                    ),
                ),
                ..old(self)@
            }),
            r@ == final(self)@,
    {
        let c = Case(sel);
        self.stmt.push(c);
        assert(asts(self.stmt@) =~= asts(old(self).stmt@).push(c@));
        self.clone()
    }

    /// Continues the last statement, a case statement, by a clause. Fails,
    /// and changes nothing, where the last statement is no case statement.
    pub fn S<T: Operand>(&mut self, c: T, s: Vec<Box<E>>) -> (r: Result<Always, ModelError>)
        ensures
            match last_with_clause(old(self)@.body, Clause { label: c.ast(), body: asts(s@) }) {
                Ok(b) => r is Ok && final(self)@ == (Process { body: b, ..old(self)@ })
                    && r->Ok_0@ == final(self)@,
                Err(e) => r is Err && r->Err_0 == e && final(self)@ == old(self)@,
            },
    {
        let clause = Case_ { CaseT: c.expr(), CaseS: s };
        match add_clause_to_last(&mut self.stmt, clause) {
            Ok(()) => Ok(self.clone()),
            Err(e) => Err(e),
        }
    }

    /// Continues the last statement, a case statement, by its default
    /// clause. Fails, and changes nothing, where the last statement is no
    /// case statement or has a default clause already.
    pub fn Default(&mut self, s: Vec<Box<E>>) -> (r: Result<Always, ModelError>)
        ensures
            match last_with_clause(old(self)@.body, Clause { label: Ast::Null, body: asts(s@) }) {
                Ok(b) => r is Ok && final(self)@ == (Process { body: b, ..old(self)@ })
                    && r->Ok_0@ == final(self)@,
                Err(e) => r is Err && r->Err_0 == e && final(self)@ == old(self)@,
            },
    {
        let clause = Case_ { CaseT: Box::new(E::Null), CaseS: s };
        match add_clause_to_last(&mut self.stmt, clause) {
            Ok(()) => Ok(self.clone()),
            Err(e) => Err(e),
        }
    }

    fn edges_out(&self, rising: bool) -> (r: Vec<WireVar>)
        ensures
            signals(r@) == edges_of(self@.triggers, rising),
    {
        let mut out: Vec<WireVar> = Vec::new();
        let ghost all = triggers(self.edges@);
        assert(all.take(0) =~= Seq::<Trigger>::empty());
        assert(signals(out@) =~= Seq::<Signal>::empty());
        let mut i: usize = 0;
        while i < self.edges.len()
            invariant
                i <= self.edges.len(),
                all == triggers(self.edges@),
                signals(out@) == edges_of(all.take(i as int), rising),
            decreases self.edges.len() - i,
        {
            assert(all.take(i + 1).drop_last() =~= all.take(i as int));
            assert(all.take(i + 1).last() == self.edges@[i as int]@);
            if self.edges[i].rising == rising {
                let ghost before = signals(out@);
                let w = self.edges[i].wire.clone();
                out.push(w);
                assert(signals(out@) =~= before.push(w@));
            }
            i = i + 1;
        }
        assert(all.take(i as int) =~= all);
        out
    }

    /// The identifiers whose rising edges trigger the process, in the
    /// order in which the triggers were given.
    pub fn out_p_edge(&self) -> (r: Vec<WireVar>)
        ensures
            signals(r@) == edges_of(self@.triggers, true),
    {
        self.edges_out(true)
    }

    /// The identifiers whose falling edges trigger the process, in the
    /// order in which the triggers were given.
    pub fn out_n_edge(&self) -> (r: Vec<WireVar>)
        ensures
            signals(r@) == edges_of(self@.triggers, false),
    {
        self.edges_out(false)
    }

    fn print_edges(&self) -> (r: String)
        ensures
            r@ == join(edge_texts(self@), " or "@),
    {
        let mut st = String::new();
        let ghost lines = edge_texts(self@);
        let mut i: usize = 0;
        while i < self.edges.len()
            invariant
                i <= self.edges.len(),
                lines == edge_texts(self@),
                st@ == join(lines.take(i as int), " or "@),
            decreases self.edges.len() - i,
        {
            proof {
                lemma_join_push(lines.take(i as int), " or "@, lines[i as int]);
                assert(lines.take(i as int).push(lines[i as int]) =~= lines.take(i + 1));
            }
            if i > 0 {
                st.append(" or ");
            }
            let mut piece = if self.edges[i].rising {
                String::from_str("posedge ")
            } else {
                String::from_str("negedge ")
            };
            piece.append(self.edges[i].wire.name.as_str());
            st.append(piece.as_str());
            assert(st@ =~= join(lines.take(i + 1), " or "@));
            i = i + 1;
        }
        assert(lines.take(i as int) =~= lines);
        st
    }

    /// The text of the process.
    pub fn print(&self) -> (r: String)
        ensures
            r@ == process_text(self@),
    {
        let mut st = String::from_str("    always @(");
        let edges = self.print_edges();
        st.append(edges.as_str());
        st.append(") begin");
        st.append("\n");
        let blocking = same_text(self.name.as_str(), "block");
        let body = emit_all(&self.stmt, blocking, 2);
        st.append(body.as_str());
        st.append("\n");
        st.append("    end");
        st
    }

    /// The text of a list of processes, in their order.
    pub fn print_list(list: &[Always]) -> (r: String)
        ensures
            r@ == processes_text(process_views(list@)),
    {
        let mut st = String::new();
        let ghost lines = process_views(list@).map_values(|p: Process| process_text(p));
        let mut i: usize = 0;
        while i < list.len()
            invariant
                i <= list.len(),
                lines == process_views(list@).map_values(|p: Process| process_text(p)),
                st@ == concat(lines.take(i as int)),
            decreases list.len() - i,
        {
            proof {
                lemma_concat_push(lines.take(i as int), lines[i as int]);
                assert(lines.take(i as int).push(lines[i as int]) =~= lines.take(i + 1));
            }
            let p = list[i].print();
            st.append(p.as_str());
            i = i + 1;
        }
        assert(lines.take(i as int) =~= lines);
        st
    }
}

/// A callable function.
#[derive(Debug)]
pub struct Func {
    pub(crate) top: WireVar,
    pub(crate) input: Vec<WireVar>,
    pub(crate) stmt: Vec<Box<E>>,
}

impl View for Func {
    type V = Callable;

    open(crate) spec fn view(&self) -> Callable {
        Callable { top: self.top@, inputs: signals(self.input@), body: asts(self.stmt@) }
    }
}

impl Clone for Func {
    fn clone(&self) -> (r: Self)
        ensures
            r@ == self@,
    {
        let input = self.input.clone();
        assert(signals(input@) =~= signals(self.input@));
        Func { top: self.top.clone(), input: input, stmt: clone_list(&self.stmt) }
    }
}

/// The functions that a list of function values stands for.
pub open spec fn callables(list: Seq<Func>) -> Seq<Callable> {
    list.map_values(|f: Func| f@)
}

/// The identifier that names a function whose result is `width` bits wide.
pub open spec fn function_signal(name: Seq<char>, width: int) -> Signal {
    Signal { name: name, width: width, ..blank_signal() }
}

/// The identifier of an input of `width` bits.
pub open spec fn input_signal(name: Seq<char>, width: int) -> Signal {
    Signal { name: name, width: width, role: IOType::Input, ..blank_signal() }
}

fn input_line(w: &WireVar) -> (r: String)
    ensures
        r@ == input_text(w@),
{
    if w.width > 0 {
        let mut st = String::from_str("        input [");
        let top = decimal_text(w.width as i64 - 1);
        st.append(top.as_str());
        st.append(":0]");
        st.append(w.name.as_str());
        st
    } else {
        let mut st = String::from_str("        input ");
        st.append(w.name.as_str());
        st
    }
}

impl Func {
    /// A function with the given name and result width, without inputs
    /// and statements.
    pub fn new(name: &str, width: i32) -> (r: Func)
        ensures
            r@ == (Callable {
                top: function_signal(name@, width as int),
                inputs: Seq::empty(),
                body: Seq::empty(),
            }),
    {
        let mut top = WireVar::new();
        let _ = top.wire(name, width);
        let r = Func { top: top, input: Vec::new(), stmt: Vec::new() };
        assert(signals(r.input@) =~= Seq::empty());
        assert(asts(r.stmt@) =~= Seq::empty());
        r
    }

    /// The text of the function.
    pub fn print(&self) -> (r: String)
        ensures
            r@ == callable_text(self@),
    {
        let mut st = String::from_str("\n    function [");
        let top = decimal_text(self.top.width as i64 - 1);
        st.append(top.as_str());
        st.append(":0] ");
        st.append(self.top.name.as_str());
        st.append("(\n");
        let mut list = String::new();
        let ghost lines = signals(self.input@).map_values(|s: Signal| input_text(s));
        let mut i: usize = 0;
        while i < self.input.len()
            invariant
                i <= self.input.len(),
                lines == signals(self.input@).map_values(|s: Signal| input_text(s)),
                list@ == join(lines.take(i as int), ",\n"@),
            decreases self.input.len() - i,
        {
            proof {
                lemma_join_push(lines.take(i as int), ",\n"@, lines[i as int]);
                assert(lines.take(i as int).push(lines[i as int]) =~= lines.take(i + 1));
            }
            if i > 0 {
                list.append(",\n");
            }
            let line = input_line(&self.input[i]);
            list.append(line.as_str());
            assert(list@ =~= join(lines.take(i + 1), ",\n"@));
            i = i + 1;
        }
        assert(lines.take(i as int) =~= lines);
        st.append(list.as_str());
        st.append("\n    );\n");
        let body = emit_all(&self.stmt, true, 2);
        st.append(body.as_str());
        st.append("    endfunction\n\n");
        st
    }

    /// The text of a list of functions, in their order.
    pub fn print_list(funcs: &[Func]) -> (r: String)
        ensures
            r@ == callables_text(callables(funcs@)),
    {
        let mut st = String::new();
        let ghost lines = callables(funcs@).map_values(|f: Callable| callable_text(f));
        let mut i: usize = 0;
        while i < funcs.len()
            invariant
                i <= funcs.len(),
                lines == callables(funcs@).map_values(|f: Callable| callable_text(f)),
                st@ == concat(lines.take(i as int)),
            decreases funcs.len() - i,
        {
            proof {
                lemma_concat_push(lines.take(i as int), lines[i as int]);
                assert(lines.take(i as int).push(lines[i as int]) =~= lines.take(i + 1));
            }
            let p = funcs[i].print();
            st.append(p.as_str());
            i = i + 1;
        }
        assert(lines.take(i as int) =~= lines);
        st
    }

    /// The identifier that names the function and carries its result.
    pub fn own(&self) -> (r: Box<E>)
        ensures
            r@ == Ast::Ident(self@.top),
    {
        Box::new(E::Ldc(self.top.clone()))
    }

    /// A call of the function with the given arguments.
    pub fn using(&self, args: Vec<Box<E>>) -> (r: Box<E>)
        ensures
            r@ == Ast::Call(Box::new(Ast::Ident(self@.top)), asts(args@)),
    {
        let callee = Box::new(E::Ldc(self.top.clone()));
        assert(callee@ == Ast::Ident(self@.top));
        Box::new(E::Func(callee, args))
    }

    /// Adds an input of the given name and width.
    pub fn Input(&mut self, name: &str, width: i32) -> (r: Box<E>)
        ensures
            final(self)@ == (Callable {
                inputs: old(self)@.inputs.push(input_signal(name@, width as int)),
                ..old(self)@
            }),
            r@ == Ast::Ident(input_signal(name@, width as int)),
    {
        let mut tmp = WireVar::new();
        let port = tmp.input(name, width);
        self.input.push(tmp);
        assert(signals(self.input@) =~= signals(old(self).input@).push(
            input_signal(name@, width as int),
        ));
        port
    }

    /// Adds a branch chain of one entry to the statements.
    pub fn If<T: Operand>(&mut self, c: T, s: Vec<Box<E>>) -> (r: Func)
        ensures
            final(self)@ == (Callable {
                body: old(self)@.body.push(
                    Ast::Branch(seq![Arm { is_if: true, cond: c.ast(), body: asts(s@) }]),
                ),
                ..old(self)@
            }),
            r@ == final(self)@,
    {
        let i = If(c, s);
        self.stmt.push(i);
        assert(asts(self.stmt@) =~= asts(old(self).stmt@).push(i@));
        self.clone()
    }

    /// Continues the last statement, a branch chain, by an `else if`.
    /// Fails, and changes nothing, where the last statement is no open
    /// branch chain.
    pub fn Else_If<T: Operand>(&mut self, c: T, s: Vec<Box<E>>) -> (r: Result<Func, ModelError>)
        ensures
            match last_with_arm(
                old(self)@.body,
                Arm { is_if: true, cond: c.ast(), body: asts(s@) },
            ) {
                Ok(b) => r is Ok && final(self)@ == (Callable { body: b, ..old(self)@ })
                    && r->Ok_0@ == final(self)@,
                Err(e) => r is Err && r->Err_0 == e && final(self)@ == old(self)@,
            },
    {
        let arm = IfElseAST { if_: true, cond: c.expr(), stmt: s };
        match add_arm_to_last(&mut self.stmt, arm) {
            Ok(()) => Ok(self.clone()),
            Err(e) => Err(e),
        }
    }

    /// Closes the last statement, a branch chain, by an `else`. Fails, and
    /// changes nothing, where the last statement is no open branch chain.
    pub fn Else(&mut self, s: Vec<Box<E>>) -> (r: Result<Func, ModelError>)
        ensures
            match last_with_arm(
                old(self)@.body,
                Arm { is_if: false, cond: Ast::Null, body: asts(s@) },
            ) {
                Ok(b) => r is Ok && final(self)@ == (Callable { body: b, ..old(self)@ })
                    && r->Ok_0@ == final(self)@,
                Err(e) => r is Err && r->Err_0 == e && final(self)@ == old(self)@,
            },
    {
        let arm = IfElseAST { if_: false, cond: Box::new(E::Null), stmt: s };
        match add_arm_to_last(&mut self.stmt, arm) {
            Ok(()) => Ok(self.clone()),
            Err(e) => Err(e),
        }
    }

    /// Adds a case statement without clauses to the statements.
    pub fn Case<T: Operand>(&mut self, sel: T) -> (r: Func)
        ensures
            final(self)@ == (Callable {
                body: old(self)@.body.push(
                    Ast::Case(
                        CaseBlock { selector: selector_of(sel.ast()), clauses: Seq::empty() },
                    ),
                ),
                ..old(self)@
            }),
            r@ == final(self)@,
    {
        let c = Case(sel);
        self.stmt.push(c);
        assert(asts(self.stmt@) =~= asts(old(self).stmt@).push(c@));
        self.clone()
    }

    /// Continues the last statement, a case statement, by a clause. Fails,
    /// and changes nothing, where the last statement is no case statement.
    pub fn S<T: Operand>(&mut self, c: T, s: Vec<Box<E>>) -> (r: Result<Func, ModelError>)
        ensures
            match last_with_clause(old(self)@.body, Clause { label: c.ast(), body: asts(s@) }) {
                Ok(b) => r is Ok && final(self)@ == (Callable { body: b, ..old(self)@ })
                    && r->Ok_0@ == final(self)@,
                Err(e) => r is Err && r->Err_0 == e && final(self)@ == old(self)@,
            },
    {
        let clause = Case_ { CaseT: c.expr(), CaseS: s };
        match add_clause_to_last(&mut self.stmt, clause) {
            Ok(()) => Ok(self.clone()),
            Err(e) => Err(e),
        }
    }

    /// Continues the last statement, a case statement, by its default
    /// clause. Fails, and changes nothing, where the last statement is no
    /// case statement or has a default clause already.
    pub fn default(&mut self, s: Vec<Box<E>>) -> (r: Result<Func, ModelError>)
        ensures
            match last_with_clause(old(self)@.body, Clause { label: Ast::Null, body: asts(s@) }) {
                Ok(b) => r is Ok && final(self)@ == (Callable { body: b, ..old(self)@ })
                    && r->Ok_0@ == final(self)@,
                Err(e) => r is Err && r->Err_0 == e && final(self)@ == old(self)@,
            },
    {
        let clause = Case_ { CaseT: Box::new(E::Null), CaseS: s };
        match add_clause_to_last(&mut self.stmt, clause) {
            Ok(()) => Ok(self.clone()),
            Err(e) => Err(e),
        }
    }
}

} // verus!
