//! The renderer: the text of an expression or statement, as a function of
//! the model, and the executable code that produces it.
use vstd::prelude::*;
use crate::ast::{Arm, Ast, CaseBlock, Clause};
use crate::expr::{arms_of, asts, clauses_of, CaseStmt, Case_, IfElseAST, E};
use crate::text::{
    concat, decimal, decimal_text, deeper, join, lemma_concat_push, lemma_join_push, next_level,
    pad, padding, same_text,
};

verus! {

/// The assignment operator: `=` in a procedural block, `<=` in a clocked
/// one.
pub open spec fn assign_symbol(blocking: bool) -> Seq<char> {
    if blocking {
        " = "@
    } else {
        " <= "@
    }
}

/// The text of an expression or statement.
///
/// `paren` asks for parentheses round the node if it is an addition, a
/// subtraction or an `or`; `blocking` chooses the assignment operator;
/// `indent` is the indentation level of the lines that the node starts.
pub open spec fn text(a: Ast, paren: bool, blocking: bool, indent: int) -> Seq<char>
    decreases a, 0int,
{
    match a {
        Ast::Null => Seq::empty(),
        Ast::Tag(_) => Seq::empty(),
        Ast::Ident(s) => s.name,
        Ast::Const(n) => decimal(n),
        Ast::Not(x) => "~"@ + text(*x, false, blocking, 0),
        Ast::Reduce(op, x) => op.symbol() + text(*x, false, blocking, 0),
        Ast::Binary(op, l, r) => pad(indent) + (if paren && op.binds_loose() {
            "("@
        } else {
            Seq::empty()
        }) + text(*l, false, blocking, 0) + op.symbol() + text(
            *r,
            op.binds_tight(),
            blocking,
            0,
        ) + (if paren && op.binds_loose() {
            ")"@
        } else {
            Seq::empty()
        }),
        Ast::Ternary(c, t, f) => "("@ + text(*c, false, blocking, 0) + ")? "@ + text(
            *t,
            false,
            blocking,
            0,
        ) + ": "@ + text(*f, false, blocking, 0),
        Ast::Assign(l, r) => pad(indent) + text(*l, false, blocking, indent) + assign_symbol(
            blocking,
        ) + text(*r, false, blocking, 0) + ";\n"@,
        Ast::Case(c) => case_text(c, blocking, indent),
        Ast::Branch(arms) => chain_text(arms, blocking, indent),
        Ast::Index(b, i) => text(*b, false, blocking, indent) + "["@ + text(
            *i,
            false,
            blocking,
            0,
        ) + "]"@,
        Ast::Slice(b, h, l) => text(*b, false, blocking, indent) + "["@ + text(
            *h,
            false,
            blocking,
            0,
        ) + ":"@ + text(*l, false, blocking, 0) + "]"@,
        Ast::Call(f, args) => text(*f, false, blocking, 0) + "("@ + args_text(args, blocking)
            + ")"@,
    }
}

/// The texts of a list of statements, each at the given level.
pub open spec fn texts(items: Seq<Ast>, blocking: bool, indent: int) -> Seq<Seq<char>>
    decreases items, 0int,
{
    Seq::new(
        items.len(),
        |i: int|
            if 0 <= i < items.len() {
                text(items[i], false, blocking, indent)
            } else {
                Seq::empty()
            },
    )
}

/// The text of a list of statements, one after the other.
pub open spec fn body_text(items: Seq<Ast>, blocking: bool, indent: int) -> Seq<char>
    decreases items, 1int,
{
    concat(texts(items, blocking, indent))
}

/// The text of the arguments of a call, separated by commas.
pub open spec fn args_text(args: Seq<Ast>, blocking: bool) -> Seq<char>
    decreases args, 1int,
{
    join(texts(args, blocking, 0), ", "@)
}

/// The line that opens one entry of a branch chain, without its
/// indentation.
pub open spec fn arm_head(arm: Arm, first: bool) -> Seq<char>
    decreases arm, 0int,
{
    if first {
        "if("@ + text(arm.cond, false, false, 0) + ") begin\n"@
    } else if arm.is_if {
        "else if("@ + text(arm.cond, false, false, 0) + ") begin\n"@
    } else {
        "else begin\n"@
    }
}

/// The text of one entry of a branch chain: the opening line, the body one
/// level further in, and the closing line.
pub open spec fn arm_text(arm: Arm, first: bool, blocking: bool, indent: int) -> Seq<char>
    decreases arm, 1int,
{
    pad(indent) + arm_head(arm, first) + body_text(arm.body, blocking, next_level(indent)) + pad(
        indent,
    ) + "end\n"@
}

/// The texts of the entries of a branch chain.
pub open spec fn arm_texts(arms: Seq<Arm>, blocking: bool, indent: int) -> Seq<Seq<char>>
    decreases arms, 0int,
{
    Seq::new(
        arms.len(),
        |i: int|
            if 0 <= i < arms.len() {
                arm_text(arms[i], i == 0, blocking, indent)
            } else {
                Seq::empty()
            },
    )
}

/// The text of a branch chain. The entries follow each other in the order
/// of the chain. A chain whose first entry has no condition is its body
/// alone, at the chain's own level.
pub open spec fn chain_text(arms: Seq<Arm>, blocking: bool, indent: int) -> Seq<char>
    decreases arms, 1int,
{
    if arms.len() == 0 {
        Seq::empty()
    } else if arms[0].cond is Null {
        body_text(arms[0].body, blocking, indent)
    } else {
        concat(arm_texts(arms, blocking, indent))
    }
}

/// The text of one clause of a case statement. A body of two or more
/// statements stands between `begin` and `end`.
pub open spec fn clause_text(c: Clause, blocking: bool, indent: int) -> Seq<char>
    decreases c, 0int,
{
    pad(next_level(indent)) + (if c.label is Null {
        "default "@
    } else {
        text(c.label, false, blocking, next_level(indent))
    }) + " :"@ + (if c.body.len() > 1 {
        "begin \n"@ + body_text(c.body, blocking, next_level(next_level(indent))) + pad(
            next_level(indent),
        ) + "end \n"@
    } else {
        body_text(c.body, blocking, 0)
    })
}

/// The texts of the clauses of a case statement.
pub open spec fn clause_texts(clauses: Seq<Clause>, blocking: bool, indent: int) -> Seq<
    Seq<char>,
>
    decreases clauses, 0int,
{
    Seq::new(
        clauses.len(),
        |i: int|
            if 0 <= i < clauses.len() {
                clause_text(clauses[i], blocking, indent)
            } else {
                Seq::empty()
            },
    )
}

/// The text of a case statement: its clauses in their order, between the
/// line that names the selector and the closing line.
pub open spec fn case_text(c: CaseBlock, blocking: bool, indent: int) -> Seq<char>
    decreases c, 0int,
{
    pad(indent) + "case ("@ + c.selector.name + ")\n"@ + concat(
        clause_texts(c.clauses, blocking, indent),
    ) + pad(indent) + "endcase\n"@
}

/// Whether a style name asks for the procedural assignment operator.
pub open spec fn is_blocking(cnfg: Seq<char>) -> bool {
    cnfg == "block"@
}

/// The text of a list of statements, with the assignment operator already
/// chosen.
pub fn emit_all(items: &Vec<Box<E>>, blocking: bool, indent: i32) -> (r: String)
    ensures
        r@ == body_text(asts(items@), blocking, indent as int),
    decreases items,
{
    let mut st = String::new();
    let ghost lines = texts(asts(items@), blocking, indent as int);
    let mut i: usize = 0;
    while i < items.len()
        invariant
            i <= items.len(),
            lines == texts(asts(items@), blocking, indent as int),
            st@ == concat(lines.take(i as int)),
        decreases items.len() - i,
    {
        proof {
            lemma_concat_push(lines.take(i as int), lines[i as int]);
            assert(lines.take(i as int).push(lines[i as int]) =~= lines.take(i + 1));
        }
        let piece = emit(&items[i], false, blocking, indent);
        st.append(piece.as_str());
        i = i + 1;
    }
    assert(lines.take(i as int) =~= lines);
    st
}

fn emit_args(args: &Vec<Box<E>>, blocking: bool) -> (r: String)
    ensures
        r@ == args_text(asts(args@), blocking),
    decreases args,
{
    let mut st = String::new();
    let ghost lines = texts(asts(args@), blocking, 0);
    let mut i: usize = 0;
    while i < args.len()
        invariant
            i <= args.len(),
            lines == texts(asts(args@), blocking, 0),
            st@ == join(lines.take(i as int), ", "@),
        decreases args.len() - i,
    {
        proof {
            lemma_join_push(lines.take(i as int), ", "@, lines[i as int]);
            assert(lines.take(i as int).push(lines[i as int]) =~= lines.take(i + 1));
        }
        if i > 0 {
            st.append(", ");
        }
        let piece = emit(&args[i], false, blocking, 0);
        st.append(piece.as_str());
        assert(st@ =~= join(lines.take(i + 1), ", "@));
        i = i + 1;
    }
    assert(lines.take(i as int) =~= lines);
    st
}

fn emit_arm(arm: &IfElseAST, first: bool, blocking: bool, indent: i32) -> (r: String)
    ensures
        r@ == arm_text(arm@, first, blocking, indent as int),
    decreases arm,
{
    let mut head: String;
    if first {
        head = String::from_str("if(");
        let c = emit(&arm.cond, false, false, 0);
        head.append(c.as_str());
        head.append(") begin\n");
    } else if arm.if_ {
        head = String::from_str("else if(");
        let c = emit(&arm.cond, false, false, 0);
        head.append(c.as_str());
        head.append(") begin\n");
    } else {
        head = String::from_str("else begin\n");
    }
    let mut st = padding(indent);
    st.append(head.as_str());
    let body = emit_all(&arm.stmt, blocking, deeper(indent));
    st.append(body.as_str());
    let p = padding(indent);
    st.append(p.as_str());
    st.append("end\n");
    st
}

/// The text of a branch chain, with the assignment operator already chosen.
pub fn emit_chain(arms: &Vec<IfElseAST>, blocking: bool, indent: i32) -> (r: String)
    ensures
        r@ == chain_text(arms_of(arms@), blocking, indent as int),
    decreases arms,
{
    if arms.len() == 0 {
        return String::new();
    }
    if let E::Null = *arms[0].cond {
        return emit_all(&arms[0].stmt, blocking, indent);
    }
    let mut st = String::new();
    let ghost lines = arm_texts(arms_of(arms@), blocking, indent as int);
    let mut i: usize = 0;
    while i < arms.len()
        invariant
            i <= arms.len(),
            lines == arm_texts(arms_of(arms@), blocking, indent as int),
            st@ == concat(lines.take(i as int)),
        decreases arms.len() - i,
    {
        proof {
            lemma_concat_push(lines.take(i as int), lines[i as int]);
            assert(lines.take(i as int).push(lines[i as int]) =~= lines.take(i + 1));
        }
        let piece = emit_arm(&arms[i], i == 0, blocking, indent);
        st.append(piece.as_str());
        i = i + 1;
    }
    assert(lines.take(i as int) =~= lines);
    st
}

fn emit_clause(c: &Case_, blocking: bool, indent: i32) -> (r: String)
    ensures
        r@ == clause_text(c@, blocking, indent as int),
    decreases c,
{
    let inner = deeper(indent);
    let label = if let E::Null = *c.CaseT {
        String::from_str("default ")
    } else {
        emit(&c.CaseT, false, blocking, inner)
    };
    let body = if c.CaseS.len() > 1 {
        let mut block = String::from_str("begin \n");
        let lines = emit_all(&c.CaseS, blocking, deeper(inner));
        block.append(lines.as_str());
        let p = padding(inner);
        block.append(p.as_str());
        block.append("end \n");
        block
    } else {
        emit_all(&c.CaseS, blocking, 0)
    };
    let mut st = padding(inner);
    st.append(label.as_str());
    st.append(" :");
    st.append(body.as_str());
    st
}

fn emit_case(c: &CaseStmt, blocking: bool, indent: i32) -> (r: String)
    ensures
        r@ == case_text(c@, blocking, indent as int),
    decreases c,
{
    let mut st = padding(indent);
    st.append("case (");
    st.append(c.CaseVar.name.as_str());
    st.append(")\n");
    let mut body = String::new();
    let ghost lines = clause_texts(clauses_of(c.Select@), blocking, indent as int);
    let mut i: usize = 0;
    while i < c.Select.len()
        invariant
            i <= c.Select.len(),
            lines == clause_texts(clauses_of(c.Select@), blocking, indent as int),
            body@ == concat(lines.take(i as int)),
        decreases c.Select.len() - i,
    {
        proof {
            lemma_concat_push(lines.take(i as int), lines[i as int]);
            assert(lines.take(i as int).push(lines[i as int]) =~= lines.take(i + 1));
        }
        let piece = emit_clause(&c.Select[i], blocking, indent);
        body.append(piece.as_str());
        i = i + 1;
    }
    assert(lines.take(i as int) =~= lines);
    st.append(body.as_str());
    let p = padding(indent);
    st.append(p.as_str());
    st.append("endcase\n");
    st
}

/// The text of an expression or statement, with the assignment operator
/// already chosen.
pub fn emit(ast: &E, paren: bool, blocking: bool, indent: i32) -> (r: String)
    ensures
        r@ == text(ast@, paren, blocking, indent as int),
    decreases ast,
{
    match ast {
        E::Null => String::new(),
        E::Node(_) => String::new(),
        E::Ldc(w) => w.name.clone(),
        E::Num(n) => decimal_text(*n as i64),
        E::No(x) => {
            let mut st = String::from_str("~");
            let inner = emit(x, false, blocking, 0);
            st.append(inner.as_str());
            st
        },
        E::Red(op, x) => {
            let mut st = String::from_str(op.symbol_text());
            let inner = emit(x, false, blocking, 0);
            st.append(inner.as_str());
            st
        },
        E::Bin(op, l, r) => {
            let wrap = paren && op.is_loose();
            proof {
                reveal_strlit("");
                assert(""@ =~= Seq::<char>::empty());
            }
            let open = if wrap {
                "("
            } else {
                ""
            };
            let close = if wrap {
                ")"
            } else {
                ""
            };
            let mut st = padding(indent);
            st.append(open);
            let left = emit(l, false, blocking, 0);
            st.append(left.as_str());
            st.append(op.symbol_text());
            let right = emit(r, op.is_tight(), blocking, 0);
            st.append(right.as_str());
            st.append(close);
            st
        },
        E::PL(c, t, f) => {
            let mut st = String::from_str("(");
            let cond = emit(c, false, blocking, 0);
            st.append(cond.as_str());
            st.append(")? ");
            let yes = emit(t, false, blocking, 0);
            st.append(yes.as_str());
            st.append(": ");
            let no = emit(f, false, blocking, 0);
            st.append(no.as_str());
            st
        },
        E::SB(l, r) => {
            let mut st = padding(indent);
            let target = emit(l, false, blocking, indent);
            st.append(target.as_str());
            if blocking {
                st.append(" = ");
            } else {
                st.append(" <= ");
            }
            let value = emit(r, false, blocking, 0);
            st.append(value.as_str());
            st.append(";\n");
            st
        },
        E::CS(c) => emit_case(c, blocking, indent),
        E::BL(arms) => emit_chain(arms, blocking, indent),
        E::MEM(b, a) => {
            let mut st = emit(b, false, blocking, indent);
            st.append("[");
            let addr = emit(a, false, blocking, 0);
            st.append(addr.as_str());
            st.append("]");
            st
        },
        E::MBT(b, h, l) => {
            let mut st = emit(b, false, blocking, indent);
            st.append("[");
            let high = emit(h, false, blocking, 0);
            st.append(high.as_str());
            st.append(":");
            let low = emit(l, false, blocking, 0);
            st.append(low.as_str());
            st.append("]");
            st
        },
        E::Func(f, args) => {
            let mut st = emit(f, false, blocking, 0);
            st.append("(");
            let list = emit_args(args, blocking);
            st.append(list.as_str());
            st.append(")");
            st
        },
    }
}

/// The text of an expression or statement. The style name `block` gives
/// procedural assignments; any other name gives clocked ones.
pub fn decomp_ast(parenthesis: bool, ast: &E, cnfg: &str, indent: i32) -> (r: String)
    ensures
        r@ == text(ast@, parenthesis, is_blocking(cnfg@), indent as int),
{
    emit(ast, parenthesis, same_text(cnfg, "block"), indent)
}

impl IfElseAST {
    /// The text of a branch chain.
    pub fn print_list(list: Vec<IfElseAST>, cnfg: &str, indent: i32) -> (r: String)
        ensures
            r@ == chain_text(arms_of(list@), is_blocking(cnfg@), indent as int),
    {
        emit_chain(&list, same_text(cnfg, "block"), indent)
    }
}

impl CaseStmt {
    /// The text of a case statement.
    pub fn print(case_stmt: CaseStmt, cnfg: &str, indent: i32) -> (r: String)
        ensures
            r@ == case_text(case_stmt@, is_blocking(cnfg@), indent as int),
    {
        emit_case(&case_stmt, same_text(cnfg, "block"), indent)
    }
}

} // verus!
