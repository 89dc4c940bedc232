//! Building expressions: operands, the node constructors, and the
//! functions that take a node apart again.
use vstd::prelude::*;
use crate::ast::{Ast, BinOp};
use crate::error::ModelError;
use crate::expr::{clone_expr, E};
use crate::signal::WireVar;
use crate::text::same_text;

verus! {

/// A value that can stand where an expression is expected: an expression,
/// a reference to one, or an integer.
pub trait Operand: Sized {
    /// The expression that the value stands for.
    spec fn ast(self) -> Ast;

    /// The value as an expression of its own.
    fn expr(self) -> (r: Box<E>)
        ensures
            r@ == self.ast(),
    ;
}

impl Operand for Box<E> {
    open spec fn ast(self) -> Ast {
        self@
    }

    fn expr(self) -> (r: Box<E>) {
        self
    }
}

impl<'a> Operand for &'a Box<E> {
    open spec fn ast(self) -> Ast {
        self@
    }

    fn expr(self) -> (r: Box<E>) {
        Box::new(clone_expr(self))
    }
}

impl<'a> Operand for &'a mut Box<E> {
    open spec fn ast(self) -> Ast {
        self@
    }

    fn expr(self) -> (r: Box<E>) {
        Box::new(clone_expr(self))
    }
}

impl Operand for i32 {
    open spec fn ast(self) -> Ast {
        Ast::Const(self as int)
    }

    fn expr(self) -> (r: Box<E>) {
        Box::new(E::Num(self))
    }
}

impl<'a> Operand for &'a i32 {
    open spec fn ast(self) -> Ast {
        Ast::Const(*self as int)
    }

    fn expr(self) -> (r: Box<E>) {
        Box::new(E::Num(*self))
    }
}

impl<'a> From<&'a Box<E>> for Box<E> {
    fn from(x: &'a Box<E>) -> (r: Box<E>)
        ensures
            r@ == x@,
    {
        Box::new(clone_expr(x))
    }
}

impl<'a> vstd::std_specs::convert::FromSpecImpl<&'a Box<E>> for Box<E> {
    open spec fn obeys_from_spec() -> bool {
        false
    }

    open spec fn from_spec(x: &'a Box<E>) -> Box<E> {
        *x
    }
}

impl<'a> From<&'a mut Box<E>> for Box<E> {
    fn from(x: &'a mut Box<E>) -> (r: Box<E>)
        ensures
            r@ == old(x)@,
            final(x)@ == old(x)@,
    {
        Box::new(clone_expr(x))
    }
}

impl<'a> vstd::std_specs::convert::FromSpecImpl<&'a mut Box<E>> for Box<E> {
    open spec fn obeys_from_spec() -> bool {
        false
    }

    open spec fn from_spec(x: &'a mut Box<E>) -> Box<E> {
        *x
    }
}

impl From<i32> for Box<E> {
    fn from(i: i32) -> (r: Box<E>)
        ensures
            r@ == Ast::Const(i as int),
    {
        Box::new(E::Num(i))
    }
}

impl vstd::std_specs::convert::FromSpecImpl<i32> for Box<E> {
    open spec fn obeys_from_spec() -> bool {
        true
    }

    open spec fn from_spec(i: i32) -> Box<E> {
        Box::new(E::Num(i))
    }
}

impl<'a> From<&'a i32> for Box<E> {
    fn from(i: &'a i32) -> (r: Box<E>)
        ensures
            r@ == Ast::Const(*i as int),
    {
        Box::new(E::Num(*i))
    }
}

impl<'a> vstd::std_specs::convert::FromSpecImpl<&'a i32> for Box<E> {
    open spec fn obeys_from_spec() -> bool {
        true
    }

    open spec fn from_spec(i: &'a i32) -> Box<E> {
        Box::new(E::Num(*i))
    }
}

/// The expression that names a declared identifier.
pub fn _V(v: WireVar) -> (r: Box<E>)
    ensures
        r@ == Ast::Ident(v@),
{
    Box::new(E::Ldc(v))
}

/// The expression of an integer constant.
pub fn _Num(num: i32) -> (r: Box<E>)
    ensures
        r@ == Ast::Const(num as int),
{
    Box::new(E::Num(num))
}

/// The statement that assigns `r` to `l`.
pub fn _Veq<T: Operand, U: Operand>(l: T, r: U) -> (out: Box<E>)
    ensures
        out@ == Ast::Assign(Box::new(l.ast()), Box::new(r.ast())),
{
    Box::new(E::SB(l.expr(), r.expr()))
}

/// The expression that selects `true_node` where `terms` holds and
/// `false_node` where it does not.
pub fn _Branch<T: Operand, U: Operand, V: Operand>(terms: T, true_node: U, false_node: V) -> (out:
    Box<E>)
    ensures
        out@ == Ast::Ternary(
            Box::new(terms.ast()),
            Box::new(true_node.ast()),
            Box::new(false_node.ast()),
        ),
{
    Box::new(E::PL(terms.expr(), true_node.expr(), false_node.expr()))
}

/// The two-operand expression with the given operator.
pub fn binary<T: Operand, U: Operand>(op: BinOp, l: T, r: U) -> (out: Box<E>)
    ensures
        out@ == Ast::Binary(op, Box::new(l.ast()), Box::new(r.ast())),
{
    Box::new(E::Bin(op, l.expr(), r.expr()))
}

/// `l + r`
pub fn _Add<T: Operand, U: Operand>(l: T, r: U) -> (out: Box<E>)
    ensures
        out@ == Ast::Binary(BinOp::Add, Box::new(l.ast()), Box::new(r.ast())),
{
    binary(BinOp::Add, l, r)
}

/// `l - r`
pub fn _Sub<T: Operand, U: Operand>(l: T, r: U) -> (out: Box<E>)
    ensures
        out@ == Ast::Binary(BinOp::Sub, Box::new(l.ast()), Box::new(r.ast())),
{
    binary(BinOp::Sub, l, r)
}

/// `l * r`
pub fn _Mul<T: Operand, U: Operand>(l: T, r: U) -> (out: Box<E>)
    ensures
        out@ == Ast::Binary(BinOp::Mul, Box::new(l.ast()), Box::new(r.ast())),
{
    binary(BinOp::Mul, l, r)
}

/// `l / r`
pub fn _Div<T: Operand, U: Operand>(l: T, r: U) -> (out: Box<E>)
    ensures
        out@ == Ast::Binary(BinOp::Div, Box::new(l.ast()), Box::new(r.ast())),
{
    binary(BinOp::Div, l, r)
}

/// `l % r`
pub fn _Mod<T: Operand, U: Operand>(l: T, r: U) -> (out: Box<E>)
    ensures
        out@ == Ast::Binary(BinOp::Mod, Box::new(l.ast()), Box::new(r.ast())),
{
    binary(BinOp::Mod, l, r)
}

/// `l || r`
pub fn _LOr<T: Operand, U: Operand>(l: T, r: U) -> (out: Box<E>)
    ensures
        out@ == Ast::Binary(BinOp::LOr, Box::new(l.ast()), Box::new(r.ast())),
{
    binary(BinOp::LOr, l, r)
}

/// `l && r`
pub fn _LAnd<T: Operand, U: Operand>(l: T, r: U) -> (out: Box<E>)
    ensures
        out@ == Ast::Binary(BinOp::LAnd, Box::new(l.ast()), Box::new(r.ast())),
{
    binary(BinOp::LAnd, l, r)
}

/// `l | r`
pub fn _Or<T: Operand, U: Operand>(l: T, r: U) -> (out: Box<E>)
    ensures
        out@ == Ast::Binary(BinOp::Or, Box::new(l.ast()), Box::new(r.ast())),
{
    binary(BinOp::Or, l, r)
}

/// `l & r`
pub fn _And<T: Operand, U: Operand>(l: T, r: U) -> (out: Box<E>)
    ensures
        out@ == Ast::Binary(BinOp::And, Box::new(l.ast()), Box::new(r.ast())),
{
    binary(BinOp::And, l, r)
}

/// `l ^ r`
pub fn _Xor<T: Operand, U: Operand>(l: T, r: U) -> (out: Box<E>)
    ensures
        out@ == Ast::Binary(BinOp::Xor, Box::new(l.ast()), Box::new(r.ast())),
{
    binary(BinOp::Xor, l, r)
}

/// `l == r`
pub fn _Eq<T: Operand, U: Operand>(l: T, r: U) -> (out: Box<E>)
    ensures
        out@ == Ast::Binary(BinOp::Equal, Box::new(l.ast()), Box::new(r.ast())),
{
    binary(BinOp::Equal, l, r)
}

/// `l != r`
pub fn _Neq<T: Operand, U: Operand>(l: T, r: U) -> (out: Box<E>)
    ensures
        out@ == Ast::Binary(BinOp::NotEqual, Box::new(l.ast()), Box::new(r.ast())),
{
    binary(BinOp::NotEqual, l, r)
}

/// `l << r`
pub fn _LSH<T: Operand, U: Operand>(l: T, r: U) -> (out: Box<E>)
    ensures
        out@ == Ast::Binary(BinOp::LShift, Box::new(l.ast()), Box::new(r.ast())),
{
    binary(BinOp::LShift, l, r)
}

/// `l >> r`
pub fn _RSH<T: Operand, U: Operand>(l: T, r: U) -> (out: Box<E>)
    ensures
        out@ == Ast::Binary(BinOp::RShift, Box::new(l.ast()), Box::new(r.ast())),
{
    binary(BinOp::RShift, l, r)
}

/// `l >>> r`
pub fn _RSHA<T: Operand, U: Operand>(l: T, r: U) -> (out: Box<E>)
    ensures
        out@ == Ast::Binary(BinOp::RShiftA, Box::new(l.ast()), Box::new(r.ast())),
{
    binary(BinOp::RShiftA, l, r)
}

/// The comparison that is written `l < r`.
pub fn _MTH<T: Operand, U: Operand>(l: T, r: U) -> (out: Box<E>)
    ensures
        out@ == Ast::Binary(BinOp::MoreThan, Box::new(l.ast()), Box::new(r.ast())),
{
    binary(BinOp::MoreThan, l, r)
}

/// The comparison that is written `l > r`.
pub fn _LTH<T: Operand, U: Operand>(l: T, r: U) -> (out: Box<E>)
    ensures
        out@ == Ast::Binary(BinOp::LessThan, Box::new(l.ast()), Box::new(r.ast())),
{
    binary(BinOp::LessThan, l, r)
}

/// The comparison that is written `l <= r`.
pub fn _OMR<T: Operand, U: Operand>(l: T, r: U) -> (out: Box<E>)
    ensures
        out@ == Ast::Binary(BinOp::OrMore, Box::new(l.ast()), Box::new(r.ast())),
{
    binary(BinOp::OrMore, l, r)
}

/// The comparison that is written `l >= r`.
pub fn _OLS<T: Operand, U: Operand>(l: T, r: U) -> (out: Box<E>)
    ensures
        out@ == Ast::Binary(BinOp::OrLess, Box::new(l.ast()), Box::new(r.ast())),
{
    binary(BinOp::OrLess, l, r)
}

/// The operator that goes by the given name, if there is one.
pub open spec fn operator_of(tag: Seq<char>) -> Option<BinOp> {
    if tag == "add"@ {
        Some(BinOp::Add)
    } else if tag == "sub"@ {
        Some(BinOp::Sub)
    } else if tag == "mul"@ {
        Some(BinOp::Mul)
    } else if tag == "div"@ {
        Some(BinOp::Div)
    } else if tag == "mod"@ {
        Some(BinOp::Mod)
    } else if tag == "or"@ {
        Some(BinOp::Or)
    } else if tag == "and"@ {
        Some(BinOp::And)
    } else if tag == "xor"@ {
        Some(BinOp::Xor)
    } else if tag == "lor"@ {
        Some(BinOp::LOr)
    } else if tag == "land"@ {
        Some(BinOp::LAnd)
    } else if tag == "lshift"@ {
        Some(BinOp::LShift)
    } else if tag == "rshift"@ {
        Some(BinOp::RShift)
    } else if tag == "rshifta"@ {
        Some(BinOp::RShiftA)
    } else if tag == "equal"@ {
        Some(BinOp::Equal)
    } else if tag == "Not equal"@ {
        Some(BinOp::NotEqual)
    } else if tag == "more_than"@ {
        Some(BinOp::MoreThan)
    } else if tag == "less_than"@ {
        Some(BinOp::LessThan)
    } else if tag == "or_more"@ {
        Some(BinOp::OrMore)
    } else if tag == "or_less"@ {
        Some(BinOp::OrLess)
    } else {
        None
    }
}

/// Every operator is found again by its own name.
pub proof fn lemma_operator_of_tag(op: BinOp)
    ensures
        operator_of(op.tag()) == Some(op),
{
    reveal_strlit("add");
    reveal_strlit("sub");
    reveal_strlit("mul");
    reveal_strlit("div");
    reveal_strlit("mod");
    reveal_strlit("or");
    reveal_strlit("and");
    reveal_strlit("xor");
    reveal_strlit("lor");
    reveal_strlit("land");
    reveal_strlit("lshift");
    reveal_strlit("rshift");
    reveal_strlit("rshifta");
    reveal_strlit("equal");
    reveal_strlit("Not equal");
    reveal_strlit("more_than");
    reveal_strlit("less_than");
    reveal_strlit("or_more");
    reveal_strlit("or_less");
    assert("add"@.len() == 3 && "add"@[0] == 'a' && "add"@[1] == 'd' && "add"@[2] == 'd');
    assert("sub"@.len() == 3 && "sub"@[0] == 's' && "sub"@[1] == 'u' && "sub"@[2] == 'b');
    assert("mul"@.len() == 3 && "mul"@[0] == 'm' && "mul"@[1] == 'u' && "mul"@[2] == 'l');
    assert("div"@.len() == 3 && "div"@[0] == 'd' && "div"@[1] == 'i' && "div"@[2] == 'v');
    assert("mod"@.len() == 3 && "mod"@[0] == 'm' && "mod"@[1] == 'o' && "mod"@[2] == 'd');
    assert("or"@.len() == 2 && "or"@[0] == 'o' && "or"@[1] == 'r');
    assert("and"@.len() == 3 && "and"@[0] == 'a' && "and"@[1] == 'n' && "and"@[2] == 'd');
    assert("xor"@.len() == 3 && "xor"@[0] == 'x' && "xor"@[1] == 'o' && "xor"@[2] == 'r');
    assert("lor"@.len() == 3 && "lor"@[0] == 'l' && "lor"@[1] == 'o' && "lor"@[2] == 'r');
    assert("land"@.len() == 4 && "land"@[0] == 'l' && "land"@[1] == 'a' &&
        "land"@[2] == 'n' && "land"@[3] == 'd');
    assert("lshift"@.len() == 6 && "lshift"@[0] == 'l' && "lshift"@[1] == 's' &&
        "lshift"@[2] == 'h' && "lshift"@[3] == 'i' && "lshift"@[4] == 'f' &&
        "lshift"@[5] == 't');
    assert("rshift"@.len() == 6 && "rshift"@[0] == 'r' && "rshift"@[1] == 's' &&
        "rshift"@[2] == 'h' && "rshift"@[3] == 'i' && "rshift"@[4] == 'f' &&
        "rshift"@[5] == 't');
    assert("rshifta"@.len() == 7 && "rshifta"@[0] == 'r' && "rshifta"@[1] == 's' &&
        "rshifta"@[2] == 'h' && "rshifta"@[3] == 'i' && "rshifta"@[4] == 'f' &&
        "rshifta"@[5] == 't' && "rshifta"@[6] == 'a');
    assert("equal"@.len() == 5 && "equal"@[0] == 'e' && "equal"@[1] == 'q' &&
        "equal"@[2] == 'u' && "equal"@[3] == 'a' && "equal"@[4] == 'l');
    assert("Not equal"@.len() == 9 && "Not equal"@[0] == 'N' && "Not equal"@[1] == 'o' &&
        "Not equal"@[2] == 't' && "Not equal"@[3] == ' ' && "Not equal"@[4] == 'e' &&
        "Not equal"@[5] == 'q' && "Not equal"@[6] == 'u' && "Not equal"@[7] == 'a' &&
        "Not equal"@[8] == 'l');
    assert("more_than"@.len() == 9 && "more_than"@[0] == 'm' && "more_than"@[1] == 'o' &&
        "more_than"@[2] == 'r' && "more_than"@[3] == 'e' && "more_than"@[4] == '_' &&
        "more_than"@[5] == 't' && "more_than"@[6] == 'h' && "more_than"@[7] == 'a' &&
        "more_than"@[8] == 'n');
    assert("less_than"@.len() == 9 && "less_than"@[0] == 'l' && "less_than"@[1] == 'e' &&
        "less_than"@[2] == 's' && "less_than"@[3] == 's' && "less_than"@[4] == '_' &&
        "less_than"@[5] == 't' && "less_than"@[6] == 'h' && "less_than"@[7] == 'a' &&
        "less_than"@[8] == 'n');
    assert("or_more"@.len() == 7 && "or_more"@[0] == 'o' && "or_more"@[1] == 'r' &&
        "or_more"@[2] == '_' && "or_more"@[3] == 'm' && "or_more"@[4] == 'o' &&
        "or_more"@[5] == 'r' && "or_more"@[6] == 'e');
    assert("or_less"@.len() == 7 && "or_less"@[0] == 'o' && "or_less"@[1] == 'r' &&
        "or_less"@[2] == '_' && "or_less"@[3] == 'l' && "or_less"@[4] == 'e' &&
        "or_less"@[5] == 's' && "or_less"@[6] == 's');
}

/// The two-operand operator that goes by the given name. A name that no
/// operator goes by is refused.
pub fn operator(tag: &str) -> (r: Result<BinOp, ModelError>)
    ensures
        match operator_of(tag@) {
            Some(op) => r == Ok::<BinOp, ModelError>(op),
            None => r matches Err(ModelError::UnknownOperator(t)) && t@ == tag@,
        },
{
    if same_text(tag, "add") {
        Ok(BinOp::Add)
    } else if same_text(tag, "sub") {
        Ok(BinOp::Sub)
    } else if same_text(tag, "mul") {
        Ok(BinOp::Mul)
    } else if same_text(tag, "div") {
        Ok(BinOp::Div)
    } else if same_text(tag, "mod") {
        Ok(BinOp::Mod)
    } else if same_text(tag, "or") {
        Ok(BinOp::Or)
    } else if same_text(tag, "and") {
        Ok(BinOp::And)
    } else if same_text(tag, "xor") {
        Ok(BinOp::Xor)
    } else if same_text(tag, "lor") {
        Ok(BinOp::LOr)
    } else if same_text(tag, "land") {
        Ok(BinOp::LAnd)
    } else if same_text(tag, "lshift") {
        Ok(BinOp::LShift)
    } else if same_text(tag, "rshift") {
        Ok(BinOp::RShift)
    } else if same_text(tag, "rshifta") {
        Ok(BinOp::RShiftA)
    } else if same_text(tag, "equal") {
        Ok(BinOp::Equal)
    } else if same_text(tag, "Not equal") {
        Ok(BinOp::NotEqual)
    } else if same_text(tag, "more_than") {
        Ok(BinOp::MoreThan)
    } else if same_text(tag, "less_than") {
        Ok(BinOp::LessThan)
    } else if same_text(tag, "or_more") {
        Ok(BinOp::OrMore)
    } else if same_text(tag, "or_less") {
        Ok(BinOp::OrLess)
    } else {
        Err(ModelError::UnknownOperator(String::from_str(tag)))
    }
}

/// The two-operand expression whose operator goes by the given name. A
/// name that no operator goes by is refused.
pub fn binary_by_name<T: Operand, U: Operand>(tag: &str, l: T, r: U) -> (out: Result<
    Box<E>,
    ModelError,
>)
    ensures
        match operator_of(tag@) {
            Some(op) => out is Ok && out->Ok_0@ == Ast::Binary(
                op,
                Box::new(l.ast()),
                Box::new(r.ast()),
            ),
            None => out matches Err(ModelError::UnknownOperator(t)) && t@ == tag@,
        },
{
    match operator(tag) {
        Ok(op) => Ok(binary(op, l, r)),
        Err(e) => Err(e),
    }
}

/// The part of a node that a selector letter names: `L` and `R` for the
/// sides of a two-operand expression or of an assignment; `D`, `T` and `F`
/// for the condition and the two values of a selection. Any other pair of
/// node and letter gives nothing.
pub open spec fn part_of(a: Ast, sel: Seq<char>) -> Ast {
    match a {
        Ast::Binary(_, l, r) => if sel == "L"@ {
            *l
        } else if sel == "R"@ {
            *r
        } else {
            Ast::Null
        },
        Ast::Ternary(d, t, f) => if sel == "D"@ {
            *d
        } else if sel == "T"@ {
            *t
        } else if sel == "F"@ {
            *f
        } else {
            Ast::Null
        },
        Ast::Assign(l, r) => if sel == "L"@ {
            *l
        } else if sel == "R"@ {
            *r
        } else {
            Ast::Null
        },
        _ => Ast::Null,
    }
}

/// The name that a node is known by: an identifier's name, a two-operand
/// expression's operator name, and `Null` for every other node.
pub open spec fn name_of(a: Ast) -> Seq<char> {
    match a {
        Ast::Ident(s) => s.name,
        Ast::Binary(op, _, _) => op.tag(),
        _ => "Null"@,
    }
}

/// The number that a node carries: an identifier's width, a constant's
/// value, and zero for every other node.
pub open spec fn number_of(a: Ast) -> int {
    match a {
        Ast::Ident(s) => s.width,
        Ast::Const(n) => n,
        _ => 0,
    }
}

/// Takes a node apart: the part that the selector letter names.
pub fn _Decomp<T: Operand>(e: T, sel: &str) -> (r: Box<E>)
    ensures
        r@ == part_of(e.ast(), sel@),
{
    let m = e.expr();
    match *m {
        E::Bin(_, l, r) => {
            if same_text(sel, "L") {
                l
            } else if same_text(sel, "R") {
                r
            } else {
                Box::new(E::Null)
            }
        },
        E::PL(d, t, f) => {
            if same_text(sel, "D") {
                d
            } else if same_text(sel, "T") {
                t
            } else if same_text(sel, "F") {
                f
            } else {
                Box::new(E::Null)
            }
        },
        E::SB(l, r) => {
            if same_text(sel, "L") {
                l
            } else if same_text(sel, "R") {
                r
            } else {
                Box::new(E::Null)
            }
        },
        _ => Box::new(E::Null),
    }
}

/// The name that a node is known by.
pub fn _StrOut<T: Operand>(e: T) -> (r: String)
    ensures
        r@ == name_of(e.ast()),
{
    let m = e.expr();
    match *m {
        E::Ldc(w) => w.name,
        E::Bin(op, _, _) => String::from_str(op.tag_text()),
        _ => String::from_str("Null"),
    }
}

/// The number that a node carries.
pub fn _NumOut<T: Operand>(e: T) -> (r: i32)
    ensures
        r == number_of(e.ast()),
{
    let m = e.expr();
    match *m {
        E::Ldc(w) => w.width,
        E::Num(i) => i,
        _ => 0,
    }
}

/// The name that a node is known by, read in place.
pub fn name_text(e: &E) -> (r: String)
    ensures
        r@ == name_of(e@),
{
    match e {
        E::Ldc(w) => w.name.clone(),
        E::Bin(op, _, _) => String::from_str(op.tag_text()),
        _ => String::from_str("Null"),
    }
}

} // verus!
