//! The mathematical model of declarations, expressions and statements. The
//! executable types of this crate are viewed as values of these types, and
//! every contract is stated over them.
use vstd::prelude::*;

verus! {

/// The role of a declared identifier.
#[derive(Clone, Copy, Debug, PartialEq, Eq, Structural)]
pub enum IOType {
    Input,
    Output,
    InOut,
    Param,
    /// Neither a port nor a parameter: a wire, register or memory inside
    /// the unit.
    Local,
}

/// The operator of a two-operand expression.
#[derive(Clone, Copy, Debug, PartialEq, Eq, Structural)]
pub enum BinOp {
    Add,
    Sub,
    Mul,
    Div,
    Mod,
    Or,
    And,
    Xor,
    LOr,
    LAnd,
    LShift,
    RShift,
    RShiftA,
    Equal,
    NotEqual,
    /// The right operand is more than the left one; written `<`.
    MoreThan,
    /// The right operand is less than the left one; written `>`.
    LessThan,
    /// The right operand is as much as the left one or more; written `<=`.
    OrMore,
    /// The right operand is as much as the left one or less; written `>=`.
    OrLess,
}

/// The operator of a reduction over the bits of one operand.
#[derive(Clone, Copy, Debug, PartialEq, Eq, Structural)]
pub enum RedOp {
    And,
    Or,
    Xor,
    Nand,
    Nor,
    Xnor,
}

/// A declared identifier: its name, role and sizes.
pub struct Signal {
    pub name: Seq<char>,
    pub role: IOType,
    pub width: int,
    pub length: int,
    pub registered: bool,
    pub value: int,
    pub width_param: Seq<char>,
    pub length_param: Seq<char>,
}

/// An expression or statement.
pub enum Ast {
    /// Nothing; stands for an absent condition or label.
    Null,
    Ident(Signal),
    Const(int),
    Not(Box<Ast>),
    Reduce(RedOp, Box<Ast>),
    Binary(BinOp, Box<Ast>, Box<Ast>),
    /// Condition, value if true, value if false.
    Ternary(Box<Ast>, Box<Ast>, Box<Ast>),
    /// Target and value.
    Assign(Box<Ast>, Box<Ast>),
    Case(CaseBlock),
    Branch(Seq<Arm>),
    /// Callee and arguments.
    Call(Box<Ast>, Seq<Ast>),
    /// Base and address.
    Index(Box<Ast>, Box<Ast>),
    /// Base, high bit and low bit.
    Slice(Box<Ast>, Box<Ast>, Box<Ast>),
    /// A bare label; it has no text.
    Tag(Seq<char>),
}

/// One entry of a branch chain. An entry with `is_if` is an `if` or
/// `else if` with its condition; one without is the closing `else`.
pub struct Arm {
    pub is_if: bool,
    pub cond: Ast,
    pub body: Seq<Ast>,
}

/// A case statement: the identifier it selects on and its clauses.
pub struct CaseBlock {
    pub selector: Signal,
    pub clauses: Seq<Clause>,
}

/// One clause of a case statement. The label `Ast::Null` marks the default
/// clause.
pub struct Clause {
    pub label: Ast,
    pub body: Seq<Ast>,
}

/// The signal that a fresh declaration starts from.
pub open spec fn blank_signal() -> Signal {
    Signal {
        name: "none"@,
        role: IOType::Local,
        width: 0,
        length: 0,
        registered: false,
        value: 0,
        width_param: "_"@,
        length_param: "_"@,
    }
}

/// A chain is open while it holds no `else` entry: only then can it be
/// continued.
pub open spec fn chain_open(arms: Seq<Arm>) -> bool {
    arms.len() == 0 || arms.last().is_if
}

/// In a branch chain every entry but the last is an `if` or `else if`, so
/// an `else`, if there is one, is the single last entry.
pub open spec fn chain_ok(arms: Seq<Arm>) -> bool {
    forall|i: int| 0 <= i < arms.len() - 1 ==> (#[trigger] arms[i]).is_if
}

/// Whether a case statement holds a default clause.
pub open spec fn has_default(clauses: Seq<Clause>) -> bool {
    exists|i: int| 0 <= i < clauses.len() && (#[trigger] clauses[i]).label is Null
}

/// A case statement holds at most one default clause.
pub open spec fn clauses_ok(clauses: Seq<Clause>) -> bool {
    forall|i: int, j: int|
        0 <= i < clauses.len() && 0 <= j < clauses.len() && (#[trigger] clauses[i]).label is Null
            && (#[trigger] clauses[j]).label is Null ==> i == j
}

/// Every branch chain and every case statement in the tree keeps its rule.
pub open spec fn well_formed(a: Ast) -> bool
    decreases a,
{
    match a {
        Ast::Null | Ast::Ident(_) | Ast::Const(_) | Ast::Tag(_) => true,
        Ast::Not(x) => well_formed(*x),
        Ast::Reduce(_, x) => well_formed(*x),
        Ast::Binary(_, l, r) => well_formed(*l) && well_formed(*r),
        Ast::Ternary(c, t, f) => well_formed(*c) && well_formed(*t) && well_formed(*f),
        Ast::Assign(l, r) => well_formed(*l) && well_formed(*r),
        Ast::Index(b, i) => well_formed(*b) && well_formed(*i),
        Ast::Slice(b, h, l) => well_formed(*b) && well_formed(*h) && well_formed(*l),
        Ast::Call(f, args) => well_formed(*f) && all_well_formed(args),
        Ast::Branch(arms) => chain_ok(arms) && forall|i: int|
            0 <= i < arms.len() ==> well_formed((#[trigger] arms[i]).cond) && all_well_formed(
                arms[i].body,
            ),
        Ast::Case(c) => clauses_ok(c.clauses) && forall|i: int|
            0 <= i < c.clauses.len() ==> well_formed((#[trigger] c.clauses[i]).label)
                && all_well_formed(c.clauses[i].body),
    }
}

/// Every statement of a list is well formed.
pub open spec fn all_well_formed(items: Seq<Ast>) -> bool
    decreases items,
{
    forall|i: int| 0 <= i < items.len() ==> well_formed(#[trigger] items[i])
}

impl BinOp {
    /// The operator as it is written in the emitted text.
    pub open spec fn symbol(self) -> Seq<char> {
        match self {
            BinOp::Add => seq!['+'],
            BinOp::Sub => seq!['-'],
            BinOp::Mul => seq!['*'],
            BinOp::Div => seq!['/'],
            BinOp::Mod => seq!['%'],
            BinOp::Or => seq!['|'],
            BinOp::And => seq!['&'],
            BinOp::Xor => seq!['^'],
            BinOp::LOr => seq!['|', '|'],
            BinOp::LAnd => seq!['&', '&'],
            BinOp::LShift => seq!['<', '<'],
            BinOp::RShift => seq!['>', '>'],
            BinOp::RShiftA => seq!['>', '>', '>'],
            BinOp::Equal => seq!['=', '='],
            BinOp::NotEqual => seq!['!', '='],
            BinOp::MoreThan => seq!['<'],
            BinOp::LessThan => seq!['>'],
            BinOp::OrMore => seq!['<', '='],
            BinOp::OrLess => seq!['>', '='],
        }
    }

    /// The name under which the operator is reported by `_StrOut`.
    pub open spec fn tag(self) -> Seq<char> {
        match self {
            BinOp::Add => "add"@,
            BinOp::Sub => "sub"@,
            BinOp::Mul => "mul"@,
            BinOp::Div => "div"@,
            BinOp::Mod => "mod"@,
            BinOp::Or => "or"@,
            BinOp::And => "and"@,
            BinOp::Xor => "xor"@,
            BinOp::LOr => "lor"@,
            BinOp::LAnd => "land"@,
            BinOp::LShift => "lshift"@,
            BinOp::RShift => "rshift"@,
            BinOp::RShiftA => "rshifta"@,
            BinOp::Equal => "equal"@,
            BinOp::NotEqual => "Not equal"@,
            BinOp::MoreThan => "more_than"@,
            BinOp::LessThan => "less_than"@,
            BinOp::OrMore => "or_more"@,
            BinOp::OrLess => "or_less"@,
        }
    }

    /// Multiplication, division and remainder: the operators that ask for
    /// parentheses round a loosely binding right operand.
    pub open spec fn binds_tight(self) -> bool {
        self == BinOp::Mul || self == BinOp::Div || self == BinOp::Mod
    }

    /// Addition, subtraction and the two forms of `or`: the operators that
    /// are put in parentheses as the right operand of a tightly binding one.
    pub open spec fn binds_loose(self) -> bool {
        self == BinOp::Add || self == BinOp::Sub || self == BinOp::Or || self == BinOp::LOr
    }
}

impl BinOp {
    /// The operator as it is written in the emitted text.
    pub fn symbol_text(self) -> (r: &'static str)
        ensures
            r@ == self.symbol(),
    {
        proof {
            reveal_strlit("+");
            reveal_strlit("-");
            reveal_strlit("*");
            reveal_strlit("/");
            reveal_strlit("%");
            reveal_strlit("|");
            reveal_strlit("&");
            reveal_strlit("^");
            reveal_strlit("||");
            reveal_strlit("&&");
            reveal_strlit("<<");
            reveal_strlit(">>");
            reveal_strlit(">>>");
            reveal_strlit("==");
            reveal_strlit("!=");
            reveal_strlit("<");
            reveal_strlit(">");
            reveal_strlit("<=");
            reveal_strlit(">=");
        }
        let r = match self {
            BinOp::Add => "+",
            BinOp::Sub => "-",
            BinOp::Mul => "*",
            BinOp::Div => "/",
            BinOp::Mod => "%",
            BinOp::Or => "|",
            BinOp::And => "&",
            BinOp::Xor => "^",
            BinOp::LOr => "||",
            BinOp::LAnd => "&&",
            BinOp::LShift => "<<",
            BinOp::RShift => ">>",
            BinOp::RShiftA => ">>>",
            BinOp::Equal => "==",
            BinOp::NotEqual => "!=",
            BinOp::MoreThan => "<",
            BinOp::LessThan => ">",
            BinOp::OrMore => "<=",
            BinOp::OrLess => ">=",
        };
        assert(r@ =~= self.symbol());
        r
    }

    /// The name under which the operator is reported by `_StrOut`.
    pub fn tag_text(self) -> (r: &'static str)
        ensures
            r@ == self.tag(),
    {
        match self {
            BinOp::Add => "add",
            BinOp::Sub => "sub",
            BinOp::Mul => "mul",
            BinOp::Div => "div",
            BinOp::Mod => "mod",
            BinOp::Or => "or",
            BinOp::And => "and",
            BinOp::Xor => "xor",
            BinOp::LOr => "lor",
            BinOp::LAnd => "land",
            BinOp::LShift => "lshift",
            BinOp::RShift => "rshift",
            BinOp::RShiftA => "rshifta",
            BinOp::Equal => "equal",
            BinOp::NotEqual => "Not equal",
            BinOp::MoreThan => "more_than",
            BinOp::LessThan => "less_than",
            BinOp::OrMore => "or_more",
            BinOp::OrLess => "or_less",
        }
    }

    /// Whether the operator is multiplication, division or remainder.
    pub fn is_tight(self) -> (r: bool)
        ensures
            r == self.binds_tight(),
    {
        match self {
            BinOp::Mul | BinOp::Div | BinOp::Mod => true,
            _ => false,
        }
    }

    /// Whether the operator is addition, subtraction or a form of `or`.
    pub fn is_loose(self) -> (r: bool)
        ensures
            r == self.binds_loose(),
    {
        match self {
            BinOp::Add | BinOp::Sub | BinOp::Or | BinOp::LOr => true,
            _ => false,
        }
    }
}

impl RedOp {
    /// The operator as it is written in the emitted text.
    pub fn symbol_text(self) -> (r: &'static str)
        ensures
            r@ == self.symbol(),
    {
        proof {
            reveal_strlit("&");
            reveal_strlit("|");
            reveal_strlit("^");
            reveal_strlit("~&");
            reveal_strlit("~|");
            reveal_strlit("~^");
        }
        let r = match self {
            RedOp::And => "&",
            RedOp::Or => "|",
            RedOp::Xor => "^",
            RedOp::Nand => "~&",
            RedOp::Nor => "~|",
            RedOp::Xnor => "~^",
        };
        assert(r@ =~= self.symbol());
        r
    }

    /// The operator as it is written in the emitted text.
    pub open spec fn symbol(self) -> Seq<char> {
        match self {
            RedOp::And => seq!['&'],
            RedOp::Or => seq!['|'],
            RedOp::Xor => seq!['^'],
            RedOp::Nand => seq!['~', '&'],
            RedOp::Nor => seq!['~', '|'],
            RedOp::Xnor => seq!['~', '^'],
        }
    }
}

} // verus!
