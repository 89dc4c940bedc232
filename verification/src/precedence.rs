//! Reading arithmetic text back: the grouping that the usual precedence of
//! `+ - * / %` gives to a text, and the law that the renderer's text keeps
//! the grouping of the tree it was made from.
use vstd::prelude::*;
use crate::ast::{Ast, BinOp};
use crate::render::text;
use crate::text::{decimal, digits};

verus! {

/// The grouping of an arithmetic expression: atoms, and operators applied
/// to two groups.
pub enum Shape {
    Atom(Seq<char>),
    Op(BinOp, Box<Shape>, Box<Shape>),
}

/// A letter, a digit or an underscore.
pub open spec fn is_word_char(c: char) -> bool {
    ('a' <= c && c <= 'z') || ('A' <= c && c <= 'Z') || ('0' <= c && c <= '9') || c == '_'
}

/// A name that reads back as one atom: one or more letters, digits and
/// underscores.
pub open spec fn is_word(name: Seq<char>) -> bool {
    name.len() > 0 && forall|i: int| 0 <= i < name.len() ==> is_word_char(#[trigger] name[i])
}

/// A text that reads back as one atom: a word, with or without a sign
/// before it.
pub open spec fn is_atom_text(t: Seq<char>) -> bool {
    if t.len() > 0 && t[0] == '-' {
        is_word(t.subrange(1, t.len() as int))
    } else {
        is_word(t)
    }
}

/// The operator that binds tightly and is written with the given
/// character, if there is one.
pub open spec fn tight_op(c: char) -> Option<BinOp> {
    if c == '*' {
        Some(BinOp::Mul)
    } else if c == '/' {
        Some(BinOp::Div)
    } else if c == '%' {
        Some(BinOp::Mod)
    } else {
        None
    }
}

/// The operator that binds loosely and is written with the given
/// character, if there is one.
pub open spec fn loose_op(c: char) -> Option<BinOp> {
    if c == '+' {
        Some(BinOp::Add)
    } else if c == '-' {
        Some(BinOp::Sub)
    } else {
        None
    }
}

/// Where the run of word characters that starts at `i` ends.
pub open spec fn word_end(s: Seq<char>, i: int) -> int
    decreases s.len() - i,
{
    if 0 <= i < s.len() && is_word_char(s[i]) {
        word_end(s, i + 1)
    } else {
        i
    }
}

/// Reads a factor at `i`: a group in parentheses, or an atom, which is a
/// run of word characters with or without a sign before it. Gives the
/// group and the place after it.
pub open spec fn parse_factor(s: Seq<char>, i: int) -> Option<(Shape, int)>
    decreases s.len() - i, 0int,
{
    if !(0 <= i < s.len()) {
        None
    } else if s[i] == '(' {
        match parse_sum(s, i + 1) {
            Some((e, j)) => if 0 <= j < s.len() && s[j] == ')' {
                Some((e, j + 1))
            } else {
                None
            },
            None => None,
        }
    } else {
        let from = if s[i] == '-' {
            i + 1
        } else {
            i
        };
        let j = word_end(s, from);
        if j > from {
            Some((Shape::Atom(s.subrange(i, j)), j))
        } else {
            None
        }
    }
}

/// Reads on after a product: as long as a tightly binding operator
/// follows, the factor after it joins the group on the left.
pub open spec fn parse_product_rest(s: Seq<char>, i: int, acc: Shape) -> Option<(Shape, int)>
    decreases s.len() - i, 1int,
{
    if 0 <= i < s.len() && tight_op(s[i]) is Some {
        match parse_factor(s, i + 1) {
            Some((rhs, j)) => if i < j <= s.len() {
                parse_product_rest(
                    s,
                    j,
                    Shape::Op(tight_op(s[i])->Some_0, Box::new(acc), Box::new(rhs)),
                )
            } else {
                None
            },
            None => None,
        }
    } else {
        Some((acc, i))
    }
}

/// Reads a product at `i`: factors joined by `*`, `/` and `%`, grouped
/// from the left.
pub open spec fn parse_product(s: Seq<char>, i: int) -> Option<(Shape, int)>
    decreases s.len() - i, 2int,
{
    match parse_factor(s, i) {
        Some((lhs, j)) => if i <= j <= s.len() {
            parse_product_rest(s, j, lhs)
        } else {
            None
        },
        None => None,
    }
}

/// Reads on after a sum: as long as a loosely binding operator follows,
/// the product after it joins the group on the left.
pub open spec fn parse_sum_rest(s: Seq<char>, i: int, acc: Shape) -> Option<(Shape, int)>
    decreases s.len() - i, 3int,
{
    if 0 <= i < s.len() && loose_op(s[i]) is Some {
        match parse_product(s, i + 1) {
            Some((rhs, j)) => if i < j <= s.len() {
                parse_sum_rest(
                    s,
                    j,
                    Shape::Op(loose_op(s[i])->Some_0, Box::new(acc), Box::new(rhs)),
                )
            } else {
                None
            },
            None => None,
        }
    } else {
        Some((acc, i))
    }
}

/// Reads a sum at `i`: products joined by `+` and `-`, grouped from the
/// left.
pub open spec fn parse_sum(s: Seq<char>, i: int) -> Option<(Shape, int)>
    decreases s.len() - i, 4int,
{
    match parse_product(s, i) {
        Some((lhs, j)) => if i <= j <= s.len() {
            parse_sum_rest(s, j, lhs)
        } else {
            None
        },
        None => None,
    }
}

/// The grouping that the usual precedence gives to a text: `*`, `/` and
/// `%` bind tighter than `+` and `-`, operators of one level group from
/// the left, and parentheses group what they hold. Nothing where the text
/// is no arithmetic expression.
pub open spec fn parse(s: Seq<char>) -> Option<Shape> {
    match parse_sum(s, 0) {
        Some((e, j)) => if j == s.len() {
            Some(e)
        } else {
            None
        },
        None => None,
    }
}

/// The grouping of a tree of `+ - * / %` over identifiers and constants.
pub open spec fn shape_of(a: Ast) -> Shape
    decreases a,
{
    match a {
        Ast::Ident(s) => Shape::Atom(s.name),
        Ast::Const(n) => Shape::Atom(decimal(n)),
        Ast::Binary(op, l, r) => Shape::Op(op, Box::new(shape_of(*l)), Box::new(shape_of(*r))),
        _ => Shape::Atom(Seq::empty()),
    }
}

/// An addition or a subtraction.
pub open spec fn is_sum(a: Ast) -> bool {
    a matches Ast::Binary(op, _, _) && (op == BinOp::Add || op == BinOp::Sub)
}

/// A multiplication, a division or a remainder.
pub open spec fn is_product(a: Ast) -> bool {
    a matches Ast::Binary(op, _, _) && op.binds_tight()
}

/// The trees of `+ - * / %` whose text reads back with their own
/// grouping. The leaves are constants and identifiers whose names read
/// back as one atom. The renderer puts parentheses only round a sum that
/// is the
/// right operand of a product, so every other operand must be one that
/// needs none: the right operand of a sum is no sum, the left operand of
/// a product is no sum, and the right operand of a product is no product.
pub open spec fn keeps_grouping(a: Ast) -> bool
    decreases a,
{
    match a {
        Ast::Ident(s) => is_atom_text(s.name),
        Ast::Const(_) => true,
        Ast::Binary(op, l, r) => keeps_grouping(*l) && keeps_grouping(*r) && (if op
            == BinOp::Add || op == BinOp::Sub {
            !is_sum(*r)
        } else if op.binds_tight() {
            !is_sum(*l) && !is_product(*r)
        } else {
            false
        }),
        _ => false,
    }
}

/// The text `t` stands in `s` at `i`.
pub open spec fn holds_at(s: Seq<char>, i: int, t: Seq<char>) -> bool {
    0 <= i && i + t.len() <= s.len() && s.subrange(i, i + t.len()) == t
}

/// No word goes on at `k`.
pub open spec fn ends_word(s: Seq<char>, k: int) -> bool {
    k >= s.len() || (0 <= k && !is_word_char(s[k]))
}

/// No word and no product goes on at `k`.
pub open spec fn ends_product(s: Seq<char>, k: int) -> bool {
    k >= s.len() || (0 <= k && !is_word_char(s[k]) && tight_op(s[k]) is None)
}

proof fn lemma_word_end(s: Seq<char>, i: int, k: int)
    requires
        0 <= i <= k <= s.len(),
        forall|x: int| i <= x < k ==> is_word_char(#[trigger] s[x]),
        ends_word(s, k),
    ensures
        word_end(s, i) == k,
    decreases k - i,
{
    if i < k {
        lemma_word_end(s, i + 1, k);
    }
}

proof fn lemma_digits_are_word(n: nat)
    ensures
        is_word(digits(n)),
    decreases n,
{
    if n >= 10 {
        lemma_digits_are_word(n / 10);
        let d = digits(n);
        assert forall|i: int| 0 <= i < d.len() implies is_word_char(#[trigger] d[i]) by {
            if i < d.len() - 1 {
                assert(d[i] == digits(n / 10)[i]);
            }
        }
    }
}

/// The text of a tree of two operands, at no indentation: the operands
/// with the operator between them, in parentheses where they were asked
/// for.
proof fn lemma_binary_layout(op: BinOp, l: Ast, r: Ast, paren: bool, blocking: bool)
    ensures
        text(Ast::Binary(op, Box::new(l), Box::new(r)), paren, blocking, 0) == (if paren
            && op.binds_loose() {
            seq!['(']
        } else {
            Seq::empty()
        }) + text(l, false, blocking, 0) + op.symbol() + text(r, op.binds_tight(), blocking, 0)
            + (if paren && op.binds_loose() {
            seq![')']
        } else {
            Seq::empty()
        }),
{
    reveal_strlit("(");
    reveal_strlit(")");
    assert("("@ =~= seq!['(']);
    assert(")"@ =~= seq![')']);
    let whole = text(Ast::Binary(op, Box::new(l), Box::new(r)), paren, blocking, 0);
    let flat = (if paren && op.binds_loose() {
        seq!['(']
    } else {
        Seq::empty()
    }) + text(l, false, blocking, 0) + op.symbol() + text(r, op.binds_tight(), blocking, 0) + (
    if paren && op.binds_loose() {
        seq![')']
    } else {
        Seq::empty()
    });
    assert(crate::text::pad(0) =~= Seq::<char>::empty());
    assert(whole =~= flat);
}

proof fn lemma_decimal_is_atom_text(n: int)
    ensures
        is_atom_text(decimal(n)),
{
    if n < 0 {
        let d = digits((-n) as nat);
        lemma_digits_are_word((-n) as nat);
        assert(decimal(n).subrange(1, decimal(n).len() as int) =~= d);
    } else {
        lemma_digits_are_word(n as nat);
        assert(is_word_char(decimal(n)[0]));
    }
}

/// An atom reads back as itself.
proof fn lemma_atom(a: Ast, paren: bool, blocking: bool, s: Seq<char>, i: int)
    requires
        keeps_grouping(a),
        !(a is Binary),
        holds_at(s, i, text(a, paren, blocking, 0)),
        ends_word(s, i + text(a, paren, blocking, 0).len()),
    ensures
        parse_factor(s, i) == Some((shape_of(a), i + text(a, paren, blocking, 0).len())),
{
    let t = text(a, paren, blocking, 0);
    let k = i + t.len();
    match a {
        Ast::Const(n) => {
            lemma_decimal_is_atom_text(n);
        },
        _ => {},
    }
    assert(is_atom_text(t));
    assert forall|x: int| i <= x < k implies s[x] == t[x - i] by {
        assert(s.subrange(i, k)[x - i] == s[x]);
    }
    assert(s[i] == t[0]);
    if t[0] == '-' {
        let body = t.subrange(1, t.len() as int);
        assert forall|x: int| i + 1 <= x < k implies is_word_char(#[trigger] s[x]) by {
            assert(s[x] == t[x - i]);
            assert(t[x - i] == body[x - i - 1]);
        }
        lemma_word_end(s, i + 1, k);
    } else {
        assert(is_word_char(t[0]));
        assert forall|x: int| i <= x < k implies is_word_char(#[trigger] s[x]) by {
            assert(s[x] == t[x - i]);
        }
        lemma_word_end(s, i, k);
    }
}

/// A tree that is no sum reads back as a product that can go on.
proof fn lemma_product(a: Ast, blocking: bool, s: Seq<char>, i: int)
    requires
        keeps_grouping(a),
        !is_sum(a),
        holds_at(s, i, text(a, false, blocking, 0)),
        ends_word(s, i + text(a, false, blocking, 0).len()),
    ensures
        parse_product(s, i) == parse_product_rest(
            s,
            i + text(a, false, blocking, 0).len(),
            shape_of(a),
        ),
    decreases a, 1int,
{
    let t = text(a, false, blocking, 0);
    match a {
        Ast::Binary(op, l, r) => {
            lemma_binary_layout(op, *l, *r, false, blocking);
            let tl = text(*l, false, blocking, 0);
            let tr = text(*r, true, blocking, 0);
            let sym = op.symbol();
            assert(t =~= tl + sym + tr);
            assert(sym.len() == 1);
            let q = i + tl.len();
            assert(s.subrange(i, q) =~= tl) by {
                assert(s.subrange(i, i + t.len()).subrange(0, tl.len() as int) =~= s.subrange(
                    i,
                    q,
                ));
            }
            assert(s[q] == sym[0]) by {
                assert(s.subrange(i, i + t.len())[tl.len() as int] == s[q]);
            }
            assert(s.subrange(q + 1, q + 1 + tr.len()) =~= tr) by {
                assert(s.subrange(i, i + t.len()).subrange(
                    (tl.len() + 1) as int,
                    t.len() as int,
                ) =~= s.subrange(q + 1, q + 1 + tr.len()));
            }
            assert(tight_op(s[q]) == Some(op));
            lemma_product(*l, blocking, s, i);
            lemma_factor(*r, blocking, s, q + 1);
        },
        _ => {
            lemma_atom(a, false, blocking, s, i);
        },
    }
}

/// A tree that is no product reads back, as the right operand of a
/// product, as one factor.
proof fn lemma_factor(a: Ast, blocking: bool, s: Seq<char>, i: int)
    requires
        keeps_grouping(a),
        !is_product(a),
        holds_at(s, i, text(a, true, blocking, 0)),
        ends_word(s, i + text(a, true, blocking, 0).len()),
    ensures
        parse_factor(s, i) == Some((shape_of(a), i + text(a, true, blocking, 0).len())),
    decreases a, 3int,
{
    let t = text(a, true, blocking, 0);
    match a {
        Ast::Binary(op, l, r) => {
            lemma_binary_layout(op, *l, *r, true, blocking);
            lemma_binary_layout(op, *l, *r, false, blocking);
            let inner = text(a, false, blocking, 0);
            assert(inner =~= text(*l, false, blocking, 0) + op.symbol() + text(
                *r,
                op.binds_tight(),
                blocking,
                0,
            ));
            assert(t =~= seq!['('] + inner + seq![')']);
            let k = i + 1 + inner.len();
            assert(s[i] == '(') by {
                assert(s.subrange(i, i + t.len())[0] == s[i]);
            }
            assert(s[k] == ')') by {
                assert(s.subrange(i, i + t.len())[(1 + inner.len()) as int] == s[k]);
            }
            assert(s.subrange(i + 1, k) =~= inner) by {
                assert(s.subrange(i, i + t.len()).subrange(1, (1 + inner.len()) as int)
                    =~= s.subrange(i + 1, k));
            }
            lemma_sum(a, blocking, s, i + 1);
        },
        _ => {
            lemma_atom(a, true, blocking, s, i);
        },
    }
}

/// A tree reads back as a sum that can go on.
proof fn lemma_sum(a: Ast, blocking: bool, s: Seq<char>, i: int)
    requires
        keeps_grouping(a),
        holds_at(s, i, text(a, false, blocking, 0)),
        ends_product(s, i + text(a, false, blocking, 0).len()),
    ensures
        parse_sum(s, i) == parse_sum_rest(s, i + text(a, false, blocking, 0).len(), shape_of(a)),
    decreases a, 2int,
{
    let t = text(a, false, blocking, 0);
    if is_sum(a) {
        match a {
            Ast::Binary(op, l, r) => {
                lemma_binary_layout(op, *l, *r, false, blocking);
                let tl = text(*l, false, blocking, 0);
                let tr = text(*r, false, blocking, 0);
                let sym = op.symbol();
                assert(t =~= tl + sym + tr);
                assert(sym.len() == 1);
                let q = i + tl.len();
                let k = i + t.len();
                assert(s.subrange(i, q) =~= tl) by {
                    assert(s.subrange(i, k).subrange(0, tl.len() as int) =~= s.subrange(i, q));
                }
                assert(s[q] == sym[0]) by {
                    assert(s.subrange(i, k)[tl.len() as int] == s[q]);
                }
                assert(s.subrange(q + 1, k) =~= tr) by {
                    assert(s.subrange(i, k).subrange((tl.len() + 1) as int, t.len() as int)
                        =~= s.subrange(q + 1, k));
                }
                assert(loose_op(s[q]) == Some(op));
                lemma_sum(*l, blocking, s, i);
                lemma_product(*r, blocking, s, q + 1);
                assert(parse_product_rest(s, k, shape_of(*r)) == Some((shape_of(*r), k)));
            },
            _ => {},
        }
    } else {
        lemma_product(a, blocking, s, i);
        let k = i + t.len();
        assert(parse_product_rest(s, k, shape_of(a)) == Some((shape_of(a), k)));
    }
}

/// The text of a tree of `+ - * / %`, read back under the usual
/// precedence of these operators, has the grouping of the tree.
///
/// This is said of the trees that `keeps_grouping` admits. On any other
/// tree of these operators the text reads back with another grouping, or
/// not at all.
pub proof fn lemma_text_keeps_grouping(a: Ast, blocking: bool)
    requires
        keeps_grouping(a),
    ensures
        parse(text(a, false, blocking, 0)) == Some(shape_of(a)),
{
    let t = text(a, false, blocking, 0);
    assert(t.subrange(0, t.len() as int) =~= t);
    lemma_sum(a, blocking, t, 0);
}

} // verus!
