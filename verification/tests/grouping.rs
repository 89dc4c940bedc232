use verugent::builder::{_Add, _Div, _Mod, _Mul, _Num, _Sub};
use verugent::expr::E;
use verugent::render::decomp_ast;
use verugent::signal::WireVar;

#[derive(Debug, Clone, PartialEq)]
enum Group {
    Atom(String),
    Op(char, Box<Group>, Box<Group>),
}

fn atom(text: &str) -> Group {
    Group::Atom(text.to_string())
}

fn op(symbol: char, l: Group, r: Group) -> Group {
    Group::Op(symbol, Box::new(l), Box::new(r))
}

fn is_word(c: char) -> bool {
    c.is_ascii_alphanumeric() || c == '_'
}

fn factor(s: &[char], i: usize) -> Option<(Group, usize)> {
    if i >= s.len() {
        return None;
    }
    if s[i] == '(' {
        let (e, j) = sum(s, i + 1)?;
        if j < s.len() && s[j] == ')' {
            return Some((e, j + 1));
        }
        return None;
    }
    let from = if s[i] == '-' { i + 1 } else { i };
    let mut j = from;
    while j < s.len() && is_word(s[j]) {
        j += 1;
    }
    if j > from {
        Some((Group::Atom(s[i..j].iter().collect()), j))
    } else {
        None
    }
}

fn product(s: &[char], i: usize) -> Option<(Group, usize)> {
    let (mut acc, mut j) = factor(s, i)?;
    while j < s.len() && (s[j] == '*' || s[j] == '/' || s[j] == '%') {
        let (rhs, k) = factor(s, j + 1)?;
        acc = op(s[j], acc, rhs);
        j = k;
    }
    Some((acc, j))
}

fn sum(s: &[char], i: usize) -> Option<(Group, usize)> {
    let (mut acc, mut j) = product(s, i)?;
    while j < s.len() && (s[j] == '+' || s[j] == '-') {
        let (rhs, k) = product(s, j + 1)?;
        acc = op(s[j], acc, rhs);
        j = k;
    }
    Some((acc, j))
}

fn read_back(text: &str) -> Option<Group> {
    let chars: Vec<char> = text.chars().collect();
    let (e, j) = sum(&chars, 0)?;
    if j == chars.len() {
        Some(e)
    } else {
        None
    }
}

fn id(name: &str) -> Box<E> {
    let mut w = WireVar::new();
    w.wire(name, 1)
}

fn show(e: &E) -> String {
    decomp_ast(false, e, "", 0)
}

#[test]
fn text_reads_back_with_the_grouping_of_the_tree() {
    let a = id("a");
    let b = id("b");
    let c = id("c_1");
    let d = id("D");
    let cases: Vec<(Box<E>, Group)> = vec![
        (a.clone(), atom("a")),
        (_Num(42), atom("42")),
        (_Num(-7), atom("-7")),
        (_Add(&a, &b), op('+', atom("a"), atom("b"))),
        (
            _Sub(_Add(&a, &b), &c),
            op('-', op('+', atom("a"), atom("b")), atom("c_1")),
        ),
        (
            _Add(&a, _Mul(&b, &c)),
            op('+', atom("a"), op('*', atom("b"), atom("c_1"))),
        ),
        (
            _Mul(&a, _Add(&b, &c)),
            op('*', atom("a"), op('+', atom("b"), atom("c_1"))),
        ),
        (
            _Mod(_Div(_Mul(&a, &b), &c), &d),
            op('%', op('/', op('*', atom("a"), atom("b")), atom("c_1")), atom("D")),
        ),
        (
            _Sub(_Mul(&a, _Sub(&b, _Mul(&c, _Add(&d, 1)))), _Div(&a, _Num(-2))),
            op(
                '-',
                op(
                    '*',
                    atom("a"),
                    op('-', atom("b"), op('*', atom("c_1"), op('+', atom("D"), atom("1")))),
                ),
                op('/', atom("a"), atom("-2")),
            ),
        ),
        (_Sub(&a, _Num(-1)), op('-', atom("a"), atom("-1"))),
    ];
    for (tree, grouping) in cases {
        assert_eq!(read_back(&show(&tree)), Some(grouping), "{}", show(&tree));
    }
}

#[test]
fn operands_that_would_need_more_parentheses_read_back_regrouped() {
    let a = id("a");
    let b = id("b");
    let c = id("c");
    assert_eq!(
        read_back(&show(&_Mul(_Add(&a, &b), &c))),
        Some(op('+', atom("a"), op('*', atom("b"), atom("c"))))
    );
    assert_eq!(
        read_back(&show(&_Sub(&a, _Add(&b, &c)))),
        Some(op('+', op('-', atom("a"), atom("b")), atom("c")))
    );
    assert_eq!(
        read_back(&show(&_Div(&a, _Div(&b, &c)))),
        Some(op('/', op('/', atom("a"), atom("b")), atom("c")))
    );
    assert_eq!(read_back(&show(&_Add(id("x y"), &a))), None);
}
