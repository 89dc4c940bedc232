//! Character-level building blocks of the emitted text: indentation,
//! numerals, and the joining of pieces.
use vstd::prelude::*;

verus! {

/// The blanks that make up one indentation level.
pub open spec fn indent_unit() -> Seq<char> {
    seq![' ', ' ', ' ', ' ']
}

/// The blanks in front of a line at the given indentation level. Levels at
/// or below zero give no blanks.
pub open spec fn pad(level: int) -> Seq<char>
    decreases level,
{
    if level <= 0 {
        Seq::empty()
    } else {
        pad(level - 1) + indent_unit()
    }
}

/// The level one step further in. Levels are 32-bit and stay at the largest
/// value once they have reached it.
pub open spec fn next_level(level: int) -> int {
    if level < i32::MAX {
        level + 1
    } else {
        level
    }
}

/// The character of one decimal digit.
pub open spec fn digit(d: int) -> char {
    if d == 0 {
        '0'
    } else if d == 1 {
        '1'
    } else if d == 2 {
        '2'
    } else if d == 3 {
        '3'
    } else if d == 4 {
        '4'
    } else if d == 5 {
        '5'
    } else if d == 6 {
        '6'
    } else if d == 7 {
        '7'
    } else if d == 8 {
        '8'
    } else {
        '9'
    }
}

/// The decimal digits of a natural number, most significant first, without
/// leading zeros.
pub open spec fn digits(n: nat) -> Seq<char>
    decreases n,
{
    if n < 10 {
        seq![digit(n as int)]
    } else {
        digits(n / 10).push(digit((n % 10) as int))
    }
}

/// The decimal numeral of an integer: a minus sign for negative numbers,
/// then the digits of its magnitude.
pub open spec fn decimal(n: int) -> Seq<char> {
    if n < 0 {
        seq!['-'] + digits((-n) as nat)
    } else {
        digits(n as nat)
    }
}

/// The character of one hexadecimal digit, in upper case.
pub open spec fn hex_digit(d: int) -> char {
    if d < 10 {
        digit(d)
    } else if d == 10 {
        'A'
    } else if d == 11 {
        'B'
    } else if d == 12 {
        'C'
    } else if d == 13 {
        'D'
    } else if d == 14 {
        'E'
    } else {
        'F'
    }
}

/// The upper-case hexadecimal digits of a natural number, without leading
/// zeros.
pub open spec fn hex_digits(n: nat) -> Seq<char>
    decreases n,
{
    if n < 16 {
        seq![hex_digit(n as int)]
    } else {
        hex_digits(n / 16).push(hex_digit((n % 16) as int))
    }
}

/// The upper-case hexadecimal numeral of a natural number, at least two
/// digits wide, filled with a zero on the left.
pub open spec fn hex2(n: nat) -> Seq<char> {
    if n < 16 {
        seq!['0'] + hex_digits(n)
    } else {
        hex_digits(n)
    }
}

/// All pieces one after the other.
pub open spec fn concat(parts: Seq<Seq<char>>) -> Seq<char>
    decreases parts.len(),
{
    if parts.len() == 0 {
        Seq::empty()
    } else {
        concat(parts.drop_last()) + parts.last()
    }
}

/// All pieces one after the other, with the separator between each two
/// neighbours.
pub open spec fn join(parts: Seq<Seq<char>>, sep: Seq<char>) -> Seq<char>
    decreases parts.len(),
{
    if parts.len() == 0 {
        Seq::empty()
    } else if parts.len() == 1 {
        parts[0]
    } else {
        join(parts.drop_last(), sep) + sep + parts.last()
    }
}

/// The character that marks, in a template, the places where its argument
/// goes.
pub open spec fn slot() -> char {
    '$'
}

/// A template with its argument put in: every marker of the template is
/// replaced by the argument, and every other character stays.
pub open spec fn fill(template: Seq<char>, arg: Seq<char>) -> Seq<char>
    decreases template.len(),
{
    if template.len() == 0 {
        Seq::empty()
    } else {
        fill(template.drop_last(), arg) + (if template.last() == slot() {
            arg
        } else {
            seq![template.last()]
        })
    }
}

/// A stretch of a template that holds no marker is taken over as it is.
pub proof fn lemma_fill_plain(template: Seq<char>, arg: Seq<char>, from: int, to: int)
    requires
        0 <= from <= to <= template.len(),
        forall|k: int| from <= k < to ==> template[k] != slot(),
    ensures
        fill(template.take(to), arg) == fill(template.take(from), arg) + template.subrange(
            from,
            to,
        ),
    decreases to - from,
{
    if from == to {
        assert(template.subrange(from, to) =~= Seq::empty());
        assert(fill(template.take(from), arg) + template.subrange(from, to) =~= fill(
            template.take(from),
            arg,
        ));
    } else {
        lemma_fill_plain(template, arg, from, to - 1);
        assert(template.take(to).drop_last() =~= template.take(to - 1));
        assert(template.subrange(from, to) =~= template.subrange(from, to - 1) + seq![
            template[to - 1],
        ]);
        assert(fill(template.take(to), arg) =~= fill(template.take(from), arg)
            + template.subrange(from, to));
    }
}

/// Appending one piece to a list appends it to the concatenation.
pub proof fn lemma_concat_push(parts: Seq<Seq<char>>, piece: Seq<char>)
    ensures
        concat(parts.push(piece)) == concat(parts) + piece,
{
    assert(parts.push(piece).drop_last() =~= parts);
}

/// Appending one piece to a list appends the separator and the piece to the
/// joined text, or the piece alone where the list was empty.
pub proof fn lemma_join_push(parts: Seq<Seq<char>>, sep: Seq<char>, piece: Seq<char>)
    ensures
        join(parts.push(piece), sep) == if parts.len() == 0 {
            piece
        } else {
            join(parts, sep) + sep + piece
        },
{
    assert(parts.push(piece).drop_last() =~= parts);
}

/// The place in the concatenation at which the piece at `i` starts: the
/// length of all pieces before it.
pub open spec fn start_of(parts: Seq<Seq<char>>, i: int) -> int {
    concat(parts.take(i)).len() as int
}

/// The pieces lie in the concatenation one after the other, in their
/// order: each piece stands, whole, where the one before it ends.
pub proof fn lemma_concat_layout(parts: Seq<Seq<char>>, i: int)
    requires
        0 <= i < parts.len(),
    ensures
        0 <= start_of(parts, i),
        start_of(parts, i + 1) == start_of(parts, i) + parts[i].len(),
        start_of(parts, i + 1) <= concat(parts).len(),
        concat(parts).subrange(start_of(parts, i), start_of(parts, i + 1)) == parts[i],
    decreases parts.len(),
{
    assert(parts.take(i + 1) =~= parts.take(i).push(parts[i]));
    lemma_concat_push(parts.take(i), parts[i]);
    let front = parts.drop_last();
    if i == parts.len() - 1 {
        assert(parts.take(i) =~= front);
        assert(parts.take(i + 1) =~= parts);
        assert(concat(parts).subrange(start_of(parts, i), start_of(parts, i + 1)) =~= parts[i]);
    } else {
        lemma_concat_layout(front, i);
        assert(front.take(i) =~= parts.take(i));
        assert(front.take(i + 1) =~= parts.take(i + 1));
        assert(concat(parts).subrange(start_of(parts, i), start_of(parts, i + 1)) =~= concat(
            front,
        ).subrange(start_of(front, i), start_of(front, i + 1)));
    }
}

/// A later piece starts no earlier than an earlier one.
pub proof fn lemma_starts_ordered(parts: Seq<Seq<char>>, i: int, j: int)
    requires
        0 <= i <= j <= parts.len(),
    ensures
        start_of(parts, i) <= start_of(parts, j),
        start_of(parts, j) <= concat(parts).len(),
    decreases j - i,
{
    if i < j {
        lemma_concat_layout(parts, j - 1);
        lemma_starts_ordered(parts, i, j - 1);
    } else if j < parts.len() {
        lemma_concat_layout(parts, j);
    } else {
        assert(parts.take(j) =~= parts);
    }
}

/// One indentation level further in.
pub fn deeper(level: i32) -> (r: i32)
    ensures
        r == next_level(level as int),
{
    if level < i32::MAX {
        level + 1
    } else {
        level
    }
}

/// The indentation in front of a line at the given level.
pub fn padding(level: i32) -> (r: String)
    ensures
        r@ == pad(level as int),
{
    let mut st = String::new();
    let mut i: i32 = 0;
    while i < level
        invariant
            0 <= i,
            i <= level || i == 0,
            st@ == pad(i as int),
        decreases level - i,
    {
        proof {
            reveal_strlit("    ");
            assert("    "@ =~= indent_unit());
        }
        st.append("    ");
        i = i + 1;
    }
    st
}

fn digit_text(d: u64) -> (r: &'static str)
    requires
        d < 10,
    ensures
        r@ == seq![digit(d as int)],
{
    proof {
        reveal_strlit("0");
        reveal_strlit("1");
        reveal_strlit("2");
        reveal_strlit("3");
        reveal_strlit("4");
        reveal_strlit("5");
        reveal_strlit("6");
        reveal_strlit("7");
        reveal_strlit("8");
        reveal_strlit("9");
    }
    let r = if d == 0 {
        "0"
    } else if d == 1 {
        "1"
    } else if d == 2 {
        "2"
    } else if d == 3 {
        "3"
    } else if d == 4 {
        "4"
    } else if d == 5 {
        "5"
    } else if d == 6 {
        "6"
    } else if d == 7 {
        "7"
    } else if d == 8 {
        "8"
    } else {
        "9"
    };
    assert(r@ =~= seq![digit(d as int)]);
    r
}

fn hex_digit_text(d: u64) -> (r: &'static str)
    requires
        d < 16,
    ensures
        r@ == seq![hex_digit(d as int)],
{
    if d < 10 {
        digit_text(d)
    } else {
        proof {
            reveal_strlit("A");
            reveal_strlit("B");
            reveal_strlit("C");
            reveal_strlit("D");
            reveal_strlit("E");
            reveal_strlit("F");
        }
        let r = if d == 10 {
            "A"
        } else if d == 11 {
            "B"
        } else if d == 12 {
            "C"
        } else if d == 13 {
            "D"
        } else if d == 14 {
            "E"
        } else {
            "F"
        };
        assert(r@ =~= seq![hex_digit(d as int)]);
        r
    }
}

/// The decimal digits of an unsigned number.
pub fn unsigned_text(n: u64) -> (r: String)
    ensures
        r@ == digits(n as nat),
    decreases n,
{
    if n < 10 {
        String::from_str(digit_text(n))
    } else {
        let mut st = unsigned_text(n / 10);
        st.append(digit_text(n % 10));
        assert(st@ =~= digits((n / 10) as nat).push(digit((n % 10) as int)));
        st
    }
}

/// The decimal numeral of a signed number.
pub fn decimal_text(n: i64) -> (r: String)
    ensures
        r@ == decimal(n as int),
{
    if n < 0 {
        let magnitude: u64 = ((-(n + 1)) as u64) + 1;
        let mut st = String::from_str("-");
        let body = unsigned_text(magnitude);
        st.append(body.as_str());
        proof {
            reveal_strlit("-");
            assert("-"@ =~= seq!['-']);
        }
        st
    } else {
        unsigned_text(n as u64)
    }
}

fn hex_digits_text(n: u64) -> (r: String)
    ensures
        r@ == hex_digits(n as nat),
    decreases n,
{
    if n < 16 {
        String::from_str(hex_digit_text(n))
    } else {
        let mut st = hex_digits_text(n / 16);
        st.append(hex_digit_text(n % 16));
        assert(st@ =~= hex_digits((n / 16) as nat).push(hex_digit((n % 16) as int)));
        st
    }
}

/// The two-digit upper-case hexadecimal numeral of a count or an index.
pub fn hex2_text(n: usize) -> (r: String)
    ensures
        r@ == hex2(n as nat),
{
    if n < 16 {
        let mut st = String::from_str("0");
        let body = hex_digits_text(n as u64);
        st.append(body.as_str());
        proof {
            reveal_strlit("0");
            assert("0"@ =~= seq!['0']);
        }
        st
    } else {
        hex_digits_text(n as u64)
    }
}

/// A template with its argument put in.
pub fn filled(template: &str, arg: &str) -> (r: String)
    ensures
        r@ == fill(template@, arg@),
{
    let n = template.unicode_len();
    let mut st = String::new();
    let mut from: usize = 0;
    let mut i: usize = 0;
    while i < n
        invariant
            n == template@.len(),
            from <= i <= n,
            forall|k: int| from <= k < i ==> template@[k] != slot(),
            st@ == fill(template@.take(from as int), arg@),
        decreases n - i,
    {
        let c = template.get_char(i);
        if c == '$' {
            proof {
                lemma_fill_plain(template@, arg@, from as int, i as int);
                assert(template@.take(i + 1).drop_last() =~= template@.take(i as int));
            }
            st.append(template.substring_char(from, i));
            st.append(arg);
            from = i + 1;
        }
        i = i + 1;
    }
    proof {
        lemma_fill_plain(template@, arg@, from as int, n as int);
        assert(template@.take(n as int) =~= template@);
    }
    st.append(template.substring_char(from, n));
    st
}

/// Whether two pieces of text hold the same characters.
pub fn same_text(a: &str, b: &str) -> (r: bool)
    ensures
        r == (a@ == b@),
{
    let x = String::from_str(a);
    let y = String::from_str(b);
    x == y
}

} // verus!
