//! Vectors written out in basis notation, such as `1i +2j -3k` with a
//! circumflex over each basis label.

use crate::vector_3d::Vector3d;
use vstd::prelude::*;

verus! {

/// `String::push` appends the character to the end of the string.
pub assume_specification[ String::push ](text: &mut String, ch: char)
    ensures
        final(text)@ == old(text)@.push(ch),
;

/// `String::push_str` appends the string slice to the end of the string.
pub assume_specification[ String::push_str ](text: &mut String, string: &str)
    ensures
        final(text)@ == old(text)@ + string@,
;

/// The character of a decimal digit.
pub open spec fn digit(d: nat) -> char {
    if d == 0 {
        '0'
    } else if d == 1 {
        '1'
    } else if d == 2 {
        '2'
    } else if d == 3 {
        '3'
    } else if d == 4 {
        '4'
    } else if d == 5 {
        '5'
    } else if d == 6 {
        '6'
    } else if d == 7 {
        '7'
    } else if d == 8 {
        '8'
    } else {
        '9'
    }
}

/// The decimal digits of `n`, most significant first, without leading zeros.
pub open spec fn decimal(n: nat) -> Seq<char>
    decreases n,
{
    if n < 10 {
        seq![digit(n)]
    } else {
        decimal(n / 10).push(digit(n % 10))
    }
}

/// The decimal text of `x`: a minus sign for a negative value, a plus sign
/// for any other if `explicit_sign`, then the digits of the absolute value.
pub open spec fn signed_decimal(x: int, explicit_sign: bool) -> Seq<char> {
    if x < 0 {
        seq!['-'] + decimal((-x) as nat)
    } else if explicit_sign {
        seq!['+'] + decimal(x as nat)
    } else {
        decimal(x as nat)
    }
}

/// The label of a basis vector: its letter under a combining circumflex.
pub open spec fn basis_label(letter: char) -> Seq<char> {
    seq![letter, '\u{302}']
}

/// Three components in basis notation: each followed by the label of its
/// axis, separated by single spaces.
pub open spec fn in_basis_notation(i: Seq<char>, j: Seq<char>, k: Seq<char>) -> Seq<char> {
    i + basis_label('i') + seq![' '] + j + basis_label('j') + seq![' '] + k + basis_label('k')
}

fn digit_char(d: u64) -> (c: char)
    requires
        d < 10,
    ensures
        c == digit(d as nat),
{
    match d {
        0 => '0',
        1 => '1',
        2 => '2',
        3 => '3',
        4 => '4',
        5 => '5',
        6 => '6',
        7 => '7',
        8 => '8',
        _ => '9',
    }
}

/// Appends the decimal digits of `n` to `text`.
fn push_decimal(text: &mut String, n: u64)
    ensures
        final(text)@ == old(text)@ + decimal(n as nat),
{
    let mut reversed: Vec<char> = Vec::new();
    reversed.push(digit_char(n % 10));
    let mut rest: u64 = n / 10;
    let ghost mut tail: Seq<char> = seq![digit((n % 10) as nat)];
    while rest > 0
        invariant
            tail.len() == reversed.len(),
            forall|x: int| 0 <= x < tail.len() ==> tail[x] == reversed@[tail.len() - 1 - x],
            decimal(n as nat) == (if rest > 0 {
                decimal(rest as nat)
            } else {
                Seq::empty()
            }) + tail,
        decreases rest,
    {
        let d: u64 = rest % 10;
        reversed.push(digit_char(d));
        proof {
            let shorter = if rest / 10 > 0 {
                decimal((rest / 10) as nat)
            } else {
                Seq::empty()
            };
            assert(decimal(rest as nat) =~= shorter + seq![digit(d as nat)]);
            assert((shorter + seq![digit(d as nat)]) + tail =~= shorter + (seq![digit(d as nat)]
                + tail));
            tail = seq![digit(d as nat)] + tail;
        }
        rest = rest / 10;
    }
    assert(decimal(n as nat) =~= tail);
    let mut left: usize = reversed.len();
    while left > 0
        invariant
            left <= reversed.len(),
            tail.len() == reversed.len(),
            forall|x: int| 0 <= x < tail.len() ==> tail[x] == reversed@[tail.len() - 1 - x],
            text@ == old(text)@ + tail.subrange(0, tail.len() - left),
        decreases left,
    {
        left = left - 1;
        text.push(reversed[left]);
        assert(tail.subrange(0, tail.len() - left) =~= tail.subrange(0, tail.len() - left - 1).push(
            reversed@[left as int],
        ));
    }
    assert(tail.subrange(0, tail.len() as int) =~= tail);
}

/// The text of an integer in decimal, as `signed_decimal` gives it.
pub fn decimal_text(value: i64, explicit_sign: bool) -> (text: String)
    ensures
        text@ == signed_decimal(value as int, explicit_sign),
{
    let mut text = String::new();
    if value < 0 {
        text.push('-');
        let magnitude: u64 = (-(value + 1)) as u64 + 1;
        push_decimal(&mut text, magnitude);
    } else {
        if explicit_sign {
            text.push('+');
        }
        push_decimal(&mut text, value as u64);
    }
    assert(text@ =~= signed_decimal(value as int, explicit_sign));
    text
}

/// Puts three components, already written out, into basis notation. The
/// second and third are expected to carry their sign.
pub fn basis_notation(i: &str, j: &str, k: &str) -> (text: String)
    ensures
        text@ == in_basis_notation(i@, j@, k@),
{
    let mut text = String::new();
    text.push_str(i);
    text.push('i');
    text.push('\u{302}');
    text.push(' ');
    text.push_str(j);
    text.push('j');
    text.push('\u{302}');
    text.push(' ');
    text.push_str(k);
    text.push('k');
    text.push('\u{302}');
    assert(text@ =~= in_basis_notation(i@, j@, k@));
    text
}

impl Vector3d<i64> {
    /// The vector in basis notation: the first component as it is, the
    /// second and third with an explicit sign.
    pub open spec fn rendered(self) -> Seq<char> {
        in_basis_notation(
            signed_decimal(self.i as int, false),
            signed_decimal(self.j as int, true),
            signed_decimal(self.k as int, true),
        )
    }

    /// Writes the vector out in basis notation.
    pub fn to_string(&self) -> (text: String)
        ensures
            text@ == self.rendered(),
    {
        let first = decimal_text(self.i, false);
        let second = decimal_text(self.j, true);
        let third = decimal_text(self.k, true);
        basis_notation(first.as_str(), second.as_str(), third.as_str())
    }
}

} // verus!
