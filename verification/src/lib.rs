//! A small display capability: values that can render themselves as text.
//!
//! The `Show` trait gives a type a single operation, `show`, which produces
//! the value's canonical textual form. An 8-bit unsigned integer renders as
//! its decimal digits; a text slice renders as itself, unchanged. `show_to`
//! appends a rendering to an output buffer, modelling sequential writes to
//! an output stream.

use vstd::prelude::*;
use vstd::string::StringExecFns;

verus! {

/// A value that can produce a textual rendering of itself.
pub trait Show {
    /// The canonical textual form of the value.
    spec fn show_spec(&self) -> Seq<char>;

    /// Produces the value's canonical textual form.
    fn show(&self) -> (out: String)
        ensures
            out@ == self.show_spec(),
    ;
}

impl Show for u8 {
    open spec fn show_spec(&self) -> Seq<char> {
        decimal_digits(*self as nat)
    }

    fn show(&self) -> (out: String) {
        render_u8(*self)
    }
}

impl<'a> Show for &'a str {
    open spec fn show_spec(&self) -> Seq<char> {
        self@
    }

    fn show(&self) -> (out: String) {
        (*self).to_owned()
    }
}

/// Appends the rendering of `v` to an output buffer. This models a write
/// to an output stream: the buffer grows by exactly the rendering, with
/// nothing added before or after it.
pub fn show_to<T: Show>(v: &T, out: &mut String)
    ensures
        final(out)@ == old(out)@ + v.show_spec(),
{
    let rendered = v.show();
    out.append(rendered.as_str());
}

/// The decimal rendering of an 8-bit unsigned integer.
fn render_u8(n: u8) -> (out: String)
    ensures
        out@ == decimal_digits(n as nat),
    decreases n,
{
    if n < 10 {
        String::from_str(digit_str(n))
    } else {
        let mut out = render_u8(n / 10);
        out.append(digit_str(n % 10));
        assert(out@ =~= decimal_digits(n as nat));
        out
    }
}

/// The character for a single decimal digit value.
pub open spec fn digit_char(d: nat) -> char
    recommends
        d < 10,
{
    if d == 0 {
        '0'
    } else if d == 1 {
        '1'
    } else if d == 2 {
        '2'
    } else if d == 3 {
        '3'
    } else if d == 4 {
        '4'
    } else if d == 5 {
        '5'
    } else if d == 6 {
        '6'
    } else if d == 7 {
        '7'
    } else if d == 8 {
        '8'
    } else {
        '9'
    }
}

/// The digit value of a decimal digit character.
pub open spec fn char_digit(c: char) -> nat {
    if c == '0' {
        0
    } else if c == '1' {
        1
    } else if c == '2' {
        2
    } else if c == '3' {
        3
    } else if c == '4' {
        4
    } else if c == '5' {
        5
    } else if c == '6' {
        6
    } else if c == '7' {
        7
    } else if c == '8' {
        8
    } else {
        9
    }
}

/// Whether a character is one of the ten decimal digits.
pub open spec fn is_decimal_digit(c: char) -> bool {
    c == '0' || c == '1' || c == '2' || c == '3' || c == '4' || c == '5' || c == '6' || c == '7'
        || c == '8' || c == '9'
}

/// The decimal rendering of a number: its digits, most significant first,
/// with no sign and no leading zeros (zero itself renders as "0").
pub open spec fn decimal_digits(n: nat) -> Seq<char>
    decreases n,
{
    if n < 10 {
        seq![digit_char(n)]
    } else {
        decimal_digits(n / 10) + seq![digit_char(n % 10)]
    }
}

/// The number that a sequence of decimal digit characters denotes,
/// most significant digit first.
pub open spec fn decimal_value(s: Seq<char>) -> nat
    decreases s.len(),
{
    if s.len() == 0 {
        0
    } else {
        decimal_value(s.drop_last()) * 10 + char_digit(s.last())
    }
}

/// Law: rendering a number yields exactly its decimal digits — every
/// character is a digit (so there is no sign), the digits denote the
/// number itself, and there is no leading zero except for zero, which
/// renders as the single digit "0".
pub proof fn lemma_decimal_digits_correct(n: nat)
    ensures
        decimal_digits(n).len() >= 1,
        forall|i: int|
            0 <= i < decimal_digits(n).len() ==> is_decimal_digit(#[trigger] decimal_digits(n)[i]),
        decimal_value(decimal_digits(n)) == n,
        n > 0 ==> decimal_digits(n)[0] != '0',
        n == 0 ==> decimal_digits(n) == seq!['0'],
    decreases n,
{
    if n < 10 {
        let s = seq![digit_char(n)];
        assert(decimal_digits(n) =~= s);
        assert(s.drop_last() =~= Seq::<char>::empty());
        assert(decimal_value(Seq::<char>::empty()) == 0);
        assert(char_digit(s.last()) == n);
        assert(decimal_value(s) == n);
    } else {
        lemma_decimal_digits_correct(n / 10);
        let s = decimal_digits(n);
        assert(s =~= decimal_digits(n / 10) + seq![digit_char(n % 10)]);
        assert(s.drop_last() =~= decimal_digits(n / 10));
        assert(s.last() == digit_char(n % 10));
        assert(decimal_value(s) == (n / 10) * 10 + n % 10);
        assert((n / 10) * 10 + n % 10 == n);
        assert(s[0] == decimal_digits(n / 10)[0]);
    }
}

/// Law: writing two renderings to a stream one after the other leaves the
/// stream extended by the concatenation of the two renderings, with no
/// separator between them.
pub proof fn lemma_sequential_renders<A: Show, B: Show>(stream: Seq<char>, a: &A, b: &B)
    ensures
        (stream + a.show_spec()) + b.show_spec() == stream + (a.show_spec() + b.show_spec()),
{
    assert((stream + a.show_spec()) + b.show_spec() =~= stream + (a.show_spec() + b.show_spec()));
}

/// The one-character string for a single decimal digit value.
fn digit_str(d: u8) -> (s: &'static str)
    requires
        d < 10,
    ensures
        s@ == seq![digit_char(d as nat)],
{
    if d == 0 {
        proof {
            reveal_strlit("0");
        }
        assert("0"@ =~= seq![digit_char(0)]);
        "0"
    } else if d == 1 {
        proof {
            reveal_strlit("1");
        }
        assert("1"@ =~= seq![digit_char(1)]);
        "1"
    } else if d == 2 {
        proof {
            reveal_strlit("2");
        }
        assert("2"@ =~= seq![digit_char(2)]);
        "2"
    } else if d == 3 {
        proof {
            reveal_strlit("3");
        }
        assert("3"@ =~= seq![digit_char(3)]);
        "3"
    } else if d == 4 {
        proof {
            reveal_strlit("4");
        }
        assert("4"@ =~= seq![digit_char(4)]);
        "4"
    } else if d == 5 {
        proof {
            reveal_strlit("5");
        }
        assert("5"@ =~= seq![digit_char(5)]);
        "5"
    } else if d == 6 {
        proof {
            reveal_strlit("6");
        }
        assert("6"@ =~= seq![digit_char(6)]);
        "6"
    } else if d == 7 {
        proof {
            reveal_strlit("7");
        }
        assert("7"@ =~= seq![digit_char(7)]);
        "7"
    } else if d == 8 {
        proof {
            reveal_strlit("8");
        }
        assert("8"@ =~= seq![digit_char(8)]);
        "8"
    } else {
        proof {
            reveal_strlit("9");
        }
        assert("9"@ =~= seq![digit_char(9)]);
        "9"
    }
}

} // verus!
