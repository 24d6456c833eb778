//! Textual rendering of the values that can follow a flag on a command line.

use vstd::prelude::*;

verus! {

/// The character that stands for the digit `d`, for `d` below ten.
pub open spec fn digit_char(d: nat) -> char {
    if d == 0 {
        '0'
    } else if d == 1 {
        '1'
    } else if d == 2 {
        '2'
    } else if d == 3 {
        '3'
    } else if d == 4 {
        '4'
    } else if d == 5 {
        '5'
    } else if d == 6 {
        '6'
    } else if d == 7 {
        '7'
    } else if d == 8 {
        '8'
    } else {
        '9'
    }
}

/// Whether `c` is one of the ten decimal digits.
pub open spec fn is_digit(c: char) -> bool {
    exists|d: nat| d < 10 && c == #[trigger] digit_char(d)
}

/// The decimal numeral of `n`: most significant digit first, no sign, no
/// leading zero, no separators.
pub open spec fn decimal(n: nat) -> Seq<char>
    decreases n,
{
    if n < 10 {
        seq![digit_char(n)]
    } else {
        decimal(n / 10).push(digit_char(n % 10))
    }
}

/// The number that a sequence of digits denotes, read most significant first.
pub open spec fn decimal_value(s: Seq<char>) -> nat
    decreases s.len(),
{
    if s.len() == 0 {
        0
    } else {
        10 * decimal_value(s.drop_last()) + digit_value(s.last())
    }
}

/// The digit that `c` stands for; zero for any other character.
pub open spec fn digit_value(c: char) -> nat {
    if c == '1' {
        1
    } else if c == '2' {
        2
    } else if c == '3' {
        3
    } else if c == '4' {
        4
    } else if c == '5' {
        5
    } else if c == '6' {
        6
    } else if c == '7' {
        7
    } else if c == '8' {
        8
    } else if c == '9' {
        9
    } else {
        0
    }
}

/// A numeral is never empty, holds digits only, and starts with `0` only when
/// the number is zero.
pub proof fn lemma_decimal_shape(n: nat)
    ensures
        decimal(n).len() >= 1,
        forall|i: int| 0 <= i < decimal(n).len() ==> is_digit(#[trigger] decimal(n)[i]),
        decimal(n)[0] == '0' <==> n == 0,
    decreases n,
{
    if n < 10 {
        assert(is_digit(digit_char(n))) by {
            assert(n < 10 && digit_char(n) == digit_char(n));
        }
    } else {
        lemma_decimal_shape(n / 10);
        let head = decimal(n / 10);
        assert(is_digit(digit_char(n % 10))) by {
            assert(n % 10 < 10 && digit_char(n % 10) == digit_char(n % 10));
        }
        assert forall|i: int| 0 <= i < decimal(n).len() implies is_digit(
            #[trigger] decimal(n)[i],
        ) by {
            if i < head.len() {
                assert(decimal(n)[i] == head[i]);
            }
        }
        assert(decimal(n)[0] == head[0]);
    }
}

/// A value that can stand as one token of an argument list.
pub trait TokenText {
    /// The characters of the token that this value is written as.
    spec fn text(&self) -> Seq<char>;

    /// Writes the value as a token.
    fn to_token(&self) -> (token: String)
        ensures
            token@ == self.text(),
    ;
}

fn digit_str(d: u64) -> (s: &'static str)
    requires
        d < 10,
    ensures
        s@ == seq![digit_char(d as nat)],
{
    proof {
        reveal_strlit("0");
        reveal_strlit("1");
        reveal_strlit("2");
        reveal_strlit("3");
        reveal_strlit("4");
        reveal_strlit("5");
        reveal_strlit("6");
        reveal_strlit("7");
        reveal_strlit("8");
        reveal_strlit("9");
    }
    let s = match d {
        0 => "0",
        1 => "1",
        2 => "2",
        3 => "3",
        4 => "4",
        5 => "5",
        6 => "6",
        7 => "7",
        8 => "8",
        _ => "9",
    };
    assert(s@ =~= seq![digit_char(d as nat)]);
    s
}

/// Writes `n` in decimal.
pub fn render_decimal(n: u64) -> (s: String)
    ensures
        s@ == decimal(n as nat),
    decreases n,
{
    if n < 10 {
        digit_str(n).to_owned()
    } else {
        let head = render_decimal(n / 10);
        let s = head.concat(digit_str(n % 10));
        assert(s@ =~= decimal(n as nat));
        s
    }
}

impl TokenText for u32 {
    open spec fn text(&self) -> Seq<char> {
        decimal(*self as nat)
    }

    fn to_token(&self) -> (token: String) {
        render_decimal(*self as u64)
    }
}

impl TokenText for u64 {
    open spec fn text(&self) -> Seq<char> {
        decimal(*self as nat)
    }

    fn to_token(&self) -> (token: String) {
        render_decimal(*self)
    }
}

/// The decimal numeral of a signed number: a minus sign before the numeral of
/// its magnitude when it is negative, the plain numeral otherwise.
pub open spec fn signed_decimal(n: int) -> Seq<char> {
    if n < 0 {
        seq!['-'] + decimal((-n) as nat)
    } else {
        decimal(n as nat)
    }
}

/// Writes `n` in decimal, with a minus sign when it is negative.
pub fn render_signed_decimal(n: i64) -> (s: String)
    ensures
        s@ == signed_decimal(n as int),
{
    if n < 0 {
        let magnitude: u64 = (-(n + 1)) as u64 + 1;
        proof {
            reveal_strlit("-");
        }
        let s = "-".to_owned().concat(render_decimal(magnitude).as_str());
        assert(s@ =~= signed_decimal(n as int));
        s
    } else {
        render_decimal(n as u64)
    }
}

impl TokenText for i32 {
    open spec fn text(&self) -> Seq<char> {
        signed_decimal(*self as int)
    }

    fn to_token(&self) -> (token: String) {
        render_signed_decimal(*self as i64)
    }
}

impl TokenText for i64 {
    open spec fn text(&self) -> Seq<char> {
        signed_decimal(*self as int)
    }

    fn to_token(&self) -> (token: String) {
        render_signed_decimal(*self)
    }
}

impl TokenText for String {
    open spec fn text(&self) -> Seq<char> {
        self@
    }

    fn to_token(&self) -> (token: String) {
        self.clone()
    }
}

impl<'a> TokenText for &'a str {
    open spec fn text(&self) -> Seq<char> {
        self@
    }

    fn to_token(&self) -> (token: String) {
        (*self).to_owned()
    }
}

} // verus!
