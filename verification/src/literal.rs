//! Literal values and their rendering to decimal or quoted text.

use vstd::prelude::*;

use crate::fmt::{FormatBackend, Formatter};
use crate::sql::Sql;
use crate::traits::Expression;

verus! {

/// A literal value.
#[derive(Debug, Clone)]
pub enum Literal {
    /// A string literal.
    String(String),
    /// A number literal.
    Number(i64),
}

/// The rendered text of a literal: strings are double-quote delimited with no
/// escaping of embedded quotes (a documented limitation of the dialect),
/// numbers render as decimal text.
pub open spec fn spec_literal(l: Literal) -> Seq<char> {
    match l {
        Literal::String(content) => "\""@ + content@ + "\""@,
        Literal::Number(value) => spec_decimal_i64(value as int),
    }
}

impl<FB: FormatBackend> Expression<FB> for Literal {
    open spec fn spec_format(&self, backend: FB) -> Seq<char> {
        spec_literal(*self)
    }

    fn format(&self, fmt: &Formatter<FB>) -> (r: Sql) {
        match self {
            Literal::String(content) => fmt.string_literal(content.as_str()),
            Literal::Number(value) => fmt.number_literal(*value),
        }
    }
}

impl From<String> for Literal {
    fn from(val: String) -> (r: Literal)
        ensures
            r == Literal::String(val),
    {
        Literal::String(val)
    }
}

impl vstd::std_specs::convert::FromSpecImpl<String> for Literal {
    open spec fn obeys_from_spec() -> bool {
        true
    }

    open spec fn from_spec(val: String) -> Literal {
        Literal::String(val)
    }
}

impl From<&str> for Literal {
    fn from(val: &str) -> (r: Literal)
        ensures
            r matches Literal::String(s) && s@ == val@,
    {
        Literal::String(val.to_owned())
    }
}

impl vstd::std_specs::convert::FromSpecImpl<&str> for Literal {
    open spec fn obeys_from_spec() -> bool {
        false
    }

    closed spec fn from_spec(val: &str) -> Literal {
        arbitrary()
    }
}

impl From<i64> for Literal {
    fn from(val: i64) -> (r: Literal)
        ensures
            r == Literal::Number(val),
    {
        Literal::Number(val)
    }
}

impl vstd::std_specs::convert::FromSpecImpl<i64> for Literal {
    open spec fn obeys_from_spec() -> bool {
        true
    }

    open spec fn from_spec(val: i64) -> Literal {
        Literal::Number(val)
    }
}

/// The decimal digit for a value below ten.
pub open spec fn spec_digit_char(d: int) -> char {
    if d == 0 {
        '0'
    } else if d == 1 {
        '1'
    } else if d == 2 {
        '2'
    } else if d == 3 {
        '3'
    } else if d == 4 {
        '4'
    } else if d == 5 {
        '5'
    } else if d == 6 {
        '6'
    } else if d == 7 {
        '7'
    } else if d == 8 {
        '8'
    } else {
        '9'
    }
}

/// Decimal rendering of a non-negative number, most significant digit first,
/// with no leading zeros (a lone zero renders as itself).
pub open spec fn spec_decimal_nat(n: nat) -> Seq<char>
    decreases n,
{
    if n < 10 {
        seq![spec_digit_char(n as int)]
    } else {
        spec_decimal_nat(n / 10) + seq![spec_digit_char((n % 10) as int)]
    }
}

/// Decimal rendering of a possibly negative number: a minus sign followed by
/// the magnitude.
pub open spec fn spec_decimal_i64(n: int) -> Seq<char> {
    if n < 0 {
        seq!['-'] + spec_decimal_nat((-n) as nat)
    } else {
        spec_decimal_nat(n as nat)
    }
}

fn digit_str(d: u64) -> (r: &'static str)
    requires
        d < 10,
    ensures
        r@ == seq![spec_digit_char(d as int)],
{
    if d == 0 {
        proof {
            reveal_strlit("0");
        }
        let r = "0";
        proof {
            assert(r@ =~= seq![spec_digit_char(0)]);
        }
        r
    } else if d == 1 {
        proof {
            reveal_strlit("1");
        }
        let r = "1";
        proof {
            assert(r@ =~= seq![spec_digit_char(1)]);
        }
        r
    } else if d == 2 {
        proof {
            reveal_strlit("2");
        }
        let r = "2";
        proof {
            assert(r@ =~= seq![spec_digit_char(2)]);
        }
        r
    } else if d == 3 {
        proof {
            reveal_strlit("3");
        }
        let r = "3";
        proof {
            assert(r@ =~= seq![spec_digit_char(3)]);
        }
        r
    } else if d == 4 {
        proof {
            reveal_strlit("4");
        }
        let r = "4";
        proof {
            assert(r@ =~= seq![spec_digit_char(4)]);
        }
        r
    } else if d == 5 {
        proof {
            reveal_strlit("5");
        }
        let r = "5";
        proof {
            assert(r@ =~= seq![spec_digit_char(5)]);
        }
        r
    } else if d == 6 {
        proof {
            reveal_strlit("6");
        }
        let r = "6";
        proof {
            assert(r@ =~= seq![spec_digit_char(6)]);
        }
        r
    } else if d == 7 {
        proof {
            reveal_strlit("7");
        }
        let r = "7";
        proof {
            assert(r@ =~= seq![spec_digit_char(7)]);
        }
        r
    } else if d == 8 {
        proof {
            reveal_strlit("8");
        }
        let r = "8";
        proof {
            assert(r@ =~= seq![spec_digit_char(8)]);
        }
        r
    } else {
        proof {
            reveal_strlit("9");
        }
        let r = "9";
        proof {
            assert(r@ =~= seq![spec_digit_char(9)]);
        }
        r
    }
}

/// Renders a non-negative number as decimal text.
pub(crate) fn decimal_u64(n: u64) -> (r: String)
    ensures
        r@ == spec_decimal_nat(n as nat),
    decreases n,
{
    if n < 10 {
        digit_str(n).to_owned()
    } else {
        let mut s = decimal_u64(n / 10);
        s.append(digit_str(n % 10));
        s
    }
}

/// Renders a number as decimal text, with a leading minus sign if negative.
pub(crate) fn decimal_i64(n: i64) -> (r: String)
    ensures
        r@ == spec_decimal_i64(n as int),
{
    if n >= 0 {
        decimal_u64(n as u64)
    } else {
        let m: u64 = if n == i64::MIN {
            9223372036854775808u64
        } else {
            (-n) as u64
        };
        proof {
            reveal_strlit("-");
        }
        let mut s = String::from_str("-");
        proof {
            assert(s@ =~= seq!['-']);
        }
        let digits = decimal_u64(m);
        s.append(digits.as_str());
        s
    }
}

} // verus!
