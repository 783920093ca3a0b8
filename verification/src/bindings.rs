//! Rendering of large integer payload fields for the binding artifact.
//!
//! The binding artifact serializes the command/event type surface for the
//! frontend language. Integer fields beyond the safe range of that language
//! need an explicit representation; the bootstrap chooses a plain numeric
//! literal, accepting the loss of precision past the safe range.

use vstd::prelude::*;

verus! {

/// How integer values beyond the binding language's safe range are rendered
/// in the exported artifact.
#[derive(Clone, Copy, PartialEq, Eq, Structural, Debug)]
pub enum BigIntBehavior {
    /// A plain numeric literal; precision past the safe range is lost.
    Number,
    /// A quoted decimal string.
    Quoted,
    /// A decimal literal with a big-integer suffix.
    BigIntLiteral,
}

/// The decimal digit character for a value below ten.
pub open spec fn digit_char(d: nat) -> char
    recommends
        d < 10,
{
    if d == 0 {
        '0'
    } else if d == 1 {
        '1'
    } else if d == 2 {
        '2'
    } else if d == 3 {
        '3'
    } else if d == 4 {
        '4'
    } else if d == 5 {
        '5'
    } else if d == 6 {
        '6'
    } else if d == 7 {
        '7'
    } else if d == 8 {
        '8'
    } else {
        '9'
    }
}

/// The decimal digit sequence of a natural number, most significant first,
/// with no leading zero except for the number zero itself.
pub open spec fn dec_digits(n: nat) -> Seq<char>
    decreases n,
{
    if n < 10 {
        seq![digit_char(n)]
    } else {
        dec_digits(n / 10).push(digit_char(n % 10))
    }
}

/// The full rendering of an integer field under a given behavior.
pub open spec fn rendered_bigint(n: nat, behavior: BigIntBehavior) -> Seq<char> {
    match behavior {
        BigIntBehavior::Number => dec_digits(n),
        BigIntBehavior::Quoted => seq!['"'] + dec_digits(n) + seq!['"'],
        BigIntBehavior::BigIntLiteral => dec_digits(n).push('n'),
    }
}

pub open spec fn is_dec_digit(c: char) -> bool {
    c == '0' || c == '1' || c == '2' || c == '3' || c == '4' || c == '5' || c == '6' || c == '7'
        || c == '8' || c == '9'
}

/// A one-character string slice for a decimal digit.
fn digit_str(d: u64) -> (r: &'static str)
    requires
        d < 10,
    ensures
        r@ == seq![digit_char(d as nat)],
{
    if d == 0 {
        proof {
            reveal_strlit("0");
            assert("0"@ =~= seq![digit_char(d as nat)]);
        }
        "0"
    } else if d == 1 {
        proof {
            reveal_strlit("1");
            assert("1"@ =~= seq![digit_char(d as nat)]);
        }
        "1"
    } else if d == 2 {
        proof {
            reveal_strlit("2");
            assert("2"@ =~= seq![digit_char(d as nat)]);
        }
        "2"
    } else if d == 3 {
        proof {
            reveal_strlit("3");
            assert("3"@ =~= seq![digit_char(d as nat)]);
        }
        "3"
    } else if d == 4 {
        proof {
            reveal_strlit("4");
            assert("4"@ =~= seq![digit_char(d as nat)]);
        }
        "4"
    } else if d == 5 {
        proof {
            reveal_strlit("5");
            assert("5"@ =~= seq![digit_char(d as nat)]);
        }
        "5"
    } else if d == 6 {
        proof {
            reveal_strlit("6");
            assert("6"@ =~= seq![digit_char(d as nat)]);
        }
        "6"
    } else if d == 7 {
        proof {
            reveal_strlit("7");
            assert("7"@ =~= seq![digit_char(d as nat)]);
        }
        "7"
    } else if d == 8 {
        proof {
            reveal_strlit("8");
            assert("8"@ =~= seq![digit_char(d as nat)]);
        }
        "8"
    } else {
        proof {
            reveal_strlit("9");
            assert("9"@ =~= seq![digit_char(d as nat)]);
        }
        "9"
    }
}

/// Renders a value as its decimal digit sequence.
pub fn u64_to_decimal(n: u64) -> (r: String)
    ensures
        r@ == dec_digits(n as nat),
    decreases n,
{
    if n < 10 {
        digit_str(n).to_owned()
    } else {
        let mut r = u64_to_decimal(n / 10);
        r.append(digit_str(n % 10));
        proof {
            assert(r@ =~= dec_digits(n as nat));
        }
        r
    }
}

/// Renders an integer payload field under the chosen behavior.
pub fn render_bigint_field(value: u64, behavior: BigIntBehavior) -> (r: String)
    ensures
        r@ == rendered_bigint(value as nat, behavior),
{
    match behavior {
        BigIntBehavior::Number => u64_to_decimal(value),
        BigIntBehavior::Quoted => {
            let mut r = "\"".to_owned();
            let digits = u64_to_decimal(value);
            r.append(digits.as_str());
            r.append("\"");
            proof {
                reveal_strlit("\"");
                assert(r@ =~= rendered_bigint(value as nat, behavior));
            }
            r
        },
        BigIntBehavior::BigIntLiteral => {
            let mut r = u64_to_decimal(value);
            r.append("n");
            proof {
                reveal_strlit("n");
                assert(r@ =~= rendered_bigint(value as nat, behavior));
            }
            r
        },
    }
}

/// Every character of a decimal rendering is a digit.
pub proof fn lemma_dec_digits_are_digits(n: nat)
    ensures
        forall|i: int| 0 <= i < dec_digits(n).len() ==> is_dec_digit(#[trigger] dec_digits(n)[i]),
    decreases n,
{
    if n >= 10 {
        lemma_dec_digits_are_digits(n / 10);
        assert forall|i: int| 0 <= i < dec_digits(n).len() implies is_dec_digit(
            #[trigger] dec_digits(n)[i],
        ) by {
            if i < dec_digits(n / 10).len() {
                assert(dec_digits(n)[i] == dec_digits(n / 10)[i]);
            }
        }
    }
}

/// Under `Number` behavior the rendered field is a plain numeric literal:
/// digits only, so in particular no quote and no big-integer suffix, for
/// every value, also those beyond 32-bit range.
pub proof fn lemma_number_rendering_is_plain(n: nat)
    ensures
        rendered_bigint(n, BigIntBehavior::Number) == dec_digits(n),
        forall|i: int|
            0 <= i < rendered_bigint(n, BigIntBehavior::Number).len() ==> is_dec_digit(
                #[trigger] rendered_bigint(n, BigIntBehavior::Number)[i],
            ),
        !rendered_bigint(n, BigIntBehavior::Number).contains('"'),
        !rendered_bigint(n, BigIntBehavior::Number).contains('n'),
{
    lemma_dec_digits_are_digits(n);
    let s = rendered_bigint(n, BigIntBehavior::Number);
    if s.contains('"') {
        let i = choose|i: int| 0 <= i < s.len() && s[i] == '"';
        assert(is_dec_digit(s[i]));
    }
    if s.contains('n') {
        let i = choose|i: int| 0 <= i < s.len() && s[i] == 'n';
        assert(is_dec_digit(s[i]));
    }
}

} // verus!
