//! Diagnostic text for unhandled interrupts: the exact message the
//! firmware's default exception handler raises, built digit by digit, so
//! the fault path owes nothing to formatting machinery.

use vstd::prelude::*;

verus! {

use vstd::arithmetic::div_mod::lemma_div_decreases;
use vstd::arithmetic::div_mod::lemma_div_pos_is_pos;
use vstd::arithmetic::div_mod::lemma_mod_bound;

/// One decimal digit as a character.
pub open spec fn digit_char(d: int) -> char {
    if d == 0 {
        '0'
    } else if d == 1 {
        '1'
    } else if d == 2 {
        '2'
    } else if d == 3 {
        '3'
    } else if d == 4 {
        '4'
    } else if d == 5 {
        '5'
    } else if d == 6 {
        '6'
    } else if d == 7 {
        '7'
    } else if d == 8 {
        '8'
    } else {
        '9'
    }
}

/// The decimal digits of a nonnegative number, most significant first.
pub open spec fn dec_digits(n: int) -> Seq<char>
    decreases n,
{
    if n < 10 {
        seq![digit_char(n)]
    } else {
        dec_digits(n / 10) + seq![digit_char(n % 10)]
    }
}

/// The decimal text of a signed number.
pub open spec fn int_text(n: int) -> Seq<char> {
    if n < 0 {
        seq!['-'] + dec_digits(-n)
    } else {
        dec_digits(n)
    }
}

/// The message raised for an unexpected interrupt number.
pub open spec fn unhandled_text(irqn: int) -> Seq<char> {
    "Unhandled exception (IRQn = "@ + int_text(irqn) + ")"@
}

/// One decimal digit as a string slice.
fn digit_str(d: u32) -> (r: &'static str)
    requires
        d < 10,
    ensures
        r@ =~= seq![digit_char(d as int)],
{
    proof {
        reveal_strlit("0");
        reveal_strlit("1");
        reveal_strlit("2");
        reveal_strlit("3");
        reveal_strlit("4");
        reveal_strlit("5");
        reveal_strlit("6");
        reveal_strlit("7");
        reveal_strlit("8");
        reveal_strlit("9");
    }
    if d == 0 {
        "0"
    } else if d == 1 {
        "1"
    } else if d == 2 {
        "2"
    } else if d == 3 {
        "3"
    } else if d == 4 {
        "4"
    } else if d == 5 {
        "5"
    } else if d == 6 {
        "6"
    } else if d == 7 {
        "7"
    } else if d == 8 {
        "8"
    } else {
        "9"
    }
}

/// Append the decimal digits of `n`, most significant first.
fn append_digits(s: &mut String, n: u32) -> (r: ())
    ensures
        final(s)@ == old(s)@ + dec_digits(n as int),
    decreases n,
{
    if n < 10 {
        let d = digit_str(n);
        s.append(d);
        proof {
            assert(final(s)@ =~= old(s)@ + dec_digits(n as int));
        }
    } else {
        proof {
            lemma_div_decreases(n as int, 10);
            lemma_div_pos_is_pos(n as int, 10);
            lemma_mod_bound(n as int, 10);
        }
        append_digits(s, n / 10);
        let d = digit_str(n % 10);
        s.append(d);
        proof {
            assert(final(s)@ =~= old(s)@ + dec_digits(n as int));
        }
    }
}

/// The diagnostic line the firmware raises when an unexpected exception
/// fires, for the given interrupt number.  Returned as text: the caller —
/// a panic hook, a logger, a telemetry sender — owns what happens to it,
/// since nothing on this path may itself fault.
pub fn default_handler(irqn: i16) -> (r: String)
    ensures
        r@ == unhandled_text(irqn as int),
{
    let mut s = String::from_str("Unhandled exception (IRQn = ");
    if irqn < 0 {
        proof {
            reveal_strlit("-");
        }
        s.append("-");
        proof {
            assert("-"@ =~= seq!['-']);
        }
        let mag: u32 = (0i32 - (irqn as i32)) as u32;
        append_digits(&mut s, mag);
    } else {
        append_digits(&mut s, irqn as u32);
    }
    s.append(")");
    proof {
        assert(s@ =~= unhandled_text(irqn as int));
    }
    s
}

} // verus!
