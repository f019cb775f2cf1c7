//! Rendering of numeric status codes into diagnostic text.

use vstd::prelude::*;
use vstd::string::StringExecFns;

verus! {

/// The decimal digit character for `d`, which is meaningful for `0 <= d <= 9`.
pub open spec fn digit_char(d: int) -> char {
    if d == 0 {
        '0'
    } else if d == 1 {
        '1'
    } else if d == 2 {
        '2'
    } else if d == 3 {
        '3'
    } else if d == 4 {
        '4'
    } else if d == 5 {
        '5'
    } else if d == 6 {
        '6'
    } else if d == 7 {
        '7'
    } else if d == 8 {
        '8'
    } else {
        '9'
    }
}

/// The decimal rendering of `n`: most significant digit first, no leading
/// zeros, a single `'0'` for zero.
pub open spec fn dec_rep(n: nat) -> Seq<char>
    decreases n,
{
    if n < 10 {
        seq![digit_char(n as int)]
    } else {
        dec_rep(n / 10).push(digit_char((n % 10) as int))
    }
}

/// A decimal rendering always holds at least one digit.
pub proof fn lemma_dec_rep_nonempty(n: nat)
    ensures
        dec_rep(n).len() >= 1,
    decreases n,
{
    if n >= 10 {
        lemma_dec_rep_nonempty(n / 10);
    }
}

/// Appends the decimal rendering of `n` to `s`.
fn push_decimal(s: &mut String, n: u16)
    ensures
        final(s)@ == old(s)@ + dec_rep(n as nat),
    decreases n,
{
    if n >= 10 {
        push_decimal(s, n / 10);
    }
    let d: u16 = n % 10;
    let c: &str = if d == 0 {
        "0"
    } else if d == 1 {
        "1"
    } else if d == 2 {
        "2"
    } else if d == 3 {
        "3"
    } else if d == 4 {
        "4"
    } else if d == 5 {
        "5"
    } else if d == 6 {
        "6"
    } else if d == 7 {
        "7"
    } else if d == 8 {
        "8"
    } else {
        "9"
    };
    proof {
        reveal_strlit("0");
        reveal_strlit("1");
        reveal_strlit("2");
        reveal_strlit("3");
        reveal_strlit("4");
        reveal_strlit("5");
        reveal_strlit("6");
        reveal_strlit("7");
        reveal_strlit("8");
        reveal_strlit("9");
        assert(c@ =~= seq![digit_char(d as int)]);
    }
    s.append(c);
    proof {
        if n >= 10 {
            assert(dec_rep(n as nat) =~= dec_rep(n as nat / 10) + seq![
                digit_char((n as nat % 10) as int),
            ]);
        }
        assert(s@ =~= old(s)@ + dec_rep(n as nat));
    }
}

/// The diagnostic text for a response whose status is not the success status:
/// `HTTP Error: ` followed by the decimal status code.
pub open spec fn status_message_seq(code: u16) -> Seq<char> {
    "HTTP Error: "@ + dec_rep(code as nat)
}

/// Builds the diagnostic text for a non-success status code.
pub fn status_message(code: u16) -> (r: String)
    ensures
        r@ == status_message_seq(code),
{
    let mut s = String::from_str("HTTP Error: ");
    push_decimal(&mut s, code);
    s
}

/// A status diagnostic is never empty.
pub proof fn lemma_status_message_nonempty(code: u16)
    ensures
        status_message_seq(code).len() > 0,
{
    reveal_strlit("HTTP Error: ");
    lemma_dec_rep_nonempty(code as nat);
}

} // verus!
