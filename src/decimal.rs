use vstd::prelude::*;
use vstd::string::*;

verus! {

/// The ten decimal digits, in order.
pub open spec fn digit_chars() -> Seq<char> {
    seq!['0', '1', '2', '3', '4', '5', '6', '7', '8', '9']
}

/// The decimal digits of `n`, most significant first, with no leading zero.
pub open spec fn digits_of(n: nat) -> Seq<char>
    decreases n,
{
    if n < 10 {
        seq![digit_chars()[n as int]]
    } else {
        digits_of(n / 10).push(digit_chars()[(n % 10) as int])
    }
}

/// `n` written in decimal, with a leading minus sign when it is negative.
pub open spec fn decimal(n: int) -> Seq<char> {
    if n < 0 {
        seq!['-'] + digits_of((-n) as nat)
    } else {
        digits_of(n as nat)
    }
}

/// The one-character text of the digit `d`.
fn digit_text(d: u32) -> (r: &'static str)
    requires
        d < 10,
    ensures
        r@ == seq![digit_chars()[d as int]],
{
    proof {
        reveal_strlit("0123456789");
    }
    let all: &'static str = "0123456789";
    let r = all.substring_char(d as usize, d as usize + 1);
    assert(r@ =~= seq![digit_chars()[d as int]]);
    r
}

/// Appends the decimal digits of `n` to `s`.
fn push_digits(s: &mut String, n: u32)
    ensures
        final(s)@ == old(s)@ + digits_of(n as nat),
    decreases n,
{
    if n >= 10 {
        push_digits(s, n / 10);
    }
    let d = digit_text(n % 10);
    s.append(d);
    assert(final(s)@ =~= old(s)@ + digits_of(n as nat));
}

/// Writes `n` in decimal.
pub fn render_int(n: i32) -> (r: String)
    ensures
        r@ == decimal(n as int),
{
    let mut s = String::new();
    if n < 0 {
        proof {
            reveal_strlit("-");
        }
        s.append("-");
        let m: u32 = (0i64 - n as i64) as u32;
        push_digits(&mut s, m);
        assert(s@ =~= decimal(n as int));
    } else {
        push_digits(&mut s, n as u32);
    }
    s
}

} // verus!
