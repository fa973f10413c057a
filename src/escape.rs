use vstd::prelude::*;

verus! {

/// The decimal digit character for `d` (0 to 9).
pub open spec fn digit_char(d: nat) -> char {
    if d == 0 {
        '0'
    } else if d == 1 {
        '1'
    } else if d == 2 {
        '2'
    } else if d == 3 {
        '3'
    } else if d == 4 {
        '4'
    } else if d == 5 {
        '5'
    } else if d == 6 {
        '6'
    } else if d == 7 {
        '7'
    } else if d == 8 {
        '8'
    } else {
        '9'
    }
}

/// The decimal notation of `n`, without leading zeros.
pub open spec fn decimal(n: nat) -> Seq<char>
    decreases n,
{
    if n < 10 {
        seq![digit_char(n)]
    } else {
        decimal(n / 10) + seq![digit_char(n % 10)]
    }
}

/// The SGR escape sequence `ESC [ n m`.
pub open spec fn sgr(n: nat) -> Seq<char> {
    seq!['\x1b', '['] + decimal(n) + seq!['m']
}

/// The reset sequence `ESC [ 0 m`.
pub open spec fn reset_seq() -> Seq<char> {
    sgr(0)
}

/// Returns the one-character text of the digit `d`.
fn digit_text(d: usize) -> (r: &'static str)
    requires
        d < 10,
    ensures
        r@ == seq![digit_char(d as nat)],
{
    proof {
        reveal_strlit("0");
        reveal_strlit("1");
        reveal_strlit("2");
        reveal_strlit("3");
        reveal_strlit("4");
        reveal_strlit("5");
        reveal_strlit("6");
        reveal_strlit("7");
        reveal_strlit("8");
        reveal_strlit("9");
    }
    if d == 0 {
        "0"
    } else if d == 1 {
        "1"
    } else if d == 2 {
        "2"
    } else if d == 3 {
        "3"
    } else if d == 4 {
        "4"
    } else if d == 5 {
        "5"
    } else if d == 6 {
        "6"
    } else if d == 7 {
        "7"
    } else if d == 8 {
        "8"
    } else {
        "9"
    }
}

/// Appends the escape sequence `ESC [ n m` to `out`.
pub fn push_sgr(out: &mut String, n: usize)
    requires
        n < 100,
    ensures
        final(out)@ == old(out)@ + sgr(n as nat),
{
    proof {
        reveal_strlit("\x1b[");
        reveal_strlit("m");
    }
    out.append("\x1b[");
    if n >= 10 {
        out.append(digit_text(n / 10));
        assert(decimal((n / 10) as nat) == seq![digit_char((n / 10) as nat)]);
    }
    out.append(digit_text(n % 10));
    out.append("m");
    assert(out@ =~= old(out)@ + sgr(n as nat));
}

} // verus!
