//! Pane addressing: the `{session}:{window}.{pane}` target strings.

use vstd::prelude::*;
use vstd::string::StringExecFns;

verus! {

/// The view of a decimal digit, `0` through `9`.
pub open spec fn digit_seq(d: nat) -> Seq<char> {
    if d == 0 {
        "0"@
    } else if d == 1 {
        "1"@
    } else if d == 2 {
        "2"@
    } else if d == 3 {
        "3"@
    } else if d == 4 {
        "4"@
    } else if d == 5 {
        "5"@
    } else if d == 6 {
        "6"@
    } else if d == 7 {
        "7"@
    } else if d == 8 {
        "8"@
    } else {
        "9"@
    }
}

/// The usual decimal rendering of `n`, most significant digit first,
/// with no leading zeros (and `0` rendered as `"0"`).
pub open spec fn dec_seq(n: nat) -> Seq<char>
    decreases n,
{
    if n < 10 {
        digit_seq(n)
    } else {
        dec_seq(n / 10) + digit_seq(n % 10)
    }
}

/// The pane-address target for pane `pi` of window `wi` of `session`:
/// `{session}:{wi}.{pi}`.
pub open spec fn target_seq(session: Seq<char>, wi: nat, pi: nat) -> Seq<char> {
    session + ":"@ + dec_seq(wi) + "."@ + dec_seq(pi)
}

fn digit_str(d: u64) -> (r: &'static str)
    requires
        d < 10,
    ensures
        r@ == digit_seq(d as nat),
{
    if d == 0 {
        "0"
    } else if d == 1 {
        "1"
    } else if d == 2 {
        "2"
    } else if d == 3 {
        "3"
    } else if d == 4 {
        "4"
    } else if d == 5 {
        "5"
    } else if d == 6 {
        "6"
    } else if d == 7 {
        "7"
    } else if d == 8 {
        "8"
    } else {
        "9"
    }
}

fn push_dec(n: u64, out: &mut String)
    ensures
        final(out)@ == old(out)@ + dec_seq(n as nat),
    decreases n,
{
    if n < 10 {
        out.append(digit_str(n));
    } else {
        push_dec(n / 10, out);
        out.append(digit_str(n % 10));
        proof {
            assert(out@ =~= old(out)@ + dec_seq(n as nat));
        }
    }
}

/// The target string addressing pane `pi` of window `wi` of `session`.
pub fn pane_target(session: &String, wi: usize, pi: usize) -> (r: String)
    ensures
        r@ == target_seq(session@, wi as nat, pi as nat),
{
    let mut t = session.clone();
    t.append(":");
    push_dec(wi as u64, &mut t);
    t.append(".");
    push_dec(pi as u64, &mut t);
    proof {
        assert(t@ =~= target_seq(session@, wi as nat, pi as nat));
    }
    t
}

} // verus!
