//! The window title text, `HH:MM:SS - sowon`, as ASCII bytes.
use vstd::prelude::*;
use crate::time_model::Hms;

verus! {

/// The decimal digits of `n`, most significant first.
pub open spec fn decimal(n: nat) -> Seq<u8>
    decreases n,
{
    if n < 10 {
        seq![(48 + n) as u8]
    } else {
        decimal(n / 10).push((48 + n % 10) as u8)
    }
}

/// `n` in decimal, padded with a zero to at least two digits.
pub open spec fn two_digits(n: nat) -> Seq<u8> {
    if n < 10 {
        seq![48u8, (48 + n) as u8]
    } else {
        decimal(n)
    }
}

/// The bytes of ` - sowon`.
pub open spec fn title_suffix() -> Seq<u8> {
    seq![32u8, 45u8, 32u8, 115u8, 111u8, 119u8, 111u8, 110u8]
}

/// The title for time `t`: `HH:MM:SS - sowon`, each field at least two digits.
pub open spec fn title_of(t: Hms) -> Seq<u8> {
    two_digits(t.hours as nat) + seq![58u8] + two_digits(t.minutes as nat) + seq![58u8]
        + two_digits(t.seconds as nat) + title_suffix()
}

/// Appends the decimal digits of `n`.
fn push_decimal(out: &mut Vec<u8>, n: u64)
    ensures
        final(out)@ == old(out)@ + decimal(n as nat),
    decreases n,
{
    if n >= 10 {
        push_decimal(out, n / 10);
    }
    out.push(48 + (n % 10) as u8);
    proof {
        if n < 10 {
            assert(decimal(n as nat) =~= seq![(48 + n) as u8]);
        }
    }
    assert(final(out)@ =~= old(out)@ + decimal(n as nat)) by {
        if n >= 10 {
            assert(decimal(n as nat) == decimal((n / 10) as nat).push((48 + n % 10) as u8));
        }
    }
}

/// Appends `n` padded with a zero to at least two digits.
fn push_two_digits(out: &mut Vec<u8>, n: u64)
    ensures
        final(out)@ == old(out)@ + two_digits(n as nat),
{
    if n < 10 {
        out.push(48);
        out.push(48 + n as u8);
        assert(final(out)@ =~= old(out)@ + two_digits(n as nat));
    } else {
        push_decimal(out, n);
    }
}

/// Writes the window title for time `t` as ASCII bytes.
pub fn title_text(t: Hms) -> (r: Vec<u8>)
    ensures
        r@ == title_of(t),
{
    let mut out: Vec<u8> = Vec::new();
    push_two_digits(&mut out, t.hours);
    out.push(58);
    push_two_digits(&mut out, t.minutes);
    out.push(58);
    push_two_digits(&mut out, t.seconds);
    let suffix: Vec<u8> = vec![32, 45, 32, 115, 111, 119, 111, 110];
    let mut i: usize = 0;
    let ghost head = out@;
    while i < suffix.len()
        invariant
            0 <= i <= suffix@.len(),
            suffix@ == title_suffix(),
            out@ == head + suffix@.subrange(0, i as int),
        decreases suffix@.len() - i,
    {
        out.push(suffix[i]);
        assert(suffix@.subrange(0, i + 1) =~= suffix@.subrange(0, i as int).push(suffix@[i as int]));
        i = i + 1;
    }
    assert(suffix@.subrange(0, 8) =~= suffix@);
    assert(out@ =~= title_of(t));
    out
}

} // verus!
