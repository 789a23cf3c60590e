//! The round's clock: the time that a round has lasted, and its text.

use vstd::prelude::*;

verus! {

/// The character of a decimal digit.
pub open spec fn digit(d: int) -> char {
    if d == 0 {
        '0'
    } else if d == 1 {
        '1'
    } else if d == 2 {
        '2'
    } else if d == 3 {
        '3'
    } else if d == 4 {
        '4'
    } else if d == 5 {
        '5'
    } else if d == 6 {
        '6'
    } else if d == 7 {
        '7'
    } else if d == 8 {
        '8'
    } else {
        '9'
    }
}

/// The decimal digits of `n`, the highest first, without leading zeros.
pub open spec fn digits(n: nat) -> Seq<char>
    decreases n,
{
    if n < 10 {
        seq![digit(n as int)]
    } else {
        digits(n / 10).push(digit((n % 10) as int))
    }
}

/// The decimal digits of `n`, with zeros in front of them until there are
/// `width` characters.
pub open spec fn padded(n: nat, width: nat) -> Seq<char> {
    if digits(n).len() >= width {
        digits(n)
    } else {
        Seq::new((width - digits(n).len()) as nat, |i: int| '0') + digits(n)
    }
}

/// The text of a time of `nanos` nanoseconds: minutes, seconds and
/// milliseconds, with colons between them; minutes and seconds have two
/// digits or more, milliseconds three.
pub open spec fn clock(nanos: u64) -> Seq<char> {
    let secs = nanos as nat / 1_000_000_000;
    let millis = (nanos as nat / 1_000_000) % 1000;
    padded(secs / 60, 2) + seq![':'] + padded(secs % 60, 2) + seq![':'] + padded(millis, 3)
}

/// The text of one decimal digit.
fn digit_str(d: u64) -> (text: &'static str)
    requires
        d < 10,
    ensures
        text@ == seq![digit(d as int)],
{
    proof {
        reveal_strlit("0");
        reveal_strlit("1");
        reveal_strlit("2");
        reveal_strlit("3");
        reveal_strlit("4");
        reveal_strlit("5");
        reveal_strlit("6");
        reveal_strlit("7");
        reveal_strlit("8");
        reveal_strlit("9");
    }
    let text: &'static str = if d == 0 {
        "0"
    } else if d == 1 {
        "1"
    } else if d == 2 {
        "2"
    } else if d == 3 {
        "3"
    } else if d == 4 {
        "4"
    } else if d == 5 {
        "5"
    } else if d == 6 {
        "6"
    } else if d == 7 {
        "7"
    } else if d == 8 {
        "8"
    } else {
        "9"
    };
    assert(text@ =~= seq![digit(d as int)]);
    text
}

/// Appends the decimal digits of `n`.
fn push_digits(text: &mut String, n: u64)
    ensures
        final(text)@ == old(text)@ + digits(n as nat),
    decreases n,
{
    if n >= 10 {
        push_digits(text, n / 10);
    }
    text.append(digit_str(n % 10));
    assert(text@ =~= old(text)@ + digits(n as nat));
}

/// The number of decimal digits of `n`.
fn digit_count(n: u64) -> (count: usize)
    ensures
        count == digits(n as nat).len(),
        1 <= count <= 20,
    decreases n,
{
    if n < 10 {
        1
    } else {
        let rest: usize = digit_count(n / 10);
        proof {
            lemma_digits_bound(n as nat);
        }
        rest + 1
    }
}

/// A number below `2^64` has at most 20 decimal digits.
proof fn lemma_digits_bound(n: nat)
    requires
        n <= u64::MAX,
    ensures
        digits(n).len() <= 20,
{
    reveal_with_fuel(digits, 21);
}

/// Appends the decimal digits of `n`, with zeros in front of them until
/// there are `width` characters.
fn push_padded(text: &mut String, n: u64, width: usize)
    ensures
        final(text)@ == old(text)@ + padded(n as nat, width as nat),
{
    let count: usize = digit_count(n);
    let mut zeros: usize = 0;
    while count + zeros < width
        invariant
            count == digits(n as nat).len(),
            count <= 20,
            zeros == 0 || count + zeros <= width,
            text@ == old(text)@ + Seq::new(zeros as nat, |i: int| '0'),
        decreases width - (count + zeros),
    {
        proof {
            reveal_strlit("0");
        }
        text.append("0");
        zeros = zeros + 1;
        assert(text@ =~= old(text)@ + Seq::new(zeros as nat, |i: int| '0'));
    }
    push_digits(text, n);
    assert(text@ =~= old(text)@ + padded(n as nat, width as nat));
}

/// The text of a time of `duration` nanoseconds.
pub fn fmt_duration(duration: u64) -> (text: String)
    ensures
        text@ == clock(duration),
{
    let millis: u64 = (duration / 1_000_000) % 1000;
    let secs: u64 = (duration / 1_000_000_000) % 60;
    let mins: u64 = (duration / 1_000_000_000) / 60;
    let mut text = String::new();
    proof {
        reveal_strlit(":");
    }
    push_padded(&mut text, mins, 2);
    text.append(":");
    push_padded(&mut text, secs, 2);
    text.append(":");
    push_padded(&mut text, millis, 3);
    assert(text@ =~= clock(duration));
    text
}

/// Adds the tick's time to the time that the round has lasted. The sum
/// stops at the largest value that it can hold.
pub fn update_ui(round: &mut u64, elapsed: u64)
    ensures
        *final(round) == if *old(round) + elapsed > u64::MAX {
            u64::MAX
        } else {
            (*old(round) + elapsed) as u64
        },
{
    *round = round.saturating_add(elapsed);
}

/// Starts the round's time over.
pub fn reset_ui(round: &mut u64)
    ensures
        *final(round) == 0,
{
    *round = 0;
}

} // verus!
