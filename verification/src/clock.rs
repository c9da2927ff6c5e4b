//! Durations as text for display: minutes and seconds, two digits each.

use vstd::prelude::*;
use vstd::string::StringExecFns;
use crate::session::Snapshot;

verus! {

/// Nanoseconds in one second.
pub const NANOS_PER_SECOND: u64 = 1_000_000_000;

/// The character of a decimal digit.
pub open spec fn digit(value: int) -> char {
    if value == 0 {
        '0'
    } else if value == 1 {
        '1'
    } else if value == 2 {
        '2'
    } else if value == 3 {
        '3'
    } else if value == 4 {
        '4'
    } else if value == 5 {
        '5'
    } else if value == 6 {
        '6'
    } else if value == 7 {
        '7'
    } else if value == 8 {
        '8'
    } else {
        '9'
    }
}

/// A number in decimal, without leading zeros.
pub open spec fn decimal(number: nat) -> Seq<char>
    decreases number,
{
    if number < 10 {
        seq![digit(number as int)]
    } else {
        decimal(number / 10).push(digit((number % 10) as int))
    }
}

/// A number in decimal, with a leading zero where it has one digit only.
pub open spec fn two_digits(number: nat) -> Seq<char> {
    if number < 10 {
        seq!['0'] + decimal(number)
    } else {
        decimal(number)
    }
}

/// A count of seconds as minutes and seconds with a colon between them.
pub open spec fn clock_text(seconds: nat) -> Seq<char> {
    two_digits(seconds / 60) + seq![':'] + two_digits(seconds % 60)
}

/// The text of a snapshot's times: elapsed, a slash between spaces, total.
pub open spec fn time_text(elapsed: nat, total: nat) -> Seq<char> {
    clock_text(elapsed / (NANOS_PER_SECOND as nat)) + seq![' ', '/', ' '] + clock_text(
        total / (NANOS_PER_SECOND as nat),
    )
}

fn digit_text(value: u64) -> (text: &'static str)
    requires
        value < 10,
    ensures
        text@ == seq![digit(value as int)],
{
    proof {
        reveal_strlit("0");
        reveal_strlit("1");
        reveal_strlit("2");
        reveal_strlit("3");
        reveal_strlit("4");
        reveal_strlit("5");
        reveal_strlit("6");
        reveal_strlit("7");
        reveal_strlit("8");
        reveal_strlit("9");
    }
    let text = if value == 0 {
        "0"
    } else if value == 1 {
        "1"
    } else if value == 2 {
        "2"
    } else if value == 3 {
        "3"
    } else if value == 4 {
        "4"
    } else if value == 5 {
        "5"
    } else if value == 6 {
        "6"
    } else if value == 7 {
        "7"
    } else if value == 8 {
        "8"
    } else {
        "9"
    };
    assert(text@ =~= seq![digit(value as int)]);
    text
}

fn append_decimal(text: &mut String, number: u64)
    ensures
        final(text)@ == old(text)@ + decimal(number as nat),
    decreases number,
{
    if number >= 10 {
        append_decimal(text, number / 10);
    }
    text.append(digit_text(number % 10));
    assert(text@ =~= old(text)@ + decimal(number as nat));
}

fn append_two_digits(text: &mut String, number: u64)
    ensures
        final(text)@ == old(text)@ + two_digits(number as nat),
{
    if number < 10 {
        proof {
            reveal_strlit("0");
        }
        text.append("0");
    }
    append_decimal(text, number);
    assert(text@ =~= old(text)@ + two_digits(number as nat));
}

fn append_clock(text: &mut String, nanos: u64)
    ensures
        final(text)@ == old(text)@ + clock_text((nanos / NANOS_PER_SECOND) as nat),
{
    let seconds: u64 = nanos / NANOS_PER_SECOND;
    append_two_digits(text, seconds / 60);
    proof {
        reveal_strlit(":");
    }
    text.append(":");
    append_two_digits(text, seconds % 60);
    assert(text@ =~= old(text)@ + clock_text(seconds as nat));
}

/// A duration in nanoseconds as minutes and seconds, two digits each and
/// more where the minutes need them. Parts of a second are dropped.
pub fn clock_label(nanos: u64) -> (label: String)
    ensures
        label@ == clock_text((nanos / NANOS_PER_SECOND) as nat),
{
    let mut label = String::new();
    append_clock(&mut label, nanos);
    assert(label@ =~= clock_text((nanos / NANOS_PER_SECOND) as nat));
    label
}

impl Snapshot {
    /// The elapsed time as minutes and seconds.
    pub fn elapsed_label(&self) -> (label: String)
        ensures
            label@ == clock_text((self.elapsed / NANOS_PER_SECOND) as nat),
    {
        clock_label(self.elapsed)
    }

    /// The total duration as minutes and seconds.
    pub fn total_label(&self) -> (label: String)
        ensures
            label@ == clock_text((self.total / NANOS_PER_SECOND) as nat),
    {
        clock_label(self.total)
    }

    /// Elapsed time and total duration, with a slash between them.
    pub fn time_label(&self) -> (label: String)
        ensures
            label@ == time_text(self.elapsed as nat, self.total as nat),
    {
        let mut label = String::new();
        append_clock(&mut label, self.elapsed);
        proof {
            reveal_strlit(" / ");
        }
        label.append(" / ");
        append_clock(&mut label, self.total);
        assert(label@ =~= time_text(self.elapsed as nat, self.total as nat));
        label
    }
}

} // verus!
