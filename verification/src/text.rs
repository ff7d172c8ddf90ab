//! Decimal rendering of integers and the fixed messages of the recorder.

use vstd::prelude::*;

verus! {

/// The ASCII digit for `d` (0 to 9).
pub open spec fn digit_char(d: nat) -> char {
    (48 + d) as char
}

/// The decimal representation of `n`, without sign or leading zeros.
pub open spec fn decimal_chars(n: nat) -> Seq<char>
    decreases n,
{
    if n < 10 {
        seq![digit_char(n)]
    } else {
        decimal_chars(n / 10).push(digit_char(n % 10))
    }
}

/// The number a string of decimal digits denotes.
pub open spec fn digits_value(digits: Seq<char>) -> int
    decreases digits.len(),
{
    if digits.len() == 0 {
        0
    } else {
        digits_value(digits.drop_last()) * 10 + (digits.last() as int - 48)
    }
}

/// The decimal representation of `n` is a non-empty string of the digits
/// '0' to '9' that denotes `n`, with no leading zero unless `n` is 0.
pub proof fn lemma_decimal_denotes(n: nat)
    ensures
        decimal_chars(n).len() > 0,
        forall|i: int|
            0 <= i < decimal_chars(n).len() ==> '0' <= #[trigger] decimal_chars(n)[i] <= '9',
        digits_value(decimal_chars(n)) == n,
        decimal_chars(n)[0] == '0' ==> n == 0,
    decreases n,
{
    let last = digit_char(n % 10);
    assert(last as int == 48 + n % 10);
    if n >= 10 {
        lemma_decimal_denotes(n / 10);
        let d = decimal_chars(n);
        assert(d.drop_last() =~= decimal_chars(n / 10));
        assert(d.last() == last);
        assert(d[0] == decimal_chars(n / 10)[0]);
        assert((n / 10) * 10 + n % 10 == n);
        assert(digits_value(d.drop_last()) == n / 10);
        assert(digits_value(d) == digits_value(d.drop_last()) * 10 + (d.last() as int - 48));
    } else {
        let d = decimal_chars(n);
        assert(d.drop_last() =~= Seq::<char>::empty());
        assert(n % 10 == n);
        assert(digits_value(d.drop_last()) == 0);
        assert(d.last() == last);
        assert(digits_value(d) == digits_value(d.drop_last()) * 10 + (d.last() as int - 48));
    }
}

fn digit_str(d: u64) -> (s: &'static str)
    requires
        d < 10,
    ensures
        s@ == seq![digit_char(d as nat)],
{
    proof {
        reveal_strlit("0");
        reveal_strlit("1");
        reveal_strlit("2");
        reveal_strlit("3");
        reveal_strlit("4");
        reveal_strlit("5");
        reveal_strlit("6");
        reveal_strlit("7");
        reveal_strlit("8");
        reveal_strlit("9");
    }
    match d {
        0 => "0",
        1 => "1",
        2 => "2",
        3 => "3",
        4 => "4",
        5 => "5",
        6 => "6",
        7 => "7",
        8 => "8",
        _ => "9",
    }
}

/// Appends the decimal representation of `n` to `out`.
pub fn push_decimal(out: &mut String, n: u64)
    ensures
        final(out)@ == old(out)@ + decimal_chars(n as nat),
    decreases n,
{
    if n >= 10 {
        push_decimal(out, n / 10);
    }
    let d = digit_str(n % 10);
    out.append(d);
    assert(final(out)@ =~= old(out)@ + decimal_chars(n as nat));
}

/// The decimal representation of `n`, as `n.to_string()` gives it.
pub fn decimal_string(n: u64) -> (s: String)
    ensures
        s@ == decimal_chars(n as nat),
{
    let mut s = String::new();
    push_decimal(&mut s, n);
    assert(s@ =~= decimal_chars(n as nat));
    s
}


/// "Recording started at {rate} Hz, {channels} ch, loopback {mic}", where
/// {mic} is "+ mic" when a microphone is captured too and "(no mic)" when not.
pub open spec fn spec_start_message(sample_rate: u32, channels: u16, has_mic: bool) -> Seq<char> {
    "Recording started at "@ + decimal_chars(sample_rate as nat) + " Hz, "@ + decimal_chars(
        channels as nat,
    ) + " ch, loopback "@ + if has_mic {
        "+ mic"@
    } else {
        "(no mic)"@
    }
}

/// The answer to a successful start.
pub fn start_message(sample_rate: u32, channels: u16, has_mic: bool) -> (m: String)
    ensures
        m@ == spec_start_message(sample_rate, channels, has_mic),
{
    let mut m = String::from_str("Recording started at ");
    push_decimal(&mut m, sample_rate as u64);
    m.append(" Hz, ");
    push_decimal(&mut m, channels as u64);
    m.append(" ch, loopback ");
    if has_mic {
        m.append("+ mic");
    } else {
        m.append("(no mic)");
    }
    m
}

/// "Recording stopped. Duration: {secs} seconds"
pub open spec fn spec_stop_message(duration_secs: u64) -> Seq<char> {
    "Recording stopped. Duration: "@ + decimal_chars(duration_secs as nat) + " seconds"@
}

/// The answer to a successful stop, given the seconds since the start.
pub fn stop_message(duration_secs: u64) -> (m: String)
    ensures
        m@ == spec_stop_message(duration_secs),
{
    let mut m = String::from_str("Recording stopped. Duration: ");
    push_decimal(&mut m, duration_secs);
    m.append(" seconds");
    m
}

} // verus!
