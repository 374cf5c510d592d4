//! Text for durations, as the terminal shows them.
use vstd::prelude::*;

use colored::Colorize;

verus! {

/// The ASCII digit for `d` in `0..10`.
pub open spec fn digit(d: int) -> char {
    ((48 + d) as u8) as char
}

/// The decimal digits of `n`, most significant first, with no leading zeros.
pub open spec fn decimal(n: nat) -> Seq<char>
    decreases n,
{
    if n < 10 {
        seq![digit(n as int)]
    } else {
        decimal(n / 10).push(digit((n % 10) as int))
    }
}

/// `n` in decimal, padded with a zero to at least two digits.
pub open spec fn two_digits(n: nat) -> Seq<char> {
    if n < 10 {
        seq!['0'] + decimal(n)
    } else {
        decimal(n)
    }
}

/// Whole hours in `t` ms.
pub open spec fn hours_of(t: nat) -> nat {
    t / 3600000
}

/// Minutes past the hour.
pub open spec fn minutes_of(t: nat) -> nat {
    (t / 60000) % 60
}

/// Seconds past the minute.
pub open spec fn seconds_of(t: nat) -> nat {
    (t / 1000) % 60
}

/// Hundredths of a second past the second.
pub open spec fn centis_of(t: nat) -> nat {
    (t % 1000) / 10
}

/// The text for `t` ms: `hh:mm:ss.cc` from an hour on, `mm:ss.cc` from a
/// minute on, `ss.ccs` from a second on, and the plain count with `ms` from
/// ten milliseconds on. Below that the text is a struck-through zero, see
/// `is_struck_zero`.
pub open spec fn duration_text(t: nat) -> Seq<char> {
    if hours_of(t) > 0 {
        two_digits(hours_of(t)) + seq![':'] + two_digits(minutes_of(t)) + seq![':'] + two_digits(
            seconds_of(t),
        ) + seq!['.'] + two_digits(centis_of(t))
    } else if minutes_of(t) > 0 {
        two_digits(minutes_of(t)) + seq![':'] + two_digits(seconds_of(t)) + seq!['.']
            + two_digits(centis_of(t))
    } else if seconds_of(t) > 0 {
        two_digits(seconds_of(t)) + seq!['.'] + two_digits(centis_of(t)) + seq!['s']
    } else {
        decimal(t) + seq!['m', 's']
    }
}

/// A zero in red and struck through: the bare digit when colouring is off,
/// else wrapped in the terminal's style and reset sequences.
pub open spec fn is_struck_zero(s: Seq<char>) -> bool {
    s == seq!['0'] || s == seq![
        '\x1b',
        '[',
        '9',
        ';',
        '3',
        '1',
        'm',
        '0',
        '\x1b',
        '[',
        '0',
        'm',
    ]
}

/// Relies on `String::push`: appends one character.
#[verifier::external_body]
fn push_char(s: &mut String, c: char)
    ensures
        final(s)@ == old(s)@.push(c),
{
    s.push(c);
}

/// Relies on colored's `red`, `strikethrough` and the `Display` of
/// `ColoredString`: with colouring off it prints the text alone, else the
/// SGR sequence of its style (9) and foreground (31), the text, and `ESC[0m`.
/// Whether colouring is on depends on the environment.
#[verifier::external_body]
fn struck_zero() -> (r: String)
    ensures
        is_struck_zero(r@),
{
    "0".red().strikethrough().to_string()
}

fn push_decimal(s: &mut String, n: u128)
    ensures
        final(s)@ == old(s)@ + decimal(n as nat),
    decreases n,
{
    if n >= 10 {
        push_decimal(s, n / 10);
    }
    push_char(s, ((48 + n % 10) as u8) as char);
    proof {
        if n >= 10 {
            assert(final(s)@ =~= old(s)@ + decimal(n as nat));
        } else {
            assert(final(s)@ =~= old(s)@ + decimal(n as nat));
        }
    }
}

fn push_two_digits(s: &mut String, n: u128)
    ensures
        final(s)@ == old(s)@ + two_digits(n as nat),
{
    if n < 10 {
        push_char(s, '0');
    }
    push_decimal(s, n);
    assert(final(s)@ =~= old(s)@ + two_digits(n as nat));
}

/// Formats a duration in milliseconds for display.
pub fn format_time(t: u128) -> (r: String)
    ensures
        t >= 10 ==> r@ == duration_text(t as nat),
        t < 10 ==> is_struck_zero(r@),
{
    let seconds_total = t / 1000;
    let minutes_total = seconds_total / 60;
    let hours = minutes_total / 60;
    let centis = (t % 1000) / 10;
    let seconds = seconds_total % 60;
    let minutes = minutes_total % 60;
    let mut s = String::new();
    if hours > 0 {
        push_two_digits(&mut s, hours);
        push_char(&mut s, ':');
        push_two_digits(&mut s, minutes);
        push_char(&mut s, ':');
        push_two_digits(&mut s, seconds);
        push_char(&mut s, '.');
        push_two_digits(&mut s, centis);
    } else if minutes > 0 {
        push_two_digits(&mut s, minutes);
        push_char(&mut s, ':');
        push_two_digits(&mut s, seconds);
        push_char(&mut s, '.');
        push_two_digits(&mut s, centis);
    } else if seconds > 0 {
        push_two_digits(&mut s, seconds);
        push_char(&mut s, '.');
        push_two_digits(&mut s, centis);
        push_char(&mut s, 's');
    } else if centis > 0 {
        push_decimal(&mut s, t);
        push_char(&mut s, 'm');
        push_char(&mut s, 's');
    } else {
        return struck_zero();
    }
    s
}

/// Magnitude of a signed count of milliseconds.
pub open spec fn magnitude(ms: int) -> nat {
    if ms < 0 {
        (-ms) as nat
    } else {
        ms as nat
    }
}

/// Formats a signed countdown: `-` and the time left while it runs, `+` and
/// the overrun once it has passed zero.
pub fn format_remaining(ms: i128) -> (r: String)
    ensures
        r@.len() >= 1,
        r@[0] == (if ms < 0 {
            '+'
        } else {
            '-'
        }),
        magnitude(ms as int) >= 10 ==> r@.drop_first() == duration_text(magnitude(ms as int)),
        magnitude(ms as int) < 10 ==> is_struck_zero(r@.drop_first()),
{
    let abs: u128 = if ms < 0 {
        (-(ms + 1)) as u128 + 1
    } else {
        ms as u128
    };
    let mut s = String::new();
    push_char(&mut s, if ms < 0 {
        '+'
    } else {
        '-'
    });
    let body = format_time(abs);
    push_all(&mut s, &body);
    assert(s@.drop_first() =~= body@);
    s
}

fn push_all(s: &mut String, t: &String)
    ensures
        final(s)@ == old(s)@ + t@,
{
    let ghost start = s@;
    let n = t.as_str().unicode_len();
    let mut i: usize = 0;
    while i < n
        invariant
            n == t@.len(),
            i <= n,
            s@ == start + t@.subrange(0, i as int),
        decreases n - i,
    {
        let c = t.as_str().get_char(i);
        push_char(s, c);
        i = i + 1;
        assert(s@ =~= start + t@.subrange(0, i as int));
    }
    assert(t@.subrange(0, n as int) =~= t@);
}

} // verus!
