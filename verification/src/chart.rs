//! What a chart of a simulation is made of: its file name, the ends of its
//! axes, and the points of its two series. The vertical axis ends at the
//! capacity of the limiter, the horizontal one at the number of seconds.
//! Drawing is left to the caller.

use vstd::prelude::*;
use vstd::string::*;

verus! {

/// The character of a decimal digit.
pub open spec fn digit(d: nat) -> char {
    if d == 0 {
        '0'
    } else if d == 1 {
        '1'
    } else if d == 2 {
        '2'
    } else if d == 3 {
        '3'
    } else if d == 4 {
        '4'
    } else if d == 5 {
        '5'
    } else if d == 6 {
        '6'
    } else if d == 7 {
        '7'
    } else if d == 8 {
        '8'
    } else {
        '9'
    }
}

/// A number in decimal, without leading zeros.
pub open spec fn decimal(n: nat) -> Seq<char>
    decreases n,
{
    if n < 10 {
        seq![digit(n)]
    } else {
        decimal(n / 10).push(digit(n % 10))
    }
}

/// The name of the chart of a drain limiter.
pub open spec fn leaky_bucket_name(capacity: nat, leak_rate: nat) -> Seq<char> {
    "leaky_bucket_"@ + decimal(capacity) + "_leak_"@ + decimal(leak_rate) + ".png"@
}

/// The name of the chart of a refill limiter.
pub open spec fn token_bucket_name(capacity: nat, refill_rate: nat) -> Seq<char> {
    "token_bucket_capacity_"@ + decimal(capacity) + "_refill_"@ + decimal(refill_rate) + ".png"@
}

/// The name of the chart of an interval-reset limiter.
pub open spec fn fixed_window_name(capacity: nat, window_size: nat) -> Seq<char> {
    "fixed_window_"@ + decimal(capacity) + "_"@ + decimal(window_size) + ".png"@
}

/// The name of the chart of a rolling-log limiter.
pub open spec fn sliding_window_name(capacity: nat, window_size: nat) -> Seq<char> {
    "sliding_window_"@ + decimal(capacity) + "_"@ + decimal(window_size) + ".png"@
}

/// The text of one decimal digit.
fn digit_text(d: u64) -> (text: &'static str)
    requires
        d < 10,
    ensures
        text@ == seq![digit(d as nat)],
{
    proof {
        reveal_strlit("0");
        reveal_strlit("1");
        reveal_strlit("2");
        reveal_strlit("3");
        reveal_strlit("4");
        reveal_strlit("5");
        reveal_strlit("6");
        reveal_strlit("7");
        reveal_strlit("8");
        reveal_strlit("9");
    }
    let text = if d == 0 {
        "0"
    } else if d == 1 {
        "1"
    } else if d == 2 {
        "2"
    } else if d == 3 {
        "3"
    } else if d == 4 {
        "4"
    } else if d == 5 {
        "5"
    } else if d == 6 {
        "6"
    } else if d == 7 {
        "7"
    } else if d == 8 {
        "8"
    } else {
        "9"
    };
    assert(text@ =~= seq![digit(d as nat)]);
    text
}

/// Writes a number in decimal at the end of a text.
fn push_decimal(text: &mut String, n: u64)
    ensures
        final(text)@ == old(text)@ + decimal(n as nat),
    decreases n,
{
    if n >= 10 {
        push_decimal(text, n / 10);
    }
    text.append(digit_text(n % 10));
    proof {
        if n >= 10 {
            assert(final(text)@ =~= old(text)@ + decimal((n / 10) as nat).push(digit((n % 10) as nat)));
        }
    }
}

/// A file name made of a prefix, a number, a separator, a second number and
/// the extension `.png`.
fn chart_name(prefix: &str, first: u64, separator: &str, second: u64) -> (name: String)
    ensures
        name@ == prefix@ + decimal(first as nat) + separator@ + decimal(second as nat) + ".png"@,
{
    let mut name = String::from_str(prefix);
    push_decimal(&mut name, first);
    name.append(separator);
    push_decimal(&mut name, second);
    name.append(".png");
    name
}

/// The name of the chart of a drain limiter with the given capacity and
/// leak rate.
pub fn leaky_bucket_chart(capacity: u64, leak_rate: u64) -> (name: String)
    ensures
        name@ == leaky_bucket_name(capacity as nat, leak_rate as nat),
{
    chart_name("leaky_bucket_", capacity, "_leak_", leak_rate)
}

/// The name of the chart of a refill limiter with the given capacity and
/// refill rate.
pub fn token_bucket_chart(capacity: u64, refill_rate: u64) -> (name: String)
    ensures
        name@ == token_bucket_name(capacity as nat, refill_rate as nat),
{
    chart_name("token_bucket_capacity_", capacity, "_refill_", refill_rate)
}

/// The name of the chart of an interval-reset limiter with the given
/// capacity and window.
pub fn fixed_window_chart(capacity: u64, window_size: u64) -> (name: String)
    ensures
        name@ == fixed_window_name(capacity as nat, window_size as nat),
{
    chart_name("fixed_window_", capacity, "_", window_size)
}

/// The name of the chart of a rolling-log limiter with the given capacity
/// and window.
pub fn sliding_window_chart(capacity: u64, window_size: u64) -> (name: String)
    ensures
        name@ == sliding_window_name(capacity as nat, window_size as nat),
{
    chart_name("sliding_window_", capacity, "_", window_size)
}

/// The end of an axis on the chart: the capacity for the vertical axis, the
/// number of seconds for the horizontal one, cut to 32 bits.
pub fn axis_end(bound: u64) -> (end: u32)
    ensures
        end == bound as u32,
{
    #[verifier::truncate]
    (bound as u32)
}

/// The points of one series: for each second its index and its tally, both
/// cut to 32 bits.
pub fn series_points(tallies: &[u64]) -> (points: Vec<(u32, u32)>)
    ensures
        points@.len() == tallies@.len(),
        forall|i: int|
            0 <= i < tallies@.len() ==> points@[i] == (i as u32, tallies@[i] as u32),
{
    let mut points: Vec<(u32, u32)> = Vec::new();
    let mut i: usize = 0;
    while i < tallies.len()
        invariant
            0 <= i <= tallies@.len(),
            points@.len() == i,
            forall|j: int| 0 <= j < i ==> points@[j] == (j as u32, tallies@[j] as u32),
        decreases tallies@.len() - i,
    {
        let x: u32 = #[verifier::truncate]
        (i as u32);
        let y: u32 = #[verifier::truncate]
        (tallies[i] as u32);
        points.push((x, y));
        i = i + 1;
    }
    points
}

} // verus!
