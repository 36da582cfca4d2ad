//! The texts that the examples emit: decimal rendering of a counter, the
//! producer's numbered queue messages, and the progress lines of the small
//! counting demo.

use vstd::prelude::*;
use vstd::string::StringExecFns;

verus! {

/// The character for a single decimal digit.
pub open spec fn digit_char(d: nat) -> char {
    if d == 0 {
        '0'
    } else if d == 1 {
        '1'
    } else if d == 2 {
        '2'
    } else if d == 3 {
        '3'
    } else if d == 4 {
        '4'
    } else if d == 5 {
        '5'
    } else if d == 6 {
        '6'
    } else if d == 7 {
        '7'
    } else if d == 8 {
        '8'
    } else {
        '9'
    }
}

/// The decimal digits of `n`, most significant first, with no leading zeros
/// (a single `'0'` for zero itself).
pub open spec fn decimal_digits(n: nat) -> Seq<char>
    decreases n,
{
    if n < 10 {
        seq![digit_char(n)]
    } else {
        decimal_digits(n / 10).push(digit_char(n % 10))
    }
}

/// The message the producer sends for counter value `k`.
pub open spec fn message_text(k: nat) -> Seq<char> {
    "hello,index:"@ + decimal_digits(k)
}

/// The line the counting demo prints for counter value `k`.
pub open spec fn progress_text(k: nat) -> Seq<char> {
    "current i:"@ + decimal_digits(k)
}

/// The one-character string for a single decimal digit.
fn digit_str(d: u64) -> (r: &'static str)
    requires
        d < 10,
    ensures
        r@ == seq![digit_char(d as nat)],
{
    proof {
        reveal_strlit("0");
        reveal_strlit("1");
        reveal_strlit("2");
        reveal_strlit("3");
        reveal_strlit("4");
        reveal_strlit("5");
        reveal_strlit("6");
        reveal_strlit("7");
        reveal_strlit("8");
        reveal_strlit("9");
    }
    let r: &'static str = if d == 0 {
        "0"
    } else if d == 1 {
        "1"
    } else if d == 2 {
        "2"
    } else if d == 3 {
        "3"
    } else if d == 4 {
        "4"
    } else if d == 5 {
        "5"
    } else if d == 6 {
        "6"
    } else if d == 7 {
        "7"
    } else if d == 8 {
        "8"
    } else {
        "9"
    };
    proof {
        assert(r@ =~= seq![digit_char(d as nat)]);
    }
    r
}

/// Renders `n` in decimal, most significant digit first.
pub fn decimal_string(n: u64) -> (r: String)
    ensures
        r@ == decimal_digits(n as nat),
    decreases n,
{
    let d: u64 = n % 10;
    let ds = digit_str(d);
    if n < 10 {
        String::from_str(ds)
    } else {
        let mut prefix = decimal_string(n / 10);
        prefix.append(ds);
        proof {
            assert(prefix@ =~= decimal_digits(n as nat));
        }
        prefix
    }
}

/// The producer's message for counter value `index`.
pub fn format_message(index: u64) -> (r: String)
    ensures
        r@ == message_text(index as nat),
{
    let mut s = String::from_str("hello,index:");
    let digits = decimal_string(index);
    s.append(digits.as_str());
    s
}

/// The lines that the counting demo prints: one numbered line for each
/// counter value below `count`, and none at all when `count` is not positive.
pub fn progress_lines(count: i32) -> (r: Vec<String>)
    ensures
        r@.len() == if count > 0 { count as int } else { 0 },
        forall|k: int| 0 <= k < r@.len() ==> (#[trigger] r@[k])@ == progress_text(k as nat),
{
    let mut lines: Vec<String> = Vec::new();
    if count <= 0 {
        return lines;
    }
    let mut i: i32 = 0;
    while i < count
        invariant
            0 <= i <= count,
            lines@.len() == i as int,
            forall|k: int| 0 <= k < lines@.len() ==> (#[trigger] lines@[k])@ == progress_text(k as nat),
        decreases count - i,
    {
        let mut line = String::from_str("current i:");
        let digits = decimal_string(i as u64);
        line.append(digits.as_str());
        lines.push(line);
        i = i + 1;
    }
    lines
}

} // verus!
