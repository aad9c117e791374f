//! What goes into the history store, and under which key.
//!
//! The store itself is an ordered key-value engine outside this library.
//! Records are kept in the partition [`HISTORY_PARTITION`], each under the
//! key `"<unix seconds>:<sender id>"`.

use vstd::prelude::*;
use vstd::string::StringExecFns;

verus! {

/// The partition of the store that holds the chat records.
pub const HISTORY_PARTITION: &'static str = "messages";

/// The number of records that a node shows of its history, newest first.
pub const HISTORY_SHOWN: usize = 10;

/// The character of a decimal digit.
pub open spec fn decimal_digit(d: int) -> char {
    if d == 0 {
        '0'
    } else if d == 1 {
        '1'
    } else if d == 2 {
        '2'
    } else if d == 3 {
        '3'
    } else if d == 4 {
        '4'
    } else if d == 5 {
        '5'
    } else if d == 6 {
        '6'
    } else if d == 7 {
        '7'
    } else if d == 8 {
        '8'
    } else {
        '9'
    }
}

/// A number in decimal, without leading zeros.
pub open spec fn decimal(n: nat) -> Seq<char>
    decreases n,
{
    if n < 10 {
        seq![decimal_digit(n as int)]
    } else {
        decimal(n / 10).push(decimal_digit((n % 10) as int))
    }
}

/// The key of a record: the time in decimal, a colon, the sender.
pub open spec fn history_key_text(timestamp: u64, sender: Seq<char>) -> Seq<char> {
    decimal(timestamp as nat) + seq![':'] + sender
}

/// One decimal digit as text.
fn digit_text(d: u64) -> (text: &'static str)
    requires
        d < 10,
    ensures
        text@ == seq![decimal_digit(d as int)],
{
    proof {
        reveal_strlit("0");
        reveal_strlit("1");
        reveal_strlit("2");
        reveal_strlit("3");
        reveal_strlit("4");
        reveal_strlit("5");
        reveal_strlit("6");
        reveal_strlit("7");
        reveal_strlit("8");
        reveal_strlit("9");
    }
    let text = if d == 0 {
        "0"
    } else if d == 1 {
        "1"
    } else if d == 2 {
        "2"
    } else if d == 3 {
        "3"
    } else if d == 4 {
        "4"
    } else if d == 5 {
        "5"
    } else if d == 6 {
        "6"
    } else if d == 7 {
        "7"
    } else if d == 8 {
        "8"
    } else {
        "9"
    };
    assert(text@ =~= seq![decimal_digit(d as int)]);
    text
}

/// Appends `n` in decimal to `out`.
pub fn push_decimal(out: &mut String, n: u64)
    ensures
        final(out)@ == old(out)@ + decimal(n as nat),
    decreases n,
{
    if n >= 10 {
        push_decimal(out, n / 10);
    }
    out.append(digit_text(n % 10));
    assert(out@ =~= old(out)@ + decimal(n as nat));
}

/// The key under which a message of `sender` from `timestamp` is recorded.
/// Keys of one sender sort as their times do while the times have the same
/// number of digits.
pub fn history_key(timestamp: u64, sender: &str) -> (key: String)
    ensures
        key@ == history_key_text(timestamp, sender@),
{
    let mut key = String::new();
    push_decimal(&mut key, timestamp);
    proof {
        reveal_strlit(":");
    }
    key.append(":");
    key.append(sender);
    assert(key@ =~= history_key_text(timestamp, sender@));
    key
}

} // verus!
