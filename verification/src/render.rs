//! Rendering of debug snapshots: decimal formatting of counters and the
//! textual form of an entity snapshot, each pinned to a specification-level
//! character sequence.

use vstd::prelude::*;

verus! {

/// The character standing for a single decimal digit.
pub open spec fn digit_char(d: nat) -> char {
    if d == 0 {
        '0'
    } else if d == 1 {
        '1'
    } else if d == 2 {
        '2'
    } else if d == 3 {
        '3'
    } else if d == 4 {
        '4'
    } else if d == 5 {
        '5'
    } else if d == 6 {
        '6'
    } else if d == 7 {
        '7'
    } else if d == 8 {
        '8'
    } else {
        '9'
    }
}

/// The decimal representation of `n`, most significant digit first, with no
/// leading zeros (`0` itself is rendered as the single digit `0`).
pub open spec fn decimal(n: nat) -> Seq<char>
    decreases n,
{
    if n < 10 {
        seq![digit_char(n)]
    } else {
        decimal(n / 10).push(digit_char(n % 10))
    }
}

/// Relies on std's `String::push`: it appends exactly the given character.
pub assume_specification[ String::push ](s: &mut String, ch: char)
    ensures
        final(s)@ == old(s)@.push(ch),
;

/// Relies on std's `String::push_str`: it appends exactly the characters of
/// the given string slice.
pub assume_specification[ String::push_str ](s: &mut String, other: &str)
    ensures
        final(s)@ == old(s)@ + other@,
;

fn digit_to_char(d: u64) -> (c: char)
    requires
        d < 10,
    ensures
        c == digit_char(d as nat),
{
    if d == 0 {
        '0'
    } else if d == 1 {
        '1'
    } else if d == 2 {
        '2'
    } else if d == 3 {
        '3'
    } else if d == 4 {
        '4'
    } else if d == 5 {
        '5'
    } else if d == 6 {
        '6'
    } else if d == 7 {
        '7'
    } else if d == 8 {
        '8'
    } else {
        '9'
    }
}

/// Formats a counter in decimal.
pub fn format_u64(n: u64) -> (s: String)
    ensures
        s@ == decimal(n as nat),
    decreases n,
{
    if n < 10 {
        let mut s = String::new();
        s.push(digit_to_char(n));
        proof {
            assert(s@ =~= decimal(n as nat));
        }
        s
    } else {
        let mut s = format_u64(n / 10);
        s.push(digit_to_char(n % 10));
        s
    }
}

/// The full snapshot line for an entity with the given name and counters.
pub open spec fn snapshot_text(name: Seq<char>, listeners: nat, events: nat) -> Seq<char> {
    "Observable { name: \""@ + name + "\", observer_count: "@ + decimal(listeners)
        + ", event_queue_length: "@ + decimal(events) + " }"@
}

/// Renders the snapshot line for the given name and counters.
pub fn render_snapshot(name: &str, listeners: u64, events: u64) -> (s: String)
    ensures
        s@ == snapshot_text(name@, listeners as nat, events as nat),
{
    let mut s = String::new();
    s.push_str("Observable { name: \"");
    s.push_str(name);
    s.push_str("\", observer_count: ");
    let count_text: String = format_u64(listeners);
    s.push_str(count_text.as_str());
    s.push_str(", event_queue_length: ");
    let queue_text: String = format_u64(events);
    s.push_str(queue_text.as_str());
    s.push_str(" }");
    proof {
        assert(s@ =~= snapshot_text(name@, listeners as nat, events as nat));
    }
    s
}

} // verus!
