use vstd::prelude::*;
use crate::world::WorldMap;

verus! {

/// The decimal digit character for `d`, for `d < 10`.
pub open spec fn digit_char(d: nat) -> char {
    if d == 0 {
        '0'
    } else if d == 1 {
        '1'
    } else if d == 2 {
        '2'
    } else if d == 3 {
        '3'
    } else if d == 4 {
        '4'
    } else if d == 5 {
        '5'
    } else if d == 6 {
        '6'
    } else if d == 7 {
        '7'
    } else if d == 8 {
        '8'
    } else {
        '9'
    }
}

/// `n` written in decimal, most significant digit first, without leading zeros.
pub open spec fn decimal(n: nat) -> Seq<char>
    decreases n,
{
    if n < 10 {
        seq![digit_char(n)]
    } else {
        decimal(n / 10).push(digit_char(n % 10))
    }
}

/// The line the host logs on greeting.
pub open spec fn greeting() -> Seq<char> {
    "Hello from Rust!"@
}

/// The line the host logs when movement is simulated on a map of the given size.
pub open spec fn movement_message(width: nat, height: nat) -> Seq<char> {
    "Simulating movement on map with dimensions "@ + decimal(width) + "x"@ + decimal(height)
}

/// The one-character string for the digit `d`.
fn digit_str(d: u32) -> (s: &'static str)
    requires
        d < 10,
    ensures
        s@ == seq![digit_char(d as nat)],
{
    proof {
        reveal_strlit("0");
        reveal_strlit("1");
        reveal_strlit("2");
        reveal_strlit("3");
        reveal_strlit("4");
        reveal_strlit("5");
        reveal_strlit("6");
        reveal_strlit("7");
        reveal_strlit("8");
        reveal_strlit("9");
    }
    match d {
        0 => "0",
        1 => "1",
        2 => "2",
        3 => "3",
        4 => "4",
        5 => "5",
        6 => "6",
        7 => "7",
        8 => "8",
        _ => "9",
    }
}

/// Appends `n` in decimal to `s`.
fn append_decimal(s: &mut String, n: u32)
    ensures
        final(s)@ == old(s)@ + decimal(n as nat),
    decreases n,
{
    if n >= 10 {
        append_decimal(s, n / 10);
    }
    s.append(digit_str(n % 10));
    proof {
        assert(old(s)@ + decimal(n as nat) =~= final(s)@);
    }
}

/// The greeting line that the host logs.
pub fn greet() -> (msg: String)
    ensures
        msg@ == greeting(),
{
    String::from_str("Hello from Rust!")
}

/// The diagnostic line for a movement simulation on `map`, which reports the
/// map's width and height. Movement rules are not defined yet: the map is only
/// read, never changed.
pub fn simulate_movement(map: &WorldMap) -> (msg: String)
    ensures
        msg@ == movement_message(map.width as nat, map.height as nat),
{
    let mut msg = String::from_str("Simulating movement on map with dimensions ");
    append_decimal(&mut msg, map.width);
    msg.append("x");
    append_decimal(&mut msg, map.height);
    msg
}

} // verus!
