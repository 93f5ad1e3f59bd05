//! Rendering of numbers as text, the way the diagnostics of the linker show them.
use vstd::prelude::*;

verus! {

/// The digit character of value `d` in base 16 (lower case), for `d < 16`.
pub open spec fn digit_char(d: nat) -> char {
    if d == 0 { '0' }
    else if d == 1 { '1' }
    else if d == 2 { '2' }
    else if d == 3 { '3' }
    else if d == 4 { '4' }
    else if d == 5 { '5' }
    else if d == 6 { '6' }
    else if d == 7 { '7' }
    else if d == 8 { '8' }
    else if d == 9 { '9' }
    else if d == 10 { 'a' }
    else if d == 11 { 'b' }
    else if d == 12 { 'c' }
    else if d == 13 { 'd' }
    else if d == 14 { 'e' }
    else { 'f' }
}

/// `n` in lower-case hexadecimal, without prefix or leading zeros (`0` is "0").
pub open spec fn lower_hex(n: nat) -> Seq<char>
    decreases n,
{
    if n < 16 {
        seq![digit_char(n)]
    } else {
        lower_hex(n / 16) + seq![digit_char(n % 16)]
    }
}

/// `n` in decimal, without leading zeros (`0` is "0").
pub open spec fn decimal(n: nat) -> Seq<char>
    decreases n,
{
    if n < 10 {
        seq![digit_char(n)]
    } else {
        decimal(n / 10) + seq![digit_char(n % 10)]
    }
}

/// The items of a byte list in lower-case hexadecimal, separated by ", ".
pub open spec fn hex_items(s: Seq<u8>) -> Seq<char>
    decreases s.len(),
{
    if s.len() == 0 {
        Seq::empty()
    } else if s.len() == 1 {
        lower_hex(s[0] as nat)
    } else {
        hex_items(s.drop_last()) + ", "@ + lower_hex(s.last() as nat)
    }
}

/// A byte list as its debug rendering in hexadecimal, such as "[7f, 45]".
pub open spec fn hex_list(s: Seq<u8>) -> Seq<char> {
    "["@ + hex_items(s) + "]"@
}

fn digit_str(d: u64) -> (s: &'static str)
    requires
        d < 16,
    ensures
        s@ == seq![digit_char(d as nat)],
{
    proof {
        reveal_strlit("0");
        reveal_strlit("1");
        reveal_strlit("2");
        reveal_strlit("3");
        reveal_strlit("4");
        reveal_strlit("5");
        reveal_strlit("6");
        reveal_strlit("7");
        reveal_strlit("8");
        reveal_strlit("9");
        reveal_strlit("a");
        reveal_strlit("b");
        reveal_strlit("c");
        reveal_strlit("d");
        reveal_strlit("e");
        reveal_strlit("f");
    }
    if d == 0 { "0" }
    else if d == 1 { "1" }
    else if d == 2 { "2" }
    else if d == 3 { "3" }
    else if d == 4 { "4" }
    else if d == 5 { "5" }
    else if d == 6 { "6" }
    else if d == 7 { "7" }
    else if d == 8 { "8" }
    else if d == 9 { "9" }
    else if d == 10 { "a" }
    else if d == 11 { "b" }
    else if d == 12 { "c" }
    else if d == 13 { "d" }
    else if d == 14 { "e" }
    else { "f" }
}

/// Renders `n` in lower-case hexadecimal.
pub fn lower_hex_string(n: u64) -> (s: String)
    ensures
        s@ == lower_hex(n as nat),
    decreases n,
{
    if n < 16 {
        String::from_str(digit_str(n))
    } else {
        let mut s = lower_hex_string(n / 16);
        s.append(digit_str(n % 16));
        s
    }
}

/// Renders `n` in decimal.
pub fn decimal_string(n: u64) -> (s: String)
    ensures
        s@ == decimal(n as nat),
    decreases n,
{
    if n < 10 {
        String::from_str(digit_str(n))
    } else {
        let mut s = decimal_string(n / 10);
        s.append(digit_str(n % 10));
        s
    }
}

/// Renders a byte list as "[b0, b1, ...]" with each byte in lower-case hexadecimal.
pub fn hex_list_string(bytes: &[u8]) -> (s: String)
    ensures
        s@ == hex_list(bytes@),
{
    let mut s = String::from_str("[");
    let mut i: usize = 0;
    proof {
        reveal_strlit("[");
        assert(bytes@.take(0) =~= Seq::<u8>::empty());
    }
    while i < bytes.len()
        invariant
            0 <= i <= bytes.len(),
            s@ == "["@ + hex_items(bytes@.take(i as int)),
        decreases bytes.len() - i,
    {
        let ghost before = s@;
        if i > 0 {
            s.append(", ");
        }
        let item = lower_hex_string(bytes[i] as u64);
        s.append(item.as_str());
        proof {
            let t = bytes@.take(i + 1);
            assert(t.drop_last() =~= bytes@.take(i as int));
            if i == 0 {
                assert(bytes@.take(0) =~= Seq::<u8>::empty());
                assert(s@ =~= "["@ + hex_items(t));
            } else {
                assert(s@ =~= "["@ + hex_items(t));
            }
        }
        i = i + 1;
    }
    s.append("]");
    assert(bytes@.take(bytes@.len() as int) =~= bytes@);
    s
}

} // verus!
