//! Upper-case hexadecimal rendering of bytes.

use vstd::prelude::*;

verus! {

/// The upper-case hexadecimal digit for a value below sixteen.
pub open spec fn hex_digit(n: int) -> char {
    if n == 0 {
        '0'
    } else if n == 1 {
        '1'
    } else if n == 2 {
        '2'
    } else if n == 3 {
        '3'
    } else if n == 4 {
        '4'
    } else if n == 5 {
        '5'
    } else if n == 6 {
        '6'
    } else if n == 7 {
        '7'
    } else if n == 8 {
        '8'
    } else if n == 9 {
        '9'
    } else if n == 10 {
        'A'
    } else if n == 11 {
        'B'
    } else if n == 12 {
        'C'
    } else if n == 13 {
        'D'
    } else if n == 14 {
        'E'
    } else {
        'F'
    }
}

/// The two digits of one byte, high nibble first.
pub open spec fn hex_of_byte(b: u8) -> Seq<char> {
    seq![hex_digit(b as int / 16), hex_digit(b as int % 16)]
}

/// The digits of a byte string: two per byte, in order, with no separator.
pub open spec fn hex_of_bytes(bytes: Seq<u8>) -> Seq<char> {
    Seq::new(
        2 * bytes.len(),
        |i: int|
            if i % 2 == 0 {
                hex_digit(bytes[i / 2] as int / 16)
            } else {
                hex_digit(bytes[i / 2] as int % 16)
            },
    )
}

/// A byte rendered with the `0x` prefix, as headers show it.
pub open spec fn prefixed_hex_of_byte(b: u8) -> Seq<char> {
    seq!['0', 'x'] + hex_of_byte(b)
}

/// Rendering one more byte appends its two digits.
pub proof fn lemma_hex_push(bytes: Seq<u8>, b: u8)
    ensures
        hex_of_bytes(bytes.push(b)) == hex_of_bytes(bytes) + hex_of_byte(b),
{
    assert(hex_of_bytes(bytes.push(b)) =~= hex_of_bytes(bytes) + hex_of_byte(b));
}

fn digit_str(n: u8) -> (s: &'static str)
    requires
        n < 16,
    ensures
        s@ == seq![hex_digit(n as int)],
{
    proof {
        reveal_strlit("0");
        reveal_strlit("1");
        reveal_strlit("2");
        reveal_strlit("3");
        reveal_strlit("4");
        reveal_strlit("5");
        reveal_strlit("6");
        reveal_strlit("7");
        reveal_strlit("8");
        reveal_strlit("9");
        reveal_strlit("A");
        reveal_strlit("B");
        reveal_strlit("C");
        reveal_strlit("D");
        reveal_strlit("E");
        reveal_strlit("F");
    }
    let s = if n == 0 {
        "0"
    } else if n == 1 {
        "1"
    } else if n == 2 {
        "2"
    } else if n == 3 {
        "3"
    } else if n == 4 {
        "4"
    } else if n == 5 {
        "5"
    } else if n == 6 {
        "6"
    } else if n == 7 {
        "7"
    } else if n == 8 {
        "8"
    } else if n == 9 {
        "9"
    } else if n == 10 {
        "A"
    } else if n == 11 {
        "B"
    } else if n == 12 {
        "C"
    } else if n == 13 {
        "D"
    } else if n == 14 {
        "E"
    } else {
        "F"
    };
    assert(s@ =~= seq![hex_digit(n as int)]);
    s
}

/// Appends the two digits of `b` to `out`.
pub fn push_hex_byte(out: &mut String, b: u8)
    ensures
        final(out)@ == old(out)@ + hex_of_byte(b),
{
    out.append(digit_str(b / 16));
    out.append(digit_str(b % 16));
    assert(out@ =~= old(out)@ + hex_of_byte(b));
}

/// Renders one byte as two digits.
pub fn byte_hex(b: u8) -> (out: String)
    ensures
        out@ == hex_of_byte(b),
{
    let mut out = String::new();
    push_hex_byte(&mut out, b);
    assert(out@ =~= hex_of_byte(b));
    out
}

/// Renders one byte as `0x` followed by its two digits.
pub fn prefixed_byte_hex(b: u8) -> (out: String)
    ensures
        out@ == prefixed_hex_of_byte(b),
{
    proof {
        reveal_strlit("0x");
    }
    let mut out = String::from_str("0x");
    push_hex_byte(&mut out, b);
    assert(out@ =~= prefixed_hex_of_byte(b));
    out
}

/// Renders `bytes[from..to]` as digits.
pub fn range_hex(bytes: &[u8], from: usize, to: usize) -> (out: String)
    requires
        from <= to <= bytes@.len(),
    ensures
        out@ == hex_of_bytes(bytes@.subrange(from as int, to as int)),
{
    let mut out = String::new();
    let mut i: usize = from;
    assert(out@ =~= hex_of_bytes(bytes@.subrange(from as int, i as int)));
    while i < to
        invariant
            from <= i <= to <= bytes@.len(),
            out@ == hex_of_bytes(bytes@.subrange(from as int, i as int)),
        decreases to - i,
    {
        proof {
            lemma_hex_push(bytes@.subrange(from as int, i as int), bytes@[i as int]);
            assert(bytes@.subrange(from as int, i as int).push(bytes@[i as int])
                =~= bytes@.subrange(from as int, i + 1));
        }
        push_hex_byte(&mut out, bytes[i]);
        i = i + 1;
    }
    out
}

/// Renders a whole byte string as digits.
pub fn bytes_hex(bytes: &[u8]) -> (out: String)
    ensures
        out@ == hex_of_bytes(bytes@),
{
    assert(bytes@.subrange(0, bytes@.len() as int) =~= bytes@);
    range_hex(bytes, 0, bytes.len())
}

} // verus!
