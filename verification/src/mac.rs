//! Hardware-address formatting: each byte as two upper-case hex digits, the
//! pairs joined with `-`. A zero-length address formats as the empty string.

use vstd::prelude::*;
use vstd::string::StringExecFns;

verus! {

/// The hex digit for a value below 16: `0`–`9`, then `A`–`F`.
pub open spec fn hex_digit(n: u8) -> char {
    if n < 10 {
        (('0' as u8) + n) as char
    } else {
        (('A' as u8) + (n - 10)) as char
    }
}

/// The two hex digits of one byte, high digit first.
pub open spec fn byte_hex(b: u8) -> Seq<char> {
    seq![hex_digit(b / 16), hex_digit(b % 16)]
}

/// The whole formatted address: two digits per byte, bytes joined with `-`.
pub open spec fn mac_text(bytes: Seq<u8>) -> Seq<char>
    decreases bytes.len(),
{
    if bytes.len() == 0 {
        Seq::empty()
    } else if bytes.len() == 1 {
        byte_hex(bytes[0])
    } else {
        mac_text(bytes.drop_last()) + seq!['-'] + byte_hex(bytes.last())
    }
}

/// The hex digit for a value below 16, as a string slice.
pub(crate) fn hex_digit_str(n: u8) -> (r: &'static str)
    requires
        n < 16,
    ensures
        r@ == seq![hex_digit(n)],
{
    let r = match n {
        0 => "0",
        1 => "1",
        2 => "2",
        3 => "3",
        4 => "4",
        5 => "5",
        6 => "6",
        7 => "7",
        8 => "8",
        9 => "9",
        10 => "A",
        11 => "B",
        12 => "C",
        13 => "D",
        14 => "E",
        _ => "F",
    };
    proof {
        reveal_strlit("0");
        reveal_strlit("1");
        reveal_strlit("2");
        reveal_strlit("3");
        reveal_strlit("4");
        reveal_strlit("5");
        reveal_strlit("6");
        reveal_strlit("7");
        reveal_strlit("8");
        reveal_strlit("9");
        reveal_strlit("A");
        reveal_strlit("B");
        reveal_strlit("C");
        reveal_strlit("D");
        reveal_strlit("E");
        reveal_strlit("F");
        assert(r@ =~= seq![hex_digit(n)]);
    }
    r
}

/// Appends the two hex digits of `b` to `out`.
fn push_byte_hex(out: &mut String, b: u8)
    ensures
        final(out)@ == old(out)@ + byte_hex(b),
{
    let hi = b / 16;
    let lo = b % 16;
    assert(hi < 16 && lo < 16);
    out.append(hex_digit_str(hi));
    out.append(hex_digit_str(lo));
    proof {
        assert(out@ =~= old(out)@ + byte_hex(b));
    }
}

/// Formats a hardware address: every byte as two upper-case hex digits, the
/// pairs joined with `-`; no bytes give the empty string.
pub fn format_mac(bytes: &Vec<u8>) -> (r: String)
    ensures
        r@ == mac_text(bytes@),
{
    let mut r = String::new();
    let mut i: usize = 0;
    while i < bytes.len()
        invariant
            i <= bytes@.len(),
            r@ == mac_text(bytes@.take(i as int)),
        decreases bytes@.len() - i,
    {
        if i > 0 {
            r.append("-");
            proof {
                reveal_strlit("-");
            }
        }
        push_byte_hex(&mut r, bytes[i]);
        i = i + 1;
        proof {
            let taken = bytes@.take(i as int);
            assert(taken.drop_last() =~= bytes@.take(i - 1));
            assert(taken.last() == bytes@[i - 1]);
            assert(r@ =~= mac_text(taken));
        }
    }
    proof {
        assert(bytes@.take(bytes@.len() as int) =~= bytes@);
    }
    r
}

} // verus!
