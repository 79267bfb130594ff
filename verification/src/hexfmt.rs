//! Uppercase hexadecimal rendering of bytes and packing of the three sRGB
//! channels into one 24-bit integer.

use vstd::prelude::*;
use vstd::string::StringExecFns;

verus! {

/// The uppercase hexadecimal digit for a nibble value below 16.
pub open spec fn hex_char(n: u32) -> char
    recommends
        n < 16,
{
    if n == 0 {
        '0'
    } else if n == 1 {
        '1'
    } else if n == 2 {
        '2'
    } else if n == 3 {
        '3'
    } else if n == 4 {
        '4'
    } else if n == 5 {
        '5'
    } else if n == 6 {
        '6'
    } else if n == 7 {
        '7'
    } else if n == 8 {
        '8'
    } else if n == 9 {
        '9'
    } else if n == 10 {
        'A'
    } else if n == 11 {
        'B'
    } else if n == 12 {
        'C'
    } else if n == 13 {
        'D'
    } else if n == 14 {
        'E'
    } else {
        'F'
    }
}

/// Two uppercase hexadecimal digits for a byte value, zero-padded.
pub open spec fn byte_hex(b: u32) -> Seq<char>
    recommends
        b < 256,
{
    seq![hex_char(b / 16), hex_char(b % 16)]
}

/// True exactly of the sixteen characters an uppercase hexadecimal digit
/// can be.
pub open spec fn is_upper_hex_digit(c: char) -> bool {
    ||| c == '0'
    ||| c == '1'
    ||| c == '2'
    ||| c == '3'
    ||| c == '4'
    ||| c == '5'
    ||| c == '6'
    ||| c == '7'
    ||| c == '8'
    ||| c == '9'
    ||| c == 'A'
    ||| c == 'B'
    ||| c == 'C'
    ||| c == 'D'
    ||| c == 'E'
    ||| c == 'F'
}

fn hex_char_str(n: u32) -> (r: &'static str)
    requires
        n < 16,
    ensures
        r@ =~= seq![hex_char(n)],
{
    proof {
        reveal_strlit("0");
        reveal_strlit("1");
        reveal_strlit("2");
        reveal_strlit("3");
        reveal_strlit("4");
        reveal_strlit("5");
        reveal_strlit("6");
        reveal_strlit("7");
        reveal_strlit("8");
        reveal_strlit("9");
        reveal_strlit("A");
        reveal_strlit("B");
        reveal_strlit("C");
        reveal_strlit("D");
        reveal_strlit("E");
        reveal_strlit("F");
    }
    match n {
        0 => "0",
        1 => "1",
        2 => "2",
        3 => "3",
        4 => "4",
        5 => "5",
        6 => "6",
        7 => "7",
        8 => "8",
        9 => "9",
        10 => "A",
        11 => "B",
        12 => "C",
        13 => "D",
        14 => "E",
        _ => "F",
    }
}

/// The 24-bit integer holding the three 8-bit channels, red most
/// significant, blue least significant.
pub open spec fn pack_rgb(r: u8, g: u8, b: u8) -> u32 {
    ((r as u32) * 0x10000 + (g as u32) * 0x100 + (b as u32)) as u32
}

/// The three 8-bit channels of a 24-bit integer, red first.
pub open spec fn unpack_rgb(hex: u32) -> (u8, u8, u8)
    recommends
        hex <= 0xFFFFFF,
{
    (((hex / 0x10000) % 0x100) as u8, ((hex / 0x100) % 0x100) as u8, (hex % 0x100) as u8)
}

/// Packs the three sRGB channels into one 24-bit integer.
pub fn pack_channels(r: u8, g: u8, b: u8) -> (hex: u32)
    ensures
        hex == pack_rgb(r, g, b),
        hex <= 0xFFFFFF,
{
    (r as u32) * 0x10000 + (g as u32) * 0x100 + (b as u32)
}

/// Unpacks a 24-bit integer into its three channel bytes, red first.
pub fn unpack_channels(hex: u32) -> (rgb: (u8, u8, u8))
    requires
        hex <= 0xFFFFFF,
    ensures
        rgb == unpack_rgb(hex),
{
    (((hex / 0x10000) % 0x100) as u8, ((hex / 0x100) % 0x100) as u8, ((hex % 0x100)) as u8)
}

/// Packing three channel bytes and unpacking the result gives the original
/// bytes back exactly.
pub proof fn lemma_unpack_of_pack(r: u8, g: u8, b: u8)
    ensures
        unpack_rgb(pack_rgb(r, g, b)) == (r, g, b),
{
    let hex = pack_rgb(r, g, b) as int;
    assert(hex == (r as int) * 0x10000 + (g as int) * 0x100 + (b as int));
    vstd::arithmetic::div_mod::lemma_fundamental_div_mod_converse(
        hex,
        0x10000,
        r as int,
        (g as int) * 0x100 + (b as int),
    );
    vstd::arithmetic::div_mod::lemma_small_mod(r as nat, 0x100);
    vstd::arithmetic::div_mod::lemma_fundamental_div_mod_converse(
        hex,
        0x100,
        (r as int) * 0x100 + (g as int),
        b as int,
    );
    vstd::arithmetic::div_mod::lemma_fundamental_div_mod_converse(
        (r as int) * 0x100 + (g as int),
        0x100,
        r as int,
        g as int,
    );
}

/// Unpacking a 24-bit integer into its three channel bytes and packing them
/// again gives the original integer back exactly.
pub proof fn lemma_pack_of_unpack(hex: u32)
    requires
        hex <= 0xFFFFFF,
    ensures
        pack_rgb(unpack_rgb(hex).0, unpack_rgb(hex).1, unpack_rgb(hex).2) == hex,
{
    let h = hex as int;
    vstd::arithmetic::div_mod::lemma_fundamental_div_mod(h, 0x100);
    vstd::arithmetic::div_mod::lemma_fundamental_div_mod(h / 0x100, 0x100);
    vstd::arithmetic::div_mod::lemma_div_denominator(h, 0x100, 0x100);
    vstd::arithmetic::div_mod::lemma_div_is_ordered(h, 0xFFFFFF, 0x10000);
    vstd::arithmetic::div_mod::lemma_fundamental_div_mod_converse(0xFFFFFF, 0x10000, 0xFF, 0xFFFF);
    vstd::arithmetic::div_mod::lemma_small_mod((h / 0x10000) as nat, 0x100);
    assert(h == (h / 0x10000) * 0x10000 + ((h / 0x100) % 0x100) * 0x100 + h % 0x100);
}

/// Appends the two-digit uppercase hexadecimal form of a byte value.
pub fn push_byte_hex(out: &mut String, b: u32)
    requires
        b < 256,
    ensures
        final(out)@ == old(out)@ + byte_hex(b),
{
    let hi = hex_char_str(b / 16);
    let lo = hex_char_str(b % 16);
    out.append(hi);
    out.append(lo);
    proof {
        assert(out@ =~= old(out)@ + byte_hex(b));
    }
}

} // verus!
