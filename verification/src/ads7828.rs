//! Command encoding and sample decoding for the 8-channel multiplexed
//! converter on the temperature sense board.
//!
//! The command byte selects single-ended mode, one of eight inputs, and
//! whether the internal reference and the converter stay powered between
//! conversions.  A conversion answers with two bytes holding a 12-bit code.

use vstd::prelude::*;

verus! {

/// Single-ended input select bits of the command byte, by channel number.
/// The device interleaves them: even channels count up in the high pair of
/// bits, odd channels repeat the pattern with bit 6 set.
pub open spec fn spec_channel_select_bits(channel: u8) -> u8 {
    if channel == 0 {
        0x00
    } else if channel == 1 {
        0x40
    } else if channel == 2 {
        0x10
    } else if channel == 3 {
        0x50
    } else if channel == 4 {
        0x20
    } else if channel == 5 {
        0x60
    } else if channel == 6 {
        0x30
    } else {
        0x70
    }
}

/// The full command byte: bit 7 selects single-ended mode, bits 4 to 6
/// select the input, bit 3 powers the internal reference and bit 2 the
/// converter.  The bit fields are disjoint, so the byte is their sum.
/// A channel number above 7 has no command and encodes to zero.
pub open spec fn spec_command_byte(channel: u8, ref_on: bool, converter_on: bool) -> u8 {
    if channel > 7 {
        0
    } else {
        (128 + spec_channel_select_bits(channel) + (if ref_on {
            8u8
        } else {
            0u8
        }) + (if converter_on {
            4u8
        } else {
            0u8
        })) as u8
    }
}

pub fn generate_command_byte(channel: u8, ref_on: bool, converter_on: bool) -> (r: u8)
    ensures
        r == spec_command_byte(channel, ref_on, converter_on),
{
    if channel > 7 {
        return 0;
    }
    let select: u8 = if channel == 0 {
        0x00
    } else if channel == 1 {
        0x40
    } else if channel == 2 {
        0x10
    } else if channel == 3 {
        0x50
    } else if channel == 4 {
        0x20
    } else if channel == 5 {
        0x60
    } else if channel == 6 {
        0x30
    } else {
        0x70
    };
    let mut byte: u8 = 128 + select;
    if ref_on {
        byte = byte + 8;
    }
    if converter_on {
        byte = byte + 4;
    }
    byte
}

/// The 12-bit sample carried in a two-byte answer: the low four bits of
/// the first byte are the high bits of the code.
pub fn decode_sample(msb: u8, lsb: u8) -> (r: u16)
    ensures
        r == (msb % 16) * 256 + lsb,
        r <= 4_095,
{
    let r: u16 = (((msb & 0x0F) as u16) << 8u16) | (lsb as u16);
    proof {
        assert((((msb & 0x0F) as u16) << 8u16) | (lsb as u16) == ((msb % 16) as u16) * 256 + (
        lsb as u16)) by (bit_vector);
        assert(((msb % 16) as u16) * 256 + (lsb as u16) <= 4_095) by (bit_vector);
    }
    r
}

/// A little-endian word from its two bytes, as the infrared sensor sends
/// its temperature registers.
pub fn word_from_le_bytes(lo: u8, hi: u8) -> (r: u16)
    ensures
        r == lo + hi * 256,
{
    lo as u16 + hi as u16 * 256
}

} // verus!
