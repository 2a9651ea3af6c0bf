//! The packed sub-fields of a record: return number, number of returns and
//! flags, in one byte for formats 0 to 5 and in two bytes for formats 6 to 10.

use vstd::prelude::*;

verus! {

/// Sub-fields of the one-byte packing.
#[derive(Clone, Copy, Debug, PartialEq, Eq, Structural)]
pub struct BitAttributesRegular {
    pub return_number: u8,
    pub number_of_returns: u8,
    pub scan_direction_flag: u8,
    pub edge_of_flight_line: u8,
}

/// Sub-fields of the two-byte packing.
#[derive(Clone, Copy, Debug, PartialEq, Eq, Structural)]
pub struct BitAttributesExtended {
    pub return_number: u8,
    pub number_of_returns: u8,
    pub classification_flags: u8,
    pub scanner_channel: u8,
    pub scan_direction_flag: u8,
    pub edge_of_flight_line: u8,
}

/// The packed sub-fields of one record, in the packing of its format.
#[derive(Clone, Copy, Debug, PartialEq, Eq, Structural)]
pub enum BitAttributes {
    Regular(BitAttributesRegular),
    Extended(BitAttributesExtended),
}

/// The one-byte packing: bits 0 to 2 return number, bits 3 to 5 number of
/// returns, bit 6 scan direction, bit 7 edge of flight line.
pub open spec fn regular_bits(byte: u8) -> BitAttributesRegular {
    BitAttributesRegular {
        return_number: byte & 0b111,
        number_of_returns: (byte >> 3) & 0b111,
        scan_direction_flag: (byte >> 6) & 0b1,
        edge_of_flight_line: (byte >> 7) & 0b1,
    }
}

/// The two-byte packing. First byte: bits 0 to 3 return number, bits 4 to 7
/// number of returns. Second byte: bits 0 to 3 classification flags, bits 4 and
/// 5 scanner channel, bit 6 scan direction, bit 7 edge of flight line.
pub open spec fn extended_bits(first: u8, second: u8) -> BitAttributesExtended {
    BitAttributesExtended {
        return_number: first & 0b1111,
        number_of_returns: (first >> 4) & 0b1111,
        classification_flags: second & 0b1111,
        scanner_channel: (second >> 4) & 0b11,
        scan_direction_flag: (second >> 6) & 0b1,
        edge_of_flight_line: (second >> 7) & 0b1,
    }
}

/// Bytes that the packed sub-fields take on disk.
pub open spec fn bit_attributes_width(is_extended: bool) -> nat {
    if is_extended {
        2
    } else {
        1
    }
}

/// The sub-fields packed at `at`, in the packing that `is_extended` selects.
pub open spec fn bit_attributes_at(is_extended: bool, bytes: Seq<u8>, at: int) -> BitAttributes {
    if is_extended {
        BitAttributes::Extended(extended_bits(bytes[at], bytes[at + 1]))
    } else {
        BitAttributes::Regular(regular_bits(bytes[at]))
    }
}

impl BitAttributes {
    pub open spec fn spec_return_number(self) -> u8 {
        match self {
            BitAttributes::Regular(data) => data.return_number,
            BitAttributes::Extended(data) => data.return_number,
        }
    }

    pub open spec fn spec_number_of_returns(self) -> u8 {
        match self {
            BitAttributes::Regular(data) => data.number_of_returns,
            BitAttributes::Extended(data) => data.number_of_returns,
        }
    }

    pub open spec fn spec_classification_flags_or_default(self) -> u8 {
        match self {
            BitAttributes::Regular(_) => 0,
            BitAttributes::Extended(data) => data.classification_flags,
        }
    }

    pub open spec fn spec_scanner_channel_or_default(self) -> u8 {
        match self {
            BitAttributes::Regular(_) => 0,
            BitAttributes::Extended(data) => data.scanner_channel,
        }
    }

    pub open spec fn spec_scan_direction_flag(self) -> u8 {
        match self {
            BitAttributes::Regular(data) => data.scan_direction_flag,
            BitAttributes::Extended(data) => data.scan_direction_flag,
        }
    }

    pub open spec fn spec_edge_of_flight_line(self) -> u8 {
        match self {
            BitAttributes::Regular(data) => data.edge_of_flight_line,
            BitAttributes::Extended(data) => data.edge_of_flight_line,
        }
    }

    /// Every sub-field within the bits that its packing gives it.
    pub open spec fn in_range(self) -> bool {
        match self {
            BitAttributes::Regular(data) => data.return_number < 8 && data.number_of_returns < 8
                && data.scan_direction_flag < 2 && data.edge_of_flight_line < 2,
            BitAttributes::Extended(data) => data.return_number < 16 && data.number_of_returns
                < 16 && data.classification_flags < 16 && data.scanner_channel < 4
                && data.scan_direction_flag < 2 && data.edge_of_flight_line < 2,
        }
    }

    /// Unpacks the sub-fields at `at`: one byte in the regular packing, two in
    /// the extended one. Also returns the number of bytes taken, which does not
    /// depend on what a caller does with the sub-fields.
    pub fn decode(is_extended: bool, source: &[u8], at: usize) -> (unpacked: (BitAttributes, usize))
        requires
            at + bit_attributes_width(is_extended) <= source.len(),
        ensures
            unpacked.0 == bit_attributes_at(is_extended, source@, at as int),
            unpacked.1 == bit_attributes_width(is_extended),
            unpacked.0 is Extended <==> is_extended,
            unpacked.0.in_range(),
    {
        if is_extended {
            let first = source[at];
            let second = source[at + 1];
            proof {
                lemma_extended_in_range(first, second);
            }
            (
                BitAttributes::Extended(
                    BitAttributesExtended {
                        return_number: first & 0b1111,
                        number_of_returns: (first >> 4) & 0b1111,
                        classification_flags: second & 0b1111,
                        scanner_channel: (second >> 4) & 0b11,
                        scan_direction_flag: (second >> 6) & 0b1,
                        edge_of_flight_line: (second >> 7) & 0b1,
                    },
                ),
                2,
            )
        } else {
            let byte = source[at];
            proof {
                lemma_regular_in_range(byte);
            }
            (
                BitAttributes::Regular(
                    BitAttributesRegular {
                        return_number: byte & 0b111,
                        number_of_returns: (byte >> 3) & 0b111,
                        scan_direction_flag: (byte >> 6) & 0b1,
                        edge_of_flight_line: (byte >> 7) & 0b1,
                    },
                ),
                1,
            )
        }
    }

    pub fn return_number(&self) -> (v: u8)
        ensures
            v == self.spec_return_number(),
    {
        match self {
            BitAttributes::Regular(data) => data.return_number,
            BitAttributes::Extended(data) => data.return_number,
        }
    }

    pub fn number_of_returns(&self) -> (v: u8)
        ensures
            v == self.spec_number_of_returns(),
    {
        match self {
            BitAttributes::Regular(data) => data.number_of_returns,
            BitAttributes::Extended(data) => data.number_of_returns,
        }
    }

    /// The classification flags, which only the extended packing holds; 0 in
    /// the regular one.
    pub fn classification_flags_or_default(&self) -> (v: u8)
        ensures
            v == self.spec_classification_flags_or_default(),
    {
        match self {
            BitAttributes::Regular(_) => 0,
            BitAttributes::Extended(data) => data.classification_flags,
        }
    }

    /// The scanner channel, which only the extended packing holds; 0 in the
    /// regular one.
    pub fn scanner_channel_or_default(&self) -> (v: u8)
        ensures
            v == self.spec_scanner_channel_or_default(),
    {
        match self {
            BitAttributes::Regular(_) => 0,
            BitAttributes::Extended(data) => data.scanner_channel,
        }
    }

    pub fn scan_direction_flag(&self) -> (v: u8)
        ensures
            v == self.spec_scan_direction_flag(),
    {
        match self {
            BitAttributes::Regular(data) => data.scan_direction_flag,
            BitAttributes::Extended(data) => data.scan_direction_flag,
        }
    }

    pub fn edge_of_flight_line(&self) -> (v: u8)
        ensures
            v == self.spec_edge_of_flight_line(),
    {
        match self {
            BitAttributes::Regular(data) => data.edge_of_flight_line,
            BitAttributes::Extended(data) => data.edge_of_flight_line,
        }
    }
}

/// The regular packing in arithmetic: return number and number of returns are
/// three bits each, and the four sub-fields together make up the byte.
pub proof fn lemma_regular_in_range(byte: u8)
    ensures
        BitAttributes::Regular(regular_bits(byte)).in_range(),
        regular_bits(byte).return_number == byte % 8,
        regular_bits(byte).number_of_returns == (byte / 8) % 8,
        regular_bits(byte).scan_direction_flag == (byte / 64) % 2,
        regular_bits(byte).edge_of_flight_line == byte / 128,
{
    assert(byte & 0b111 == byte % 8) by (bit_vector);
    assert((byte >> 3) & 0b111 == (byte / 8) % 8) by (bit_vector);
    assert((byte >> 6) & 0b1 == (byte / 64) % 2) by (bit_vector);
    assert((byte >> 7) & 0b1 == byte / 128) by (bit_vector);
}

/// The extended packing in arithmetic: return number and number of returns are
/// four bits each and make up the first byte; the other four sub-fields make up
/// the second.
pub proof fn lemma_extended_in_range(first: u8, second: u8)
    ensures
        BitAttributes::Extended(extended_bits(first, second)).in_range(),
        extended_bits(first, second).return_number == first % 16,
        extended_bits(first, second).number_of_returns == first / 16,
        extended_bits(first, second).classification_flags == second % 16,
        extended_bits(first, second).scanner_channel == (second / 16) % 4,
        extended_bits(first, second).scan_direction_flag == (second / 64) % 2,
        extended_bits(first, second).edge_of_flight_line == second / 128,
{
    assert(first & 0b1111 == first % 16) by (bit_vector);
    assert((first >> 4) & 0b1111 == first / 16) by (bit_vector);
    assert(second & 0b1111 == second % 16) by (bit_vector);
    assert((second >> 4) & 0b11 == (second / 16) % 4) by (bit_vector);
    assert((second >> 6) & 0b1 == (second / 64) % 2) by (bit_vector);
    assert((second >> 7) & 0b1 == second / 128) by (bit_vector);
}

/// The two packings disagree on the same byte wherever the return number needs
/// its fourth bit: the regular one cuts it off.
pub proof fn lemma_packings_differ(byte: u8, second: u8)
    requires
        byte % 16 >= 8,
    ensures
        regular_bits(byte).return_number != extended_bits(byte, second).return_number,
        regular_bits(byte).return_number + 8 == extended_bits(byte, second).return_number,
{
    lemma_regular_in_range(byte);
    lemma_extended_in_range(byte, second);
}

} // verus!
