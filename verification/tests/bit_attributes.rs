use las_points::bit_attributes::{
    BitAttributes, BitAttributesExtended, BitAttributesRegular,
};

#[test]
fn regular_packing_takes_three_bits() {
    let source = [0u8, 0b1011_1101, 0b1110_0110];
    let (attributes, taken) = BitAttributes::decode(false, &source, 1);
    assert_eq!(taken, 1);
    assert_eq!(
        attributes,
        BitAttributes::Regular(BitAttributesRegular {
            return_number: 5,
            number_of_returns: 7,
            scan_direction_flag: 0,
            edge_of_flight_line: 1,
        })
    );
}

#[test]
fn extended_packing_takes_four_bits() {
    let source = [0u8, 0b1011_1101, 0b1110_0110];
    let (attributes, taken) = BitAttributes::decode(true, &source, 1);
    assert_eq!(taken, 2);
    assert_eq!(
        attributes,
        BitAttributes::Extended(BitAttributesExtended {
            return_number: 13,
            number_of_returns: 11,
            classification_flags: 6,
            scanner_channel: 2,
            scan_direction_flag: 1,
            edge_of_flight_line: 1,
        })
    );
}

#[test]
fn the_two_packings_disagree_on_the_same_byte() {
    let source = [0b1011_1101u8, 0];
    let (regular, _) = BitAttributes::decode(false, &source, 0);
    let (extended, _) = BitAttributes::decode(true, &source, 0);
    assert!(matches!(regular, BitAttributes::Regular(_)));
    assert!(matches!(extended, BitAttributes::Extended(_)));
    assert_eq!(regular.return_number(), 5);
    assert_eq!(extended.return_number(), 13);
    assert_eq!(regular.number_of_returns(), 7);
    assert_eq!(extended.number_of_returns(), 11);
}

#[test]
fn every_byte_unpacks_into_its_bit_ranges() {
    for byte in 0..=255u8 {
        let source = [byte, byte];
        let (regular, _) = BitAttributes::decode(false, &source, 0);
        assert_eq!(regular.return_number(), byte % 8);
        assert_eq!(regular.number_of_returns(), (byte / 8) % 8);
        assert_eq!(regular.scan_direction_flag(), (byte / 64) % 2);
        assert_eq!(regular.edge_of_flight_line(), byte / 128);
        assert_eq!(regular.classification_flags_or_default(), 0);
        assert_eq!(regular.scanner_channel_or_default(), 0);
        let (extended, _) = BitAttributes::decode(true, &source, 0);
        assert_eq!(extended.return_number(), byte % 16);
        assert_eq!(extended.number_of_returns(), byte / 16);
        assert_eq!(extended.classification_flags_or_default(), byte % 16);
        assert_eq!(extended.scanner_channel_or_default(), (byte / 16) % 4);
        assert_eq!(extended.scan_direction_flag(), (byte / 64) % 2);
        assert_eq!(extended.edge_of_flight_line(), byte / 128);
    }
}
