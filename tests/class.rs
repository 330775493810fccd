use apdu::class::{
    new_extended_class, new_standard_class, ClassError, ClassTypeForExtendedLogicalChannels,
    ClassTypeForStandardLogicalChannels, SecureMessagingIndicationForExtendedLogicalChannels,
    SecureMessagingIndicationForStandardLogicalChannels,
};

#[test]
fn should_new_standard_class_successfully() {
    let result = new_standard_class(
        ClassTypeForStandardLogicalChannels::ISOIEC7816_4,
        SecureMessagingIndicationForStandardLogicalChannels::NoSM,
        0,
    );
    assert_eq!(result.unwrap().get_byte(), 0b00000000);
}

#[test]
fn should_new_extended_class_successfully() {
    let result = new_extended_class(
        ClassTypeForExtendedLogicalChannels::ISOIEC7816_4,
        SecureMessagingIndicationForExtendedLogicalChannels::NoSM,
        0,
    );
    assert_eq!(result.unwrap().get_byte(), 0b01000000);
}

#[test]
fn should_fail_new_standard_class_with_exceeded_channel_num() {
    let result = new_standard_class(
        ClassTypeForStandardLogicalChannels::ISOIEC7816_4,
        SecureMessagingIndicationForStandardLogicalChannels::NoSM,
        4,
    );
    assert_eq!(
        result.err().unwrap(),
        ClassError::InvalidNumberOfStandardLogicalChannel(4)
    );
}

#[test]
fn should_fail_new_extended_class_with_exceeded_channel_num() {
    let result = new_extended_class(
        ClassTypeForExtendedLogicalChannels::ISOIEC7816_4,
        SecureMessagingIndicationForExtendedLogicalChannels::NoSM,
        16,
    );
    assert_eq!(
        result.err().unwrap(),
        ClassError::InvalidNumberOfExtendedLogicalChannel(16)
    );
}

#[test]
fn standard_channel_bounds() {
    for c in 0u8..=255 {
        let result = new_standard_class(
            ClassTypeForStandardLogicalChannels::ISOIEC7816_4,
            SecureMessagingIndicationForStandardLogicalChannels::NoSM,
            c,
        );
        if c < 4 {
            assert_eq!(result.unwrap().get_byte(), c);
        } else {
            assert_eq!(
                result.err().unwrap(),
                ClassError::InvalidNumberOfStandardLogicalChannel(c)
            );
        }
    }
}

#[test]
fn standard_channel_three_succeeds() {
    let class = new_standard_class(
        ClassTypeForStandardLogicalChannels::TS102_221,
        SecureMessagingIndicationForStandardLogicalChannels::ProprietarySM,
        3,
    )
    .unwrap();
    assert_eq!(class.get_byte(), 0x87);
}

#[test]
fn extended_channel_bounds() {
    for c in 0u8..=255 {
        let result = new_extended_class(
            ClassTypeForExtendedLogicalChannels::TS102_221,
            SecureMessagingIndicationForExtendedLogicalChannels::CommandHeaderNotAuthenticated,
            c,
        );
        if c < 16 {
            assert_eq!(result.unwrap().get_byte(), 0xe0 | c);
        } else {
            assert_eq!(
                result.err().unwrap(),
                ClassError::InvalidNumberOfExtendedLogicalChannel(c)
            );
        }
    }
}

#[test]
fn extended_channel_fifteen_succeeds() {
    let class = new_extended_class(
        ClassTypeForExtendedLogicalChannels::ISOIEC7816_4,
        SecureMessagingIndicationForExtendedLogicalChannels::NoSM,
        15,
    )
    .unwrap();
    assert_eq!(class.get_byte(), 0x4f);
}

#[test]
fn standard_facets_are_combined() {
    let class = new_standard_class(
        ClassTypeForStandardLogicalChannels::OTHER,
        SecureMessagingIndicationForStandardLogicalChannels::CommandHeaderNotAuthenticated,
        2,
    )
    .unwrap();
    assert_eq!(class.get_byte(), 0xaa);
}

#[test]
fn facet_bits() {
    assert_eq!(ClassTypeForStandardLogicalChannels::ISOIEC7816_4.bits(), 0x00);
    assert_eq!(ClassTypeForStandardLogicalChannels::TS102_221.bits(), 0x80);
    assert_eq!(ClassTypeForStandardLogicalChannels::OTHER.bits(), 0xa0);
    assert_eq!(SecureMessagingIndicationForStandardLogicalChannels::CommandHeaderAuthenticated.bits(), 0x0c);
    assert_eq!(ClassTypeForExtendedLogicalChannels::TS102_221.bits(), 0xc0);
    assert_eq!(SecureMessagingIndicationForExtendedLogicalChannels::CommandHeaderNotAuthenticated.bits(), 0x20);
}
