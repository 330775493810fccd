use apdu::class::{
    new_extended_class, new_standard_class, ClassTypeForExtendedLogicalChannels,
    ClassTypeForStandardLogicalChannels, SecureMessagingIndicationForExtendedLogicalChannels,
    SecureMessagingIndicationForStandardLogicalChannels,
};
use apdu::instruction::{
    validate, Envelope, Fetch, GetIdentity, GetResponse, Instruction, InstructionError,
    InstructionKind, SelectFile, Status, SuspendUICC,
};

#[test]
fn should_get_byte_successfully() {
    let sf = SelectFile {};

    let class = new_standard_class(ClassTypeForStandardLogicalChannels::ISOIEC7816_4, SecureMessagingIndicationForStandardLogicalChannels::CommandHeaderAuthenticated, 3).unwrap(); // 0b00001111
    assert_eq!(sf.get_byte(&class).unwrap(), 0xa4);

    let class = new_extended_class(ClassTypeForExtendedLogicalChannels::ISOIEC7816_4, SecureMessagingIndicationForExtendedLogicalChannels::NoSM, 15).unwrap(); // 0b01001111
    assert_eq!(sf.get_byte(&class).unwrap(), 0xa4);

    let class = new_extended_class(ClassTypeForExtendedLogicalChannels::ISOIEC7816_4, SecureMessagingIndicationForExtendedLogicalChannels::CommandHeaderNotAuthenticated, 15).unwrap(); // 0b01101111
    assert_eq!(sf.get_byte(&class).unwrap(), 0xa4);
}

#[test]
fn should_fail_get_byte_when_class_is_unsuitable() {
    let sf = SelectFile {};

    let class = new_standard_class(ClassTypeForStandardLogicalChannels::TS102_221, SecureMessagingIndicationForStandardLogicalChannels::CommandHeaderAuthenticated, 3).unwrap(); // 0b10001111
    assert_eq!(sf.get_byte(&class).unwrap_err(), InstructionError::InvalidClassByte(0xa4, "'0x00' or '0x40' or '0x60'".into(), 0b10001111));

    let class = new_standard_class(ClassTypeForStandardLogicalChannels::OTHER, SecureMessagingIndicationForStandardLogicalChannels::CommandHeaderAuthenticated, 3).unwrap(); // 0b10101111
    assert_eq!(sf.get_byte(&class).unwrap_err(), InstructionError::InvalidClassByte(0xa4, "'0x00' or '0x40' or '0x60'".into(), 0b10101111));

    let class = new_extended_class(ClassTypeForExtendedLogicalChannels::TS102_221, SecureMessagingIndicationForExtendedLogicalChannels::NoSM, 15).unwrap(); // 0b11001111
    assert_eq!(sf.get_byte(&class).unwrap_err(), InstructionError::InvalidClassByte(0xa4, "'0x00' or '0x40' or '0x60'".into(), 0b11001111));
}

#[test]
fn should_get_byte_with_exact_successfully() {
    let fetch = Fetch {};

    let class = new_standard_class(ClassTypeForStandardLogicalChannels::TS102_221, SecureMessagingIndicationForStandardLogicalChannels::NoSM, 0).unwrap(); // 0b10000000
    assert_eq!(fetch.get_byte(&class).unwrap(), 0x12);
}

#[test]
fn should_fail_get_byte_with_exact() {
    let fetch = Fetch {};

    let class = new_standard_class(ClassTypeForStandardLogicalChannels::TS102_221, SecureMessagingIndicationForStandardLogicalChannels::NoSM, 1).unwrap(); // 0b10000001
    assert_eq!(fetch.get_byte(&class).unwrap_err(), InstructionError::InvalidClassByte(0x12, "'0x80'".into(), 0b10000001));
}

#[test]
fn select_file_accepts_exactly_three_high_nibbles() {
    let sf = SelectFile {};
    for typ in [
        ClassTypeForStandardLogicalChannels::ISOIEC7816_4,
        ClassTypeForStandardLogicalChannels::TS102_221,
        ClassTypeForStandardLogicalChannels::OTHER,
    ] {
        for c in 0u8..4 {
            let class = new_standard_class(typ, SecureMessagingIndicationForStandardLogicalChannels::ProprietarySM, c).unwrap();
            let b = class.get_byte();
            let result = sf.get_byte(&class);
            if b >> 4 == 0x0 || b >> 4 == 0x4 || b >> 4 == 0x6 {
                assert_eq!(result.unwrap(), 0xa4);
            } else {
                assert_eq!(result.unwrap_err(), InstructionError::InvalidClassByte(0xa4, "'0x00' or '0x40' or '0x60'".into(), b));
            }
        }
    }
}

#[test]
fn fetch_rejects_every_extended_class() {
    let fetch = Fetch {};
    for c in 0u8..16 {
        let class = new_extended_class(ClassTypeForExtendedLogicalChannels::TS102_221, SecureMessagingIndicationForExtendedLogicalChannels::NoSM, c).unwrap();
        assert_eq!(fetch.get_byte(&class).unwrap_err(), InstructionError::InvalidClassByte(0x12, "'0x80'".into(), 0xc0 | c));
    }
}

#[test]
fn proprietary_rule_accepts_masked_class_and_lists_patterns() {
    let status = Status {};
    let class = new_standard_class(ClassTypeForStandardLogicalChannels::TS102_221, SecureMessagingIndicationForStandardLogicalChannels::NoSM, 2).unwrap();
    assert_eq!(status.get_byte(&class).unwrap(), 0xf2);
    let class = new_extended_class(ClassTypeForExtendedLogicalChannels::TS102_221, SecureMessagingIndicationForExtendedLogicalChannels::CommandHeaderNotAuthenticated, 9).unwrap();
    assert_eq!(GetIdentity {}.get_byte(&class).unwrap(), 0x78);
    let class = new_standard_class(ClassTypeForStandardLogicalChannels::ISOIEC7816_4, SecureMessagingIndicationForStandardLogicalChannels::NoSM, 0).unwrap();
    assert_eq!(status.get_byte(&class).unwrap_err(), InstructionError::InvalidClassByte(0xf2, "'0x80' or '0xc0' or '0xe0'".into(), 0x00));
}

#[test]
fn exact_rule_instructions() {
    let class = new_standard_class(ClassTypeForStandardLogicalChannels::TS102_221, SecureMessagingIndicationForStandardLogicalChannels::NoSM, 0).unwrap();
    assert_eq!(Envelope {}.get_byte(&class).unwrap(), 0xc2);
    assert_eq!(SuspendUICC {}.get_byte(&class).unwrap(), 0x76);
    let class = new_standard_class(ClassTypeForStandardLogicalChannels::TS102_221, SecureMessagingIndicationForStandardLogicalChannels::ProprietarySM, 0).unwrap();
    assert_eq!(Envelope {}.get_byte(&class).unwrap_err(), InstructionError::InvalidClassByte(0xc2, "'0x80'".into(), 0x84));
}

#[test]
fn kinds_match_their_structs() {
    assert_eq!(SelectFile {}.kind(), InstructionKind::SelectFile);
    assert_eq!(GetResponse {}.kind(), InstructionKind::GetResponse);
    assert_eq!(InstructionKind::GetResponse.code(), 0xc0);
    assert_eq!(InstructionKind::DeactivateFile.code(), 0x04);
    let class = new_standard_class(ClassTypeForStandardLogicalChannels::ISOIEC7816_4, SecureMessagingIndicationForStandardLogicalChannels::NoSM, 1).unwrap();
    assert_eq!(InstructionKind::VerifyPin.get_byte(&class).unwrap(), 0x20);
}

#[test]
fn validate_reports_all_patterns_in_order() {
    let class = new_standard_class(ClassTypeForStandardLogicalChannels::OTHER, SecureMessagingIndicationForStandardLogicalChannels::NoSM, 0).unwrap();
    assert_eq!(validate(0x01, &class, &[0x0f, 0x10, 0xff], true), Some(InstructionError::InvalidClassByte(0x01, "'0x0f' or '0x10' or '0xff'".into(), 0xa0)));
    assert_eq!(validate(0x01, &class, &[], false), Some(InstructionError::InvalidClassByte(0x01, "".into(), 0xa0)));
    assert_eq!(validate(0x01, &class, &[0x10, 0xa0], false), None);
    assert_eq!(validate(0x01, &class, &[0xa0], true), None);
}

#[test]
fn error_message_text() {
    let e = InstructionError::InvalidClassByte(0xa4, "'0x00' or '0x40' or '0x60'".into(), 0x8f);
    assert_eq!(
        e.message(),
        "invalid class byte for instruction '164'; the class byte according to the following pattern: '0x00' or '0x40' or '0x60'; but that is '143'"
    );
    let e = InstructionError::InvalidClassByte(0x04, "'0x80'".into(), 12);
    assert_eq!(
        e.message(),
        "invalid class byte for instruction '4'; the class byte according to the following pattern: '0x80'; but that is '12'"
    );
}
