//! The class byte (CLA) of a command APDU, assembled from its three facets.
use vstd::prelude::*;

verus! {

/// A class byte. Built once by `new_standard_class` or `new_extended_class`
/// and never changed afterwards; its view is the byte itself.
pub struct Class {
    byte: u8,
}

impl View for Class {
    type V = u8;

    closed spec fn view(&self) -> u8 {
        self.byte
    }
}

/// Class type coding for the standard logical channels 0 to 3.
#[allow(non_camel_case_types)]
#[derive(Clone, Copy, Debug, PartialEq, Eq, Structural)]
pub enum ClassTypeForStandardLogicalChannels {
    ISOIEC7816_4,
    TS102_221,
    OTHER,
}

impl ClassTypeForStandardLogicalChannels {
    /// The facet's bits, already in their place in the class byte.
    pub open spec fn spec_bits(self) -> u8 {
        match self {
            ClassTypeForStandardLogicalChannels::ISOIEC7816_4 => 0x00,
            ClassTypeForStandardLogicalChannels::TS102_221 => 0x80,
            ClassTypeForStandardLogicalChannels::OTHER => 0xa0,
        }
    }

    pub fn bits(&self) -> (r: u8)
        ensures
            r == self.spec_bits(),
    {
        match self {
            ClassTypeForStandardLogicalChannels::ISOIEC7816_4 => 0x00,
            ClassTypeForStandardLogicalChannels::TS102_221 => 0x80,
            ClassTypeForStandardLogicalChannels::OTHER => 0xa0,
        }
    }
}

/// Secure messaging indication for the standard logical channels (bits 3 and 4).
#[derive(Clone, Copy, Debug, PartialEq, Eq, Structural)]
pub enum SecureMessagingIndicationForStandardLogicalChannels {
    NoSM,
    ProprietarySM,
    CommandHeaderNotAuthenticated,
    CommandHeaderAuthenticated,
}

impl SecureMessagingIndicationForStandardLogicalChannels {
    /// The facet's bits, already in their place in the class byte.
    pub open spec fn spec_bits(self) -> u8 {
        match self {
            SecureMessagingIndicationForStandardLogicalChannels::NoSM => 0x00,
            SecureMessagingIndicationForStandardLogicalChannels::ProprietarySM => 0x04,
            SecureMessagingIndicationForStandardLogicalChannels::CommandHeaderNotAuthenticated => 0x08,
            SecureMessagingIndicationForStandardLogicalChannels::CommandHeaderAuthenticated => 0x0c,
        }
    }

    pub fn bits(&self) -> (r: u8)
        ensures
            r == self.spec_bits(),
    {
        match self {
            SecureMessagingIndicationForStandardLogicalChannels::NoSM => 0x00,
            SecureMessagingIndicationForStandardLogicalChannels::ProprietarySM => 0x04,
            SecureMessagingIndicationForStandardLogicalChannels::CommandHeaderNotAuthenticated => 0x08,
            SecureMessagingIndicationForStandardLogicalChannels::CommandHeaderAuthenticated => 0x0c,
        }
    }
}

/// Class type coding for the extended logical channels 4 to 19.
#[allow(non_camel_case_types)]
#[derive(Clone, Copy, Debug, PartialEq, Eq, Structural)]
pub enum ClassTypeForExtendedLogicalChannels {
    ISOIEC7816_4,
    TS102_221,
}

impl ClassTypeForExtendedLogicalChannels {
    /// The facet's bits, already in their place in the class byte.
    pub open spec fn spec_bits(self) -> u8 {
        match self {
            ClassTypeForExtendedLogicalChannels::ISOIEC7816_4 => 0x40,
            ClassTypeForExtendedLogicalChannels::TS102_221 => 0xc0,
        }
    }

    pub fn bits(&self) -> (r: u8)
        ensures
            r == self.spec_bits(),
    {
        match self {
            ClassTypeForExtendedLogicalChannels::ISOIEC7816_4 => 0x40,
            ClassTypeForExtendedLogicalChannels::TS102_221 => 0xc0,
        }
    }
}

/// Secure messaging indication for the extended logical channels (bit 6).
#[derive(Clone, Copy, Debug, PartialEq, Eq, Structural)]
pub enum SecureMessagingIndicationForExtendedLogicalChannels {
    NoSM,
    CommandHeaderNotAuthenticated,
}

impl SecureMessagingIndicationForExtendedLogicalChannels {
    /// The facet's bits, already in their place in the class byte.
    pub open spec fn spec_bits(self) -> u8 {
        match self {
            SecureMessagingIndicationForExtendedLogicalChannels::NoSM => 0x00,
            SecureMessagingIndicationForExtendedLogicalChannels::CommandHeaderNotAuthenticated => 0x20,
        }
    }

    pub fn bits(&self) -> (r: u8)
        ensures
            r == self.spec_bits(),
    {
        match self {
            SecureMessagingIndicationForExtendedLogicalChannels::NoSM => 0x00,
            SecureMessagingIndicationForExtendedLogicalChannels::CommandHeaderNotAuthenticated => 0x20,
        }
    }
}

/// A logical channel number out of range for its addressing mode.
#[derive(Clone, Copy, Debug, PartialEq, Eq, Structural)]
pub enum ClassError {
    /// The number given for a standard channel: it must lie in [0, 3].
    InvalidNumberOfStandardLogicalChannel(u8),
    /// The number given for an extended channel: it must lie in [0, 15].
    InvalidNumberOfExtendedLogicalChannel(u8),
}

/// The class byte for a standard logical channel: the facets and the channel
/// number side by side.
pub open spec fn standard_class_byte(
    typ: ClassTypeForStandardLogicalChannels,
    secure_messaging_indication: SecureMessagingIndicationForStandardLogicalChannels,
    logical_channel_number: u8,
) -> u8 {
    typ.spec_bits() | secure_messaging_indication.spec_bits() | logical_channel_number
}

/// The class byte for an extended logical channel: the facets and the channel
/// index (0 to 15, channels 4 to 19) side by side.
pub open spec fn extended_class_byte(
    typ: ClassTypeForExtendedLogicalChannels,
    secure_messaging_indication: SecureMessagingIndicationForExtendedLogicalChannels,
    logical_channel_number: u8,
) -> u8 {
    typ.spec_bits() | secure_messaging_indication.spec_bits() | logical_channel_number
}

/// Builds the class byte for a standard logical channel (0 to 3).
pub fn new_standard_class(
    typ: ClassTypeForStandardLogicalChannels,
    secure_messaging_indication: SecureMessagingIndicationForStandardLogicalChannels,
    logical_channel_number: u8,
) -> (r: Result<Class, ClassError>)
    ensures
        logical_channel_number < 4 ==> (r matches Ok(c) && c@ == standard_class_byte(
            typ,
            secure_messaging_indication,
            logical_channel_number,
        )),
        logical_channel_number >= 4 ==> r == Err::<Class, ClassError>(
            ClassError::InvalidNumberOfStandardLogicalChannel(logical_channel_number),
        ),
{
    if logical_channel_number >= 4 {
        return Err(ClassError::InvalidNumberOfStandardLogicalChannel(logical_channel_number));
    }
    Ok(Class { byte: typ.bits() | secure_messaging_indication.bits() | logical_channel_number })
}

/// Builds the class byte for an extended logical channel, given as an index
/// from 0 to 15.
pub fn new_extended_class(
    typ: ClassTypeForExtendedLogicalChannels,
    secure_messaging_indication: SecureMessagingIndicationForExtendedLogicalChannels,
    logical_channel_number: u8,
) -> (r: Result<Class, ClassError>)
    ensures
        logical_channel_number < 16 ==> (r matches Ok(c) && c@ == extended_class_byte(
            typ,
            secure_messaging_indication,
            logical_channel_number,
        )),
        logical_channel_number >= 16 ==> r == Err::<Class, ClassError>(
            ClassError::InvalidNumberOfExtendedLogicalChannel(logical_channel_number),
        ),
{
    if logical_channel_number >= 16 {
        return Err(ClassError::InvalidNumberOfExtendedLogicalChannel(logical_channel_number));
    }
    Ok(Class { byte: typ.bits() | secure_messaging_indication.bits() | logical_channel_number })
}

impl Class {
    /// The class byte.
    pub fn get_byte(&self) -> (r: u8)
        ensures
            r == self@,
    {
        self.byte
    }
}

} // verus!
