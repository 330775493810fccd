//! Encoding of command APDUs for UICC secure elements: the class byte, the
//! instruction registry with its class-byte rules, and the wire bytes.
use vstd::prelude::*;

pub mod class;
pub mod command_apdu;
pub mod instruction;
pub mod text;

verus! {

} // verus!
