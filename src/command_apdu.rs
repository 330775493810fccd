//! Command APDUs and their short-form wire bytes:
//! `CLA | INS | P1 | P2 [| Lc | data] [| Le]`.
use vstd::prelude::*;

use crate::class::Class;
use crate::instruction::{invalid_class_byte_message, resolution, Instruction, InstructionKind};

verus! {

/// A command to a card: the class byte, the instruction, the two parameter
/// bytes, and optionally the expected response length (Le) and the command
/// data. It borrows the class and the data for as long as it lives.
pub struct CommandAPDU<'a> {
    class: &'a Class,
    instruction: InstructionKind,
    p1: u8,
    p2: u8,
    max_response_byte_size: Option<u8>,
    command_data: Option<&'a [u8]>,
}

/// What a command APDU holds, as plain values.
pub struct CommandAPDUModel {
    pub class: u8,
    pub instruction: InstructionKind,
    pub p1: u8,
    pub p2: u8,
    pub le: Option<u8>,
    pub data: Option<Seq<u8>>,
}

/// Borrowed command data as plain values.
pub open spec fn data_view(command_data: Option<&[u8]>) -> Option<Seq<u8>> {
    match command_data {
        Some(d) => Some(d@),
        None => None,
    }
}

impl<'a> View for CommandAPDU<'a> {
    type V = CommandAPDUModel;

    closed spec fn view(&self) -> CommandAPDUModel {
        CommandAPDUModel {
            class: self.class@,
            instruction: self.instruction,
            p1: self.p1,
            p2: self.p2,
            le: self.max_response_byte_size,
            data: data_view(self.command_data),
        }
    }
}

/// Builds a command APDU from its parts.
pub fn new_command_apdu<'a, I: Instruction>(
    class: &'a Class,
    instruction: &'a I,
    p1: u8,
    p2: u8,
    le: Option<u8>,
    command_data: Option<&'a [u8]>,
) -> (r: CommandAPDU<'a>)
    ensures
        r@ == (CommandAPDUModel {
            class: class@,
            instruction: instruction.spec_kind(),
            p1,
            p2,
            le,
            data: data_view(command_data),
        }),
{
    CommandAPDU {
        class,
        instruction: instruction.kind(),
        p1,
        p2,
        max_response_byte_size: le,
        command_data,
    }
}

/// Why no bytes could be made of a command APDU.
#[derive(Debug, PartialEq, Eq)]
pub enum CommandAPDUError {
    /// The class byte does not suit the instruction; holds the text of the
    /// instruction's error.
    FailedBytesConstruction(String),
    /// The command data is longer than 255 bytes; holds its length.
    IllegalCommandDataLength(usize),
}

/// A `CommandAPDUError` as plain values.
pub enum CommandAPDUErrorView {
    FailedBytesConstruction(Seq<char>),
    IllegalCommandDataLength(nat),
}

impl View for CommandAPDUError {
    type V = CommandAPDUErrorView;

    open spec fn view(&self) -> CommandAPDUErrorView {
        match self {
            CommandAPDUError::FailedBytesConstruction(message) => {
                CommandAPDUErrorView::FailedBytesConstruction(message@)
            },
            CommandAPDUError::IllegalCommandDataLength(len) => {
                CommandAPDUErrorView::IllegalCommandDataLength(*len as nat)
            },
        }
    }
}

/// The Lc byte and the data, when there is data.
pub open spec fn data_field(data: Option<Seq<u8>>) -> Seq<u8> {
    match data {
        Some(d) => seq![d.len() as u8] + d,
        None => Seq::empty(),
    }
}

/// The Le byte, when one was asked for.
pub open spec fn le_field(le: Option<u8>) -> Seq<u8> {
    match le {
        Some(b) => seq![b],
        None => Seq::empty(),
    }
}

/// The wire bytes of a command APDU, or why there are none.
pub open spec fn encoding(m: CommandAPDUModel) -> Result<Seq<u8>, CommandAPDUErrorView> {
    match resolution(m.instruction, m.class) {
        Err(e) => Err(CommandAPDUErrorView::FailedBytesConstruction(invalid_class_byte_message(e))),
        Ok(code) => {
            if m.data is Some && m.data->0.len() > 255 {
                Err(CommandAPDUErrorView::IllegalCommandDataLength(m.data->0.len()))
            } else {
                Ok(seq![m.class, code, m.p1, m.p2] + data_field(m.data) + le_field(m.le))
            }
        },
    }
}

/// A serialisation result as plain values.
pub open spec fn bytes_result_view(r: Result<Vec<u8>, CommandAPDUError>) -> Result<
    Seq<u8>,
    CommandAPDUErrorView,
> {
    match r {
        Ok(bytes) => Ok(bytes@),
        Err(e) => Err(e@),
    }
}

impl<'a> CommandAPDU<'a> {
    /// The short-form wire bytes; all or nothing.
    pub fn to_bytes(&self) -> (r: Result<Vec<u8>, CommandAPDUError>)
        ensures
            bytes_result_view(r) == encoding(self@),
    {
        let instruction_byte = match self.instruction.get_byte(self.class) {
            Ok(b) => b,
            Err(e) => return Err(CommandAPDUError::FailedBytesConstruction(e.message())),
        };

        let mut bytes: Vec<u8> = vec![self.class.get_byte(), instruction_byte, self.p1, self.p2];
        assert(bytes@ =~= seq![self@.class, instruction_byte, self.p1, self.p2]);
        let ghost header = bytes@;

        match self.command_data {
            Some(data) => {
                let len = data.len();
                if len > 255 {
                    return Err(CommandAPDUError::IllegalCommandDataLength(len));
                }
                bytes.push(len as u8);
                bytes.extend_from_slice(data);
                assert(bytes@ =~= header + data_field(self@.data));
            },
            None => {
                assert(bytes@ =~= header + data_field(self@.data));
            },
        }
        let ghost with_data = bytes@;

        match self.max_response_byte_size {
            Some(le) => {
                bytes.push(le);
            },
            None => {},
        }
        assert(bytes@ =~= with_data + le_field(self@.le));
        Ok(bytes)
    }
}

/// Serialising a command APDU is deterministic: two serialisations of the
/// same value give the same bytes, or the same error.
pub proof fn lemma_to_bytes_deterministic(
    apdu: CommandAPDU,
    first: Result<Vec<u8>, CommandAPDUError>,
    second: Result<Vec<u8>, CommandAPDUError>,
)
    requires
        bytes_result_view(first) == encoding(apdu@),
        bytes_result_view(second) == encoding(apdu@),
    ensures
        first is Ok <==> second is Ok,
        first is Ok ==> first->Ok_0@ == second->Ok_0@,
        first is Err ==> first->Err_0@ == second->Err_0@,
{
}

} // verus!
