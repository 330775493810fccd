//! The instruction registry: each instruction's operation code (INS) and the
//! class bytes it may be sent with.
use vstd::prelude::*;

use crate::class::Class;
use crate::text::{decimal_text, hex_byte_text, push_decimal, push_hex_byte};

verus! {

/// A class byte that does not suit an instruction: the operation code, the
/// allowed patterns as text, and the class byte that was given.
#[derive(Debug, PartialEq, Eq)]
pub enum InstructionError {
    InvalidClassByte(u8, String, u8),
}

impl View for InstructionError {
    type V = (u8, Seq<char>, u8);

    open spec fn view(&self) -> (u8, Seq<char>, u8) {
        match self {
            InstructionError::InvalidClassByte(code, patterns, class_byte) => (
                *code,
                patterns@,
                *class_byte,
            ),
        }
    }
}

/// Whether class byte `b` matches reference pattern `p`: the whole byte in
/// exact mode, its high nibble otherwise.
pub open spec fn pattern_matches(b: u8, p: u8, exact: bool) -> bool {
    if exact {
        b == p
    } else {
        b & 0xf0 == p
    }
}

/// Whether class byte `b` matches any of `patterns`.
pub open spec fn class_byte_allowed(b: u8, patterns: Seq<u8>, exact: bool) -> bool {
    exists|i: int| 0 <= i < patterns.len() && pattern_matches(b, #[trigger] patterns[i], exact)
}

/// One pattern as it stands in an error: `'0xNN'`.
pub open spec fn pattern_text(p: u8) -> Seq<char> {
    seq!['\''] + hex_byte_text(p) + seq!['\'']
}

/// The patterns in order, each as `'0xNN'`, joined by ` or `.
pub open spec fn patterns_text(patterns: Seq<u8>) -> Seq<char>
    decreases patterns.len(),
{
    if patterns.len() == 0 {
        Seq::empty()
    } else if patterns.len() == 1 {
        pattern_text(patterns[0])
    } else {
        patterns_text(patterns.drop_last()) + seq![' ', 'o', 'r', ' '] + pattern_text(
            patterns.last(),
        )
    }
}

/// What `validate` reports: nothing when the class byte is allowed, otherwise
/// the operation code, the patterns as text, and the class byte.
pub open spec fn validation(instruction: u8, b: u8, patterns: Seq<u8>, exact: bool) -> Option<
    (u8, Seq<char>, u8),
> {
    if class_byte_allowed(b, patterns, exact) {
        None
    } else {
        Some((instruction, patterns_text(patterns), b))
    }
}

/// An optional `InstructionError` as plain values.
pub open spec fn option_error_view(r: Option<InstructionError>) -> Option<(u8, Seq<char>, u8)> {
    match r {
        Some(e) => Some(e@),
        None => None,
    }
}

/// Checks `class` against the reference patterns of instruction `instruction`.
pub fn validate(instruction: u8, class: &Class, patterns: &[u8], exact: bool) -> (r: Option<
    InstructionError,
>)
    ensures
        option_error_view(r) == validation(instruction, class@, patterns@, exact),
{
    let b = class.get_byte();
    let mut patterns_for_err = String::new();
    let mut i: usize = 0;
    while i < patterns.len()
        invariant
            b == class@,
            0 <= i <= patterns@.len(),
            forall|j: int| 0 <= j < i ==> !pattern_matches(b, #[trigger] patterns@[j], exact),
            patterns_for_err@ == patterns_text(patterns@.take(i as int)),
        decreases patterns@.len() - i,
    {
        let pattern = patterns[i];
        let matched = if exact {
            b == pattern
        } else {
            b & 0xf0 == pattern
        };
        if matched {
            return None;
        }
        proof {
            reveal_strlit("'");
            reveal_strlit(" or ");
        }
        let ghost before = patterns_for_err@;
        if i > 0 {
            patterns_for_err.append(" or ");
        }
        patterns_for_err.append("'");
        push_hex_byte(&mut patterns_for_err, pattern);
        patterns_for_err.append("'");
        proof {
            let next = patterns@.take(i + 1);
            assert(next.drop_last() =~= patterns@.take(i as int));
            assert(next.last() == pattern);
            if i == 0 {
                assert(patterns_for_err@ =~= pattern_text(pattern));
            } else {
                assert(patterns_for_err@ =~= before + seq![' ', 'o', 'r', ' '] + pattern_text(
                    pattern,
                ));
            }
        }
        i = i + 1;
    }
    assert(patterns@.take(patterns@.len() as int) =~= patterns@);
    Some(InstructionError::InvalidClassByte(instruction, patterns_for_err, b))
}

/// The text of an `InstructionError`.
pub open spec fn invalid_class_byte_message(e: (u8, Seq<char>, u8)) -> Seq<char> {
    "invalid class byte for instruction '"@ + decimal_text(e.0)
        + "'; the class byte according to the following pattern: "@ + e.1 + "; but that is '"@
        + decimal_text(e.2) + "'"@
}

impl InstructionError {
    /// The error as text: the operation code and the class byte in decimal,
    /// between them the allowed patterns.
    pub fn message(&self) -> (s: String)
        ensures
            s@ == invalid_class_byte_message(self@),
    {
        match self {
            InstructionError::InvalidClassByte(code, patterns, class_byte) => {
                let mut s = String::from_str("invalid class byte for instruction '");
                push_decimal(&mut s, *code);
                s.append("'; the class byte according to the following pattern: ");
                s.append(patterns.as_str());
                s.append("; but that is '");
                push_decimal(&mut s, *class_byte);
                s.append("'");
                s
            },
        }
    }
}

/// The class bytes an instruction may be sent with.
#[derive(Clone, Copy, Debug, PartialEq, Eq, Structural)]
pub enum ClassRule {
    /// High nibble `0x0`, `0x4` or `0x6`: the ISO/IEC 7816-4 codings.
    InterIndustry,
    /// High nibble `0x8`, `0xC` or `0xE`: the TS 102 221 codings.
    Proprietary,
    /// Exactly `0x80`: the proactive (CAT) commands.
    ProactiveExact,
}

impl ClassRule {
    /// The reference patterns, in order.
    pub open spec fn spec_patterns(self) -> Seq<u8> {
        match self {
            ClassRule::InterIndustry => seq![0x00u8, 0x40u8, 0x60u8],
            ClassRule::Proprietary => seq![0x80u8, 0xc0u8, 0xe0u8],
            ClassRule::ProactiveExact => seq![0x80u8],
        }
    }

    /// Whether the whole class byte is compared, rather than its high nibble.
    pub open spec fn spec_exact(self) -> bool {
        self == ClassRule::ProactiveExact
    }

    /// Checks `class` for the instruction with operation code `code`.
    pub fn check(&self, code: u8, class: &Class) -> (r: Option<InstructionError>)
        ensures
            option_error_view(r) == validation(
                code,
                class@,
                self.spec_patterns(),
                self.spec_exact(),
            ),
    {
        match self {
            ClassRule::InterIndustry => {
                let patterns: [u8; 3] = [0x00, 0x40, 0x60];
                assert(patterns@ =~= self.spec_patterns());
                validate(code, class, patterns.as_slice(), false)
            },
            ClassRule::Proprietary => {
                let patterns: [u8; 3] = [0x80, 0xc0, 0xe0];
                assert(patterns@ =~= self.spec_patterns());
                validate(code, class, patterns.as_slice(), false)
            },
            ClassRule::ProactiveExact => {
                let patterns: [u8; 1] = [0x80];
                assert(patterns@ =~= self.spec_patterns());
                validate(code, class, patterns.as_slice(), true)
            },
        }
    }
}

/// What resolving instruction `kind` against class byte `b` gives: its
/// operation code, or the error that names the allowed patterns.
pub open spec fn resolution(kind: InstructionKind, b: u8) -> Result<u8, (u8, Seq<char>, u8)> {
    match validation(kind.spec_code(), b, kind.spec_rule().spec_patterns(), kind.spec_rule().spec_exact()) {
        None => Ok(kind.spec_code()),
        Some(e) => Err(e),
    }
}

/// A resolution result as plain values.
pub open spec fn result_error_view(r: Result<u8, InstructionError>) -> Result<u8, (u8, Seq<char>, u8)> {
    match r {
        Ok(code) => Ok(code),
        Err(e) => Err(e@),
    }
}

/// An instruction of the registry: yields its operation code for a class
/// byte it suits, and an error for one it does not.
pub trait Instruction {
    /// Which instruction of the registry this is.
    spec fn spec_kind(&self) -> InstructionKind;

    fn kind(&self) -> (k: InstructionKind)
        ensures
            k == self.spec_kind(),
    ;

    fn get_byte(&self, class: &Class) -> (r: Result<u8, InstructionError>)
        ensures
            result_error_view(r) == resolution(self.spec_kind(), class@),
    ;
}

impl Instruction for InstructionKind {
    open spec fn spec_kind(&self) -> InstructionKind {
        *self
    }

    fn kind(&self) -> (k: InstructionKind) {
        *self
    }

    fn get_byte(&self, class: &Class) -> (r: Result<u8, InstructionError>) {
        let code = self.code();
        match self.rule().check(code, class) {
            None => Ok(code),
            Some(e) => Err(e),
        }
    }
}

proof fn lemma_high_nibble(b: u8)
    ensures
        (b & 0xf0 == 0x00u8) <==> (b >> 4u8 == 0x0u8),
        (b & 0xf0 == 0x40u8) <==> (b >> 4u8 == 0x4u8),
        (b & 0xf0 == 0x60u8) <==> (b >> 4u8 == 0x6u8),
{
    assert((b & 0xf0 == 0x00u8) <==> (b >> 4u8 == 0x0u8)) by (bit_vector);
    assert((b & 0xf0 == 0x40u8) <==> (b >> 4u8 == 0x4u8)) by (bit_vector);
    assert((b & 0xf0 == 0x60u8) <==> (b >> 4u8 == 0x6u8)) by (bit_vector);
}

/// SELECT FILE suits exactly the class bytes whose high nibble is `0x0`,
/// `0x4` or `0x6`, and then yields `0xA4`; any other class byte gives the
/// error with the patterns `'0x00' or '0x40' or '0x60'` and that byte.
pub proof fn lemma_select_file_class_bytes(b: u8)
    ensures
        (b >> 4u8 == 0x0u8 || b >> 4u8 == 0x4u8 || b >> 4u8 == 0x6u8) ==> resolution(
            InstructionKind::SelectFile,
            b,
        ) == Ok::<u8, (u8, Seq<char>, u8)>(0xa4u8),
        !(b >> 4u8 == 0x0u8 || b >> 4u8 == 0x4u8 || b >> 4u8 == 0x6u8) ==> resolution(
            InstructionKind::SelectFile,
            b,
        ) == Err::<u8, (u8, Seq<char>, u8)>((0xa4u8, "'0x00' or '0x40' or '0x60'"@, b)),
{
    lemma_high_nibble(b);
    let patterns = ClassRule::InterIndustry.spec_patterns();
    if b >> 4u8 == 0x0u8 || b >> 4u8 == 0x4u8 || b >> 4u8 == 0x6u8 {
        if b >> 4u8 == 0x0u8 {
            assert(pattern_matches(b, patterns[0], false));
        } else if b >> 4u8 == 0x4u8 {
            assert(pattern_matches(b, patterns[1], false));
        } else {
            assert(pattern_matches(b, patterns[2], false));
        }
    } else {
        assert(!class_byte_allowed(b, patterns, false));
        reveal_strlit("'0x00' or '0x40' or '0x60'");
        assert(patterns.drop_last() =~= seq![0x00u8, 0x40u8]);
        assert(patterns.drop_last().drop_last() =~= seq![0x00u8]);
        reveal_with_fuel(patterns_text, 3);
        assert(patterns_text(patterns) =~= "'0x00' or '0x40' or '0x60'"@);
    }
}

/// FETCH suits the class byte `0x80` alone, and then yields `0x12`; any
/// other class byte gives the error with the pattern `'0x80'` and that byte.
pub proof fn lemma_fetch_class_bytes(b: u8)
    ensures
        b == 0x80u8 ==> resolution(InstructionKind::Fetch, b) == Ok::<u8, (u8, Seq<char>, u8)>(
            0x12u8,
        ),
        b != 0x80u8 ==> resolution(InstructionKind::Fetch, b) == Err::<u8, (u8, Seq<char>, u8)>(
            (0x12u8, "'0x80'"@, b),
        ),
{
    let patterns = ClassRule::ProactiveExact.spec_patterns();
    if b == 0x80u8 {
        assert(pattern_matches(b, patterns[0], true));
    } else {
        assert(!class_byte_allowed(b, patterns, true));
        reveal_strlit("'0x80'");
        assert(patterns_text(patterns) =~= "'0x80'"@);
    }
}

/// The instructions of the registry, one variant each.
#[derive(Clone, Copy, Debug, PartialEq, Eq, Structural)]
pub enum InstructionKind {
    SelectFile,
    Status,
    ReadBinary,
    UpdateBinary,
    ReadRecord,
    UpdateRecord,
    SearchRecord,
    Increase,
    RetrieveData,
    SetData,
    VerifyPin,
    ChangePin,
    DisablePin,
    EnablePin,
    UnblockPin,
    DeactivateFile,
    ActivateFile,
    Authenticate,
    GetChallenge,
    TerminalCapability,
    TerminalProfile,
    Envelope,
    Fetch,
    TerminalResponse,
    ManageChannel,
    ManageSecureChannel,
    TransactData,
    SuspendUICC,
    GetIdentity,
    GetResponse,
}

impl InstructionKind {
    /// The instruction's operation code (INS).
    pub open spec fn spec_code(self) -> u8 {
        match self {
            InstructionKind::SelectFile => 0xa4,
            InstructionKind::Status => 0xf2,
            InstructionKind::ReadBinary => 0xb0,
            InstructionKind::UpdateBinary => 0xd6,
            InstructionKind::ReadRecord => 0xb2,
            InstructionKind::UpdateRecord => 0xdc,
            InstructionKind::SearchRecord => 0xa2,
            InstructionKind::Increase => 0x32,
            InstructionKind::RetrieveData => 0xcb,
            InstructionKind::SetData => 0xdb,
            InstructionKind::VerifyPin => 0x20,
            InstructionKind::ChangePin => 0x24,
            InstructionKind::DisablePin => 0x26,
            InstructionKind::EnablePin => 0x28,
            InstructionKind::UnblockPin => 0x2c,
            InstructionKind::DeactivateFile => 0x04,
            InstructionKind::ActivateFile => 0x44,
            InstructionKind::Authenticate => 0x88,
            InstructionKind::GetChallenge => 0x84,
            InstructionKind::TerminalCapability => 0xaa,
            InstructionKind::TerminalProfile => 0x10,
            InstructionKind::Envelope => 0xc2,
            InstructionKind::Fetch => 0x12,
            InstructionKind::TerminalResponse => 0x14,
            InstructionKind::ManageChannel => 0x70,
            InstructionKind::ManageSecureChannel => 0x73,
            InstructionKind::TransactData => 0x75,
            InstructionKind::SuspendUICC => 0x76,
            InstructionKind::GetIdentity => 0x78,
            InstructionKind::GetResponse => 0xc0,
        }
    }

    /// The rule that the class byte sent with this instruction must follow.
    pub open spec fn spec_rule(self) -> ClassRule {
        match self {
            InstructionKind::SelectFile => ClassRule::InterIndustry,
            InstructionKind::Status => ClassRule::Proprietary,
            InstructionKind::ReadBinary => ClassRule::InterIndustry,
            InstructionKind::UpdateBinary => ClassRule::InterIndustry,
            InstructionKind::ReadRecord => ClassRule::InterIndustry,
            InstructionKind::UpdateRecord => ClassRule::InterIndustry,
            InstructionKind::SearchRecord => ClassRule::InterIndustry,
            InstructionKind::Increase => ClassRule::Proprietary,
            InstructionKind::RetrieveData => ClassRule::Proprietary,
            InstructionKind::SetData => ClassRule::Proprietary,
            InstructionKind::VerifyPin => ClassRule::InterIndustry,
            InstructionKind::ChangePin => ClassRule::InterIndustry,
            InstructionKind::DisablePin => ClassRule::InterIndustry,
            InstructionKind::EnablePin => ClassRule::InterIndustry,
            InstructionKind::UnblockPin => ClassRule::InterIndustry,
            InstructionKind::DeactivateFile => ClassRule::InterIndustry,
            InstructionKind::ActivateFile => ClassRule::InterIndustry,
            InstructionKind::Authenticate => ClassRule::InterIndustry,
            InstructionKind::GetChallenge => ClassRule::InterIndustry,
            InstructionKind::TerminalCapability => ClassRule::Proprietary,
            InstructionKind::TerminalProfile => ClassRule::ProactiveExact,
            InstructionKind::Envelope => ClassRule::ProactiveExact,
            InstructionKind::Fetch => ClassRule::ProactiveExact,
            InstructionKind::TerminalResponse => ClassRule::ProactiveExact,
            InstructionKind::ManageChannel => ClassRule::InterIndustry,
            InstructionKind::ManageSecureChannel => ClassRule::InterIndustry,
            InstructionKind::TransactData => ClassRule::InterIndustry,
            InstructionKind::SuspendUICC => ClassRule::ProactiveExact,
            InstructionKind::GetIdentity => ClassRule::Proprietary,
            InstructionKind::GetResponse => ClassRule::InterIndustry,
        }
    }

    /// The instruction's operation code (INS).
    pub fn code(&self) -> (r: u8)
        ensures
            r == self.spec_code(),
    {
        match self {
            InstructionKind::SelectFile => 0xa4,
            InstructionKind::Status => 0xf2,
            InstructionKind::ReadBinary => 0xb0,
            InstructionKind::UpdateBinary => 0xd6,
            InstructionKind::ReadRecord => 0xb2,
            InstructionKind::UpdateRecord => 0xdc,
            InstructionKind::SearchRecord => 0xa2,
            InstructionKind::Increase => 0x32,
            InstructionKind::RetrieveData => 0xcb,
            InstructionKind::SetData => 0xdb,
            InstructionKind::VerifyPin => 0x20,
            InstructionKind::ChangePin => 0x24,
            InstructionKind::DisablePin => 0x26,
            InstructionKind::EnablePin => 0x28,
            InstructionKind::UnblockPin => 0x2c,
            InstructionKind::DeactivateFile => 0x04,
            InstructionKind::ActivateFile => 0x44,
            InstructionKind::Authenticate => 0x88,
            InstructionKind::GetChallenge => 0x84,
            InstructionKind::TerminalCapability => 0xaa,
            InstructionKind::TerminalProfile => 0x10,
            InstructionKind::Envelope => 0xc2,
            InstructionKind::Fetch => 0x12,
            InstructionKind::TerminalResponse => 0x14,
            InstructionKind::ManageChannel => 0x70,
            InstructionKind::ManageSecureChannel => 0x73,
            InstructionKind::TransactData => 0x75,
            InstructionKind::SuspendUICC => 0x76,
            InstructionKind::GetIdentity => 0x78,
            InstructionKind::GetResponse => 0xc0,
        }
    }

    /// The rule that the class byte sent with this instruction must follow.
    pub fn rule(&self) -> (r: ClassRule)
        ensures
            r == self.spec_rule(),
    {
        match self {
            InstructionKind::SelectFile => ClassRule::InterIndustry,
            InstructionKind::Status => ClassRule::Proprietary,
            InstructionKind::ReadBinary => ClassRule::InterIndustry,
            InstructionKind::UpdateBinary => ClassRule::InterIndustry,
            InstructionKind::ReadRecord => ClassRule::InterIndustry,
            InstructionKind::UpdateRecord => ClassRule::InterIndustry,
            InstructionKind::SearchRecord => ClassRule::InterIndustry,
            InstructionKind::Increase => ClassRule::Proprietary,
            InstructionKind::RetrieveData => ClassRule::Proprietary,
            InstructionKind::SetData => ClassRule::Proprietary,
            InstructionKind::VerifyPin => ClassRule::InterIndustry,
            InstructionKind::ChangePin => ClassRule::InterIndustry,
            InstructionKind::DisablePin => ClassRule::InterIndustry,
            InstructionKind::EnablePin => ClassRule::InterIndustry,
            InstructionKind::UnblockPin => ClassRule::InterIndustry,
            InstructionKind::DeactivateFile => ClassRule::InterIndustry,
            InstructionKind::ActivateFile => ClassRule::InterIndustry,
            InstructionKind::Authenticate => ClassRule::InterIndustry,
            InstructionKind::GetChallenge => ClassRule::InterIndustry,
            InstructionKind::TerminalCapability => ClassRule::Proprietary,
            InstructionKind::TerminalProfile => ClassRule::ProactiveExact,
            InstructionKind::Envelope => ClassRule::ProactiveExact,
            InstructionKind::Fetch => ClassRule::ProactiveExact,
            InstructionKind::TerminalResponse => ClassRule::ProactiveExact,
            InstructionKind::ManageChannel => ClassRule::InterIndustry,
            InstructionKind::ManageSecureChannel => ClassRule::InterIndustry,
            InstructionKind::TransactData => ClassRule::InterIndustry,
            InstructionKind::SuspendUICC => ClassRule::ProactiveExact,
            InstructionKind::GetIdentity => ClassRule::Proprietary,
            InstructionKind::GetResponse => ClassRule::InterIndustry,
        }
    }
}

/// SELECT FILE.
pub struct SelectFile {}

impl Instruction for SelectFile {
    open spec fn spec_kind(&self) -> InstructionKind {
        InstructionKind::SelectFile
    }

    fn kind(&self) -> (k: InstructionKind) {
        InstructionKind::SelectFile
    }

    fn get_byte(&self, class: &Class) -> (r: Result<u8, InstructionError>) {
        InstructionKind::SelectFile.get_byte(class)
    }
}

/// STATUS.
pub struct Status {}

impl Instruction for Status {
    open spec fn spec_kind(&self) -> InstructionKind {
        InstructionKind::Status
    }

    fn kind(&self) -> (k: InstructionKind) {
        InstructionKind::Status
    }

    fn get_byte(&self, class: &Class) -> (r: Result<u8, InstructionError>) {
        InstructionKind::Status.get_byte(class)
    }
}

/// READ BINARY.
pub struct ReadBinary {}

impl Instruction for ReadBinary {
    open spec fn spec_kind(&self) -> InstructionKind {
        InstructionKind::ReadBinary
    }

    fn kind(&self) -> (k: InstructionKind) {
        InstructionKind::ReadBinary
    }

    fn get_byte(&self, class: &Class) -> (r: Result<u8, InstructionError>) {
        InstructionKind::ReadBinary.get_byte(class)
    }
}

/// UPDATE BINARY.
pub struct UpdateBinary {}

impl Instruction for UpdateBinary {
    open spec fn spec_kind(&self) -> InstructionKind {
        InstructionKind::UpdateBinary
    }

    fn kind(&self) -> (k: InstructionKind) {
        InstructionKind::UpdateBinary
    }

    fn get_byte(&self, class: &Class) -> (r: Result<u8, InstructionError>) {
        InstructionKind::UpdateBinary.get_byte(class)
    }
}

/// READ RECORD.
pub struct ReadRecord {}

impl Instruction for ReadRecord {
    open spec fn spec_kind(&self) -> InstructionKind {
        InstructionKind::ReadRecord
    }

    fn kind(&self) -> (k: InstructionKind) {
        InstructionKind::ReadRecord
    }

    fn get_byte(&self, class: &Class) -> (r: Result<u8, InstructionError>) {
        InstructionKind::ReadRecord.get_byte(class)
    }
}

/// UPDATE RECORD.
pub struct UpdateRecord {}

impl Instruction for UpdateRecord {
    open spec fn spec_kind(&self) -> InstructionKind {
        InstructionKind::UpdateRecord
    }

    fn kind(&self) -> (k: InstructionKind) {
        InstructionKind::UpdateRecord
    }

    fn get_byte(&self, class: &Class) -> (r: Result<u8, InstructionError>) {
        InstructionKind::UpdateRecord.get_byte(class)
    }
}

/// SEARCH RECORD.
pub struct SearchRecord {}

impl Instruction for SearchRecord {
    open spec fn spec_kind(&self) -> InstructionKind {
        InstructionKind::SearchRecord
    }

    fn kind(&self) -> (k: InstructionKind) {
        InstructionKind::SearchRecord
    }

    fn get_byte(&self, class: &Class) -> (r: Result<u8, InstructionError>) {
        InstructionKind::SearchRecord.get_byte(class)
    }
}

/// INCREASE.
pub struct Increase {}

impl Instruction for Increase {
    open spec fn spec_kind(&self) -> InstructionKind {
        InstructionKind::Increase
    }

    fn kind(&self) -> (k: InstructionKind) {
        InstructionKind::Increase
    }

    fn get_byte(&self, class: &Class) -> (r: Result<u8, InstructionError>) {
        InstructionKind::Increase.get_byte(class)
    }
}

/// RETRIEVE DATA.
pub struct RetrieveData {}

impl Instruction for RetrieveData {
    open spec fn spec_kind(&self) -> InstructionKind {
        InstructionKind::RetrieveData
    }

    fn kind(&self) -> (k: InstructionKind) {
        InstructionKind::RetrieveData
    }

    fn get_byte(&self, class: &Class) -> (r: Result<u8, InstructionError>) {
        InstructionKind::RetrieveData.get_byte(class)
    }
}

/// SET DATA.
pub struct SetData {}

impl Instruction for SetData {
    open spec fn spec_kind(&self) -> InstructionKind {
        InstructionKind::SetData
    }

    fn kind(&self) -> (k: InstructionKind) {
        InstructionKind::SetData
    }

    fn get_byte(&self, class: &Class) -> (r: Result<u8, InstructionError>) {
        InstructionKind::SetData.get_byte(class)
    }
}

/// VERIFY PIN.
pub struct VerifyPin {}

impl Instruction for VerifyPin {
    open spec fn spec_kind(&self) -> InstructionKind {
        InstructionKind::VerifyPin
    }

    fn kind(&self) -> (k: InstructionKind) {
        InstructionKind::VerifyPin
    }

    fn get_byte(&self, class: &Class) -> (r: Result<u8, InstructionError>) {
        InstructionKind::VerifyPin.get_byte(class)
    }
}

/// CHANGE PIN.
pub struct ChangePin {}

impl Instruction for ChangePin {
    open spec fn spec_kind(&self) -> InstructionKind {
        InstructionKind::ChangePin
    }

    fn kind(&self) -> (k: InstructionKind) {
        InstructionKind::ChangePin
    }

    fn get_byte(&self, class: &Class) -> (r: Result<u8, InstructionError>) {
        InstructionKind::ChangePin.get_byte(class)
    }
}

/// DISABLE PIN.
pub struct DisablePin {}

impl Instruction for DisablePin {
    open spec fn spec_kind(&self) -> InstructionKind {
        InstructionKind::DisablePin
    }

    fn kind(&self) -> (k: InstructionKind) {
        InstructionKind::DisablePin
    }

    fn get_byte(&self, class: &Class) -> (r: Result<u8, InstructionError>) {
        InstructionKind::DisablePin.get_byte(class)
    }
}

/// ENABLE PIN.
pub struct EnablePin {}

impl Instruction for EnablePin {
    open spec fn spec_kind(&self) -> InstructionKind {
        InstructionKind::EnablePin
    }

    fn kind(&self) -> (k: InstructionKind) {
        InstructionKind::EnablePin
    }

    fn get_byte(&self, class: &Class) -> (r: Result<u8, InstructionError>) {
        InstructionKind::EnablePin.get_byte(class)
    }
}

/// UNBLOCK PIN.
pub struct UnblockPin {}

impl Instruction for UnblockPin {
    open spec fn spec_kind(&self) -> InstructionKind {
        InstructionKind::UnblockPin
    }

    fn kind(&self) -> (k: InstructionKind) {
        InstructionKind::UnblockPin
    }

    fn get_byte(&self, class: &Class) -> (r: Result<u8, InstructionError>) {
        InstructionKind::UnblockPin.get_byte(class)
    }
}

/// DEACTIVATE FILE.
pub struct DeactivateFile {}

impl Instruction for DeactivateFile {
    open spec fn spec_kind(&self) -> InstructionKind {
        InstructionKind::DeactivateFile
    }

    fn kind(&self) -> (k: InstructionKind) {
        InstructionKind::DeactivateFile
    }

    fn get_byte(&self, class: &Class) -> (r: Result<u8, InstructionError>) {
        InstructionKind::DeactivateFile.get_byte(class)
    }
}

/// ACTIVATE FILE.
pub struct ActivateFile {}

impl Instruction for ActivateFile {
    open spec fn spec_kind(&self) -> InstructionKind {
        InstructionKind::ActivateFile
    }

    fn kind(&self) -> (k: InstructionKind) {
        InstructionKind::ActivateFile
    }

    fn get_byte(&self, class: &Class) -> (r: Result<u8, InstructionError>) {
        InstructionKind::ActivateFile.get_byte(class)
    }
}

/// AUTHENTICATE.
pub struct Authenticate {}

impl Instruction for Authenticate {
    open spec fn spec_kind(&self) -> InstructionKind {
        InstructionKind::Authenticate
    }

    fn kind(&self) -> (k: InstructionKind) {
        InstructionKind::Authenticate
    }

    fn get_byte(&self, class: &Class) -> (r: Result<u8, InstructionError>) {
        InstructionKind::Authenticate.get_byte(class)
    }
}

/// GET CHALLENGE.
pub struct GetChallenge {}

impl Instruction for GetChallenge {
    open spec fn spec_kind(&self) -> InstructionKind {
        InstructionKind::GetChallenge
    }

    fn kind(&self) -> (k: InstructionKind) {
        InstructionKind::GetChallenge
    }

    fn get_byte(&self, class: &Class) -> (r: Result<u8, InstructionError>) {
        InstructionKind::GetChallenge.get_byte(class)
    }
}

/// TERMINAL CAPABILITY.
pub struct TerminalCapability {}

impl Instruction for TerminalCapability {
    open spec fn spec_kind(&self) -> InstructionKind {
        InstructionKind::TerminalCapability
    }

    fn kind(&self) -> (k: InstructionKind) {
        InstructionKind::TerminalCapability
    }

    fn get_byte(&self, class: &Class) -> (r: Result<u8, InstructionError>) {
        InstructionKind::TerminalCapability.get_byte(class)
    }
}

/// TERMINAL PROFILE.
pub struct TerminalProfile {}

impl Instruction for TerminalProfile {
    open spec fn spec_kind(&self) -> InstructionKind {
        InstructionKind::TerminalProfile
    }

    fn kind(&self) -> (k: InstructionKind) {
        InstructionKind::TerminalProfile
    }

    fn get_byte(&self, class: &Class) -> (r: Result<u8, InstructionError>) {
        InstructionKind::TerminalProfile.get_byte(class)
    }
}

/// ENVELOPE.
pub struct Envelope {}

impl Instruction for Envelope {
    open spec fn spec_kind(&self) -> InstructionKind {
        InstructionKind::Envelope
    }

    fn kind(&self) -> (k: InstructionKind) {
        InstructionKind::Envelope
    }

    fn get_byte(&self, class: &Class) -> (r: Result<u8, InstructionError>) {
        InstructionKind::Envelope.get_byte(class)
    }
}

/// FETCH.
pub struct Fetch {}

impl Instruction for Fetch {
    open spec fn spec_kind(&self) -> InstructionKind {
        InstructionKind::Fetch
    }

    fn kind(&self) -> (k: InstructionKind) {
        InstructionKind::Fetch
    }

    fn get_byte(&self, class: &Class) -> (r: Result<u8, InstructionError>) {
        InstructionKind::Fetch.get_byte(class)
    }
}

/// TERMINAL RESPONSE.
pub struct TerminalResponse {}

impl Instruction for TerminalResponse {
    open spec fn spec_kind(&self) -> InstructionKind {
        InstructionKind::TerminalResponse
    }

    fn kind(&self) -> (k: InstructionKind) {
        InstructionKind::TerminalResponse
    }

    fn get_byte(&self, class: &Class) -> (r: Result<u8, InstructionError>) {
        InstructionKind::TerminalResponse.get_byte(class)
    }
}

/// MANAGE CHANNEL.
pub struct ManageChannel {}

impl Instruction for ManageChannel {
    open spec fn spec_kind(&self) -> InstructionKind {
        InstructionKind::ManageChannel
    }

    fn kind(&self) -> (k: InstructionKind) {
        InstructionKind::ManageChannel
    }

    fn get_byte(&self, class: &Class) -> (r: Result<u8, InstructionError>) {
        InstructionKind::ManageChannel.get_byte(class)
    }
}

/// MANAGE SECURE CHANNEL.
pub struct ManageSecureChannel {}

impl Instruction for ManageSecureChannel {
    open spec fn spec_kind(&self) -> InstructionKind {
        InstructionKind::ManageSecureChannel
    }

    fn kind(&self) -> (k: InstructionKind) {
        InstructionKind::ManageSecureChannel
    }

    fn get_byte(&self, class: &Class) -> (r: Result<u8, InstructionError>) {
        InstructionKind::ManageSecureChannel.get_byte(class)
    }
}

/// TRANSACT DATA.
pub struct TransactData {}

impl Instruction for TransactData {
    open spec fn spec_kind(&self) -> InstructionKind {
        InstructionKind::TransactData
    }

    fn kind(&self) -> (k: InstructionKind) {
        InstructionKind::TransactData
    }

    fn get_byte(&self, class: &Class) -> (r: Result<u8, InstructionError>) {
        InstructionKind::TransactData.get_byte(class)
    }
}

/// SUSPEND UICC.
pub struct SuspendUICC {}

impl Instruction for SuspendUICC {
    open spec fn spec_kind(&self) -> InstructionKind {
        InstructionKind::SuspendUICC
    }

    fn kind(&self) -> (k: InstructionKind) {
        InstructionKind::SuspendUICC
    }

    fn get_byte(&self, class: &Class) -> (r: Result<u8, InstructionError>) {
        InstructionKind::SuspendUICC.get_byte(class)
    }
}

/// GET IDENTITY.
pub struct GetIdentity {}

impl Instruction for GetIdentity {
    open spec fn spec_kind(&self) -> InstructionKind {
        InstructionKind::GetIdentity
    }

    fn kind(&self) -> (k: InstructionKind) {
        InstructionKind::GetIdentity
    }

    fn get_byte(&self, class: &Class) -> (r: Result<u8, InstructionError>) {
        InstructionKind::GetIdentity.get_byte(class)
    }
}

/// GET RESPONSE.
pub struct GetResponse {}

impl Instruction for GetResponse {
    open spec fn spec_kind(&self) -> InstructionKind {
        InstructionKind::GetResponse
    }

    fn kind(&self) -> (k: InstructionKind) {
        InstructionKind::GetResponse
    }

    fn get_byte(&self, class: &Class) -> (r: Result<u8, InstructionError>) {
        InstructionKind::GetResponse.get_byte(class)
    }
}

} // verus!
