//! The encoder: walks the token sequence, groups each mnemonic with the
//! operand tokens that follow it, classifies the group into an addressing
//! mode, and emits the opcode byte followed by the operand bytes.
//!
//! The token vocabulary is closed and has no label form, so every operand is
//! already a numeric or register value and a single pass suffices; the whole
//! encoding is modelled by the recursive spec function `encode_from`.
//!
//! Opcode bytes are assigned systematically: each of the 56 mnemonics owns
//! four consecutive code points starting at four times its index, one per
//! addressing-mode slot (`Implied` and `RegisterIndexed` share a slot, since
//! no mnemonic supports both). A 16-bit operand is emitted low byte first; a
//! register operand is emitted as its code.

use vstd::prelude::*;
use crate::error::ParseError;
use crate::tokens::{Mnemonic, Register, Token, TokenType};

verus! {

/// The operand shape of one instruction, inferred from the token kinds that
/// follow its mnemonic.
#[derive(Debug, PartialEq, Eq, Structural, Clone, Copy)]
pub enum AddressingMode {
    Implied,
    Immediate,
    Absolute,
    RegisterDirect,
    RegisterIndexed,
}

/// Mnemonics that take no operand.
pub open spec fn is_implied(m: Mnemonic) -> bool {
    match m {
        Mnemonic::Brk | Mnemonic::Clc | Mnemonic::Cld | Mnemonic::Cli | Mnemonic::Clv
            | Mnemonic::Dex | Mnemonic::Dey | Mnemonic::Inx | Mnemonic::Iny | Mnemonic::Nop
            | Mnemonic::Pha | Mnemonic::Php | Mnemonic::Pla | Mnemonic::Rti | Mnemonic::Rts
            | Mnemonic::Sec | Mnemonic::Sed | Mnemonic::Sei | Mnemonic::Tax | Mnemonic::Tay
            | Mnemonic::Tsx | Mnemonic::Tsy | Mnemonic::Txa | Mnemonic::Txs | Mnemonic::Tya
            => true,
        _ => false,
    }
}

/// Mnemonics that take a 16-bit value, immediate or absolute.
pub open spec fn is_value_op(m: Mnemonic) -> bool {
    match m {
        Mnemonic::Adc | Mnemonic::And | Mnemonic::Bit | Mnemonic::Cmp | Mnemonic::Cpx
            | Mnemonic::Cpy | Mnemonic::Eor | Mnemonic::Lda | Mnemonic::Ldx | Mnemonic::Ldy
            | Mnemonic::Ora | Mnemonic::Sbc => true,
        _ => false,
    }
}

/// Mnemonics that take an absolute address only: jumps, branches and stores.
pub open spec fn is_absolute_only(m: Mnemonic) -> bool {
    match m {
        Mnemonic::Jmp | Mnemonic::Jsr | Mnemonic::Sta | Mnemonic::Stx | Mnemonic::Sty
            | Mnemonic::Bcc | Mnemonic::Bcs | Mnemonic::Beq | Mnemonic::Bmi | Mnemonic::Bne
            | Mnemonic::Bpl | Mnemonic::Bvc | Mnemonic::Bvs => true,
        _ => false,
    }
}

/// Read-modify-write mnemonics, which act on an absolute address or directly
/// on a named register.
pub open spec fn is_register_op(m: Mnemonic) -> bool {
    match m {
        Mnemonic::Asl | Mnemonic::Dec | Mnemonic::Inc | Mnemonic::Lsr | Mnemonic::Rol
            | Mnemonic::Ror => true,
        _ => false,
    }
}

/// Mnemonics that address through a register pair.
pub open spec fn is_indexed(m: Mnemonic) -> bool {
    match m {
        Mnemonic::Lda | Mnemonic::Sta => true,
        _ => false,
    }
}

/// The fixed table of supported (mnemonic, addressing mode) combinations.
pub open spec fn supports(m: Mnemonic, mode: AddressingMode) -> bool {
    match mode {
        AddressingMode::Implied => is_implied(m),
        AddressingMode::Immediate => is_value_op(m),
        AddressingMode::Absolute => is_value_op(m) || is_absolute_only(m) || is_register_op(m),
        AddressingMode::RegisterDirect => is_register_op(m),
        AddressingMode::RegisterIndexed => is_indexed(m),
    }
}

/// The index of a mnemonic among the 56 encodable ones, in declaration
/// order. The diagnostic wildcard `Any` has no code points of its own.
pub open spec fn mnemonic_index(m: Mnemonic) -> int {
    match m {
        Mnemonic::Any => 0,
        Mnemonic::Adc => 0,
        Mnemonic::And => 1,
        Mnemonic::Asl => 2,
        Mnemonic::Bcc => 3,
        Mnemonic::Bcs => 4,
        Mnemonic::Beq => 5,
        Mnemonic::Bit => 6,
        Mnemonic::Bmi => 7,
        Mnemonic::Bne => 8,
        Mnemonic::Bpl => 9,
        Mnemonic::Brk => 10,
        Mnemonic::Bvc => 11,
        Mnemonic::Bvs => 12,
        Mnemonic::Clc => 13,
        Mnemonic::Cld => 14,
        Mnemonic::Cli => 15,
        Mnemonic::Clv => 16,
        Mnemonic::Cmp => 17,
        Mnemonic::Cpx => 18,
        Mnemonic::Cpy => 19,
        Mnemonic::Dec => 20,
        Mnemonic::Dex => 21,
        Mnemonic::Dey => 22,
        Mnemonic::Eor => 23,
        Mnemonic::Inc => 24,
        Mnemonic::Inx => 25,
        Mnemonic::Iny => 26,
        Mnemonic::Jmp => 27,
        Mnemonic::Jsr => 28,
        Mnemonic::Lda => 29,
        Mnemonic::Ldx => 30,
        Mnemonic::Ldy => 31,
        Mnemonic::Lsr => 32,
        Mnemonic::Nop => 33,
        Mnemonic::Ora => 34,
        Mnemonic::Pha => 35,
        Mnemonic::Php => 36,
        Mnemonic::Pla => 37,
        Mnemonic::Rol => 38,
        Mnemonic::Ror => 39,
        Mnemonic::Rti => 40,
        Mnemonic::Rts => 41,
        Mnemonic::Sbc => 42,
        Mnemonic::Sec => 43,
        Mnemonic::Sed => 44,
        Mnemonic::Sei => 45,
        Mnemonic::Sta => 46,
        Mnemonic::Stx => 47,
        Mnemonic::Sty => 48,
        Mnemonic::Tax => 49,
        Mnemonic::Tay => 50,
        Mnemonic::Tsx => 51,
        Mnemonic::Tsy => 52,
        Mnemonic::Txa => 53,
        Mnemonic::Txs => 54,
        Mnemonic::Tya => 55,
    }
}

/// The code-point slot of an addressing mode within a mnemonic's four code
/// points. `Implied` and `RegisterIndexed` share slot 0: no mnemonic
/// supports both.
pub open spec fn mode_slot(mode: AddressingMode) -> int {
    match mode {
        AddressingMode::Implied => 0,
        AddressingMode::Immediate => 1,
        AddressingMode::Absolute => 2,
        AddressingMode::RegisterDirect => 3,
        AddressingMode::RegisterIndexed => 0,
    }
}

/// The fixed opcode table: the opcode byte of a supported (mnemonic,
/// addressing mode) pair, and nothing for an unsupported one.
pub open spec fn opcode_of(m: Mnemonic, mode: AddressingMode) -> Option<u8> {
    if supports(m, mode) {
        Some((4 * mnemonic_index(m) + mode_slot(mode)) as u8)
    } else {
        None
    }
}

/// The operand byte standing for a register.
pub open spec fn reg_code(r: Register) -> u8 {
    match r {
        Register::Pc => 0,
        Register::Ac => 1,
        Register::X => 2,
        Register::Y => 3,
        Register::Sr => 4,
        Register::Sp => 5,
    }
}

/// Low byte of a 16-bit operand; operands are emitted low byte first.
pub open spec fn lo_byte(v: u16) -> u8 {
    (v % 256) as u8
}

/// High byte of a 16-bit operand.
pub open spec fn hi_byte(v: u16) -> u8 {
    (v / 256) as u8
}

/// The token kinds acceptable after a mnemonic of this table row, as wildcard
/// patterns (payloads are placeholders), in a fixed order: one entry per
/// supported addressing mode, with the two register modes sharing one entry.
pub open spec fn expected_for(m: Mnemonic) -> Seq<TokenType> {
    (if supports(m, AddressingMode::Implied) {
        seq![TokenType::Mnemonic(Mnemonic::Any)]
    } else {
        Seq::<TokenType>::empty()
    }) + (if supports(m, AddressingMode::Immediate) {
        seq![TokenType::Immediate(0)]
    } else {
        Seq::<TokenType>::empty()
    }) + (if supports(m, AddressingMode::Absolute) {
        seq![TokenType::Numeral(0)]
    } else {
        Seq::<TokenType>::empty()
    }) + (if supports(m, AddressingMode::RegisterDirect) || supports(
        m,
        AddressingMode::RegisterIndexed,
    ) {
        seq![TokenType::Register(Register::Pc)]
    } else {
        Seq::<TokenType>::empty()
    })
}

/// Whether a token is a mnemonic, i.e. starts the next instruction.
pub open spec fn is_mnemonic_tok(t: Token) -> bool {
    t.token_type matches TokenType::Mnemonic(_)
}

/// What encoding yields: the byte sequence, or the first grammar or opcode
/// table violation.
pub ghost enum EncOut {
    Bytes { bytes: Seq<u8> },
    Fail { pos: (usize, usize), expected: Seq<TokenType>, found: Token },
}

/// Encodes the instruction starting at token `i` and continues with the rest
/// of the sequence. An instruction is a mnemonic followed by its operand
/// tokens: nothing (or directly the next mnemonic) is `Implied`, one
/// `Immediate` or `Numeral` value is `Immediate`/`Absolute` mode, one
/// register is `RegisterDirect`, and a register, a comma and a second
/// register are `RegisterIndexed`. A non-mnemonic token at an instruction
/// start, a comma directly after a mnemonic, a comma not followed by a
/// register, or a combination absent from the opcode table stops the
/// encoding with an error naming the acceptable token kinds.
pub open spec fn encode_from(toks: Seq<Token>, i: int, acc: Seq<u8>) -> EncOut
    decreases toks.len() - i,
{
    if i >= toks.len() {
        EncOut::Bytes { bytes: acc }
    } else {
        let t0 = toks[i];
        match t0.token_type {
            TokenType::Mnemonic(m) => {
                if i + 1 >= toks.len() || is_mnemonic_tok(toks[i + 1]) {
                    match opcode_of(m, AddressingMode::Implied) {
                        Some(op) => encode_from(toks, i + 1, acc.push(op)),
                        None => EncOut::Fail { pos: t0.pos, expected: expected_for(m), found: t0 },
                    }
                } else {
                    match toks[i + 1].token_type {
                        TokenType::Immediate(v) => match opcode_of(m, AddressingMode::Immediate) {
                            Some(op) => encode_from(
                                toks,
                                i + 2,
                                acc.push(op).push(lo_byte(v)).push(hi_byte(v)),
                            ),
                            None => EncOut::Fail {
                                pos: t0.pos,
                                expected: expected_for(m),
                                found: t0,
                            },
                        },
                        TokenType::Numeral(v) => match opcode_of(m, AddressingMode::Absolute) {
                            Some(op) => encode_from(
                                toks,
                                i + 2,
                                acc.push(op).push(lo_byte(v)).push(hi_byte(v)),
                            ),
                            None => EncOut::Fail {
                                pos: t0.pos,
                                expected: expected_for(m),
                                found: t0,
                            },
                        },
                        TokenType::Register(r1) => {
                            if i + 2 < toks.len() && toks[i + 2].token_type == TokenType::Comma {
                                if i + 3 < toks.len() {
                                    match toks[i + 3].token_type {
                                        TokenType::Register(r2) => match opcode_of(
                                            m,
                                            AddressingMode::RegisterIndexed,
                                        ) {
                                            Some(op) => encode_from(
                                                toks,
                                                i + 4,
                                                acc.push(op).push(reg_code(r1)).push(reg_code(r2)),
                                            ),
                                            None => EncOut::Fail {
                                                pos: t0.pos,
                                                expected: expected_for(m),
                                                found: t0,
                                            },
                                        },
                                        _ => EncOut::Fail {
                                            pos: toks[i + 3].pos,
                                            expected: seq![TokenType::Register(Register::Pc)],
                                            found: toks[i + 3],
                                        },
                                    }
                                } else {
                                    EncOut::Fail {
                                        pos: toks[i + 2].pos,
                                        expected: seq![TokenType::Register(Register::Pc)],
                                        found: toks[i + 2],
                                    }
                                }
                            } else {
                                match opcode_of(m, AddressingMode::RegisterDirect) {
                                    Some(op) => encode_from(
                                        toks,
                                        i + 2,
                                        acc.push(op).push(reg_code(r1)),
                                    ),
                                    None => EncOut::Fail {
                                        pos: t0.pos,
                                        expected: expected_for(m),
                                        found: t0,
                                    },
                                }
                            }
                        },
                        TokenType::Comma => EncOut::Fail {
                            pos: toks[i + 1].pos,
                            expected: seq![
                                TokenType::Mnemonic(Mnemonic::Any),
                                TokenType::Immediate(0),
                                TokenType::Numeral(0),
                                TokenType::Register(Register::Pc),
                            ],
                            found: toks[i + 1],
                        },
                        TokenType::Mnemonic(_) => EncOut::Fail {
                            pos: t0.pos,
                            expected: Seq::empty(),
                            found: t0,
                        },
                    }
                }
            },
            _ => EncOut::Fail {
                pos: t0.pos,
                expected: seq![TokenType::Mnemonic(Mnemonic::Any)],
                found: t0,
            },
        }
    }
}

/// The whole encoding of a token sequence into its byte stream.
pub open spec fn encode_spec(toks: Seq<Token>) -> EncOut {
    encode_from(toks, 0, Seq::empty())
}

/// The returned error describes the given encoding outcome.
pub open spec fn parse_err_matches(e: ParseError, s: EncOut) -> bool {
    match (e, s) {
        (
            ParseError::UnexpectedToken { pos, expected, found },
            EncOut::Fail { pos: p, expected: ex, found: f },
        ) => pos == p && expected@ == ex && found == f,
        _ => false,
    }
}

/// Executable form of `is_implied`.
fn is_implied_x(m: Mnemonic) -> (b: bool)
    ensures
        b == is_implied(m),
{
    match m {
        Mnemonic::Brk | Mnemonic::Clc | Mnemonic::Cld | Mnemonic::Cli | Mnemonic::Clv
            | Mnemonic::Dex | Mnemonic::Dey | Mnemonic::Inx | Mnemonic::Iny | Mnemonic::Nop
            | Mnemonic::Pha | Mnemonic::Php | Mnemonic::Pla | Mnemonic::Rti | Mnemonic::Rts
            | Mnemonic::Sec | Mnemonic::Sed | Mnemonic::Sei | Mnemonic::Tax | Mnemonic::Tay
            | Mnemonic::Tsx | Mnemonic::Tsy | Mnemonic::Txa | Mnemonic::Txs | Mnemonic::Tya
            => true,
        _ => false,
    }
}

/// Executable form of `is_value_op`.
fn is_value_op_x(m: Mnemonic) -> (b: bool)
    ensures
        b == is_value_op(m),
{
    match m {
        Mnemonic::Adc | Mnemonic::And | Mnemonic::Bit | Mnemonic::Cmp | Mnemonic::Cpx
            | Mnemonic::Cpy | Mnemonic::Eor | Mnemonic::Lda | Mnemonic::Ldx | Mnemonic::Ldy
            | Mnemonic::Ora | Mnemonic::Sbc => true,
        _ => false,
    }
}

/// Executable form of `is_absolute_only`.
fn is_absolute_only_x(m: Mnemonic) -> (b: bool)
    ensures
        b == is_absolute_only(m),
{
    match m {
        Mnemonic::Jmp | Mnemonic::Jsr | Mnemonic::Sta | Mnemonic::Stx | Mnemonic::Sty
            | Mnemonic::Bcc | Mnemonic::Bcs | Mnemonic::Beq | Mnemonic::Bmi | Mnemonic::Bne
            | Mnemonic::Bpl | Mnemonic::Bvc | Mnemonic::Bvs => true,
        _ => false,
    }
}

/// Executable form of `is_register_op`.
fn is_register_op_x(m: Mnemonic) -> (b: bool)
    ensures
        b == is_register_op(m),
{
    match m {
        Mnemonic::Asl | Mnemonic::Dec | Mnemonic::Inc | Mnemonic::Lsr | Mnemonic::Rol
            | Mnemonic::Ror => true,
        _ => false,
    }
}

/// Executable form of `is_indexed`.
fn is_indexed_x(m: Mnemonic) -> (b: bool)
    ensures
        b == is_indexed(m),
{
    match m {
        Mnemonic::Lda | Mnemonic::Sta => true,
        _ => false,
    }
}

/// Executable form of `mnemonic_index`; every index fits in six bits.
fn mnemonic_index_x(m: Mnemonic) -> (r: u8)
    ensures
        r as int == mnemonic_index(m),
        r <= 55,
{
    match m {
        Mnemonic::Any => 0,
        Mnemonic::Adc => 0,
        Mnemonic::And => 1,
        Mnemonic::Asl => 2,
        Mnemonic::Bcc => 3,
        Mnemonic::Bcs => 4,
        Mnemonic::Beq => 5,
        Mnemonic::Bit => 6,
        Mnemonic::Bmi => 7,
        Mnemonic::Bne => 8,
        Mnemonic::Bpl => 9,
        Mnemonic::Brk => 10,
        Mnemonic::Bvc => 11,
        Mnemonic::Bvs => 12,
        Mnemonic::Clc => 13,
        Mnemonic::Cld => 14,
        Mnemonic::Cli => 15,
        Mnemonic::Clv => 16,
        Mnemonic::Cmp => 17,
        Mnemonic::Cpx => 18,
        Mnemonic::Cpy => 19,
        Mnemonic::Dec => 20,
        Mnemonic::Dex => 21,
        Mnemonic::Dey => 22,
        Mnemonic::Eor => 23,
        Mnemonic::Inc => 24,
        Mnemonic::Inx => 25,
        Mnemonic::Iny => 26,
        Mnemonic::Jmp => 27,
        Mnemonic::Jsr => 28,
        Mnemonic::Lda => 29,
        Mnemonic::Ldx => 30,
        Mnemonic::Ldy => 31,
        Mnemonic::Lsr => 32,
        Mnemonic::Nop => 33,
        Mnemonic::Ora => 34,
        Mnemonic::Pha => 35,
        Mnemonic::Php => 36,
        Mnemonic::Pla => 37,
        Mnemonic::Rol => 38,
        Mnemonic::Ror => 39,
        Mnemonic::Rti => 40,
        Mnemonic::Rts => 41,
        Mnemonic::Sbc => 42,
        Mnemonic::Sec => 43,
        Mnemonic::Sed => 44,
        Mnemonic::Sei => 45,
        Mnemonic::Sta => 46,
        Mnemonic::Stx => 47,
        Mnemonic::Sty => 48,
        Mnemonic::Tax => 49,
        Mnemonic::Tay => 50,
        Mnemonic::Tsx => 51,
        Mnemonic::Tsy => 52,
        Mnemonic::Txa => 53,
        Mnemonic::Txs => 54,
        Mnemonic::Tya => 55,
    }
}

/// Looks a (mnemonic, addressing mode) pair up in the fixed opcode table.
pub fn opcode(m: Mnemonic, mode: AddressingMode) -> (r: Option<u8>)
    ensures
        r == opcode_of(m, mode),
{
    let supported = match mode {
        AddressingMode::Implied => is_implied_x(m),
        AddressingMode::Immediate => is_value_op_x(m),
        AddressingMode::Absolute => is_value_op_x(m) || is_absolute_only_x(m) || is_register_op_x(
            m,
        ),
        AddressingMode::RegisterDirect => is_register_op_x(m),
        AddressingMode::RegisterIndexed => is_indexed_x(m),
    };
    if supported {
        let idx = mnemonic_index_x(m);
        let slot: u8 = match mode {
            AddressingMode::Implied => 0,
            AddressingMode::Immediate => 1,
            AddressingMode::Absolute => 2,
            AddressingMode::RegisterDirect => 3,
            AddressingMode::RegisterIndexed => 0,
        };
        Some(4 * idx + slot)
    } else {
        None
    }
}

/// Executable form of `reg_code`.
pub fn register_code(r: Register) -> (b: u8)
    ensures
        b == reg_code(r),
{
    match r {
        Register::Pc => 0,
        Register::Ac => 1,
        Register::X => 2,
        Register::Y => 3,
        Register::Sr => 4,
        Register::Sp => 5,
    }
}

/// Builds the expected-token list of `expected_for` as a vector.
fn expected_tokens(m: Mnemonic) -> (v: Vec<TokenType>)
    ensures
        v@ == expected_for(m),
{
    let mut v: Vec<TokenType> = Vec::new();
    if is_implied_x(m) {
        v.push(TokenType::Mnemonic(Mnemonic::Any));
    }
    if is_value_op_x(m) {
        v.push(TokenType::Immediate(0));
    }
    if is_value_op_x(m) || is_absolute_only_x(m) || is_register_op_x(m) {
        v.push(TokenType::Numeral(0));
    }
    if is_register_op_x(m) || is_indexed_x(m) {
        v.push(TokenType::Register(Register::Pc));
    }
    proof {
        assert(v@ =~= expected_for(m));
    }
    v
}

/// The unsupported-combination error for the instruction headed by `t0`.
fn unsupported_err(m: Mnemonic, t0: Token) -> (e: ParseError)
    ensures
        match e {
            ParseError::UnexpectedToken { pos, expected, found } => pos == t0.pos && expected@
                == expected_for(m) && found == t0,
            _ => false,
        },
{
    let expected = expected_tokens(m);
    ParseError::UnexpectedToken { pos: t0.pos, expected, found: t0 }
}

/// Assembles a token sequence into its byte stream, or stops at the first
/// grammar or opcode-table violation; exactly what `encode_spec` says.
pub fn encode(tokens: &Vec<Token>) -> (r: Result<Vec<u8>, ParseError>)
    ensures
        match r {
            Ok(bytes) => encode_spec(tokens@) == (EncOut::Bytes { bytes: bytes@ }),
            Err(e) => parse_err_matches(e, encode_spec(tokens@)),
        },
{
    let n = tokens.len();
    let mut out: Vec<u8> = Vec::new();
    let mut i: usize = 0;
    while i < n
        invariant
            i <= n,
            n == tokens@.len(),
            encode_from(tokens@, i as int, out@) == encode_spec(tokens@),
        decreases n - i,
    {
        let t0 = tokens[i];
        let ghost prev_i = i as int;
        let ghost prev_out = out@;
        match t0.token_type {
            TokenType::Mnemonic(m) => {
                let at_end = i + 1 >= n;
                let implied = at_end || matches!(tokens[i + 1].token_type, TokenType::Mnemonic(_));
                if implied {
                    match opcode(m, AddressingMode::Implied) {
                        Some(op) => {
                            out.push(op);
                            i = i + 1;
                        },
                        None => {
                            return Err(unsupported_err(m, t0));
                        },
                    }
                } else {
                    let t1 = tokens[i + 1];
                    match t1.token_type {
                        TokenType::Immediate(v) => match opcode(m, AddressingMode::Immediate) {
                            Some(op) => {
                                out.push(op);
                                out.push((v % 256) as u8);
                                out.push((v / 256) as u8);
                                i = i + 2;
                            },
                            None => {
                                return Err(unsupported_err(m, t0));
                            },
                        },
                        TokenType::Numeral(v) => match opcode(m, AddressingMode::Absolute) {
                            Some(op) => {
                                out.push(op);
                                out.push((v % 256) as u8);
                                out.push((v / 256) as u8);
                                i = i + 2;
                            },
                            None => {
                                return Err(unsupported_err(m, t0));
                            },
                        },
                        TokenType::Register(r1) => {
                            let has_comma = i + 2 < n && matches!(
                                tokens[i + 2].token_type,
                                TokenType::Comma,
                            );
                            if has_comma {
                                if i + 3 < n {
                                    let t3 = tokens[i + 3];
                                    match t3.token_type {
                                        TokenType::Register(r2) => match opcode(
                                            m,
                                            AddressingMode::RegisterIndexed,
                                        ) {
                                            Some(op) => {
                                                out.push(op);
                                                out.push(register_code(r1));
                                                out.push(register_code(r2));
                                                i = i + 4;
                                            },
                                            None => {
                                                return Err(unsupported_err(m, t0));
                                            },
                                        },
                                        _ => {
                                            let mut expected: Vec<TokenType> = Vec::new();
                                            expected.push(TokenType::Register(Register::Pc));
                                            proof {
                                                assert(expected@ =~= seq![
                                                    TokenType::Register(Register::Pc),
                                                ]);
                                            }
                                            return Err(
                                                ParseError::UnexpectedToken {
                                                    pos: t3.pos,
                                                    expected,
                                                    found: t3,
                                                },
                                            );
                                        },
                                    }
                                } else {
                                    let t2 = tokens[i + 2];
                                    let mut expected: Vec<TokenType> = Vec::new();
                                    expected.push(TokenType::Register(Register::Pc));
                                    proof {
                                        assert(expected@ =~= seq![
                                            TokenType::Register(Register::Pc),
                                        ]);
                                    }
                                    return Err(
                                        ParseError::UnexpectedToken {
                                            pos: t2.pos,
                                            expected,
                                            found: t2,
                                        },
                                    );
                                }
                            } else {
                                match opcode(m, AddressingMode::RegisterDirect) {
                                    Some(op) => {
                                        out.push(op);
                                        out.push(register_code(r1));
                                        i = i + 2;
                                    },
                                    None => {
                                        return Err(unsupported_err(m, t0));
                                    },
                                }
                            }
                        },
                        TokenType::Comma => {
                            let mut expected: Vec<TokenType> = Vec::new();
                            expected.push(TokenType::Mnemonic(Mnemonic::Any));
                            expected.push(TokenType::Immediate(0));
                            expected.push(TokenType::Numeral(0));
                            expected.push(TokenType::Register(Register::Pc));
                            proof {
                                assert(expected@ =~= seq![
                                    TokenType::Mnemonic(Mnemonic::Any),
                                    TokenType::Immediate(0),
                                    TokenType::Numeral(0),
                                    TokenType::Register(Register::Pc),
                                ]);
                            }
                            return Err(
                                ParseError::UnexpectedToken { pos: t1.pos, expected, found: t1 },
                            );
                        },
                        TokenType::Mnemonic(_) => {
                            let expected: Vec<TokenType> = Vec::new();
                            return Err(
                                ParseError::UnexpectedToken { pos: t0.pos, expected, found: t0 },
                            );
                        },
                    }
                }
            },
            _ => {
                let mut expected: Vec<TokenType> = Vec::new();
                expected.push(TokenType::Mnemonic(Mnemonic::Any));
                proof {
                    assert(expected@ =~= seq![TokenType::Mnemonic(Mnemonic::Any)]);
                }
                return Err(ParseError::UnexpectedToken { pos: t0.pos, expected, found: t0 });
            },
        }
        proof {
            assert(encode_from(tokens@, prev_i, prev_out) == encode_from(tokens@, i as int, out@));
        }
    }
    Ok(out)
}

} // verus!
