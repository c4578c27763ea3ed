use assembler::encoder::{encode, opcode, AddressingMode};
use assembler::error::ParseError;
use assembler::lexer::get_tokens;
use assembler::tokens::{Mnemonic, Register, Token, TokenType};

fn encode_source(src: &str) -> Result<Vec<u8>, ParseError> {
    encode(&get_tokens(src).unwrap())
}

#[test]
fn opcode_table_is_systematic() {
    // four code points per mnemonic, one per addressing-mode slot
    assert_eq!(opcode(Mnemonic::Nop, AddressingMode::Implied), Some(4 * 33));
    assert_eq!(opcode(Mnemonic::Lda, AddressingMode::Immediate), Some(4 * 29 + 1));
    assert_eq!(opcode(Mnemonic::Lda, AddressingMode::Absolute), Some(4 * 29 + 2));
    assert_eq!(opcode(Mnemonic::Lda, AddressingMode::RegisterIndexed), Some(4 * 29));
    assert_eq!(opcode(Mnemonic::Asl, AddressingMode::RegisterDirect), Some(4 * 2 + 3));
    // combinations absent from the table
    assert_eq!(opcode(Mnemonic::Lda, AddressingMode::Implied), None);
    assert_eq!(opcode(Mnemonic::Brk, AddressingMode::Immediate), None);
    assert_eq!(opcode(Mnemonic::Sta, AddressingMode::Immediate), None);
    assert_eq!(opcode(Mnemonic::Any, AddressingMode::Implied), None);
}

#[test]
fn encodes_implied_instructions() {
    assert_eq!(encode_source("NOP").unwrap(), vec![132]);
    assert_eq!(encode_source("NOP NOP").unwrap(), vec![132, 132]);
    assert_eq!(encode_source("BRK").unwrap(), vec![4 * 10]);
}

#[test]
fn encodes_immediate_operand_low_byte_first() {
    assert_eq!(encode_source("LDA #$10AB").unwrap(), vec![117, 0xAB, 0x10]);
    assert_eq!(encode_source("ADC #%0110").unwrap(), vec![4 * 0 + 1, 0x06, 0x00]);
}

#[test]
fn encodes_absolute_operand() {
    assert_eq!(encode_source("STA $10AC").unwrap(), vec![4 * 46 + 2, 0xAC, 0x10]);
    assert_eq!(encode_source("JMP $1234").unwrap(), vec![4 * 27 + 2, 0x34, 0x12]);
}

#[test]
fn encodes_register_direct_operand() {
    assert_eq!(encode_source("ASL X").unwrap(), vec![4 * 2 + 3, 2]);
    assert_eq!(encode_source("INC SP").unwrap(), vec![4 * 24 + 3, 5]);
}

#[test]
fn encodes_register_indexed_operands() {
    assert_eq!(encode_source("LDA X, Y").unwrap(), vec![4 * 29, 2, 3]);
    assert_eq!(encode_source("STA PC, AC").unwrap(), vec![4 * 46, 0, 1]);
}

#[test]
fn unsupported_mode_names_the_supported_kinds() {
    // BRK takes no operand
    let err = encode_source("BRK #$01").unwrap_err();
    assert_eq!(
        err,
        ParseError::UnexpectedToken {
            pos: (0, 0),
            expected: vec![TokenType::Mnemonic(Mnemonic::Any)],
            found: Token { pos: (0, 0), token_type: TokenType::Mnemonic(Mnemonic::Brk) },
        }
    );
    // LDA needs an operand
    let err = encode_source("LDA").unwrap_err();
    assert_eq!(
        err,
        ParseError::UnexpectedToken {
            pos: (0, 0),
            expected: vec![
                TokenType::Immediate(0),
                TokenType::Numeral(0),
                TokenType::Register(Register::Pc),
            ],
            found: Token { pos: (0, 0), token_type: TokenType::Mnemonic(Mnemonic::Lda) },
        }
    );
    // STA has no immediate mode
    assert!(matches!(
        encode_source("STA #$10").unwrap_err(),
        ParseError::UnexpectedToken { .. }
    ));
}

#[test]
fn instruction_must_start_with_mnemonic() {
    let err = encode_source("$10").unwrap_err();
    assert_eq!(
        err,
        ParseError::UnexpectedToken {
            pos: (0, 0),
            expected: vec![TokenType::Mnemonic(Mnemonic::Any)],
            found: Token { pos: (0, 0), token_type: TokenType::Numeral(0x10) },
        }
    );
}

#[test]
fn comma_directly_after_mnemonic_is_rejected() {
    let err = encode_source("LDA , X").unwrap_err();
    assert_eq!(
        err,
        ParseError::UnexpectedToken {
            pos: (0, 4),
            expected: vec![
                TokenType::Mnemonic(Mnemonic::Any),
                TokenType::Immediate(0),
                TokenType::Numeral(0),
                TokenType::Register(Register::Pc),
            ],
            found: Token { pos: (0, 4), token_type: TokenType::Comma },
        }
    );
}

#[test]
fn comma_must_be_followed_by_register() {
    let err = encode_source("LDA X, $10").unwrap_err();
    assert_eq!(
        err,
        ParseError::UnexpectedToken {
            pos: (0, 7),
            expected: vec![TokenType::Register(Register::Pc)],
            found: Token { pos: (0, 7), token_type: TokenType::Numeral(0x10) },
        }
    );
    let err = encode_source("LDA X,").unwrap_err();
    assert_eq!(
        err,
        ParseError::UnexpectedToken {
            pos: (0, 5),
            expected: vec![TokenType::Register(Register::Pc)],
            found: Token { pos: (0, 5), token_type: TokenType::Comma },
        }
    );
}

#[test]
fn lone_register_needs_a_register_direct_row() {
    // LDA addresses through a register pair only, never one register alone
    assert!(matches!(
        encode_source("LDA X").unwrap_err(),
        ParseError::UnexpectedToken { .. }
    ));
    // ASL acts on one register directly
    assert_eq!(encode_source("ASL Y").unwrap(), vec![4 * 2 + 3, 3]);
}

#[test]
fn encodes_empty_token_sequence_to_no_bytes() {
    assert_eq!(encode(&vec![]).unwrap(), vec![]);
}

#[test]
fn first_error_aborts_encoding() {
    // the first instruction is fine, the second is not: no partial bytes
    let err = encode_source("LDA #$01 $10 $20").unwrap_err();
    assert!(matches!(err, ParseError::UnexpectedToken { pos: (0, 9), .. }));
}
