use assembler::error::LexerError;
use assembler::lexer::get_tokens;
use assembler::tokens::{Mnemonic, Register, TokenType};

#[test]
fn test_lexer() {
    let code = r#"
            LDA #$10AB ; load accumulator
            ADC #%0110 ; add 6 to acc
            STA #$10AC ; store accumulator
        "#;
    let tokens = get_tokens(code).unwrap();
    assert_eq!(tokens[0].token_type, TokenType::Mnemonic(Mnemonic::Lda));
    assert_eq!(tokens[1].token_type, TokenType::Immediate(0x10ab));
    assert_eq!(tokens[2].token_type, TokenType::Mnemonic(Mnemonic::Adc));
    assert_eq!(tokens[3].token_type, TokenType::Immediate(0b0110));
    assert_eq!(tokens[4].token_type, TokenType::Mnemonic(Mnemonic::Sta));
    assert_eq!(tokens[5].token_type, TokenType::Immediate(0x10ac));
}

#[test]
fn lowercase_and_uppercase_scan_alike() {
    let lower = get_tokens("lda #$10ab").unwrap();
    let upper = get_tokens("LDA #$10AB").unwrap();
    assert_eq!(lower, upper);
    assert_eq!(lower[0].token_type, TokenType::Mnemonic(Mnemonic::Lda));
    let mixed = get_tokens("sTa").unwrap();
    assert_eq!(mixed[0].token_type, TokenType::Mnemonic(Mnemonic::Sta));
}

#[test]
fn immediate_hex_literal() {
    let tokens = get_tokens("LDA #$10AB").unwrap();
    assert_eq!(tokens.len(), 2);
    assert_eq!(tokens[0].token_type, TokenType::Mnemonic(Mnemonic::Lda));
    assert_eq!(tokens[1].token_type, TokenType::Immediate(0x10AB));
}

#[test]
fn immediate_binary_literal() {
    let tokens = get_tokens("ADC #%0110").unwrap();
    assert_eq!(tokens.len(), 2);
    assert_eq!(tokens[0].token_type, TokenType::Mnemonic(Mnemonic::Adc));
    assert_eq!(tokens[1].token_type, TokenType::Immediate(0b0110));
}

#[test]
fn trailing_comment_is_discarded() {
    let tokens = get_tokens("STA #$10AC ; store it").unwrap();
    assert_eq!(tokens.len(), 2);
    assert_eq!(tokens[0].token_type, TokenType::Mnemonic(Mnemonic::Sta));
    assert_eq!(tokens[1].token_type, TokenType::Immediate(0x10AC));
}

#[test]
fn round_trip_literals() {
    let tokens = get_tokens("$FFFF %1111111111111111 65535 #42 $0 %0 0").unwrap();
    assert_eq!(tokens[0].token_type, TokenType::Numeral(0xFFFF));
    assert_eq!(tokens[1].token_type, TokenType::Numeral(0xFFFF));
    assert_eq!(tokens[2].token_type, TokenType::Numeral(65535));
    assert_eq!(tokens[3].token_type, TokenType::Immediate(42));
    assert_eq!(tokens[4].token_type, TokenType::Numeral(0));
    assert_eq!(tokens[5].token_type, TokenType::Numeral(0));
    assert_eq!(tokens[6].token_type, TokenType::Numeral(0));
}

#[test]
fn lowercase_hex_digits_parse() {
    let tokens = get_tokens("$10ab").unwrap();
    assert_eq!(tokens[0].token_type, TokenType::Numeral(0x10AB));
}

#[test]
fn unknown_word_is_invalid_token() {
    let err = get_tokens("FOO").unwrap_err();
    assert_eq!(
        err,
        LexerError::InvalidToken {
            pos: (0, 0),
            expected: vec![
                "Mnemonic".to_string(),
                "Register".to_string(),
                "Integer".to_string(),
            ],
            found: "FOO".to_string(),
        }
    );
}

#[test]
fn bad_hex_digits_are_integer_parse_error() {
    let err = get_tokens("$ZZ").unwrap_err();
    assert_eq!(
        err,
        LexerError::IntegerParseError { pos: (0, 0), lexeme: "$ZZ".to_string() }
    );
}

#[test]
fn overflowing_literals_are_integer_parse_error() {
    assert!(matches!(
        get_tokens("$10000").unwrap_err(),
        LexerError::IntegerParseError { .. }
    ));
    assert!(matches!(
        get_tokens("123456").unwrap_err(),
        LexerError::IntegerParseError { .. }
    ));
    assert!(matches!(
        get_tokens("%11111111111111111").unwrap_err(),
        LexerError::IntegerParseError { .. }
    ));
}

#[test]
fn digits_invalid_for_base_are_integer_parse_error() {
    assert!(matches!(
        get_tokens("%0102").unwrap_err(),
        LexerError::IntegerParseError { .. }
    ));
    assert!(matches!(
        get_tokens("12A").unwrap_err(),
        LexerError::IntegerParseError { .. }
    ));
    let err = get_tokens("NOP #$GZ").unwrap_err();
    assert_eq!(
        err,
        LexerError::IntegerParseError { pos: (0, 4), lexeme: "$GZ".to_string() }
    );
}

#[test]
fn empty_sigil_is_integer_parse_error() {
    assert!(matches!(
        get_tokens("$").unwrap_err(),
        LexerError::IntegerParseError { .. }
    ));
    assert!(matches!(
        get_tokens("%").unwrap_err(),
        LexerError::IntegerParseError { .. }
    ));
}

#[test]
fn bare_hash_is_invalid_token() {
    let err = get_tokens("#").unwrap_err();
    assert_eq!(
        err,
        LexerError::InvalidToken {
            pos: (0, 0),
            expected: vec![
                "Mnemonic".to_string(),
                "Register".to_string(),
                "Integer".to_string(),
            ],
            found: "".to_string(),
        }
    );
}

#[test]
fn token_after_comment_line_is_on_next_row_column_zero() {
    let tokens = get_tokens("; a comment line\nLDA").unwrap();
    assert_eq!(tokens.len(), 1);
    assert_eq!(tokens[0].pos, (1, 0));
    assert_eq!(tokens[0].token_type, TokenType::Mnemonic(Mnemonic::Lda));
}

#[test]
fn comment_newline_counts_exactly_once() {
    // the newline that ends a comment is the only row increment for that line
    let tokens = get_tokens("; one\n; two\nNOP").unwrap();
    assert_eq!(tokens.len(), 1);
    assert_eq!(tokens[0].pos, (2, 0));
    let tokens = get_tokens("NOP ; tail\nNOP").unwrap();
    assert_eq!(tokens[0].pos, (0, 0));
    assert_eq!(tokens[1].pos, (1, 0));
}

#[test]
fn comma_separates_register_operands() {
    let tokens = get_tokens("LDA X, Y").unwrap();
    assert_eq!(tokens.len(), 4);
    assert_eq!(tokens[0].token_type, TokenType::Mnemonic(Mnemonic::Lda));
    assert_eq!(tokens[1].token_type, TokenType::Register(Register::X));
    assert_eq!(tokens[2].token_type, TokenType::Comma);
    assert_eq!(tokens[3].token_type, TokenType::Register(Register::Y));
}

#[test]
fn token_positions_start_at_first_character() {
    let tokens = get_tokens("LDA X, Y").unwrap();
    assert_eq!(tokens[0].pos, (0, 0));
    assert_eq!(tokens[1].pos, (0, 4));
    assert_eq!(tokens[2].pos, (0, 5));
    assert_eq!(tokens[3].pos, (0, 7));
}

#[test]
fn registers_scan_to_register_tokens() {
    let tokens = get_tokens("pc ac x y sr sp").unwrap();
    assert_eq!(tokens[0].token_type, TokenType::Register(Register::Pc));
    assert_eq!(tokens[1].token_type, TokenType::Register(Register::Ac));
    assert_eq!(tokens[2].token_type, TokenType::Register(Register::X));
    assert_eq!(tokens[3].token_type, TokenType::Register(Register::Y));
    assert_eq!(tokens[4].token_type, TokenType::Register(Register::Sr));
    assert_eq!(tokens[5].token_type, TokenType::Register(Register::Sp));
}

#[test]
fn empty_source_scans_to_no_tokens() {
    assert_eq!(get_tokens("").unwrap(), vec![]);
    assert_eq!(get_tokens(" \t\n; only a comment").unwrap(), vec![]);
}

#[test]
fn error_aborts_scan_without_partial_tokens() {
    // the error comes from the second lexeme; no token list is returned
    let err = get_tokens("LDA $XYZ").unwrap_err();
    assert_eq!(
        err,
        LexerError::IntegerParseError { pos: (0, 4), lexeme: "$XYZ".to_string() }
    );
}
