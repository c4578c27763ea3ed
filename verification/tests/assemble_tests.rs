use assembler::assemble;
use assembler::error::{LexerError, ParseError};

#[test]
fn assembles_a_program_to_its_byte_stream() {
    let bytes = assemble("LDA #$10AB\nSTA $10AC").unwrap();
    assert_eq!(&bytes[..], &[117, 0xAB, 0x10, 4 * 46 + 2, 0xAC, 0x10][..]);
}

#[test]
fn assembles_commented_program() {
    let code = r#"
            LDA #$10AB ; load accumulator
            ADC #%0110 ; add 6 to acc
            STA $10AC  ; store accumulator
        "#;
    let bytes = assemble(code).unwrap();
    assert_eq!(
        &bytes[..],
        &[117, 0xAB, 0x10, 1, 0x06, 0x00, 4 * 46 + 2, 0xAC, 0x10][..]
    );
}

#[test]
fn assembles_empty_source_to_no_bytes() {
    let bytes = assemble("").unwrap();
    assert_eq!(bytes.len(), 0);
}

#[test]
fn assemble_passes_scan_errors_through() {
    let err = assemble("FOO").unwrap_err();
    assert!(matches!(
        err,
        ParseError::LexerError(LexerError::InvalidToken { pos: (0, 0), .. })
    ));
    let err = assemble("LDA #$GZ").unwrap_err();
    assert!(matches!(
        err,
        ParseError::LexerError(LexerError::IntegerParseError { pos: (0, 4), .. })
    ));
}

#[test]
fn assemble_reports_grammar_errors() {
    let err = assemble("BRK X").unwrap_err();
    assert!(matches!(err, ParseError::UnexpectedToken { pos: (0, 0), .. }));
    let err = assemble("LDA X, $10").unwrap_err();
    assert!(matches!(err, ParseError::UnexpectedToken { pos: (0, 7), .. }));
}

#[test]
fn assembles_register_indexed_instruction() {
    let bytes = assemble("LDA X, Y").unwrap();
    assert_eq!(&bytes[..], &[4 * 29, 2, 3][..]);
}
