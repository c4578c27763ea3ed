//! Assembler front end for a small 8-bit accumulator CPU: a scanner that
//! turns source text into positioned tokens, and an encoder that classifies
//! each mnemonic/operand group into an addressing mode and emits opcode bytes.

pub mod encoder;
pub mod error;
pub mod laws;
pub mod lexer;
pub mod numeric;
pub mod tokens;

use vstd::prelude::*;
use crate::encoder::{encode, encode_spec, parse_err_matches, EncOut};
use crate::error::ParseError;
use crate::lexer::{get_tokens, lex_err_matches, scan_spec, ScanOut};

verus! {

/// The byte-stream handle handed to the external loader.
#[verifier::external_type_specification]
#[verifier::external_body]
pub struct ExBytes(bytes::Bytes);

/// The bytes that a `bytes::Bytes` handle views.
pub uninterp spec fn bytes_content(b: bytes::Bytes) -> Seq<u8>;

/// Relies on `<bytes::Bytes as From<Vec<u8>>>::from`: the resulting handle
/// views exactly the bytes of the vector it took over.
#[verifier::external_body]
fn bytes_from_vec(v: Vec<u8>) -> (r: bytes::Bytes)
    ensures
        bytes_content(r) == v@,
{
    bytes::Bytes::from(v)
}

/// Assembles a source text: scans it into tokens and encodes the tokens into
/// the final byte stream, or reports the first scan- or assembly-level error
/// with its position. No partial output is ever produced.
pub fn assemble(src: &str) -> (r: Result<bytes::Bytes, ParseError>)
    ensures
        ({
            match scan_spec(src@) {
                ScanOut::Toks { toks } => match r {
                    Ok(b) => encode_spec(toks) == (EncOut::Bytes { bytes: bytes_content(b) }),
                    Err(e) => parse_err_matches(e, encode_spec(toks)),
                },
                s => match r {
                    Ok(_) => false,
                    Err(e) => match e {
                        ParseError::LexerError(le) => lex_err_matches(le, s),
                        _ => false,
                    },
                },
            }
        }),
{
    match get_tokens(src) {
        Ok(tokens) => match encode(&tokens) {
            Ok(v) => Ok(bytes_from_vec(v)),
            Err(e) => Err(e),
        },
        Err(le) => Err(ParseError::LexerError(le)),
    }
}

/// ASCII uppercase of one character; characters outside `a..=z` are unchanged.
pub open spec fn upper_char(c: char) -> char {
    if c == 'a' {
        'A'
    } else if c == 'b' {
        'B'
    } else if c == 'c' {
        'C'
    } else if c == 'd' {
        'D'
    } else if c == 'e' {
        'E'
    } else if c == 'f' {
        'F'
    } else if c == 'g' {
        'G'
    } else if c == 'h' {
        'H'
    } else if c == 'i' {
        'I'
    } else if c == 'j' {
        'J'
    } else if c == 'k' {
        'K'
    } else if c == 'l' {
        'L'
    } else if c == 'm' {
        'M'
    } else if c == 'n' {
        'N'
    } else if c == 'o' {
        'O'
    } else if c == 'p' {
        'P'
    } else if c == 'q' {
        'Q'
    } else if c == 'r' {
        'R'
    } else if c == 's' {
        'S'
    } else if c == 't' {
        'T'
    } else if c == 'u' {
        'U'
    } else if c == 'v' {
        'V'
    } else if c == 'w' {
        'W'
    } else if c == 'x' {
        'X'
    } else if c == 'y' {
        'Y'
    } else if c == 'z' {
        'Z'
    } else {
        c
    }
}

/// ASCII uppercase of a whole character sequence.
pub open spec fn upper_seq(s: Seq<char>) -> Seq<char> {
    Seq::new(s.len(), |i: int| upper_char(s[i]))
}

/// Executable ASCII uppercase, matching `upper_char`.
pub fn to_upper(c: char) -> (r: char)
    ensures
        r == upper_char(c),
{
    match c {
        'a' => 'A',
        'b' => 'B',
        'c' => 'C',
        'd' => 'D',
        'e' => 'E',
        'f' => 'F',
        'g' => 'G',
        'h' => 'H',
        'i' => 'I',
        'j' => 'J',
        'k' => 'K',
        'l' => 'L',
        'm' => 'M',
        'n' => 'N',
        'o' => 'O',
        'p' => 'P',
        'q' => 'Q',
        'r' => 'R',
        's' => 'S',
        't' => 'T',
        'u' => 'U',
        'v' => 'V',
        'w' => 'W',
        'x' => 'X',
        'y' => 'Y',
        'z' => 'Z',
        _ => c,
    }
}

} // verus!
