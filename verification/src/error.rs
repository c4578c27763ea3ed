//! Positioned diagnostics. A scan-level error aborts scanning; an
//! assembly-level error aborts encoding. Every variant carries the zero-based
//! (row, column) of the offending source position.

use vstd::prelude::*;
use crate::tokens::{Token, TokenType};

verus! {

/// An error found while scanning the source text into tokens.
#[derive(Debug, PartialEq, Eq)]
pub enum LexerError {
    /// A character that can neither start nor continue any lexeme.
    UnexpectedSymbol { pos: (usize, usize), expected: String, found: char },
    /// A completed lexeme that matches no literal or keyword form; `expected`
    /// names the three categories a lexeme can fall in, `found` holds the
    /// uppercased lexeme (with a leading `#` marker stripped).
    InvalidToken { pos: (usize, usize), expected: Vec<String>, found: String },
    /// A numeric-prefixed lexeme whose digits do not parse in the indicated
    /// base or whose value exceeds 16 bits; `lexeme` holds the uppercased
    /// lexeme (with a leading `#` marker stripped).
    IntegerParseError { pos: (usize, usize), lexeme: String },
}

/// An error found while assembling a token sequence into bytes.
#[derive(Debug, PartialEq, Eq)]
pub enum ParseError {
    /// A token that the instruction grammar or the opcode table does not
    /// accept at its position. `expected` lists the acceptable token kinds as
    /// wildcard patterns: only the variant of each entry is meaningful, and
    /// the payloads (`Mnemonic(Any)`, `Immediate(0)`, `Numeral(0)`,
    /// `Register(Pc)`) are placeholders.
    UnexpectedToken { pos: (usize, usize), expected: Vec<TokenType>, found: Token },
    /// A scan-level error, passed through unchanged.
    LexerError(LexerError),
}

} // verus!
