//! The scanner: walks the source text once, collects maximal runs of
//! non-separator characters into lexemes, resolves each lexeme into a token,
//! and tracks the zero-based (row, column) cursor for diagnostics.
//!
//! The whole scan is modelled by the recursive spec function `scan_from`;
//! `get_tokens` is proved to return exactly what that model says.

use vstd::prelude::*;
use vstd::string::*;
use crate::error::LexerError;
use crate::numeric::{digit_ok, spec_parse_u16, digit_in_base, parse_radix};
use crate::tokens::{Token, TokenType, spec_keyword, lookup_keyword};
use crate::{upper_seq, to_upper};

verus! {

/// What resolving one lexeme yields: a token kind, or one of the two lexeme
/// errors, each carrying the uppercased lexeme (with a `#` marker stripped).
pub ghost enum Resolved {
    Tok { t: TokenType },
    IntErr { lexeme: Seq<char> },
    Invalid { found: Seq<char> },
}

/// The lexeme resolver: uppercase, strip an optional leading `#` immediate
/// marker, then read `$`-prefixed hex, `%`-prefixed binary or bare decimal
/// literals, and otherwise look the text up in the closed keyword table.
pub open spec fn resolve_lexeme(lex: Seq<char>) -> Resolved {
    let up = upper_seq(lex);
    let imm = up.len() > 0 && up[0] == '#';
    let rest = if imm {
        up.skip(1)
    } else {
        up
    };
    if rest.len() > 0 && rest[0] == '$' {
        match spec_parse_u16(rest.skip(1), 16) {
            Some(v) => Resolved::Tok {
                t: if imm {
                    TokenType::Immediate(v)
                } else {
                    TokenType::Numeral(v)
                },
            },
            None => Resolved::IntErr { lexeme: rest },
        }
    } else if rest.len() > 0 && rest[0] == '%' {
        match spec_parse_u16(rest.skip(1), 2) {
            Some(v) => Resolved::Tok {
                t: if imm {
                    TokenType::Immediate(v)
                } else {
                    TokenType::Numeral(v)
                },
            },
            None => Resolved::IntErr { lexeme: rest },
        }
    } else if rest.len() > 0 && digit_ok(rest[0], 10) {
        match spec_parse_u16(rest, 10) {
            Some(v) => Resolved::Tok {
                t: if imm {
                    TokenType::Immediate(v)
                } else {
                    TokenType::Numeral(v)
                },
            },
            None => Resolved::IntErr { lexeme: rest },
        }
    } else {
        match spec_keyword(rest) {
            Some(t) => Resolved::Tok { t },
            None => Resolved::Invalid { found: rest },
        }
    }
}

/// The three category names that an `InvalidToken` error lists as expected.
pub open spec fn expected_categories(v: Seq<String>) -> bool {
    v.len() == 3 && v[0]@ == "Mnemonic"@ && v[1]@ == "Register"@ && v[2]@ == "Integer"@
}

/// The returned error describes the given resolver outcome at `position`.
pub open spec fn lex_err_at(e: LexerError, res: Resolved, position: (usize, usize)) -> bool {
    match (e, res) {
        (LexerError::IntegerParseError { pos, lexeme }, Resolved::IntErr { lexeme: l }) => pos
            == position && lexeme@ == l,
        (LexerError::InvalidToken { pos, expected, found }, Resolved::Invalid { found: f }) => pos
            == position && found@ == f && expected_categories(expected@),
        _ => false,
    }
}

/// Relies on `String::push`: appends the character to the end of the string.
#[verifier::external_body]
fn push_char(s: &mut String, c: char)
    ensures
        final(s)@ == old(s)@.push(c),
{
    s.push(c);
}

/// Resolves one lexeme into a token carrying `position`, exactly as
/// `resolve_lexeme` describes; a failed resolution reports the same position.
pub fn make_token(lexeme: &str, position: (usize, usize)) -> (r: Result<Token, LexerError>)
    ensures
        match r {
            Ok(t) => t.pos == position && resolve_lexeme(lexeme@) == (Resolved::Tok {
                t: t.token_type,
            }),
            Err(e) => lex_err_at(e, resolve_lexeme(lexeme@), position),
        },
{
    let ulen = lexeme.unicode_len();
    let mut upper = String::new();
    let mut k: usize = 0;
    while k < ulen
        invariant
            k <= ulen,
            ulen == lexeme@.len(),
            upper@ == upper_seq(lexeme@).subrange(0, k as int),
        decreases ulen - k,
    {
        let c = lexeme.get_char(k);
        push_char(&mut upper, to_upper(c));
        proof {
            assert(upper@ =~= upper_seq(lexeme@).subrange(0, k + 1));
        }
        k = k + 1;
    }
    let ghost up = upper_seq(lexeme@);
    proof {
        assert(upper@ =~= up);
    }
    let imm: bool = ulen > 0 && upper.as_str().get_char(0) == '#';
    let start: usize = if imm {
        1
    } else {
        0
    };
    let rest: &str = upper.as_str().substring_char(start, ulen);
    proof {
        if imm {
            assert(rest@ =~= up.skip(1));
        } else {
            assert(rest@ =~= up);
        }
    }
    let rlen = ulen - start;
    if rlen > 0 && rest.get_char(0) == '$' {
        match parse_radix(rest, 1, 16) {
            Some(v) => {
                let tt = if imm {
                    TokenType::Immediate(v)
                } else {
                    TokenType::Numeral(v)
                };
                Ok(Token { pos: position, token_type: tt })
            },
            None => Err(
                LexerError::IntegerParseError { pos: position, lexeme: rest.to_owned() },
            ),
        }
    } else if rlen > 0 && rest.get_char(0) == '%' {
        match parse_radix(rest, 1, 2) {
            Some(v) => {
                let tt = if imm {
                    TokenType::Immediate(v)
                } else {
                    TokenType::Numeral(v)
                };
                Ok(Token { pos: position, token_type: tt })
            },
            None => Err(
                LexerError::IntegerParseError { pos: position, lexeme: rest.to_owned() },
            ),
        }
    } else if rlen > 0 && digit_in_base(rest.get_char(0), 10).is_some() {
        proof {
            assert(rest@.skip(0) =~= rest@);
        }
        match parse_radix(rest, 0, 10) {
            Some(v) => {
                let tt = if imm {
                    TokenType::Immediate(v)
                } else {
                    TokenType::Numeral(v)
                };
                Ok(Token { pos: position, token_type: tt })
            },
            None => Err(
                LexerError::IntegerParseError { pos: position, lexeme: rest.to_owned() },
            ),
        }
    } else {
        match lookup_keyword(rest) {
            Some(tt) => Ok(Token { pos: position, token_type: tt }),
            None => {
                let mut expected: Vec<String> = Vec::new();
                expected.push(String::from_str("Mnemonic"));
                expected.push(String::from_str("Register"));
                expected.push(String::from_str("Integer"));
                Err(
                    LexerError::InvalidToken {
                        pos: position,
                        expected,
                        found: rest.to_owned(),
                    },
                )
            },
        }
    }
}

/// What a whole scan yields: the token sequence, or the first lexeme error
/// together with its position.
pub ghost enum ScanOut {
    Toks { toks: Seq<Token> },
    IntErr { pos: (usize, usize), lexeme: Seq<char> },
    Invalid { pos: (usize, usize), found: Seq<char> },
}

/// Closes the pending lexeme `src[lex_start..i]`, if any: resolves it into a
/// token positioned at its first character, or stops the scan with its error.
pub open spec fn close_pending(
    src: Seq<char>,
    lex_start: int,
    i: int,
    lex_row: usize,
    lex_col: usize,
    acc: Seq<Token>,
) -> Result<Seq<Token>, ScanOut> {
    if lex_start < i {
        match resolve_lexeme(src.subrange(lex_start, i)) {
            Resolved::Tok { t } => Ok(
                acc.push(Token { pos: (lex_row, lex_col), token_type: t }),
            ),
            Resolved::IntErr { lexeme } => Err(
                ScanOut::IntErr { pos: (lex_row, lex_col), lexeme },
            ),
            Resolved::Invalid { found } => Err(
                ScanOut::Invalid { pos: (lex_row, lex_col), found },
            ),
        }
    } else {
        Ok(acc)
    }
}

/// One step of the scan for each source character, starting at index `i` with
/// cursor (`row`, `col`). `in_comment` says a `;` comment is being skipped:
/// it ends at the next newline, and that newline is the one that increments
/// the row (so a comment never advances the cursor on its own). The pending
/// lexeme is `src[lex_start..i]`; it began at position (`lex_row`, `lex_col`).
/// Whitespace, commas, comment starts and the end of input close the pending
/// lexeme; a comma then also yields a `Comma` token at the comma's position.
pub open spec fn scan_from(
    src: Seq<char>,
    i: int,
    row: usize,
    col: usize,
    in_comment: bool,
    lex_start: int,
    lex_row: usize,
    lex_col: usize,
    acc: Seq<Token>,
) -> ScanOut
    decreases src.len() - i,
{
    if i >= src.len() {
        match close_pending(src, lex_start, i, lex_row, lex_col, acc) {
            Ok(toks) => ScanOut::Toks { toks },
            Err(e) => e,
        }
    } else {
        let c = src[i];
        if in_comment {
            if c == '\n' {
                scan_from(src, i + 1, (row + 1) as usize, 0, false, i + 1, lex_row, lex_col, acc)
            } else {
                scan_from(src, i + 1, row, col, true, i + 1, lex_row, lex_col, acc)
            }
        } else if c == ';' {
            match close_pending(src, lex_start, i, lex_row, lex_col, acc) {
                Ok(a) => scan_from(src, i + 1, row, col, true, i + 1, lex_row, lex_col, a),
                Err(e) => e,
            }
        } else if c == '\n' {
            match close_pending(src, lex_start, i, lex_row, lex_col, acc) {
                Ok(a) => scan_from(
                    src,
                    i + 1,
                    (row + 1) as usize,
                    0,
                    false,
                    i + 1,
                    lex_row,
                    lex_col,
                    a,
                ),
                Err(e) => e,
            }
        } else if c == ' ' || c == '\t' {
            match close_pending(src, lex_start, i, lex_row, lex_col, acc) {
                Ok(a) => scan_from(
                    src,
                    i + 1,
                    row,
                    (col + 1) as usize,
                    false,
                    i + 1,
                    lex_row,
                    lex_col,
                    a,
                ),
                Err(e) => e,
            }
        } else if c == ',' {
            match close_pending(src, lex_start, i, lex_row, lex_col, acc) {
                Ok(a) => scan_from(
                    src,
                    i + 1,
                    row,
                    (col + 1) as usize,
                    false,
                    i + 1,
                    lex_row,
                    lex_col,
                    a.push(Token { pos: (row, col), token_type: TokenType::Comma }),
                ),
                Err(e) => e,
            }
        } else {
            if lex_start < i {
                scan_from(src, i + 1, row, (col + 1) as usize, false, lex_start, lex_row, lex_col, acc)
            } else {
                scan_from(src, i + 1, row, (col + 1) as usize, false, i, row, col, acc)
            }
        }
    }
}

/// The whole scan of a source text, from a fresh cursor.
pub open spec fn scan_spec(src: Seq<char>) -> ScanOut {
    scan_from(src, 0, 0, 0, false, 0, 0, 0, Seq::empty())
}

/// The returned error describes the given scan outcome.
pub open spec fn lex_err_matches(e: LexerError, s: ScanOut) -> bool {
    match (e, s) {
        (LexerError::IntegerParseError { pos, lexeme }, ScanOut::IntErr { pos: p, lexeme: l }) =>
            pos == p && lexeme@ == l,
        (LexerError::InvalidToken { pos, expected, found }, ScanOut::Invalid { pos: p, found: f })
            => pos == p && found@ == f && expected_categories(expected@),
        _ => false,
    }
}

/// Executable closing of the pending lexeme: pushes the resolved token, or
/// hands back the error, leaving the token list unchanged.
fn close_lexeme(
    src: &str,
    lex_start: usize,
    i: usize,
    lex_row: usize,
    lex_col: usize,
    tokens: &mut Vec<Token>,
) -> (r: Option<LexerError>)
    requires
        lex_start <= i <= src@.len(),
    ensures
        match r {
            None => close_pending(
                src@,
                lex_start as int,
                i as int,
                lex_row,
                lex_col,
                old(tokens)@,
            ) == Ok::<Seq<Token>, ScanOut>(final(tokens)@),
            Some(e) => {
                &&& final(tokens)@ == old(tokens)@
                &&& match close_pending(
                    src@,
                    lex_start as int,
                    i as int,
                    lex_row,
                    lex_col,
                    old(tokens)@,
                ) {
                    Ok(_) => false,
                    Err(s) => lex_err_matches(e, s),
                }
            },
        },
{
    if lex_start < i {
        let lexeme = src.substring_char(lex_start, i);
        match make_token(lexeme, (lex_row, lex_col)) {
            Ok(t) => {
                tokens.push(t);
                None
            },
            Err(e) => Some(e),
        }
    } else {
        None
    }
}

/// Scans the source text into its token sequence, or stops at the first
/// lexeme that resolves to an error; exactly what `scan_spec` says.
pub fn get_tokens(src: &str) -> (r: Result<Vec<Token>, LexerError>)
    ensures
        match r {
            Ok(tokens) => scan_spec(src@) == (ScanOut::Toks { toks: tokens@ }),
            Err(e) => lex_err_matches(e, scan_spec(src@)),
        },
{
    let n = src.unicode_len();
    let mut tokens: Vec<Token> = Vec::new();
    let mut i: usize = 0;
    let mut row: usize = 0;
    let mut col: usize = 0;
    let mut in_comment: bool = false;
    let mut lex_start: usize = 0;
    let mut lex_row: usize = 0;
    let mut lex_col: usize = 0;
    while i < n
        invariant
            i <= n,
            n == src@.len(),
            lex_start <= i,
            row <= i,
            col <= i,
            scan_from(
                src@,
                i as int,
                row,
                col,
                in_comment,
                lex_start as int,
                lex_row,
                lex_col,
                tokens@,
            ) == scan_spec(src@),
        decreases n - i,
    {
        let c = src.get_char(i);
        if in_comment {
            if c == '\n' {
                row = row + 1;
                col = 0;
                in_comment = false;
            }
            lex_start = i + 1;
            i = i + 1;
        } else if c == ';' {
            match close_lexeme(src, lex_start, i, lex_row, lex_col, &mut tokens) {
                Some(e) => {
                    return Err(e);
                },
                None => {},
            }
            in_comment = true;
            lex_start = i + 1;
            i = i + 1;
        } else if c == '\n' {
            match close_lexeme(src, lex_start, i, lex_row, lex_col, &mut tokens) {
                Some(e) => {
                    return Err(e);
                },
                None => {},
            }
            row = row + 1;
            col = 0;
            lex_start = i + 1;
            i = i + 1;
        } else if c == ' ' || c == '\t' {
            match close_lexeme(src, lex_start, i, lex_row, lex_col, &mut tokens) {
                Some(e) => {
                    return Err(e);
                },
                None => {},
            }
            col = col + 1;
            lex_start = i + 1;
            i = i + 1;
        } else if c == ',' {
            match close_lexeme(src, lex_start, i, lex_row, lex_col, &mut tokens) {
                Some(e) => {
                    return Err(e);
                },
                None => {},
            }
            tokens.push(Token { pos: (row, col), token_type: TokenType::Comma });
            col = col + 1;
            lex_start = i + 1;
            i = i + 1;
        } else {
            if lex_start == i {
                lex_row = row;
                lex_col = col;
            }
            col = col + 1;
            i = i + 1;
        }
    }
    match close_lexeme(src, lex_start, n, lex_row, lex_col, &mut tokens) {
        Some(e) => Err(e),
        None => Ok(tokens),
    }
}

} // verus!
