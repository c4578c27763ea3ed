//! Laws of the scanner, stated over its mathematical model and proved once
//! for all inputs: case-insensitivity, the numeric-literal round trip, the
//! failure of out-of-range or ill-digited literals, and the position a token
//! gets after a comment line.

use vstd::prelude::*;
use crate::encoder::{mnemonic_index, mode_slot, opcode_of, supports, AddressingMode};
use crate::lexer::{
    resolve_lexeme, scan_from, scan_spec, close_pending, Resolved, ScanOut,
};
use crate::numeric::{all_digits, digit_ok, digits_val, spec_parse_u16};
use crate::tokens::{Mnemonic, Token, TokenType};
use crate::{upper_char, upper_seq};

verus! {

/// The opcode table is injective: two supported (mnemonic, addressing mode)
/// pairs with the same opcode byte are the same pair, so an emitted byte
/// stream is decodable.
#[verifier::rlimit(60)]
pub proof fn lemma_opcode_table_injective(
    m1: Mnemonic,
    mode1: AddressingMode,
    m2: Mnemonic,
    mode2: AddressingMode,
)
    requires
        opcode_of(m1, mode1) is Some,
        opcode_of(m1, mode1) == opcode_of(m2, mode2),
    ensures
        m1 == m2 && mode1 == mode2,
{
    assert(supports(m1, mode1) && supports(m2, mode2));
    assert(m1 != Mnemonic::Any && m2 != Mnemonic::Any);
    assert(0 <= mnemonic_index(m1) <= 55 && 0 <= mnemonic_index(m2) <= 55);
    assert(0 <= mode_slot(mode1) <= 3 && 0 <= mode_slot(mode2) <= 3);
    assert(4 * mnemonic_index(m1) + mode_slot(mode1) == 4 * mnemonic_index(m2) + mode_slot(
        mode2,
    ));
    assert(mnemonic_index(m1) == mnemonic_index(m2) && mode_slot(mode1) == mode_slot(mode2));
    assert(m1 == m2);
    if mode1 != mode2 {
        // only `Implied` and `RegisterIndexed` share a slot, and no mnemonic
        // supports both
        assert(!(is_implied_and_indexed(m1)));
    }
}

/// No mnemonic is both operand-free and register-pair addressed.
spec fn is_implied_and_indexed(m: Mnemonic) -> bool {
    supports(m, AddressingMode::Implied) && supports(m, AddressingMode::RegisterIndexed)
}

/// Resolving a lexeme is case-insensitive: the uppercased spelling resolves
/// to exactly what the original spelling resolves to, token or error.
pub proof fn lemma_resolve_case_insensitive(lex: Seq<char>)
    ensures
        resolve_lexeme(upper_seq(lex)) == resolve_lexeme(lex),
{
    assert forall|j: int| 0 <= j < lex.len() implies upper_seq(upper_seq(lex))[j] == upper_seq(
        lex,
    )[j] by {
        assert(upper_char(upper_char(lex[j])) == upper_char(lex[j]));
    }
    assert(upper_seq(upper_seq(lex)) =~= upper_seq(lex));
}

/// Closing a pending lexeme behaves the same on the uppercased source.
proof fn lemma_close_pending_upper(
    src: Seq<char>,
    lex_start: int,
    i: int,
    lex_row: usize,
    lex_col: usize,
    acc: Seq<Token>,
)
    requires
        0 <= lex_start <= i <= src.len(),
    ensures
        close_pending(upper_seq(src), lex_start, i, lex_row, lex_col, acc) == close_pending(
            src,
            lex_start,
            i,
            lex_row,
            lex_col,
            acc,
        ),
{
    if lex_start < i {
        assert(upper_seq(src).subrange(lex_start, i) =~= upper_seq(src.subrange(lex_start, i)));
        lemma_resolve_case_insensitive(src.subrange(lex_start, i));
    }
}

/// The scan of the uppercased source, from any mid-scan state, equals the
/// scan of the original source from the same state.
proof fn lemma_scan_from_upper(
    src: Seq<char>,
    i: int,
    row: usize,
    col: usize,
    in_comment: bool,
    lex_start: int,
    lex_row: usize,
    lex_col: usize,
    acc: Seq<Token>,
)
    requires
        0 <= lex_start <= i <= src.len(),
    ensures
        scan_from(upper_seq(src), i, row, col, in_comment, lex_start, lex_row, lex_col, acc)
            == scan_from(src, i, row, col, in_comment, lex_start, lex_row, lex_col, acc),
    decreases src.len() - i,
{
    let u = upper_seq(src);
    assert(u.len() == src.len());
    if i >= src.len() {
        lemma_close_pending_upper(src, lex_start, i, lex_row, lex_col, acc);
    } else {
        let c = src[i];
        assert(u[i] == upper_char(c));
        assert(u[i] == ';' <==> c == ';');
        assert(u[i] == '\n' <==> c == '\n');
        assert(u[i] == ' ' <==> c == ' ');
        assert(u[i] == '\t' <==> c == '\t');
        assert(u[i] == ',' <==> c == ',');
        if in_comment {
            if c == '\n' {
                lemma_scan_from_upper(
                    src,
                    i + 1,
                    (row + 1) as usize,
                    0,
                    false,
                    i + 1,
                    lex_row,
                    lex_col,
                    acc,
                );
            } else {
                lemma_scan_from_upper(src, i + 1, row, col, true, i + 1, lex_row, lex_col, acc);
            }
        } else if c == ';' || c == '\n' || c == ' ' || c == '\t' || c == ',' {
            lemma_close_pending_upper(src, lex_start, i, lex_row, lex_col, acc);
            match close_pending(src, lex_start, i, lex_row, lex_col, acc) {
                Ok(a) => {
                    if c == ';' {
                        lemma_scan_from_upper(src, i + 1, row, col, true, i + 1, lex_row, lex_col, a);
                    } else if c == '\n' {
                        lemma_scan_from_upper(
                            src,
                            i + 1,
                            (row + 1) as usize,
                            0,
                            false,
                            i + 1,
                            lex_row,
                            lex_col,
                            a,
                        );
                    } else if c == ' ' || c == '\t' {
                        lemma_scan_from_upper(
                            src,
                            i + 1,
                            row,
                            (col + 1) as usize,
                            false,
                            i + 1,
                            lex_row,
                            lex_col,
                            a,
                        );
                    } else {
                        lemma_scan_from_upper(
                            src,
                            i + 1,
                            row,
                            (col + 1) as usize,
                            false,
                            i + 1,
                            lex_row,
                            lex_col,
                            a.push(Token { pos: (row, col), token_type: TokenType::Comma }),
                        );
                    }
                },
                Err(_) => {},
            }
        } else {
            if lex_start < i {
                lemma_scan_from_upper(
                    src,
                    i + 1,
                    row,
                    (col + 1) as usize,
                    false,
                    lex_start,
                    lex_row,
                    lex_col,
                    acc,
                );
            } else {
                lemma_scan_from_upper(
                    src,
                    i + 1,
                    row,
                    (col + 1) as usize,
                    false,
                    i,
                    row,
                    col,
                    acc,
                );
            }
        }
    }
}

/// Scanning is case-insensitive: the uppercased source scans to exactly the
/// same outcome as the original source, token for token, and with the same
/// positions and errors; in particular `lda` and `LDA` scan to the identical
/// mnemonic token.
pub proof fn lemma_scan_case_insensitive(src: Seq<char>)
    ensures
        scan_spec(upper_seq(src)) == scan_spec(src),
{
    lemma_scan_from_upper(src, 0, 0, 0, false, 0, 0, 0, Seq::empty());
}

/// The sigil that announces a numeric literal of the given base.
pub open spec fn literal_prefix(base: nat) -> Seq<char> {
    if base == 16 {
        seq!['$']
    } else if base == 2 {
        seq!['%']
    } else {
        Seq::<char>::empty()
    }
}

/// The uppercase of a concatenation is the concatenation of the uppercases.
proof fn lemma_upper_seq_add(a: Seq<char>, b: Seq<char>)
    ensures
        upper_seq(a + b) == upper_seq(a) + upper_seq(b),
{
    assert forall|j: int| 0 <= j < a.len() + b.len() implies upper_seq(a + b)[j] == (upper_seq(a)
        + upper_seq(b))[j] by {
        if j < a.len() {
            assert((a + b)[j] == a[j]);
        } else {
            assert((a + b)[j] == b[j - a.len()]);
        }
    }
    assert(upper_seq(a + b) =~= upper_seq(a) + upper_seq(b));
}

/// A sigil is its own uppercase.
proof fn lemma_upper_prefix(base: nat)
    ensures
        upper_seq(literal_prefix(base)) == literal_prefix(base),
        upper_seq(seq!['#']) == seq!['#'],
{
    assert(upper_seq(literal_prefix(base)) =~= literal_prefix(base));
    assert(upper_seq(seq!['#']) =~= seq!['#']);
}

/// Round trip of numeric literals: a digit string whose digits fit the base
/// and whose value fits 16 bits resolves, with its sigil, to a `Numeral`
/// token holding exactly the value of its digits, and with a leading `#`
/// marker to the `Immediate` token of the same value.
pub proof fn lemma_literal_round_trip(s: Seq<char>, base: nat)
    requires
        base == 2 || base == 10 || base == 16,
        s.len() > 0,
        all_digits(upper_seq(s), base),
        digits_val(upper_seq(s), base) <= 0xFFFF,
    ensures
        resolve_lexeme(literal_prefix(base) + s) == (Resolved::Tok {
            t: TokenType::Numeral(digits_val(upper_seq(s), base) as u16),
        }),
        resolve_lexeme(seq!['#'] + (literal_prefix(base) + s)) == (Resolved::Tok {
            t: TokenType::Immediate(digits_val(upper_seq(s), base) as u16),
        }),
{
    let p = literal_prefix(base);
    let us = upper_seq(s);
    lemma_upper_prefix(base);
    lemma_upper_seq_add(p, s);
    lemma_upper_seq_add(seq!['#'], p + s);
    assert(upper_seq(p + s) == p + us);
    assert(upper_seq(seq!['#'] + (p + s)) == seq!['#'] + (p + us));
    assert(digit_ok(us[0], base));
    assert((seq!['#'] + (p + us)).skip(1) =~= p + us);
    if base == 10 {
        assert(p + us =~= us);
        assert(spec_parse_u16(us, 10) == Some(digits_val(us, 10) as u16));
    } else {
        assert((p + us)[0] == p[0]);
        assert((p + us).skip(1) =~= us);
        assert(spec_parse_u16(us, base) == Some(digits_val(us, base) as u16));
    }
}

/// Failed numeric literals: a sigil-prefixed lexeme whose digit string is
/// empty, holds a character invalid for its base, or exceeds 16 bits
/// resolves to an integer-parse error carrying the uppercased lexeme (with a
/// leading `#` marker stripped), never to a token.
pub proof fn lemma_bad_literal(s: Seq<char>, base: nat)
    requires
        base == 2 || base == 10 || base == 16,
        base == 10 ==> s.len() > 0 && digit_ok(upper_char(s[0]), 10),
        spec_parse_u16(upper_seq(s), base) is None,
    ensures
        resolve_lexeme(literal_prefix(base) + s) == (Resolved::IntErr {
            lexeme: literal_prefix(base) + upper_seq(s),
        }),
        resolve_lexeme(seq!['#'] + (literal_prefix(base) + s)) == (Resolved::IntErr {
            lexeme: literal_prefix(base) + upper_seq(s),
        }),
{
    let p = literal_prefix(base);
    let us = upper_seq(s);
    lemma_upper_prefix(base);
    lemma_upper_seq_add(p, s);
    lemma_upper_seq_add(seq!['#'], p + s);
    assert(upper_seq(p + s) == p + us);
    assert(upper_seq(seq!['#'] + (p + s)) == seq!['#'] + (p + us));
    assert((seq!['#'] + (p + us)).skip(1) =~= p + us);
    if base == 10 {
        assert(us[0] == upper_char(s[0]));
        assert(p + us =~= us);
    } else {
        assert((p + us)[0] == p[0]);
        assert((p + us).skip(1) =~= us);
    }
}

/// A character that neither separates lexemes nor starts a comment.
pub open spec fn is_plain_char(c: char) -> bool {
    c != ';' && c != '\n' && c != ' ' && c != '\t' && c != ','
}

/// Skipping a comment consumes its characters and moves the cursor not at
/// all: the scan state at the newline is the state at the comment's start.
proof fn lemma_skip_comment(
    src: Seq<char>,
    i: int,
    k: int,
    row: usize,
    col: usize,
    lex_row: usize,
    lex_col: usize,
    acc: Seq<Token>,
)
    requires
        0 <= i <= k <= src.len(),
        forall|j: int| i <= j < k ==> src[j] != '\n',
    ensures
        scan_from(src, i, row, col, true, i, lex_row, lex_col, acc) == scan_from(
            src,
            k,
            row,
            col,
            true,
            k,
            lex_row,
            lex_col,
            acc,
        ),
    decreases k - i,
{
    if i < k {
        lemma_skip_comment(src, i + 1, k, row, col, lex_row, lex_col, acc);
    }
}

/// Scanning a run of plain characters that reaches the end of the input
/// closes them as one final lexeme, begun at the recorded position.
proof fn lemma_plain_run(
    src: Seq<char>,
    st: int,
    k: int,
    row: usize,
    col: usize,
    lex_row: usize,
    lex_col: usize,
    acc: Seq<Token>,
)
    requires
        0 <= st < k <= src.len(),
        forall|j: int| k <= j < src.len() ==> is_plain_char(src[j]),
        col + (src.len() - k) <= usize::MAX,
    ensures
        scan_from(src, k, row, col, false, st, lex_row, lex_col, acc) == (
        match close_pending(src, st, src.len() as int, lex_row, lex_col, acc) {
            Ok(toks) => ScanOut::Toks { toks },
            Err(e) => e,
        }),
    decreases src.len() - k,
{
    if k < src.len() {
        assert(is_plain_char(src[k]));
        lemma_plain_run(src, st, k + 1, row, (col + 1) as usize, lex_row, lex_col, acc);
    }
}

/// Position correctness across a comment line: in a source that is one
/// comment line followed by one lexeme, the lexeme's token is reported on
/// the row after the comment's row, at column 0 — and the comment's
/// characters are discarded entirely, so that the lexeme's resolution is the
/// only outcome of the scan.
pub proof fn lemma_comment_then_token(comment: Seq<char>, lex: Seq<char>)
    requires
        forall|j: int| 0 <= j < comment.len() ==> comment[j] != '\n',
        lex.len() > 0,
        forall|j: int| 0 <= j < lex.len() ==> is_plain_char(lex[j]),
        comment.len() + lex.len() + 2 <= usize::MAX,
    ensures
        ({
            let src = seq![';'] + comment + seq!['\n'] + lex;
            scan_spec(src) == (match resolve_lexeme(lex) {
                Resolved::Tok { t } => ScanOut::Toks {
                    toks: seq![Token { pos: (1, 0), token_type: t }],
                },
                Resolved::IntErr { lexeme } => ScanOut::IntErr { pos: (1, 0), lexeme },
                Resolved::Invalid { found } => ScanOut::Invalid { pos: (1, 0), found },
            })
        }),
{
    let src = seq![';'] + comment + seq!['\n'] + lex;
    let cl = comment.len() as int;
    let n = src.len() as int;
    assert(n == cl + lex.len() + 2);
    assert(src[0] == ';');
    assert forall|j: int| 1 <= j < 1 + cl implies src[j] != '\n' by {
        assert(src[j] == comment[j - 1]);
    }
    assert(src[1 + cl] == '\n');
    assert forall|j: int| 2 + cl <= j < n implies is_plain_char(src[j]) by {
        assert(src[j] == lex[j - (2 + cl)]);
    }
    // the ';' at index 0 closes nothing and opens the comment
    assert(scan_spec(src) == scan_from(src, 1, 0, 0, true, 1, 0, 0, Seq::<Token>::empty()));
    // the comment's characters are discarded without moving the cursor
    lemma_skip_comment(src, 1, 1 + cl, 0, 0, 0, 0, Seq::<Token>::empty());
    // the newline ends the comment and is the one row increment
    assert(scan_from(src, 1 + cl, 0, 0, true, 1 + cl, 0, 0, Seq::<Token>::empty()) == scan_from(
        src,
        2 + cl,
        1,
        0,
        false,
        2 + cl,
        0,
        0,
        Seq::<Token>::empty(),
    ));
    // the first lexeme character records position (1, 0)
    assert(is_plain_char(src[2 + cl]));
    assert(scan_from(src, 2 + cl, 1, 0, false, 2 + cl, 0, 0, Seq::<Token>::empty()) == scan_from(
        src,
        3 + cl,
        1,
        1,
        false,
        2 + cl,
        1,
        0,
        Seq::<Token>::empty(),
    ));
    // the rest of the lexeme runs to the end of the input and is closed there
    lemma_plain_run(src, 2 + cl, 3 + cl, 1, 1, 1, 0, Seq::<Token>::empty());
    assert(src.subrange(2 + cl, n) =~= lex);
    match resolve_lexeme(lex) {
        Resolved::Tok { t } => {
            assert(Seq::<Token>::empty().push(Token { pos: (1, 0), token_type: t }) =~= seq![
                Token { pos: (1, 0), token_type: t },
            ]);
        },
        Resolved::IntErr { lexeme } => {},
        Resolved::Invalid { found } => {},
    }
}

} // verus!
