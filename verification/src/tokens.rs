//! Token vocabulary: the closed sets of mnemonics and registers, the token
//! kinds the scanner produces, and the keyword table that maps uppercased
//! spellings onto them.

use vstd::prelude::*;

verus! {

/// Symbolic instruction names. `Any` is a wildcard used only in diagnostics
/// (an expected-token set meaning "some mnemonic"); no spelling maps to it
/// and no opcode exists for it.
#[derive(Debug, PartialEq, Eq, Structural, Clone, Copy)]
pub enum Mnemonic {
    Any,
    Adc,
    And,
    Asl,
    Bcc,
    Bcs,
    Beq,
    Bit,
    Bmi,
    Bne,
    Bpl,
    Brk,
    Bvc,
    Bvs,
    Clc,
    Cld,
    Cli,
    Clv,
    Cmp,
    Cpx,
    Cpy,
    Dec,
    Dex,
    Dey,
    Eor,
    Inc,
    Inx,
    Iny,
    Jmp,
    Jsr,
    Lda,
    Ldx,
    Ldy,
    Lsr,
    Nop,
    Ora,
    Pha,
    Php,
    Pla,
    Rol,
    Ror,
    Rti,
    Rts,
    Sbc,
    Sec,
    Sed,
    Sei,
    Sta,
    Stx,
    Sty,
    Tax,
    Tay,
    Tsx,
    Tsy,
    Txa,
    Txs,
    Tya,
}

/// CPU registers addressable as instruction operands.
#[derive(Debug, PartialEq, Eq, Structural, Clone, Copy)]
pub enum Register {
    Pc,
    Ac,
    X,
    Y,
    Sr,
    Sp,
}

/// The kind of a scanned token. `Immediate` is a numeric literal marked with
/// `#`, `Numeral` a plain numeric literal; both fit in 16 bits.
#[derive(Debug, PartialEq, Eq, Structural, Clone, Copy)]
pub enum TokenType {
    Immediate(u16),
    Numeral(u16),
    Mnemonic(Mnemonic),
    Register(Register),
    Comma,
}

/// A token together with the zero-based (row, column) of its first character
/// in the source text.
#[derive(Debug, PartialEq, Eq, Clone, Copy)]
pub struct Token {
    pub pos: (usize, usize),
    pub token_type: TokenType,
}

/// Keyword table entry for a one-character spelling.
pub open spec fn spec_keyword1(a: char) -> Option<TokenType> {
    if a == 'X' {
        Some(TokenType::Register(Register::X))
    } else if a == 'Y' {
        Some(TokenType::Register(Register::Y))
    } else {
        None
    }
}

/// Keyword table entry for a two-character spelling.
pub open spec fn spec_keyword2(a: char, b: char) -> Option<TokenType> {
    if a == 'P' && b == 'C' {
        Some(TokenType::Register(Register::Pc))
    } else if a == 'A' && b == 'C' {
        Some(TokenType::Register(Register::Ac))
    } else if a == 'S' && b == 'R' {
        Some(TokenType::Register(Register::Sr))
    } else if a == 'S' && b == 'P' {
        Some(TokenType::Register(Register::Sp))
    } else {
        None
    }
}

/// Keyword table entry for a three-character spelling: every mnemonic.
pub open spec fn spec_keyword3(a: char, b: char, c: char) -> Option<Mnemonic> {
    if a == 'A' && b == 'D' && c == 'C' {
        Some(Mnemonic::Adc)
    } else if a == 'A' && b == 'N' && c == 'D' {
        Some(Mnemonic::And)
    } else if a == 'A' && b == 'S' && c == 'L' {
        Some(Mnemonic::Asl)
    } else if a == 'B' && b == 'C' && c == 'C' {
        Some(Mnemonic::Bcc)
    } else if a == 'B' && b == 'C' && c == 'S' {
        Some(Mnemonic::Bcs)
    } else if a == 'B' && b == 'E' && c == 'Q' {
        Some(Mnemonic::Beq)
    } else if a == 'B' && b == 'I' && c == 'T' {
        Some(Mnemonic::Bit)
    } else if a == 'B' && b == 'M' && c == 'I' {
        Some(Mnemonic::Bmi)
    } else if a == 'B' && b == 'N' && c == 'E' {
        Some(Mnemonic::Bne)
    } else if a == 'B' && b == 'P' && c == 'L' {
        Some(Mnemonic::Bpl)
    } else if a == 'B' && b == 'R' && c == 'K' {
        Some(Mnemonic::Brk)
    } else if a == 'B' && b == 'V' && c == 'C' {
        Some(Mnemonic::Bvc)
    } else if a == 'B' && b == 'V' && c == 'S' {
        Some(Mnemonic::Bvs)
    } else if a == 'C' && b == 'L' && c == 'C' {
        Some(Mnemonic::Clc)
    } else if a == 'C' && b == 'L' && c == 'D' {
        Some(Mnemonic::Cld)
    } else if a == 'C' && b == 'L' && c == 'I' {
        Some(Mnemonic::Cli)
    } else if a == 'C' && b == 'L' && c == 'V' {
        Some(Mnemonic::Clv)
    } else if a == 'C' && b == 'M' && c == 'P' {
        Some(Mnemonic::Cmp)
    } else if a == 'C' && b == 'P' && c == 'X' {
        Some(Mnemonic::Cpx)
    } else if a == 'C' && b == 'P' && c == 'Y' {
        Some(Mnemonic::Cpy)
    } else if a == 'D' && b == 'E' && c == 'C' {
        Some(Mnemonic::Dec)
    } else if a == 'D' && b == 'E' && c == 'X' {
        Some(Mnemonic::Dex)
    } else if a == 'D' && b == 'E' && c == 'Y' {
        Some(Mnemonic::Dey)
    } else if a == 'E' && b == 'O' && c == 'R' {
        Some(Mnemonic::Eor)
    } else if a == 'I' && b == 'N' && c == 'C' {
        Some(Mnemonic::Inc)
    } else if a == 'I' && b == 'N' && c == 'X' {
        Some(Mnemonic::Inx)
    } else if a == 'I' && b == 'N' && c == 'Y' {
        Some(Mnemonic::Iny)
    } else if a == 'J' && b == 'M' && c == 'P' {
        Some(Mnemonic::Jmp)
    } else if a == 'J' && b == 'S' && c == 'R' {
        Some(Mnemonic::Jsr)
    } else if a == 'L' && b == 'D' && c == 'A' {
        Some(Mnemonic::Lda)
    } else if a == 'L' && b == 'D' && c == 'X' {
        Some(Mnemonic::Ldx)
    } else if a == 'L' && b == 'D' && c == 'Y' {
        Some(Mnemonic::Ldy)
    } else if a == 'L' && b == 'S' && c == 'R' {
        Some(Mnemonic::Lsr)
    } else if a == 'N' && b == 'O' && c == 'P' {
        Some(Mnemonic::Nop)
    } else if a == 'O' && b == 'R' && c == 'A' {
        Some(Mnemonic::Ora)
    } else if a == 'P' && b == 'H' && c == 'A' {
        Some(Mnemonic::Pha)
    } else if a == 'P' && b == 'H' && c == 'P' {
        Some(Mnemonic::Php)
    } else if a == 'P' && b == 'L' && c == 'A' {
        Some(Mnemonic::Pla)
    } else if a == 'R' && b == 'O' && c == 'L' {
        Some(Mnemonic::Rol)
    } else if a == 'R' && b == 'O' && c == 'R' {
        Some(Mnemonic::Ror)
    } else if a == 'R' && b == 'T' && c == 'I' {
        Some(Mnemonic::Rti)
    } else if a == 'R' && b == 'T' && c == 'S' {
        Some(Mnemonic::Rts)
    } else if a == 'S' && b == 'B' && c == 'C' {
        Some(Mnemonic::Sbc)
    } else if a == 'S' && b == 'E' && c == 'C' {
        Some(Mnemonic::Sec)
    } else if a == 'S' && b == 'E' && c == 'D' {
        Some(Mnemonic::Sed)
    } else if a == 'S' && b == 'E' && c == 'I' {
        Some(Mnemonic::Sei)
    } else if a == 'S' && b == 'T' && c == 'A' {
        Some(Mnemonic::Sta)
    } else if a == 'S' && b == 'T' && c == 'X' {
        Some(Mnemonic::Stx)
    } else if a == 'S' && b == 'T' && c == 'Y' {
        Some(Mnemonic::Sty)
    } else if a == 'T' && b == 'A' && c == 'X' {
        Some(Mnemonic::Tax)
    } else if a == 'T' && b == 'A' && c == 'Y' {
        Some(Mnemonic::Tay)
    } else if a == 'T' && b == 'S' && c == 'X' {
        Some(Mnemonic::Tsx)
    } else if a == 'T' && b == 'S' && c == 'Y' {
        Some(Mnemonic::Tsy)
    } else if a == 'T' && b == 'X' && c == 'A' {
        Some(Mnemonic::Txa)
    } else if a == 'T' && b == 'X' && c == 'S' {
        Some(Mnemonic::Txs)
    } else if a == 'T' && b == 'Y' && c == 'A' {
        Some(Mnemonic::Tya)
    } else {
        None
    }
}

/// The closed keyword table: an exact, case-sensitive match of an uppercased
/// lexeme against the 56 mnemonics and 6 registers.
pub open spec fn spec_keyword(s: Seq<char>) -> Option<TokenType> {
    if s.len() == 1 {
        spec_keyword1(s[0])
    } else if s.len() == 2 {
        spec_keyword2(s[0], s[1])
    } else if s.len() == 3 {
        match spec_keyword3(s[0], s[1], s[2]) {
            Some(m) => Some(TokenType::Mnemonic(m)),
            None => None,
        }
    } else {
        None
    }
}

/// Executable keyword lookup, exactly the table `spec_keyword`.
pub fn lookup_keyword(s: &str) -> (r: Option<TokenType>)
    ensures
        r == spec_keyword(s@),
{
    let n = s.unicode_len();
    if n == 1 {
        match s.get_char(0) {
            'X' => Some(TokenType::Register(Register::X)),
            'Y' => Some(TokenType::Register(Register::Y)),
            _ => None,
        }
    } else if n == 2 {
        let a = s.get_char(0);
        let b = s.get_char(1);
        match (a, b) {
            ('P', 'C') => Some(TokenType::Register(Register::Pc)),
            ('A', 'C') => Some(TokenType::Register(Register::Ac)),
            ('S', 'R') => Some(TokenType::Register(Register::Sr)),
            ('S', 'P') => Some(TokenType::Register(Register::Sp)),
            _ => None,
        }
    } else if n == 3 {
        let a = s.get_char(0);
        let b = s.get_char(1);
        let c = s.get_char(2);
        match lookup_mnemonic3(a, b, c) {
            Some(m) => Some(TokenType::Mnemonic(m)),
            None => None,
        }
    } else {
        None
    }
}

/// Executable three-character mnemonic lookup, exactly `spec_keyword3`.
fn lookup_mnemonic3(a: char, b: char, c: char) -> (r: Option<Mnemonic>)
    ensures
        r == spec_keyword3(a, b, c),
{
    match (a, b, c) {
        ('A', 'D', 'C') => Some(Mnemonic::Adc),
        ('A', 'N', 'D') => Some(Mnemonic::And),
        ('A', 'S', 'L') => Some(Mnemonic::Asl),
        ('B', 'C', 'C') => Some(Mnemonic::Bcc),
        ('B', 'C', 'S') => Some(Mnemonic::Bcs),
        ('B', 'E', 'Q') => Some(Mnemonic::Beq),
        ('B', 'I', 'T') => Some(Mnemonic::Bit),
        ('B', 'M', 'I') => Some(Mnemonic::Bmi),
        ('B', 'N', 'E') => Some(Mnemonic::Bne),
        ('B', 'P', 'L') => Some(Mnemonic::Bpl),
        ('B', 'R', 'K') => Some(Mnemonic::Brk),
        ('B', 'V', 'C') => Some(Mnemonic::Bvc),
        ('B', 'V', 'S') => Some(Mnemonic::Bvs),
        ('C', 'L', 'C') => Some(Mnemonic::Clc),
        ('C', 'L', 'D') => Some(Mnemonic::Cld),
        ('C', 'L', 'I') => Some(Mnemonic::Cli),
        ('C', 'L', 'V') => Some(Mnemonic::Clv),
        ('C', 'M', 'P') => Some(Mnemonic::Cmp),
        ('C', 'P', 'X') => Some(Mnemonic::Cpx),
        ('C', 'P', 'Y') => Some(Mnemonic::Cpy),
        ('D', 'E', 'C') => Some(Mnemonic::Dec),
        ('D', 'E', 'X') => Some(Mnemonic::Dex),
        ('D', 'E', 'Y') => Some(Mnemonic::Dey),
        ('E', 'O', 'R') => Some(Mnemonic::Eor),
        ('I', 'N', 'C') => Some(Mnemonic::Inc),
        ('I', 'N', 'X') => Some(Mnemonic::Inx),
        ('I', 'N', 'Y') => Some(Mnemonic::Iny),
        ('J', 'M', 'P') => Some(Mnemonic::Jmp),
        ('J', 'S', 'R') => Some(Mnemonic::Jsr),
        ('L', 'D', 'A') => Some(Mnemonic::Lda),
        ('L', 'D', 'X') => Some(Mnemonic::Ldx),
        ('L', 'D', 'Y') => Some(Mnemonic::Ldy),
        ('L', 'S', 'R') => Some(Mnemonic::Lsr),
        ('N', 'O', 'P') => Some(Mnemonic::Nop),
        ('O', 'R', 'A') => Some(Mnemonic::Ora),
        ('P', 'H', 'A') => Some(Mnemonic::Pha),
        ('P', 'H', 'P') => Some(Mnemonic::Php),
        ('P', 'L', 'A') => Some(Mnemonic::Pla),
        ('R', 'O', 'L') => Some(Mnemonic::Rol),
        ('R', 'O', 'R') => Some(Mnemonic::Ror),
        ('R', 'T', 'I') => Some(Mnemonic::Rti),
        ('R', 'T', 'S') => Some(Mnemonic::Rts),
        ('S', 'B', 'C') => Some(Mnemonic::Sbc),
        ('S', 'E', 'C') => Some(Mnemonic::Sec),
        ('S', 'E', 'D') => Some(Mnemonic::Sed),
        ('S', 'E', 'I') => Some(Mnemonic::Sei),
        ('S', 'T', 'A') => Some(Mnemonic::Sta),
        ('S', 'T', 'X') => Some(Mnemonic::Stx),
        ('S', 'T', 'Y') => Some(Mnemonic::Sty),
        ('T', 'A', 'X') => Some(Mnemonic::Tax),
        ('T', 'A', 'Y') => Some(Mnemonic::Tay),
        ('T', 'S', 'X') => Some(Mnemonic::Tsx),
        ('T', 'S', 'Y') => Some(Mnemonic::Tsy),
        ('T', 'X', 'A') => Some(Mnemonic::Txa),
        ('T', 'X', 'S') => Some(Mnemonic::Txs),
        ('T', 'Y', 'A') => Some(Mnemonic::Tya),
        _ => None,
    }
}

} // verus!
