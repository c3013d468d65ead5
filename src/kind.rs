//! The closed taxonomy of syntax kinds and its compact numeric representation.

use vstd::prelude::*;

verus! {

/// Number of variants of [`SyntaxKind`]; the exclusive upper bound of valid raw values.
pub const VARIANT_COUNT: u16 = 41;

/// Every tag that a token or a node of the syntax tree may carry.
///
/// The raw values are contiguous from zero, in declaration order.
#[derive(Debug, PartialEq, Eq, Clone, Copy, Hash, PartialOrd, Ord, Structural)]
pub enum SyntaxKind {
    // Tokens
    TokenError,
    TokenLineBreak,
    TokenWhiteSpace,
    TokenComment,
    TokenLBrace,
    TokenRBrace,
    TokenLBracket,
    TokenRBracket,
    TokenLParen,
    TokenRParen,
    TokenComma,
    TokenTilde,
    TokenSlash,
    TokenWord,
    TokenDollar,
    TokenAmpersand,
    TokenHash,
    TokenUnderscore,
    TokenCaret,
    TokenApostrophe,
    TokenDitto,
    TokenSemicolon,
    TokenCommandSym,

    // Clauses
    ClauseCommandName,
    ClauseArgument,
    ClauseLR,

    // Items
    ItemNewLine,
    ItemText,
    ItemCurly,
    ItemBracket,
    ItemParen,
    ItemCmd,
    ItemEnv,
    ItemLR,
    ItemBegin,
    ItemEnd,
    ItemBlockComment,
    ItemTypstCode,
    ItemAttachComponent,
    ItemFormula,

    // Scopes
    ScopeRoot,
}

/// A raw value that names no syntax kind.
#[derive(Debug, PartialEq, Eq, Clone, Copy, Hash, Structural)]
pub struct OutOfRange {
    pub raw: u16,
}

impl SyntaxKind {
    /// Position of the kind in declaration order.
    pub open spec fn ordinal(self) -> int {
        match self {
            SyntaxKind::TokenError => 0,
            SyntaxKind::TokenLineBreak => 1,
            SyntaxKind::TokenWhiteSpace => 2,
            SyntaxKind::TokenComment => 3,
            SyntaxKind::TokenLBrace => 4,
            SyntaxKind::TokenRBrace => 5,
            SyntaxKind::TokenLBracket => 6,
            SyntaxKind::TokenRBracket => 7,
            SyntaxKind::TokenLParen => 8,
            SyntaxKind::TokenRParen => 9,
            SyntaxKind::TokenComma => 10,
            SyntaxKind::TokenTilde => 11,
            SyntaxKind::TokenSlash => 12,
            SyntaxKind::TokenWord => 13,
            SyntaxKind::TokenDollar => 14,
            SyntaxKind::TokenAmpersand => 15,
            SyntaxKind::TokenHash => 16,
            SyntaxKind::TokenUnderscore => 17,
            SyntaxKind::TokenCaret => 18,
            SyntaxKind::TokenApostrophe => 19,
            SyntaxKind::TokenDitto => 20,
            SyntaxKind::TokenSemicolon => 21,
            SyntaxKind::TokenCommandSym => 22,
            SyntaxKind::ClauseCommandName => 23,
            SyntaxKind::ClauseArgument => 24,
            SyntaxKind::ClauseLR => 25,
            SyntaxKind::ItemNewLine => 26,
            SyntaxKind::ItemText => 27,
            SyntaxKind::ItemCurly => 28,
            SyntaxKind::ItemBracket => 29,
            SyntaxKind::ItemParen => 30,
            SyntaxKind::ItemCmd => 31,
            SyntaxKind::ItemEnv => 32,
            SyntaxKind::ItemLR => 33,
            SyntaxKind::ItemBegin => 34,
            SyntaxKind::ItemEnd => 35,
            SyntaxKind::ItemBlockComment => 36,
            SyntaxKind::ItemTypstCode => 37,
            SyntaxKind::ItemAttachComponent => 38,
            SyntaxKind::ItemFormula => 39,
            SyntaxKind::ScopeRoot => 40,
        }
    }

    /// The kind at a position in declaration order (meaningful below [`VARIANT_COUNT`]).
    pub open spec fn kind_at(i: u16) -> SyntaxKind {
        match i {
            0 => SyntaxKind::TokenError,
            1 => SyntaxKind::TokenLineBreak,
            2 => SyntaxKind::TokenWhiteSpace,
            3 => SyntaxKind::TokenComment,
            4 => SyntaxKind::TokenLBrace,
            5 => SyntaxKind::TokenRBrace,
            6 => SyntaxKind::TokenLBracket,
            7 => SyntaxKind::TokenRBracket,
            8 => SyntaxKind::TokenLParen,
            9 => SyntaxKind::TokenRParen,
            10 => SyntaxKind::TokenComma,
            11 => SyntaxKind::TokenTilde,
            12 => SyntaxKind::TokenSlash,
            13 => SyntaxKind::TokenWord,
            14 => SyntaxKind::TokenDollar,
            15 => SyntaxKind::TokenAmpersand,
            16 => SyntaxKind::TokenHash,
            17 => SyntaxKind::TokenUnderscore,
            18 => SyntaxKind::TokenCaret,
            19 => SyntaxKind::TokenApostrophe,
            20 => SyntaxKind::TokenDitto,
            21 => SyntaxKind::TokenSemicolon,
            22 => SyntaxKind::TokenCommandSym,
            23 => SyntaxKind::ClauseCommandName,
            24 => SyntaxKind::ClauseArgument,
            25 => SyntaxKind::ClauseLR,
            26 => SyntaxKind::ItemNewLine,
            27 => SyntaxKind::ItemText,
            28 => SyntaxKind::ItemCurly,
            29 => SyntaxKind::ItemBracket,
            30 => SyntaxKind::ItemParen,
            31 => SyntaxKind::ItemCmd,
            32 => SyntaxKind::ItemEnv,
            33 => SyntaxKind::ItemLR,
            34 => SyntaxKind::ItemBegin,
            35 => SyntaxKind::ItemEnd,
            36 => SyntaxKind::ItemBlockComment,
            37 => SyntaxKind::ItemTypstCode,
            38 => SyntaxKind::ItemAttachComponent,
            39 => SyntaxKind::ItemFormula,
            _ => SyntaxKind::ScopeRoot,
        }
    }

    /// Whether the kind carries no meaning for consumers of the tree.
    pub open spec fn spec_is_trivia(self) -> bool {
        self is TokenLineBreak || self is TokenWhiteSpace || self is TokenComment
            || self is ItemNewLine
    }

    /// The raw value of the kind.
    pub fn to_raw(self) -> (r: u16)
        ensures
            r as int == self.ordinal(),
            r < VARIANT_COUNT,
    {
        match self {
            SyntaxKind::TokenError => 0,
            SyntaxKind::TokenLineBreak => 1,
            SyntaxKind::TokenWhiteSpace => 2,
            SyntaxKind::TokenComment => 3,
            SyntaxKind::TokenLBrace => 4,
            SyntaxKind::TokenRBrace => 5,
            SyntaxKind::TokenLBracket => 6,
            SyntaxKind::TokenRBracket => 7,
            SyntaxKind::TokenLParen => 8,
            SyntaxKind::TokenRParen => 9,
            SyntaxKind::TokenComma => 10,
            SyntaxKind::TokenTilde => 11,
            SyntaxKind::TokenSlash => 12,
            SyntaxKind::TokenWord => 13,
            SyntaxKind::TokenDollar => 14,
            SyntaxKind::TokenAmpersand => 15,
            SyntaxKind::TokenHash => 16,
            SyntaxKind::TokenUnderscore => 17,
            SyntaxKind::TokenCaret => 18,
            SyntaxKind::TokenApostrophe => 19,
            SyntaxKind::TokenDitto => 20,
            SyntaxKind::TokenSemicolon => 21,
            SyntaxKind::TokenCommandSym => 22,
            SyntaxKind::ClauseCommandName => 23,
            SyntaxKind::ClauseArgument => 24,
            SyntaxKind::ClauseLR => 25,
            SyntaxKind::ItemNewLine => 26,
            SyntaxKind::ItemText => 27,
            SyntaxKind::ItemCurly => 28,
            SyntaxKind::ItemBracket => 29,
            SyntaxKind::ItemParen => 30,
            SyntaxKind::ItemCmd => 31,
            SyntaxKind::ItemEnv => 32,
            SyntaxKind::ItemLR => 33,
            SyntaxKind::ItemBegin => 34,
            SyntaxKind::ItemEnd => 35,
            SyntaxKind::ItemBlockComment => 36,
            SyntaxKind::ItemTypstCode => 37,
            SyntaxKind::ItemAttachComponent => 38,
            SyntaxKind::ItemFormula => 39,
            SyntaxKind::ScopeRoot => 40,
        }
    }

    /// The kind whose raw value is `raw`, or `OutOfRange` when there is none.
    pub fn from_raw(raw: u16) -> (r: Result<SyntaxKind, OutOfRange>)
        ensures
            raw < VARIANT_COUNT ==> r == Ok::<SyntaxKind, OutOfRange>(SyntaxKind::kind_at(raw)),
            raw >= VARIANT_COUNT ==> r == Err::<SyntaxKind, OutOfRange>(OutOfRange { raw }),
    {
        match raw {
            0 => Ok(SyntaxKind::TokenError),
            1 => Ok(SyntaxKind::TokenLineBreak),
            2 => Ok(SyntaxKind::TokenWhiteSpace),
            3 => Ok(SyntaxKind::TokenComment),
            4 => Ok(SyntaxKind::TokenLBrace),
            5 => Ok(SyntaxKind::TokenRBrace),
            6 => Ok(SyntaxKind::TokenLBracket),
            7 => Ok(SyntaxKind::TokenRBracket),
            8 => Ok(SyntaxKind::TokenLParen),
            9 => Ok(SyntaxKind::TokenRParen),
            10 => Ok(SyntaxKind::TokenComma),
            11 => Ok(SyntaxKind::TokenTilde),
            12 => Ok(SyntaxKind::TokenSlash),
            13 => Ok(SyntaxKind::TokenWord),
            14 => Ok(SyntaxKind::TokenDollar),
            15 => Ok(SyntaxKind::TokenAmpersand),
            16 => Ok(SyntaxKind::TokenHash),
            17 => Ok(SyntaxKind::TokenUnderscore),
            18 => Ok(SyntaxKind::TokenCaret),
            19 => Ok(SyntaxKind::TokenApostrophe),
            20 => Ok(SyntaxKind::TokenDitto),
            21 => Ok(SyntaxKind::TokenSemicolon),
            22 => Ok(SyntaxKind::TokenCommandSym),
            23 => Ok(SyntaxKind::ClauseCommandName),
            24 => Ok(SyntaxKind::ClauseArgument),
            25 => Ok(SyntaxKind::ClauseLR),
            26 => Ok(SyntaxKind::ItemNewLine),
            27 => Ok(SyntaxKind::ItemText),
            28 => Ok(SyntaxKind::ItemCurly),
            29 => Ok(SyntaxKind::ItemBracket),
            30 => Ok(SyntaxKind::ItemParen),
            31 => Ok(SyntaxKind::ItemCmd),
            32 => Ok(SyntaxKind::ItemEnv),
            33 => Ok(SyntaxKind::ItemLR),
            34 => Ok(SyntaxKind::ItemBegin),
            35 => Ok(SyntaxKind::ItemEnd),
            36 => Ok(SyntaxKind::ItemBlockComment),
            37 => Ok(SyntaxKind::ItemTypstCode),
            38 => Ok(SyntaxKind::ItemAttachComponent),
            39 => Ok(SyntaxKind::ItemFormula),
            40 => Ok(SyntaxKind::ScopeRoot),
            _ => Err(OutOfRange { raw }),
        }
    }

    /// Checks whether the syntax kind is trivia.
    pub fn is_trivia(self) -> (r: bool)
        ensures
            r == self.spec_is_trivia(),
    {
        match self {
            SyntaxKind::TokenLineBreak
            | SyntaxKind::TokenWhiteSpace
            | SyntaxKind::TokenComment
            | SyntaxKind::ItemNewLine => true,
            _ => false,
        }
    }
}

impl TryFrom<u16> for SyntaxKind {
    type Error = ();

    /// Get the variant from a raw repr value.
    fn try_from(raw: u16) -> (r: Result<SyntaxKind, ()>) {
        match SyntaxKind::from_raw(raw) {
            Ok(k) => Ok(k),
            Err(_) => Err(()),
        }
    }
}

impl vstd::std_specs::convert::TryFromSpecImpl<u16> for SyntaxKind {
    open spec fn obeys_try_from_spec() -> bool {
        true
    }

    open spec fn try_from_spec(raw: u16) -> Result<SyntaxKind, ()> {
        if raw < VARIANT_COUNT {
            Ok(SyntaxKind::kind_at(raw))
        } else {
            Err(())
        }
    }
}

/// Decoding the raw value of a kind gives the kind back, and every raw value below
/// [`VARIANT_COUNT`] is the raw value of the kind at that position.
pub proof fn lemma_raw_round_trip(k: SyntaxKind, i: u16)
    ensures
        0 <= k.ordinal() < VARIANT_COUNT,
        SyntaxKind::kind_at(k.ordinal() as u16) == k,
        i < VARIANT_COUNT ==> SyntaxKind::kind_at(i).ordinal() == i as int,
{
}

} // verus!
