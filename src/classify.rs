//! Classification of lexical tokens into syntax kinds.

use vstd::prelude::*;

use crate::kind::SyntaxKind;
use mitex_lexer::{BraceKind, CommandName, IfCommandName, Token};

verus! {

/// The lexer's bracket families, read variant by variant.
#[verifier::external_type_specification]
pub struct ExBraceKind(BraceKind);

/// The lexer's conditional command names, read variant by variant.
#[verifier::external_type_specification]
pub struct ExIfCommandName(IfCommandName);

/// The lexer's command-name classes, read variant by variant.
#[verifier::external_type_specification]
pub struct ExCommandName(CommandName);

/// The lexer's token alphabet, read variant by variant.
#[verifier::external_type_specification]
pub struct ExToken(Token);

/// The syntax kind of a lexical token.
///
/// Punctuation that the taxonomy has no kind for (`*`, `@`) is text and becomes a word.
pub open spec fn kind_of_token(t: Token) -> SyntaxKind {
    match t {
        Token::LineBreak => SyntaxKind::TokenLineBreak,
        Token::Whitespace => SyntaxKind::TokenWhiteSpace,
        Token::LineComment => SyntaxKind::TokenComment,
        Token::Left(BraceKind::Curly) => SyntaxKind::TokenLBrace,
        Token::Right(BraceKind::Curly) => SyntaxKind::TokenRBrace,
        Token::Left(BraceKind::Bracket) => SyntaxKind::TokenLBracket,
        Token::Right(BraceKind::Bracket) => SyntaxKind::TokenRBracket,
        Token::Left(BraceKind::Paren) => SyntaxKind::TokenLParen,
        Token::Right(BraceKind::Paren) => SyntaxKind::TokenRParen,
        Token::Comma => SyntaxKind::TokenComma,
        Token::Tilde => SyntaxKind::TokenTilde,
        Token::Slash => SyntaxKind::TokenSlash,
        Token::Underscore => SyntaxKind::TokenUnderscore,
        Token::Apostrophe => SyntaxKind::TokenApostrophe,
        Token::Ditto => SyntaxKind::TokenDitto,
        Token::Semicolon => SyntaxKind::TokenSemicolon,
        Token::Caret => SyntaxKind::TokenCaret,
        Token::Word => SyntaxKind::TokenWord,
        Token::Asterisk => SyntaxKind::TokenWord,
        Token::AtSign => SyntaxKind::TokenWord,
        Token::Dollar => SyntaxKind::TokenDollar,
        Token::Ampersand => SyntaxKind::TokenAmpersand,
        Token::Hash => SyntaxKind::TokenHash,
        Token::NewLine => SyntaxKind::ItemNewLine,
        Token::MacroArg(_) => SyntaxKind::TokenWord,
        Token::Error => SyntaxKind::TokenError,
        Token::CommandName(name) => match name {
            CommandName::ErrorBeginEnvironment | CommandName::ErrorEndEnvironment => {
                SyntaxKind::TokenError
            },
            CommandName::BeginEnvironment | CommandName::EndEnvironment => {
                SyntaxKind::TokenCommandSym
            },
            _ => SyntaxKind::ClauseCommandName,
        },
    }
}

impl From<Token> for SyntaxKind {
    fn from(kind: Token) -> (r: SyntaxKind) {
        match kind {
            Token::LineBreak => SyntaxKind::TokenLineBreak,
            Token::Whitespace => SyntaxKind::TokenWhiteSpace,
            Token::LineComment => SyntaxKind::TokenComment,
            Token::Left(BraceKind::Curly) => SyntaxKind::TokenLBrace,
            Token::Right(BraceKind::Curly) => SyntaxKind::TokenRBrace,
            Token::Left(BraceKind::Bracket) => SyntaxKind::TokenLBracket,
            Token::Right(BraceKind::Bracket) => SyntaxKind::TokenRBracket,
            Token::Left(BraceKind::Paren) => SyntaxKind::TokenLParen,
            Token::Right(BraceKind::Paren) => SyntaxKind::TokenRParen,
            Token::Comma => SyntaxKind::TokenComma,
            Token::Tilde => SyntaxKind::TokenTilde,
            Token::Slash => SyntaxKind::TokenSlash,
            Token::Underscore => SyntaxKind::TokenUnderscore,
            Token::Apostrophe => SyntaxKind::TokenApostrophe,
            Token::Ditto => SyntaxKind::TokenDitto,
            Token::Semicolon => SyntaxKind::TokenSemicolon,
            Token::Caret => SyntaxKind::TokenCaret,
            Token::Word | Token::Asterisk | Token::AtSign => SyntaxKind::TokenWord,
            Token::Dollar => SyntaxKind::TokenDollar,
            Token::Ampersand => SyntaxKind::TokenAmpersand,
            Token::Hash => SyntaxKind::TokenHash,
            Token::NewLine => SyntaxKind::ItemNewLine,
            Token::MacroArg(_) => SyntaxKind::TokenWord,
            Token::CommandName(
                CommandName::ErrorBeginEnvironment | CommandName::ErrorEndEnvironment,
            )
            | Token::Error => SyntaxKind::TokenError,
            Token::CommandName(CommandName::BeginEnvironment | CommandName::EndEnvironment) => {
                SyntaxKind::TokenCommandSym
            },
            Token::CommandName(_) => SyntaxKind::ClauseCommandName,
        }
    }
}

impl vstd::std_specs::convert::FromSpecImpl<Token> for SyntaxKind {
    open spec fn obeys_from_spec() -> bool {
        true
    }

    open spec fn from_spec(kind: Token) -> SyntaxKind {
        kind_of_token(kind)
    }
}

/// Every lexical token is classified, and its kind is a token kind, the command-name
/// clause, or the structural paragraph break: never another clause, item or scope.
pub proof fn lemma_classification_total(t: Token)
    ensures
        kind_of_token(t).ordinal() <= SyntaxKind::TokenCommandSym.ordinal()
            || kind_of_token(t) == SyntaxKind::ClauseCommandName
            || kind_of_token(t) == SyntaxKind::ItemNewLine,
{
}

} // verus!
