use mitex_lexer::{BraceKind, CommandName, IfCommandName, Token};
use mitex_syntax::{
    BeginItem, CmdItem, EndItem, EnvItem, FormulaItem, LRClause, LRItem, OutOfRange,
    SyntaxElement, SyntaxKind, SyntaxNode, SyntaxToken, TexLang, VARIANT_COUNT,
};

fn tok(kind: SyntaxKind, text: &str) -> SyntaxElement {
    SyntaxElement::Token(SyntaxToken::new(kind, text.to_string()))
}

fn node(kind: SyntaxKind, children: Vec<SyntaxElement>) -> SyntaxNode {
    SyntaxNode::new(kind, children)
}

fn elem(kind: SyntaxKind, children: Vec<SyntaxElement>) -> SyntaxElement {
    SyntaxElement::Node(node(kind, children))
}

const ALL_KINDS: [SyntaxKind; 41] = [
    SyntaxKind::TokenError,
    SyntaxKind::TokenLineBreak,
    SyntaxKind::TokenWhiteSpace,
    SyntaxKind::TokenComment,
    SyntaxKind::TokenLBrace,
    SyntaxKind::TokenRBrace,
    SyntaxKind::TokenLBracket,
    SyntaxKind::TokenRBracket,
    SyntaxKind::TokenLParen,
    SyntaxKind::TokenRParen,
    SyntaxKind::TokenComma,
    SyntaxKind::TokenTilde,
    SyntaxKind::TokenSlash,
    SyntaxKind::TokenWord,
    SyntaxKind::TokenDollar,
    SyntaxKind::TokenAmpersand,
    SyntaxKind::TokenHash,
    SyntaxKind::TokenUnderscore,
    SyntaxKind::TokenCaret,
    SyntaxKind::TokenApostrophe,
    SyntaxKind::TokenDitto,
    SyntaxKind::TokenSemicolon,
    SyntaxKind::TokenCommandSym,
    SyntaxKind::ClauseCommandName,
    SyntaxKind::ClauseArgument,
    SyntaxKind::ClauseLR,
    SyntaxKind::ItemNewLine,
    SyntaxKind::ItemText,
    SyntaxKind::ItemCurly,
    SyntaxKind::ItemBracket,
    SyntaxKind::ItemParen,
    SyntaxKind::ItemCmd,
    SyntaxKind::ItemEnv,
    SyntaxKind::ItemLR,
    SyntaxKind::ItemBegin,
    SyntaxKind::ItemEnd,
    SyntaxKind::ItemBlockComment,
    SyntaxKind::ItemTypstCode,
    SyntaxKind::ItemAttachComponent,
    SyntaxKind::ItemFormula,
    SyntaxKind::ScopeRoot,
];

#[test]
fn test_syntax_repr() {
    assert_eq!(
        SyntaxKind::try_from(SyntaxKind::TokenError as u16),
        Ok(SyntaxKind::TokenError)
    );
    assert_eq!(
        SyntaxKind::try_from(SyntaxKind::ScopeRoot as u16),
        Ok(SyntaxKind::ScopeRoot)
    );
    assert_eq!(
        SyntaxKind::try_from((SyntaxKind::ScopeRoot as u16) + 1),
        Err(())
    );
}

#[test]
fn raw_round_trip_for_every_kind() {
    assert_eq!(VARIANT_COUNT as usize, ALL_KINDS.len());
    for (i, k) in ALL_KINDS.iter().enumerate() {
        assert_eq!(k.to_raw() as usize, i);
        assert_eq!(SyntaxKind::from_raw(i as u16), Ok(*k));
        assert_eq!(SyntaxKind::from_raw(k.to_raw()), Ok(*k));
    }
    assert_eq!(
        SyntaxKind::from_raw(VARIANT_COUNT),
        Err(OutOfRange { raw: VARIANT_COUNT })
    );
    assert_eq!(SyntaxKind::from_raw(u16::MAX), Err(OutOfRange { raw: u16::MAX }));
}

#[test]
fn trivia_is_exactly_four_kinds() {
    let trivia = [
        SyntaxKind::TokenWhiteSpace,
        SyntaxKind::TokenComment,
        SyntaxKind::ItemNewLine,
        SyntaxKind::TokenLineBreak,
    ];
    let mut count = 0;
    for k in ALL_KINDS.iter() {
        assert_eq!(k.is_trivia(), trivia.contains(k));
        if k.is_trivia() {
            count += 1;
        }
    }
    assert_eq!(count, 4);
}

#[test]
fn every_token_variant_is_classified() {
    let fixed = [
        (Token::LineBreak, SyntaxKind::TokenLineBreak),
        (Token::Whitespace, SyntaxKind::TokenWhiteSpace),
        (Token::LineComment, SyntaxKind::TokenComment),
        (Token::Left(BraceKind::Curly), SyntaxKind::TokenLBrace),
        (Token::Right(BraceKind::Curly), SyntaxKind::TokenRBrace),
        (Token::Left(BraceKind::Bracket), SyntaxKind::TokenLBracket),
        (Token::Right(BraceKind::Bracket), SyntaxKind::TokenRBracket),
        (Token::Left(BraceKind::Paren), SyntaxKind::TokenLParen),
        (Token::Right(BraceKind::Paren), SyntaxKind::TokenRParen),
        (Token::Comma, SyntaxKind::TokenComma),
        (Token::Tilde, SyntaxKind::TokenTilde),
        (Token::Slash, SyntaxKind::TokenSlash),
        (Token::Ampersand, SyntaxKind::TokenAmpersand),
        (Token::Caret, SyntaxKind::TokenCaret),
        (Token::Apostrophe, SyntaxKind::TokenApostrophe),
        (Token::Ditto, SyntaxKind::TokenDitto),
        (Token::Semicolon, SyntaxKind::TokenSemicolon),
        (Token::Hash, SyntaxKind::TokenHash),
        (Token::Asterisk, SyntaxKind::TokenWord),
        (Token::AtSign, SyntaxKind::TokenWord),
        (Token::Underscore, SyntaxKind::TokenUnderscore),
        (Token::Word, SyntaxKind::TokenWord),
        (Token::Dollar, SyntaxKind::TokenDollar),
        (Token::NewLine, SyntaxKind::ItemNewLine),
        (Token::Error, SyntaxKind::TokenError),
        (Token::MacroArg(0), SyntaxKind::TokenWord),
        (Token::MacroArg(9), SyntaxKind::TokenWord),
        (Token::CommandName(CommandName::Generic), SyntaxKind::ClauseCommandName),
        (Token::CommandName(CommandName::BeginEnvironment), SyntaxKind::TokenCommandSym),
        (Token::CommandName(CommandName::EndEnvironment), SyntaxKind::TokenCommandSym),
        (Token::CommandName(CommandName::BeginMath), SyntaxKind::ClauseCommandName),
        (Token::CommandName(CommandName::EndMath), SyntaxKind::ClauseCommandName),
        (Token::CommandName(CommandName::ErrorBeginEnvironment), SyntaxKind::TokenError),
        (Token::CommandName(CommandName::ErrorEndEnvironment), SyntaxKind::TokenError),
        (Token::CommandName(CommandName::Else), SyntaxKind::ClauseCommandName),
        (Token::CommandName(CommandName::EndIf), SyntaxKind::ClauseCommandName),
        (Token::CommandName(CommandName::Left), SyntaxKind::ClauseCommandName),
        (Token::CommandName(CommandName::Right), SyntaxKind::ClauseCommandName),
    ];
    for (t, k) in fixed.iter() {
        assert_eq!(SyntaxKind::from(*t), *k, "{:?}", t);
    }
    let ifs = [
        IfCommandName::If,
        IfCommandName::IfTypst,
        IfCommandName::IfFalse,
        IfCommandName::IfTrue,
        IfCommandName::IfCase,
        IfCommandName::IfNum,
        IfCommandName::IfCat,
        IfCommandName::IfX,
        IfCommandName::IfVoid,
        IfCommandName::IfHBox,
        IfCommandName::IfVBox,
        IfCommandName::IfHMode,
        IfCommandName::IfMMode,
        IfCommandName::IfVMode,
        IfCommandName::IfInner,
        IfCommandName::IfDim,
        IfCommandName::IfEof,
        IfCommandName::IfStar,
    ];
    for i in ifs.iter() {
        assert_eq!(
            SyntaxKind::from(Token::CommandName(CommandName::If(*i))),
            SyntaxKind::ClauseCommandName
        );
    }
}

#[test]
fn formula_display_and_inline() {
    let display = node(
        SyntaxKind::ItemFormula,
        vec![
            tok(SyntaxKind::TokenDollar, "$$"),
            elem(SyntaxKind::ItemText, vec![tok(SyntaxKind::TokenWord, "x")]),
            tok(SyntaxKind::TokenDollar, "$$"),
        ],
    );
    let f = FormulaItem::cast(&display).unwrap();
    assert!(f.is_display());
    assert!(!f.is_inline());

    let inline = node(
        SyntaxKind::ItemFormula,
        vec![
            tok(SyntaxKind::TokenDollar, "$"),
            elem(SyntaxKind::ItemText, vec![tok(SyntaxKind::TokenWord, "x")]),
            tok(SyntaxKind::TokenDollar, "$"),
        ],
    );
    let f = FormulaItem::cast(&inline).unwrap();
    assert!(!f.is_display());
    assert!(f.is_inline());
}

#[test]
fn formula_without_dollar_is_neither() {
    let word_first = node(SyntaxKind::ItemFormula, vec![tok(SyntaxKind::TokenWord, "$$")]);
    let f = FormulaItem::cast(&word_first).unwrap();
    assert!(!f.is_display());
    assert!(!f.is_inline());

    let empty = node(SyntaxKind::ItemFormula, vec![]);
    let f = FormulaItem::cast(&empty).unwrap();
    assert!(!f.is_display());
    assert!(!f.is_inline());

    let other = node(SyntaxKind::ItemFormula, vec![tok(SyntaxKind::TokenDollar, "$$$")]);
    let f = FormulaItem::cast(&other).unwrap();
    assert!(!f.is_display());
    assert!(!f.is_inline());
}

#[test]
fn formula_first_token_is_found_in_nested_node() {
    let nested = node(
        SyntaxKind::ItemFormula,
        vec![elem(SyntaxKind::ItemText, vec![tok(SyntaxKind::TokenDollar, "$")])],
    );
    assert!(FormulaItem::cast(&nested).unwrap().is_inline());
}

fn documentclass() -> SyntaxNode {
    node(
        SyntaxKind::ItemCmd,
        vec![
            tok(SyntaxKind::ClauseCommandName, "documentclass"),
            elem(
                SyntaxKind::ClauseArgument,
                vec![elem(
                    SyntaxKind::ItemCurly,
                    vec![
                        tok(SyntaxKind::TokenLBrace, "{"),
                        elem(SyntaxKind::ItemText, vec![tok(SyntaxKind::TokenWord, "article")]),
                        tok(SyntaxKind::TokenRBrace, "}"),
                    ],
                )],
            ),
        ],
    )
}

#[test]
fn command_name_and_arguments() {
    let n = documentclass();
    let cmd = CmdItem::cast(&n).unwrap();
    assert_eq!(cmd.name_tok().unwrap().text(), "documentclass");
    assert_eq!(cmd.name_tok().unwrap().kind(), SyntaxKind::ClauseCommandName);
    let args = cmd.arguments();
    assert_eq!(args.len(), 1);
    assert_eq!(args[0].kind(), SyntaxKind::ClauseArgument);
    assert_eq!(args[0].first_child().unwrap().kind(), SyntaxKind::ItemCurly);
}

#[test]
fn command_arguments_keep_order_and_skip_other_children() {
    let n = node(
        SyntaxKind::ItemCmd,
        vec![
            elem(SyntaxKind::ClauseArgument, vec![tok(SyntaxKind::TokenWord, "rev")]),
            tok(SyntaxKind::ClauseCommandName, "frac"),
            tok(SyntaxKind::TokenWhiteSpace, " "),
            elem(SyntaxKind::ClauseArgument, vec![tok(SyntaxKind::TokenWord, "a")]),
            elem(SyntaxKind::ItemText, vec![tok(SyntaxKind::TokenWord, "t")]),
            elem(SyntaxKind::ClauseArgument, vec![tok(SyntaxKind::TokenWord, "b")]),
        ],
    );
    let cmd = CmdItem::cast(&n).unwrap();
    assert_eq!(cmd.name_tok().unwrap().text(), "frac");
    let texts: Vec<&str> = cmd
        .arguments()
        .iter()
        .map(|a| a.first_token().unwrap().text())
        .collect();
    assert_eq!(texts, vec!["rev", "a", "b"]);
}

#[test]
fn command_name_ignores_nested_tokens() {
    let n = node(
        SyntaxKind::ItemCmd,
        vec![elem(
            SyntaxKind::ClauseArgument,
            vec![tok(SyntaxKind::ClauseCommandName, "inner")],
        )],
    );
    assert!(CmdItem::cast(&n).unwrap().name_tok().is_none());
}

#[test]
fn command_without_name_degrades() {
    let root = node(
        SyntaxKind::ScopeRoot,
        vec![
            elem(
                SyntaxKind::ItemCmd,
                vec![elem(SyntaxKind::ClauseArgument, vec![tok(SyntaxKind::TokenWord, "x")])],
            ),
            SyntaxElement::Node(documentclass()),
        ],
    );
    let cmds = root.children();
    assert_eq!(cmds.len(), 2);
    let broken = CmdItem::cast(cmds[0]).unwrap();
    assert!(broken.name_tok().is_none());
    assert_eq!(broken.arguments().len(), 1);
    let sibling = CmdItem::cast(cmds[1]).unwrap();
    assert_eq!(sibling.name_tok().unwrap().text(), "documentclass");
    assert_eq!(root.first_token().unwrap().text(), "x");
}

fn theorem_env(with_end: bool) -> SyntaxNode {
    let mut children = vec![
        elem(
            SyntaxKind::ItemBegin,
            vec![
                tok(SyntaxKind::TokenCommandSym, "theorem"),
                elem(SyntaxKind::ClauseArgument, vec![tok(SyntaxKind::TokenWord, "Euler")]),
            ],
        ),
        elem(SyntaxKind::ItemText, vec![tok(SyntaxKind::TokenWord, "body")]),
        elem(
            SyntaxKind::ItemCmd,
            vec![
                tok(SyntaxKind::ClauseCommandName, "emph"),
                elem(SyntaxKind::ClauseArgument, vec![tok(SyntaxKind::TokenWord, "e")]),
            ],
        ),
    ];
    if with_end {
        children.push(elem(
            SyntaxKind::ItemEnd,
            vec![tok(SyntaxKind::TokenCommandSym, "theorem")],
        ));
    }
    node(SyntaxKind::ItemEnv, children)
}

#[test]
fn environment_name_end_and_arguments() {
    let n = theorem_env(true);
    let env = EnvItem::cast(&n).unwrap();
    assert_eq!(env.name_tok().unwrap().text(), "theorem");
    let begin = env.begin().unwrap();
    assert_eq!(begin.name().unwrap().text(), "theorem");
    assert_eq!(begin.syntax().kind(), SyntaxKind::ItemBegin);
    let end = env.end().unwrap();
    assert_eq!(end.name().unwrap().text(), "theorem");
    let args = env.arguments();
    assert_eq!(args.len(), 1);
    assert_eq!(args[0].first_token().unwrap().text(), "Euler");
    assert_eq!(begin.arguments().len(), 1);
}

#[test]
fn environment_without_end_stays_navigable() {
    let n = theorem_env(false);
    let env = EnvItem::cast(&n).unwrap();
    assert!(env.end().is_none());
    assert_eq!(env.name_tok().unwrap().text(), "theorem");
    assert_eq!(env.arguments().len(), 1);
}

#[test]
fn environment_without_begin_is_empty() {
    let n = node(
        SyntaxKind::ItemEnv,
        vec![elem(SyntaxKind::ItemText, vec![tok(SyntaxKind::TokenWord, "x")])],
    );
    let env = EnvItem::cast(&n).unwrap();
    assert!(env.begin().is_none());
    assert!(env.name_tok().is_none());
    assert!(env.arguments().is_empty());
    assert!(env.end().is_none());
}

#[test]
fn marker_name_needs_command_symbol() {
    let begin = node(
        SyntaxKind::ItemBegin,
        vec![tok(SyntaxKind::ClauseCommandName, "theorem")],
    );
    assert!(BeginItem::cast(&begin).unwrap().name().is_none());
    let end = node(SyntaxKind::ItemEnd, vec![tok(SyntaxKind::TokenWord, "theorem")]);
    assert!(EndItem::cast(&end).unwrap().name().is_none());
}

fn lr_clause(cmd: &str, sym: &str) -> SyntaxElement {
    elem(
        SyntaxKind::ClauseLR,
        vec![
            tok(SyntaxKind::ClauseCommandName, cmd),
            tok(SyntaxKind::TokenLParen, sym),
        ],
    )
}

#[test]
fn left_right_clauses() {
    let left = node(
        SyntaxKind::ClauseLR,
        vec![
            tok(SyntaxKind::ClauseCommandName, "\\left"),
            tok(SyntaxKind::TokenLParen, "("),
        ],
    );
    let c = LRClause::cast(&left).unwrap();
    assert!(c.is_left());
    assert_eq!(c.sym().unwrap().text(), "(");

    let right = node(
        SyntaxKind::ClauseLR,
        vec![
            tok(SyntaxKind::ClauseCommandName, "\\right"),
            tok(SyntaxKind::TokenRParen, ")"),
        ],
    );
    let c = LRClause::cast(&right).unwrap();
    assert!(!c.is_left());
    assert_eq!(c.sym().unwrap().text(), ")");
}

#[test]
fn left_right_clause_without_symbol() {
    let bare = node(
        SyntaxKind::ClauseLR,
        vec![tok(SyntaxKind::ClauseCommandName, "\\left")],
    );
    let c = LRClause::cast(&bare).unwrap();
    assert!(c.is_left());
    assert!(c.sym().is_none());
    let not_cmd = node(SyntaxKind::ClauseLR, vec![tok(SyntaxKind::TokenWord, "\\left")]);
    assert!(!LRClause::cast(&not_cmd).unwrap().is_left());
}

#[test]
fn left_right_item_symbols() {
    let n = node(
        SyntaxKind::ItemLR,
        vec![
            lr_clause("\\left", "["),
            elem(SyntaxKind::ItemText, vec![tok(SyntaxKind::TokenWord, "x")]),
            lr_clause("\\right", ")"),
        ],
    );
    let lr = LRItem::cast(&n).unwrap();
    assert!(lr.left().unwrap().is_left());
    assert!(!lr.right().unwrap().is_left());
    assert_eq!(lr.left_sym().unwrap().text(), "[");
    assert_eq!(lr.right_sym().unwrap().text(), ")");
}

#[test]
fn left_right_item_with_wrong_ends() {
    let n = node(
        SyntaxKind::ItemLR,
        vec![
            elem(SyntaxKind::ItemText, vec![tok(SyntaxKind::TokenWord, "x")]),
            lr_clause("\\left", "("),
            tok(SyntaxKind::TokenWord, "tail"),
        ],
    );
    let lr = LRItem::cast(&n).unwrap();
    assert!(lr.left().is_none());
    assert!(lr.left_sym().is_none());
    assert!(lr.right().unwrap().is_left());
    assert_eq!(lr.right_sym().unwrap().text(), "(");
}

#[test]
fn cast_accepts_only_its_kind() {
    let n = documentclass();
    assert!(CmdItem::cast(&n).is_some());
    assert!(FormulaItem::cast(&n).is_none());
    assert!(EnvItem::cast(&n).is_none());
    assert!(LRItem::cast(&n).is_none());
    assert!(LRClause::cast(&n).is_none());
    assert!(BeginItem::cast(&n).is_none());
    assert!(EndItem::cast(&n).is_none());
    for k in ALL_KINDS.iter() {
        assert_eq!(CmdItem::can_cast(*k), *k == SyntaxKind::ItemCmd);
        assert_eq!(FormulaItem::can_cast(*k), *k == SyntaxKind::ItemFormula);
        assert_eq!(EnvItem::can_cast(*k), *k == SyntaxKind::ItemEnv);
        assert_eq!(LRItem::can_cast(*k), *k == SyntaxKind::ItemLR);
        assert_eq!(LRClause::can_cast(*k), *k == SyntaxKind::ClauseLR);
        assert_eq!(BeginItem::can_cast(*k), *k == SyntaxKind::ItemBegin);
        assert_eq!(EndItem::can_cast(*k), *k == SyntaxKind::ItemEnd);
    }
}

#[test]
fn first_token_stops_at_empty_first_child() {
    let n = node(
        SyntaxKind::ItemText,
        vec![elem(SyntaxKind::ItemText, vec![]), tok(SyntaxKind::TokenWord, "w")],
    );
    assert!(n.first_token().is_none());
    assert_eq!(n.last_token().unwrap().text(), "w");
    assert_eq!(n.children_with_tokens().len(), 2);
    assert_eq!(n.first_child().unwrap().kind(), SyntaxKind::ItemText);
    assert_eq!(n.last_child().unwrap().kind(), SyntaxKind::ItemText);
}

#[test]
fn tex_lang_raw_tags() {
    for (i, k) in ALL_KINDS.iter().enumerate() {
        let raw = TexLang::kind_to_raw(*k);
        assert_eq!(raw, rowan::SyntaxKind(i as u16));
        assert_eq!(rowan::SyntaxKind::from(*k), raw);
        assert_eq!(TexLang::kind_from_raw(raw), Ok(*k));
    }
    assert_eq!(
        TexLang::kind_from_raw(rowan::SyntaxKind(41)),
        Err(OutOfRange { raw: 41 })
    );
}
