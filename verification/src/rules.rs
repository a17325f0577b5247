//! Rules: a pattern and the kind of token it stands for, and the table of
//! the language.

use crate::token::TokenKind;
use vstd::prelude::*;

verus! {

/// One rule of a table: spans that match `pattern` become tokens of kind
/// `kind`. The place of a rule in its table is its precedence.
///
/// The pattern is a regular expression in the syntax of `fancy_regex`. It is
/// tried at the cursor only, and a match that is empty does not count.
#[derive(Clone, Copy, Debug)]
pub struct Rule {
    pub pattern: &'static str,
    pub kind: TokenKind,
}

/// The table of the language, in order of precedence.
///
/// An operator of several characters stands before the operators it begins
/// with. A keyword stands before the identifier rule and does not match where
/// a character of an identifier follows it. A number does not end before a
/// letter, `$` or `_`. The two quoted literal forms end on their line; the
/// form in backquotes may run over several. A comment runs from `//` up to the
/// line break or the end of the input. The kinds `OnLoop` and `LessThan` have
/// no rule.
pub open spec fn standard_rules() -> Seq<Rule> {
    seq![
        Rule { pattern: r"[ \t]+", kind: TokenKind::Whitespace },
        Rule { pattern: r"\r?\n", kind: TokenKind::LineBreak },
        Rule { pattern: r"//(.*?)(?=\r?\n|$)", kind: TokenKind::Comment },
        Rule { pattern: r#""[^"\r\n]+""#, kind: TokenKind::StringLiteral },
        Rule { pattern: r"'[^'\r\n]+'", kind: TokenKind::StringLiteral },
        Rule { pattern: r"`[^`]+`", kind: TokenKind::StringLiteral },
        Rule { pattern: r"-?[0-9]+\.?[0-9]*(?![a-zA-Z$_])", kind: TokenKind::NumberLiteral },
        // punctuation / symbols
        Rule { pattern: r"\{", kind: TokenKind::LBrace },
        Rule { pattern: r"\}", kind: TokenKind::RBrace },
        Rule { pattern: r"\[", kind: TokenKind::LBracket },
        Rule { pattern: r"\]", kind: TokenKind::RBracket },
        Rule { pattern: r"\(", kind: TokenKind::LParen },
        Rule { pattern: r"\)", kind: TokenKind::RParen },
        Rule { pattern: r";", kind: TokenKind::Semicolon },
        Rule { pattern: r":", kind: TokenKind::Colon },
        Rule { pattern: r"\.", kind: TokenKind::Dot },
        Rule { pattern: r"\,", kind: TokenKind::Comma },
        Rule { pattern: r"\*\*", kind: TokenKind::Pow },
        Rule { pattern: r"\*", kind: TokenKind::Star },
        Rule { pattern: r"==", kind: TokenKind::DoubleEq },
        Rule { pattern: r"->", kind: TokenKind::Arrow },
        Rule { pattern: r"=", kind: TokenKind::Eq },
        Rule { pattern: r"!=", kind: TokenKind::NotEq },
        Rule { pattern: r"&&", kind: TokenKind::AndAnd },
        Rule { pattern: r"&", kind: TokenKind::And },
        Rule { pattern: r"\^", kind: TokenKind::Caret },
        Rule { pattern: r"~", kind: TokenKind::Tilde },
        Rule { pattern: r"!", kind: TokenKind::Bang },
        Rule { pattern: r"\|\|", kind: TokenKind::OrOr },
        Rule { pattern: r"\|", kind: TokenKind::Or },
        Rule { pattern: r"\+\+", kind: TokenKind::PlusPlus },
        Rule { pattern: r"\+", kind: TokenKind::Plus },
        Rule { pattern: r"\-\-", kind: TokenKind::MinusMinus },
        Rule { pattern: r"\-", kind: TokenKind::Minus },
        Rule { pattern: r"\\", kind: TokenKind::Backslash },
        Rule { pattern: r"%", kind: TokenKind::Percent },
        Rule { pattern: r"\?", kind: TokenKind::QMark },
        Rule { pattern: r">=", kind: TokenKind::GreaterThanOrEqual },
        Rule { pattern: r"<=", kind: TokenKind::LessThanOrEqual },
        Rule { pattern: r">>", kind: TokenKind::BitshiftRight },
        Rule { pattern: r">", kind: TokenKind::GreaterThan },
        Rule { pattern: r"<<", kind: TokenKind::BitShiftLeft },
        // keywords / literals
        Rule { pattern: r"null(?![a-zA-Z0-9$_])", kind: TokenKind::Null },
        Rule { pattern: r"start(?![a-zA-Z0-9$_])", kind: TokenKind::Start },
        Rule { pattern: r"int(?![a-zA-Z0-9$_])", kind: TokenKind::IntKeyword },
        Rule { pattern: r"decimal(?![a-zA-Z0-9$_])", kind: TokenKind::DecimalKeyword },
        Rule { pattern: r"string(?![a-zA-Z0-9$_])", kind: TokenKind::StringKeyword },
        Rule { pattern: r"bool(?![a-zA-Z0-9$_])", kind: TokenKind::BooleanKeyword },
        Rule { pattern: r"true(?![a-zA-Z0-9$_])", kind: TokenKind::True },
        Rule { pattern: r"false(?![a-zA-Z0-9$_])", kind: TokenKind::False },
        Rule { pattern: r"as(?![a-zA-Z0-9$_])", kind: TokenKind::As },
        Rule { pattern: r"for(?![a-zA-Z0-9$_])", kind: TokenKind::For },
        Rule { pattern: r"while(?![a-zA-Z0-9$_])", kind: TokenKind::While },
        Rule { pattern: r"break(?![a-zA-Z0-9$_])", kind: TokenKind::Break },
        Rule { pattern: r"continue(?![a-zA-Z0-9$_])", kind: TokenKind::Continue },
        Rule { pattern: r"if(?![a-zA-Z0-9$_])", kind: TokenKind::If },
        Rule { pattern: r"else(?![a-zA-Z0-9$_])", kind: TokenKind::Else },
        Rule { pattern: r"return(?![a-zA-Z0-9$_])", kind: TokenKind::Return },
        Rule { pattern: r"let(?![a-zA-Z0-9$_])", kind: TokenKind::Let },
        Rule { pattern: r"const(?![a-zA-Z0-9$_])", kind: TokenKind::Const },
        // generic identifier last (catch-all)
        Rule { pattern: r"[a-zA-Z$_][a-zA-Z0-9$_]*", kind: TokenKind::Identifier },
    ]
}

/// Builds the table of the language.
pub fn token_converters() -> (rules: Vec<Rule>)
    ensures
        rules@ == standard_rules(),
{
    let rules = vec![
        Rule { pattern: r"[ \t]+", kind: TokenKind::Whitespace },
        Rule { pattern: r"\r?\n", kind: TokenKind::LineBreak },
        Rule { pattern: r"//(.*?)(?=\r?\n|$)", kind: TokenKind::Comment },
        Rule { pattern: r#""[^"\r\n]+""#, kind: TokenKind::StringLiteral },
        Rule { pattern: r"'[^'\r\n]+'", kind: TokenKind::StringLiteral },
        Rule { pattern: r"`[^`]+`", kind: TokenKind::StringLiteral },
        Rule { pattern: r"-?[0-9]+\.?[0-9]*(?![a-zA-Z$_])", kind: TokenKind::NumberLiteral },
        // punctuation / symbols
        Rule { pattern: r"\{", kind: TokenKind::LBrace },
        Rule { pattern: r"\}", kind: TokenKind::RBrace },
        Rule { pattern: r"\[", kind: TokenKind::LBracket },
        Rule { pattern: r"\]", kind: TokenKind::RBracket },
        Rule { pattern: r"\(", kind: TokenKind::LParen },
        Rule { pattern: r"\)", kind: TokenKind::RParen },
        Rule { pattern: r";", kind: TokenKind::Semicolon },
        Rule { pattern: r":", kind: TokenKind::Colon },
        Rule { pattern: r"\.", kind: TokenKind::Dot },
        Rule { pattern: r"\,", kind: TokenKind::Comma },
        Rule { pattern: r"\*\*", kind: TokenKind::Pow },
        Rule { pattern: r"\*", kind: TokenKind::Star },
        Rule { pattern: r"==", kind: TokenKind::DoubleEq },
        Rule { pattern: r"->", kind: TokenKind::Arrow },
        Rule { pattern: r"=", kind: TokenKind::Eq },
        Rule { pattern: r"!=", kind: TokenKind::NotEq },
        Rule { pattern: r"&&", kind: TokenKind::AndAnd },
        Rule { pattern: r"&", kind: TokenKind::And },
        Rule { pattern: r"\^", kind: TokenKind::Caret },
        Rule { pattern: r"~", kind: TokenKind::Tilde },
        Rule { pattern: r"!", kind: TokenKind::Bang },
        Rule { pattern: r"\|\|", kind: TokenKind::OrOr },
        Rule { pattern: r"\|", kind: TokenKind::Or },
        Rule { pattern: r"\+\+", kind: TokenKind::PlusPlus },
        Rule { pattern: r"\+", kind: TokenKind::Plus },
        Rule { pattern: r"\-\-", kind: TokenKind::MinusMinus },
        Rule { pattern: r"\-", kind: TokenKind::Minus },
        Rule { pattern: r"\\", kind: TokenKind::Backslash },
        Rule { pattern: r"%", kind: TokenKind::Percent },
        Rule { pattern: r"\?", kind: TokenKind::QMark },
        Rule { pattern: r">=", kind: TokenKind::GreaterThanOrEqual },
        Rule { pattern: r"<=", kind: TokenKind::LessThanOrEqual },
        Rule { pattern: r">>", kind: TokenKind::BitshiftRight },
        Rule { pattern: r">", kind: TokenKind::GreaterThan },
        Rule { pattern: r"<<", kind: TokenKind::BitShiftLeft },
        // keywords / literals
        Rule { pattern: r"null(?![a-zA-Z0-9$_])", kind: TokenKind::Null },
        Rule { pattern: r"start(?![a-zA-Z0-9$_])", kind: TokenKind::Start },
        Rule { pattern: r"int(?![a-zA-Z0-9$_])", kind: TokenKind::IntKeyword },
        Rule { pattern: r"decimal(?![a-zA-Z0-9$_])", kind: TokenKind::DecimalKeyword },
        Rule { pattern: r"string(?![a-zA-Z0-9$_])", kind: TokenKind::StringKeyword },
        Rule { pattern: r"bool(?![a-zA-Z0-9$_])", kind: TokenKind::BooleanKeyword },
        Rule { pattern: r"true(?![a-zA-Z0-9$_])", kind: TokenKind::True },
        Rule { pattern: r"false(?![a-zA-Z0-9$_])", kind: TokenKind::False },
        Rule { pattern: r"as(?![a-zA-Z0-9$_])", kind: TokenKind::As },
        Rule { pattern: r"for(?![a-zA-Z0-9$_])", kind: TokenKind::For },
        Rule { pattern: r"while(?![a-zA-Z0-9$_])", kind: TokenKind::While },
        Rule { pattern: r"break(?![a-zA-Z0-9$_])", kind: TokenKind::Break },
        Rule { pattern: r"continue(?![a-zA-Z0-9$_])", kind: TokenKind::Continue },
        Rule { pattern: r"if(?![a-zA-Z0-9$_])", kind: TokenKind::If },
        Rule { pattern: r"else(?![a-zA-Z0-9$_])", kind: TokenKind::Else },
        Rule { pattern: r"return(?![a-zA-Z0-9$_])", kind: TokenKind::Return },
        Rule { pattern: r"let(?![a-zA-Z0-9$_])", kind: TokenKind::Let },
        Rule { pattern: r"const(?![a-zA-Z0-9$_])", kind: TokenKind::Const },
        // generic identifier last (catch-all)
        Rule { pattern: r"[a-zA-Z$_][a-zA-Z0-9$_]*", kind: TokenKind::Identifier },
    ];
    assert(rules@ =~= standard_rules());
    rules
}

} // verus!
