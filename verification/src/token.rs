//! The tokens: what the scanner produces.

use vstd::prelude::*;
use vstd::string::*;

verus! {

/// The lexical categories that a rule can produce. A rule names one of them,
/// and [`Token::build`] is the constructor that goes with it.
#[derive(Clone, Copy, Debug, PartialEq, Eq, Hash)]
pub enum TokenKind {
    Whitespace,
    LineBreak,
    Comment,
    StringLiteral,
    NumberLiteral,
    Identifier,
    // keywords / literals
    Null,
    True,
    False,
    As,
    For,
    While,
    Break,
    Continue,
    If,
    Else,
    Return,
    Let,
    Const,
    Start,
    OnLoop,
    IntKeyword,
    DecimalKeyword,
    StringKeyword,
    BooleanKeyword,
    // operators & symbols
    LBrace,
    RBrace,
    LBracket,
    RBracket,
    LParen,
    RParen,
    Semicolon,
    Colon,
    Dot,
    Comma,
    Pow,
    Star,
    DoubleEq,
    Arrow,
    Eq,
    NotEq,
    AndAnd,
    And,
    Caret,
    Tilde,
    Bang,
    OrOr,
    Or,
    PlusPlus,
    Plus,
    MinusMinus,
    Minus,
    Backslash,
    Percent,
    QMark,
    GreaterThanOrEqual,
    LessThanOrEqual,
    BitshiftRight,
    GreaterThan,
    BitShiftLeft,
    LessThan,
}

/// One lexical unit. Every variant but the whitespace marker and the end
/// marker carries the byte offset at which its match began; comments, string
/// literals, number literals and identifiers carry text as well.
///
/// A number literal carries the digits as they were written, sign and decimal
/// point included.
#[derive(Debug, PartialEq, Eq)]
pub enum Token {
    Whitespace,
    LineBreak { index: i128 },
    Comment { index: i128, value: String },
    StringLiteral { index: i128, value: String },
    NumberLiteral { index: i128, value: String },
    Identifier { index: i128, value: String },
    // keywords / literals
    Null { index: i128 },
    True { index: i128 },
    False { index: i128 },
    As { index: i128 },
    For { index: i128 },
    While { index: i128 },
    Break { index: i128 },
    Continue { index: i128 },
    If { index: i128 },
    Else { index: i128 },
    Return { index: i128 },
    Let { index: i128 },
    Const { index: i128 },
    Start { index: i128 },
    OnLoop { index: i128 },
    IntKeyword { index: i128 },
    DecimalKeyword { index: i128 },
    StringKeyword { index: i128 },
    BooleanKeyword { index: i128 },
    // operators & symbols
    LBrace { index: i128 },
    RBrace { index: i128 },
    LBracket { index: i128 },
    RBracket { index: i128 },
    LParen { index: i128 },
    RParen { index: i128 },
    Semicolon { index: i128 },
    Colon { index: i128 },
    Dot { index: i128 },
    Comma { index: i128 },
    Pow { index: i128 },
    Star { index: i128 },
    DoubleEq { index: i128 },
    Arrow { index: i128 },
    Eq { index: i128 },
    NotEq { index: i128 },
    AndAnd { index: i128 },
    And { index: i128 },
    Caret { index: i128 },
    Tilde { index: i128 },
    Bang { index: i128 },
    OrOr { index: i128 },
    Or { index: i128 },
    PlusPlus { index: i128 },
    Plus { index: i128 },
    MinusMinus { index: i128 },
    Minus { index: i128 },
    Backslash { index: i128 },
    Percent { index: i128 },
    QMark { index: i128 },
    GreaterThanOrEqual { index: i128 },
    LessThanOrEqual { index: i128 },
    BitshiftRight { index: i128 },
    GreaterThan { index: i128 },
    BitShiftLeft { index: i128 },
    LessThan { index: i128 },
    // End of File
    EOF,
}

/// What a token is, as a mathematical value.
pub enum TokenView {
    /// The marker for a span that is discarded.
    Whitespace,
    /// A lexeme of some kind other than whitespace, with the offset of its
    /// first byte and its text (empty for the kinds that carry none).
    Lexeme { kind: TokenKind, index: int, value: Seq<char> },
    /// The marker that closes a complete scan.
    End,
}

/// The view of a token that carries an offset and no text.
pub open spec fn plain(kind: TokenKind, index: i128) -> TokenView {
    TokenView::Lexeme { kind, index: index as int, value: Seq::empty() }
}

/// The view of a token that carries an offset and text.
pub open spec fn textual(kind: TokenKind, index: i128, value: String) -> TokenView {
    TokenView::Lexeme { kind, index: index as int, value: value@ }
}

impl View for Token {
    type V = TokenView;

    open spec fn view(&self) -> TokenView {
        match *self {
            Token::Whitespace => TokenView::Whitespace,
            Token::LineBreak { index } => plain(TokenKind::LineBreak, index),
            Token::Comment { index, value } => textual(TokenKind::Comment, index, value),
            Token::StringLiteral { index, value } => textual(
                TokenKind::StringLiteral,
                index,
                value,
            ),
            Token::NumberLiteral { index, value } => textual(
                TokenKind::NumberLiteral,
                index,
                value,
            ),
            Token::Identifier { index, value } => textual(TokenKind::Identifier, index, value),
            Token::Null { index } => plain(TokenKind::Null, index),
            Token::True { index } => plain(TokenKind::True, index),
            Token::False { index } => plain(TokenKind::False, index),
            Token::As { index } => plain(TokenKind::As, index),
            Token::For { index } => plain(TokenKind::For, index),
            Token::While { index } => plain(TokenKind::While, index),
            Token::Break { index } => plain(TokenKind::Break, index),
            Token::Continue { index } => plain(TokenKind::Continue, index),
            Token::If { index } => plain(TokenKind::If, index),
            Token::Else { index } => plain(TokenKind::Else, index),
            Token::Return { index } => plain(TokenKind::Return, index),
            Token::Let { index } => plain(TokenKind::Let, index),
            Token::Const { index } => plain(TokenKind::Const, index),
            Token::Start { index } => plain(TokenKind::Start, index),
            Token::OnLoop { index } => plain(TokenKind::OnLoop, index),
            Token::IntKeyword { index } => plain(TokenKind::IntKeyword, index),
            Token::DecimalKeyword { index } => plain(TokenKind::DecimalKeyword, index),
            Token::StringKeyword { index } => plain(TokenKind::StringKeyword, index),
            Token::BooleanKeyword { index } => plain(TokenKind::BooleanKeyword, index),
            Token::LBrace { index } => plain(TokenKind::LBrace, index),
            Token::RBrace { index } => plain(TokenKind::RBrace, index),
            Token::LBracket { index } => plain(TokenKind::LBracket, index),
            Token::RBracket { index } => plain(TokenKind::RBracket, index),
            Token::LParen { index } => plain(TokenKind::LParen, index),
            Token::RParen { index } => plain(TokenKind::RParen, index),
            Token::Semicolon { index } => plain(TokenKind::Semicolon, index),
            Token::Colon { index } => plain(TokenKind::Colon, index),
            Token::Dot { index } => plain(TokenKind::Dot, index),
            Token::Comma { index } => plain(TokenKind::Comma, index),
            Token::Pow { index } => plain(TokenKind::Pow, index),
            Token::Star { index } => plain(TokenKind::Star, index),
            Token::DoubleEq { index } => plain(TokenKind::DoubleEq, index),
            Token::Arrow { index } => plain(TokenKind::Arrow, index),
            Token::Eq { index } => plain(TokenKind::Eq, index),
            Token::NotEq { index } => plain(TokenKind::NotEq, index),
            Token::AndAnd { index } => plain(TokenKind::AndAnd, index),
            Token::And { index } => plain(TokenKind::And, index),
            Token::Caret { index } => plain(TokenKind::Caret, index),
            Token::Tilde { index } => plain(TokenKind::Tilde, index),
            Token::Bang { index } => plain(TokenKind::Bang, index),
            Token::OrOr { index } => plain(TokenKind::OrOr, index),
            Token::Or { index } => plain(TokenKind::Or, index),
            Token::PlusPlus { index } => plain(TokenKind::PlusPlus, index),
            Token::Plus { index } => plain(TokenKind::Plus, index),
            Token::MinusMinus { index } => plain(TokenKind::MinusMinus, index),
            Token::Minus { index } => plain(TokenKind::Minus, index),
            Token::Backslash { index } => plain(TokenKind::Backslash, index),
            Token::Percent { index } => plain(TokenKind::Percent, index),
            Token::QMark { index } => plain(TokenKind::QMark, index),
            Token::GreaterThanOrEqual { index } => plain(TokenKind::GreaterThanOrEqual, index),
            Token::LessThanOrEqual { index } => plain(TokenKind::LessThanOrEqual, index),
            Token::BitshiftRight { index } => plain(TokenKind::BitshiftRight, index),
            Token::GreaterThan { index } => plain(TokenKind::GreaterThan, index),
            Token::BitShiftLeft { index } => plain(TokenKind::BitShiftLeft, index),
            Token::LessThan { index } => plain(TokenKind::LessThan, index),
            Token::EOF => TokenView::End,
        }
    }
}

/// The views of a sequence of tokens, in order.
pub open spec fn views(tokens: Seq<Token>) -> Seq<TokenView> {
    tokens.map_values(|token: Token| token@)
}

/// `text` without its first and last character; empty when `text` has fewer
/// than two characters.
pub open spec fn inner_text(text: Seq<char>) -> Seq<char> {
    if text.len() >= 2 {
        text.subrange(1, text.len() - 1)
    } else {
        Seq::empty()
    }
}

/// `text` without its first two characters; empty when `text` has fewer than
/// two characters.
pub open spec fn after_marker(text: Seq<char>) -> Seq<char> {
    if text.len() >= 2 {
        text.subrange(2, text.len() as int)
    } else {
        Seq::empty()
    }
}

/// The text that a token of kind `kind` keeps of the span `text` it was
/// matched on: a comment drops the two characters of its marker, a string
/// literal its two delimiters, a number literal and an identifier keep the
/// span as it is, and every other kind keeps nothing.
pub open spec fn payload(kind: TokenKind, text: Seq<char>) -> Seq<char> {
    match kind {
        TokenKind::Comment => after_marker(text),
        TokenKind::StringLiteral => inner_text(text),
        TokenKind::NumberLiteral => text,
        TokenKind::Identifier => text,
        _ => Seq::empty(),
    }
}

/// The token that the constructor of `kind` builds for a span with the text
/// `text` that begins at offset `index`.
pub open spec fn token_of(kind: TokenKind, index: int, text: Seq<char>) -> TokenView {
    if kind is Whitespace {
        TokenView::Whitespace
    } else {
        TokenView::Lexeme { kind, index, value: payload(kind, text) }
    }
}

/// Removes the first and the last character of `text`.
pub fn remove_first_and_last(text: &str) -> (inner: String)
    ensures
        inner@ == inner_text(text@),
{
    let count = text.unicode_len();
    if count >= 2 {
        String::from_str(text.substring_char(1, count - 1))
    } else {
        String::new()
    }
}

/// Removes the two characters of the marker that opens a comment.
pub fn remove_marker(text: &str) -> (rest: String)
    ensures
        rest@ == after_marker(text@),
{
    let count = text.unicode_len();
    if count >= 2 {
        String::from_str(text.substring_char(2, count))
    } else {
        String::new()
    }
}

impl Token {
    /// The constructor of the kind `kind`, applied to the offset `index` and
    /// the matched text `text`. It is total: every kind builds a token from
    /// every text.
    pub fn build(kind: TokenKind, index: i128, text: &str) -> (token: Token)
        ensures
            token@ == token_of(kind, index as int, text@),
    {
        match kind {
            TokenKind::Whitespace => Token::Whitespace,
            TokenKind::LineBreak => Token::LineBreak { index },
            TokenKind::Comment => Token::Comment { index, value: remove_marker(text) },
            TokenKind::StringLiteral => Token::StringLiteral {
                index,
                value: remove_first_and_last(text),
            },
            TokenKind::NumberLiteral => Token::NumberLiteral {
                index,
                value: String::from_str(text),
            },
            TokenKind::Identifier => Token::Identifier { index, value: String::from_str(text) },
            TokenKind::Null => Token::Null { index },
            TokenKind::True => Token::True { index },
            TokenKind::False => Token::False { index },
            TokenKind::As => Token::As { index },
            TokenKind::For => Token::For { index },
            TokenKind::While => Token::While { index },
            TokenKind::Break => Token::Break { index },
            TokenKind::Continue => Token::Continue { index },
            TokenKind::If => Token::If { index },
            TokenKind::Else => Token::Else { index },
            TokenKind::Return => Token::Return { index },
            TokenKind::Let => Token::Let { index },
            TokenKind::Const => Token::Const { index },
            TokenKind::Start => Token::Start { index },
            TokenKind::OnLoop => Token::OnLoop { index },
            TokenKind::IntKeyword => Token::IntKeyword { index },
            TokenKind::DecimalKeyword => Token::DecimalKeyword { index },
            TokenKind::StringKeyword => Token::StringKeyword { index },
            TokenKind::BooleanKeyword => Token::BooleanKeyword { index },
            TokenKind::LBrace => Token::LBrace { index },
            TokenKind::RBrace => Token::RBrace { index },
            TokenKind::LBracket => Token::LBracket { index },
            TokenKind::RBracket => Token::RBracket { index },
            TokenKind::LParen => Token::LParen { index },
            TokenKind::RParen => Token::RParen { index },
            TokenKind::Semicolon => Token::Semicolon { index },
            TokenKind::Colon => Token::Colon { index },
            TokenKind::Dot => Token::Dot { index },
            TokenKind::Comma => Token::Comma { index },
            TokenKind::Pow => Token::Pow { index },
            TokenKind::Star => Token::Star { index },
            TokenKind::DoubleEq => Token::DoubleEq { index },
            TokenKind::Arrow => Token::Arrow { index },
            TokenKind::Eq => Token::Eq { index },
            TokenKind::NotEq => Token::NotEq { index },
            TokenKind::AndAnd => Token::AndAnd { index },
            TokenKind::And => Token::And { index },
            TokenKind::Caret => Token::Caret { index },
            TokenKind::Tilde => Token::Tilde { index },
            TokenKind::Bang => Token::Bang { index },
            TokenKind::OrOr => Token::OrOr { index },
            TokenKind::Or => Token::Or { index },
            TokenKind::PlusPlus => Token::PlusPlus { index },
            TokenKind::Plus => Token::Plus { index },
            TokenKind::MinusMinus => Token::MinusMinus { index },
            TokenKind::Minus => Token::Minus { index },
            TokenKind::Backslash => Token::Backslash { index },
            TokenKind::Percent => Token::Percent { index },
            TokenKind::QMark => Token::QMark { index },
            TokenKind::GreaterThanOrEqual => Token::GreaterThanOrEqual { index },
            TokenKind::LessThanOrEqual => Token::LessThanOrEqual { index },
            TokenKind::BitshiftRight => Token::BitshiftRight { index },
            TokenKind::GreaterThan => Token::GreaterThan { index },
            TokenKind::BitShiftLeft => Token::BitShiftLeft { index },
            TokenKind::LessThan => Token::LessThan { index },
        }
    }
}

} // verus!
