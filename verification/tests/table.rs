use tokenizer::token::Token;
use tokenizer::tokenizer::Tokenizer;

fn only(input: &str, expected: Token) {
    assert_eq!(Tokenizer::tokenize(input), Ok(vec![expected, Token::EOF]), "input {:?}", input);
}

#[test]
fn brackets_and_separators() {
    only("{", Token::LBrace { index: 0 });
    only("}", Token::RBrace { index: 0 });
    only("[", Token::LBracket { index: 0 });
    only("]", Token::RBracket { index: 0 });
    only("(", Token::LParen { index: 0 });
    only(")", Token::RParen { index: 0 });
    only(";", Token::Semicolon { index: 0 });
    only(":", Token::Colon { index: 0 });
    only(".", Token::Dot { index: 0 });
    only(",", Token::Comma { index: 0 });
}

#[test]
fn single_character_operators() {
    only("*", Token::Star { index: 0 });
    only("=", Token::Eq { index: 0 });
    only("&", Token::And { index: 0 });
    only("^", Token::Caret { index: 0 });
    only("~", Token::Tilde { index: 0 });
    only("!", Token::Bang { index: 0 });
    only("|", Token::Or { index: 0 });
    only("+", Token::Plus { index: 0 });
    only("-", Token::Minus { index: 0 });
    only("\\", Token::Backslash { index: 0 });
    only("%", Token::Percent { index: 0 });
    only("?", Token::QMark { index: 0 });
    only(">", Token::GreaterThan { index: 0 });
}

#[test]
fn operators_of_two_characters_are_one_token() {
    only("**", Token::Pow { index: 0 });
    only("==", Token::DoubleEq { index: 0 });
    only("->", Token::Arrow { index: 0 });
    only("!=", Token::NotEq { index: 0 });
    only("&&", Token::AndAnd { index: 0 });
    only("||", Token::OrOr { index: 0 });
    only("++", Token::PlusPlus { index: 0 });
    only("--", Token::MinusMinus { index: 0 });
    only(">=", Token::GreaterThanOrEqual { index: 0 });
    only("<=", Token::LessThanOrEqual { index: 0 });
    only(">>", Token::BitshiftRight { index: 0 });
    only("<<", Token::BitShiftLeft { index: 0 });
}

#[test]
fn keywords_of_values_and_types() {
    only("null", Token::Null { index: 0 });
    only("true", Token::True { index: 0 });
    only("false", Token::False { index: 0 });
    only("int", Token::IntKeyword { index: 0 });
    only("decimal", Token::DecimalKeyword { index: 0 });
    only("string", Token::StringKeyword { index: 0 });
    only("bool", Token::BooleanKeyword { index: 0 });
    only("let", Token::Let { index: 0 });
    only("const", Token::Const { index: 0 });
}

#[test]
fn keywords_of_control_flow() {
    only("start", Token::Start { index: 0 });
    only("as", Token::As { index: 0 });
    only("for", Token::For { index: 0 });
    only("while", Token::While { index: 0 });
    only("break", Token::Break { index: 0 });
    only("continue", Token::Continue { index: 0 });
    only("if", Token::If { index: 0 });
    only("else", Token::Else { index: 0 });
    only("return", Token::Return { index: 0 });
}

#[test]
fn words_without_a_rule_are_identifiers() {
    only("onloop", Token::Identifier { index: 0, value: "onloop".to_string() });
    only("Let", Token::Identifier { index: 0, value: "Let".to_string() });
    only("nullable", Token::Identifier { index: 0, value: "nullable".to_string() });
}
