use togo::enums::TokenType;
use togo::errors::ParseError;
use togo::parse_utils::get_token_type;
use togo::parse_utils::is_decimal;
use togo::parse_utils::is_digit;
use togo::parse_utils::is_integer;
use togo::parse_utils::is_letter_or_digit;
use togo::parse_utils::is_operator;
use togo::parse_utils::is_separator;
use togo::parsing::parse_to_tokens;
use togo::structs::Token;

fn lex(code: &str) -> (Vec<Token>, Option<ParseError>) {
    let mut error = Some(ParseError::UnexpectedValue);
    let tokens = parse_to_tokens(&code.to_string(), &mut error);
    (tokens, error)
}

fn summary(tokens: &[Token]) -> Vec<(String, TokenType, usize, usize)> {
    tokens
        .iter()
        .map(|t| (t.text.clone(), t.token_type, t.line_number, t.char_number))
        .collect()
}

#[test]
fn hello_world_tokens() {
    let (tokens, error) = lex("fn void main() {\n    println(\"Hello world!\");\n}");
    assert_eq!(error, None);
    let expected = vec![
        ("fn".to_string(), TokenType::Fn, 0, 1),
        ("void".to_string(), TokenType::Void, 0, 4),
        ("main".to_string(), TokenType::Identifier, 0, 9),
        ("(".to_string(), TokenType::LeftParenthesis, 0, 13),
        (")".to_string(), TokenType::RightParenthesis, 0, 14),
        ("{".to_string(), TokenType::LeftBrace, 0, 16),
        ("println".to_string(), TokenType::Println, 1, 5),
        ("(".to_string(), TokenType::LeftParenthesis, 1, 12),
        ("Hello world!".to_string(), TokenType::StringValue, 1, 13),
        (")".to_string(), TokenType::RightParenthesis, 1, 27),
        (";".to_string(), TokenType::Semicolon, 1, 28),
        ("}".to_string(), TokenType::RightBrace, 2, 1),
    ];
    assert_eq!(summary(&tokens), expected);
}

#[test]
fn empty_source_is_an_error() {
    let (tokens, error) = lex("");
    assert_eq!(error, Some(ParseError::CodeLengthIsZero));
    assert!(tokens.is_empty());
}

#[test]
fn unterminated_string() {
    let (tokens, error) = lex("print(\"abc");
    assert_eq!(error, Some(ParseError::UnterminatedString));
    assert_eq!(tokens.len(), 2);
}

#[test]
fn unterminated_char() {
    let (_, error) = lex("'ab'");
    assert_eq!(error, Some(ParseError::UnterminatedChar));
}

#[test]
fn char_literal_at_end() {
    let (_, error) = lex("'a");
    assert_eq!(error, Some(ParseError::UnexpectedValue));
}

#[test]
fn char_literal() {
    let (tokens, error) = lex("'x'");
    assert_eq!(error, None);
    assert_eq!(summary(&tokens), vec![("x".to_string(), TokenType::CharValue, 0, 1)]);
}

#[test]
fn operators_pair_up() {
    let (tokens, error) = lex("a<=b&&c==-1");
    assert_eq!(error, None);
    let kinds: Vec<TokenType> = tokens.iter().map(|t| t.token_type).collect();
    assert_eq!(
        kinds,
        vec![
            TokenType::Identifier,
            TokenType::LessThanEquals,
            TokenType::Identifier,
            TokenType::AndAnd,
            TokenType::Identifier,
            TokenType::EqualsEquals,
            TokenType::Minus,
            TokenType::IntegerValue,
        ]
    );
    assert_eq!(tokens[5].text, "==");
}

#[test]
fn comment_gets_end_marker() {
    let (tokens, error) = lex("// hi\nfn");
    assert_eq!(error, None);
    assert_eq!(
        summary(&tokens),
        vec![
            ("//".to_string(), TokenType::Comment, 0, 1),
            ("hi".to_string(), TokenType::Identifier, 0, 4),
            ("".to_string(), TokenType::EndComment, 0, 6),
            ("fn".to_string(), TokenType::Fn, 1, 1),
        ]
    );
}

#[test]
fn keyword_table() {
    assert_eq!(get_token_type(&"fn".to_string()), TokenType::Fn);
    assert_eq!(get_token_type(&"println".to_string()), TokenType::Println);
    assert_eq!(get_token_type(&"int".to_string()), TokenType::I32);
    assert_eq!(get_token_type(&"usize".to_string()), TokenType::Usize);
    assert_eq!(get_token_type(&"const".to_string()), TokenType::Const);
    assert_eq!(get_token_type(&"||".to_string()), TokenType::OrOr);
    assert_eq!(get_token_type(&"!=".to_string()), TokenType::NotEquals);
    assert_eq!(get_token_type(&"-42".to_string()), TokenType::IntegerValue);
    assert_eq!(get_token_type(&"3.5".to_string()), TokenType::DecimalValue);
    assert_eq!(get_token_type(&"a\"b".to_string()), TokenType::StringValue);
    assert_eq!(get_token_type(&"a'b".to_string()), TokenType::CharValue);
    assert_eq!(get_token_type(&"name_1".to_string()), TokenType::Identifier);
}

#[test]
fn character_classes() {
    assert!(is_operator('%'));
    assert!(!is_operator('!'));
    assert!(is_separator(';'));
    assert!(!is_separator('a'));
    assert!(is_digit('7'));
    assert!(!is_digit('a'));
    assert!(is_letter_or_digit('Q'));
    assert!(!is_letter_or_digit('_'));
    assert!(is_integer(&"-12".to_string()));
    assert!(!is_integer(&"1-2".to_string()));
    assert!(!is_integer(&"1.5".to_string()));
    assert!(is_decimal(&"1.5".to_string()));
    assert!(!is_decimal(&"1.5x".to_string()));
}

#[test]
fn unknown_character_is_skipped_with_empty_token() {
    let (tokens, error) = lex("a#b");
    assert_eq!(error, None);
    assert_eq!(
        summary(&tokens),
        vec![
            ("a".to_string(), TokenType::Identifier, 0, 1),
            ("".to_string(), TokenType::IntegerValue, 0, 2),
            ("b".to_string(), TokenType::Identifier, 0, 3),
        ]
    );
}
