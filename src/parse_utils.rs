use vstd::prelude::*;
use vstd::string::StrSliceExecFns;
use crate::enums::TokenType;

verus! {

pub open spec fn spec_is_operator(c: char) -> bool {
    c == '+' || c == '-' || c == '/' || c == '*' || c == '|' || c == '&' || c == '%' || c == '>'
        || c == '<' || c == '='
}

pub open spec fn spec_is_separator(c: char) -> bool {
    c == ';' || c == '(' || c == ')' || c == '{' || c == '}' || c == '[' || c == ']' || c == ','
        || c == '.' || c == '\n' || c == '\r' || c == '\t' || c == '\\'
}

pub open spec fn spec_is_digit(c: char) -> bool {
    '0' <= c <= '9'
}

pub open spec fn spec_is_letter_or_digit(c: char) -> bool {
    ('a' <= c <= 'z') || ('A' <= c <= 'Z') || ('0' <= c <= '9')
}

/// Digits, with at most a leading minus sign.
pub open spec fn spec_is_integer(s: Seq<char>) -> bool {
    forall|i: int|
        0 <= i < s.len() ==> if s[i] == '-' {
            i == 0
        } else {
            spec_is_digit(#[trigger] s[i])
        }
}

/// Digits and full stops, with at most a leading minus sign.
pub open spec fn spec_is_decimal(s: Seq<char>) -> bool {
    forall|i: int|
        0 <= i < s.len() ==> if s[i] == '-' {
            i == 0
        } else {
            s[i] == '.' || spec_is_digit(#[trigger] s[i])
        }
}

/// The kind of a lexeme's text: a keyword, a type name, an operator or a
/// punctuation mark by its spelling, else a number, a quoted value or a name.
pub open spec fn token_kind(s: Seq<char>) -> TokenType {
    if s == "fn"@ { TokenType::Fn }
    else if s == "if"@ { TokenType::If }
    else if s == "else"@ { TokenType::Else }
    else if s == "for"@ { TokenType::For }
    else if s == "while"@ { TokenType::While }
    else if s == "return"@ { TokenType::Return }
    else if s == "break"@ { TokenType::Break }
    else if s == "continue"@ { TokenType::Continue }
    else if s == "print"@ { TokenType::Print }
    else if s == "println"@ { TokenType::Println }
    else if s == "true"@ { TokenType::True }
    else if s == "false"@ { TokenType::False }
    else if s == "in"@ { TokenType::In }
    else if s == "defer"@ { TokenType::Defer }
    else if s == "new"@ { TokenType::New }
    else if s == "u8"@ { TokenType::U8 }
    else if s == "i8"@ { TokenType::I8 }
    else if s == "i32"@ { TokenType::I32 }
    else if s == "f32"@ { TokenType::F32 }
    else if s == "f64"@ { TokenType::F64 }
    else if s == "i64"@ { TokenType::I64 }
    else if s == "u64"@ { TokenType::U64 }
    else if s == "string"@ { TokenType::String }
    else if s == "bool"@ { TokenType::Bool }
    else if s == "char"@ { TokenType::Char }
    else if s == "void"@ { TokenType::Void }
    else if s == "const"@ { TokenType::Const }
    else if s == "int"@ { TokenType::I32 }
    else if s == "usize"@ { TokenType::Usize }
    else if s == "++"@ { TokenType::PlusPlus }
    else if s == "+"@ { TokenType::Plus }
    else if s == "-"@ { TokenType::Minus }
    else if s == "*"@ { TokenType::Multiply }
    else if s == "/"@ { TokenType::Divide }
    else if s == "="@ { TokenType::Equals }
    else if s == "+="@ { TokenType::PlusEquals }
    else if s == "-="@ { TokenType::MinusEquals }
    else if s == "*="@ { TokenType::MultiplyEquals }
    else if s == "/="@ { TokenType::DivideEquals }
    else if s == ">"@ { TokenType::GreaterThan }
    else if s == "<"@ { TokenType::LessThan }
    else if s == "=="@ { TokenType::EqualsEquals }
    else if s == ">="@ { TokenType::GreaterThanEquals }
    else if s == "<="@ { TokenType::LessThanEquals }
    else if s == "%"@ { TokenType::Modulus }
    else if s == "!="@ { TokenType::NotEquals }
    else if s == "&"@ { TokenType::And }
    else if s == "&&"@ { TokenType::AndAnd }
    else if s == "|"@ { TokenType::Or }
    else if s == "||"@ { TokenType::OrOr }
    else if s == "%="@ { TokenType::ModulusEquals }
    else if s == "//"@ { TokenType::Comment }
    else if s == "delete"@ { TokenType::Delete }
    else if s == "("@ { TokenType::LeftParenthesis }
    else if s == ")"@ { TokenType::RightParenthesis }
    else if s == "{"@ { TokenType::LeftBrace }
    else if s == "}"@ { TokenType::RightBrace }
    else if s == "["@ { TokenType::LeftSquareBracket }
    else if s == "]"@ { TokenType::RightSquareBracket }
    else if s == ";"@ { TokenType::Semicolon }
    else if s == ","@ { TokenType::Comma }
    else if s == "."@ { TokenType::FullStop }
    else if spec_is_integer(s) { TokenType::IntegerValue }
    else if spec_is_decimal(s) { TokenType::DecimalValue }
    else if s.contains('"') { TokenType::StringValue }
    else if s.contains('\'') { TokenType::CharValue }
    else { TokenType::Identifier }
}

/// Whether `input` reads `word`.
fn text_is(input: &String, word: &str) -> (r: bool)
    ensures
        r == (input@ == word@),
{
    let w: String = word.to_owned();
    *input == w
}

/// Whether `input` holds the character `c`.
fn text_contains(input: &String, c: char) -> (r: bool)
    ensures
        r == input@.contains(c),
{
    let s: &str = input.as_str();
    let length: usize = s.unicode_len();
    let mut i: usize = 0;
    while i < length
        invariant
            length == input@.len(),
            s@ == input@,
            i <= length,
            forall|k: int| 0 <= k < i ==> input@[k] != c,
        decreases length - i,
    {
        if s.get_char(i) == c {
            return true;
        }
        i += 1;
    }
    false
}

pub fn get_token_type(input: &String) -> (r: TokenType)
    ensures
        r == token_kind(input@),
{
    if text_is(input, "fn") { return TokenType::Fn; }
    if text_is(input, "if") { return TokenType::If; }
    if text_is(input, "else") { return TokenType::Else; }
    if text_is(input, "for") { return TokenType::For; }
    if text_is(input, "while") { return TokenType::While; }
    if text_is(input, "return") { return TokenType::Return; }
    if text_is(input, "break") { return TokenType::Break; }
    if text_is(input, "continue") { return TokenType::Continue; }
    if text_is(input, "print") { return TokenType::Print; }
    if text_is(input, "println") { return TokenType::Println; }
    if text_is(input, "true") { return TokenType::True; }
    if text_is(input, "false") { return TokenType::False; }
    if text_is(input, "in") { return TokenType::In; }
    if text_is(input, "defer") { return TokenType::Defer; }
    if text_is(input, "new") { return TokenType::New; }
    if text_is(input, "u8") { return TokenType::U8; }
    if text_is(input, "i8") { return TokenType::I8; }
    if text_is(input, "i32") { return TokenType::I32; }
    if text_is(input, "f32") { return TokenType::F32; }
    if text_is(input, "f64") { return TokenType::F64; }
    if text_is(input, "i64") { return TokenType::I64; }
    if text_is(input, "u64") { return TokenType::U64; }
    if text_is(input, "string") { return TokenType::String; }
    if text_is(input, "bool") { return TokenType::Bool; }
    if text_is(input, "char") { return TokenType::Char; }
    if text_is(input, "void") { return TokenType::Void; }
    if text_is(input, "const") { return TokenType::Const; }
    if text_is(input, "int") { return TokenType::I32; }
    if text_is(input, "usize") { return TokenType::Usize; }
    if text_is(input, "++") { return TokenType::PlusPlus; }
    if text_is(input, "+") { return TokenType::Plus; }
    if text_is(input, "-") { return TokenType::Minus; }
    if text_is(input, "*") { return TokenType::Multiply; }
    if text_is(input, "/") { return TokenType::Divide; }
    if text_is(input, "=") { return TokenType::Equals; }
    if text_is(input, "+=") { return TokenType::PlusEquals; }
    if text_is(input, "-=") { return TokenType::MinusEquals; }
    if text_is(input, "*=") { return TokenType::MultiplyEquals; }
    if text_is(input, "/=") { return TokenType::DivideEquals; }
    if text_is(input, ">") { return TokenType::GreaterThan; }
    if text_is(input, "<") { return TokenType::LessThan; }
    if text_is(input, "==") { return TokenType::EqualsEquals; }
    if text_is(input, ">=") { return TokenType::GreaterThanEquals; }
    if text_is(input, "<=") { return TokenType::LessThanEquals; }
    if text_is(input, "%") { return TokenType::Modulus; }
    if text_is(input, "!=") { return TokenType::NotEquals; }
    if text_is(input, "&") { return TokenType::And; }
    if text_is(input, "&&") { return TokenType::AndAnd; }
    if text_is(input, "|") { return TokenType::Or; }
    if text_is(input, "||") { return TokenType::OrOr; }
    if text_is(input, "%=") { return TokenType::ModulusEquals; }
    if text_is(input, "//") { return TokenType::Comment; }
    if text_is(input, "delete") { return TokenType::Delete; }
    if text_is(input, "(") { return TokenType::LeftParenthesis; }
    if text_is(input, ")") { return TokenType::RightParenthesis; }
    if text_is(input, "{") { return TokenType::LeftBrace; }
    if text_is(input, "}") { return TokenType::RightBrace; }
    if text_is(input, "[") { return TokenType::LeftSquareBracket; }
    if text_is(input, "]") { return TokenType::RightSquareBracket; }
    if text_is(input, ";") { return TokenType::Semicolon; }
    if text_is(input, ",") { return TokenType::Comma; }
    if text_is(input, ".") { return TokenType::FullStop; }
    if is_integer(input) { return TokenType::IntegerValue; }
    if is_decimal(input) { return TokenType::DecimalValue; }
    if text_contains(input, '"') { return TokenType::StringValue; }
    if text_contains(input, '\'') { return TokenType::CharValue; }
    TokenType::Identifier
}

pub fn is_operator(character: char) -> (r: bool)
    ensures
        r == spec_is_operator(character),
{
    character == '+' || character == '-' || character == '/' || character == '*' || character
        == '|' || character == '&' || character == '%' || character == '>' || character == '<'
        || character == '='
}

pub fn is_separator(character: char) -> (r: bool)
    ensures
        r == spec_is_separator(character),
{
    character == ';' || character == '(' || character == ')' || character == '{' || character
        == '}' || character == '[' || character == ']' || character == ',' || character == '.'
        || character == '\n' || character == '\r' || character == '\t' || character == '\\'
}

pub fn is_integer(input: &String) -> (r: bool)
    ensures
        r == spec_is_integer(input@),
{
    let s: &str = input.as_str();
    let length: usize = s.unicode_len();
    let mut i: usize = 0;
    while i < length
        invariant
            length == input@.len(),
            s@ == input@,
            i <= length,
            forall|k: int|
                0 <= k < i ==> if input@[k] == '-' {
                    k == 0
                } else {
                    spec_is_digit(#[trigger] input@[k])
                },
        decreases length - i,
    {
        let current_char: char = s.get_char(i);
        if current_char == '-' {
            if i != 0 {
                return false;
            }
        } else if !is_digit(current_char) {
            return false;
        }
        i += 1;
    }
    true
}

pub fn is_decimal(input: &String) -> (r: bool)
    ensures
        r == spec_is_decimal(input@),
{
    let s: &str = input.as_str();
    let length: usize = s.unicode_len();
    let mut i: usize = 0;
    while i < length
        invariant
            length == input@.len(),
            s@ == input@,
            i <= length,
            forall|k: int|
                0 <= k < i ==> if input@[k] == '-' {
                    k == 0
                } else {
                    input@[k] == '.' || spec_is_digit(#[trigger] input@[k])
                },
        decreases length - i,
    {
        let current_char: char = s.get_char(i);
        if current_char == '-' {
            if i != 0 {
                return false;
            }
        } else if current_char != '.' && !is_digit(current_char) {
            return false;
        }
        i += 1;
    }
    true
}

pub fn is_letter_or_digit(character: char) -> (r: bool)
    ensures
        r == spec_is_letter_or_digit(character),
{
    ('a' <= character && character <= 'z') || ('A' <= character && character <= 'Z') || ('0'
        <= character && character <= '9')
}

pub fn is_digit(character: char) -> (r: bool)
    ensures
        r == spec_is_digit(character),
{
    '0' <= character && character <= '9'
}

} // verus!
