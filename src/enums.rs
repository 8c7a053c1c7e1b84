use vstd::prelude::*;

verus! {

/// The kind of a lexeme.
#[derive(Clone, Copy, Debug, PartialEq, Eq, Structural)]
pub enum TokenType {
    Na,
    // Keywords
    Fn,
    If,
    Else,
    For,
    While,
    Return,
    Break,
    Continue,
    Print,
    Println,
    True,
    False,
    In,
    New,
    Defer,
    Delete,
    Const,
    // Primitive types
    I8,
    U8,
    I16,
    U16,
    I32,
    U32,
    I64,
    U64,
    Usize,
    F32,
    F64,
    String,
    Bool,
    Char,
    Void,
    Int,
    // Operators
    Plus,
    PlusPlus,
    Minus,
    Multiply,
    Divide,
    Equals,
    PlusEquals,
    MinusEquals,
    MultiplyEquals,
    DivideEquals,
    GreaterThan,
    LessThan,
    EqualsEquals,
    GreaterThanEquals,
    LessThanEquals,
    Modulus,
    ModulusEquals,
    NotEquals,
    And,
    AndAnd,
    Or,
    OrOr,
    // Punctuation
    LeftParenthesis,
    RightParenthesis,
    LeftBrace,
    RightBrace,
    LeftSquareBracket,
    RightSquareBracket,
    Semicolon,
    Comma,
    FullStop,
    // Literals, names and comments
    IntegerValue,
    DecimalValue,
    StringValue,
    CharValue,
    Identifier,
    Comment,
    EndComment,
}

/// The kind of a syntax tree node.
#[derive(Clone, Copy, Debug, PartialEq, Eq, Structural)]
pub enum ASTNodeType {
    Invalid,
    FunctionDeclaration,
    FunctionBody,
    Parameters,
    Parameter,
    VarType,
    Pointer,
    Print,
    Println,
    PrintExpression,
    BoolLiteral,
    IntegerLiteral,
    StringLiteral,
    CharLiteral,
}

} // verus!
