use vstd::prelude::*;
use crate::enums::TokenType;
use crate::structs::Token;

verus! {

/// The primitive type names.
pub open spec fn spec_is_var_type(t: TokenType) -> bool {
    match t {
        TokenType::Bool | TokenType::Char | TokenType::Int | TokenType::F32 | TokenType::F64
        | TokenType::I16 | TokenType::I32 | TokenType::I64 | TokenType::I8 | TokenType::U16
        | TokenType::U32 | TokenType::U64 | TokenType::Usize | TokenType::U8 | TokenType::String
        | TokenType::Void => true,
        _ => false,
    }
}

/// The integer type names.
pub open spec fn spec_is_integer_var_type(t: TokenType) -> bool {
    match t {
        TokenType::Int | TokenType::I16 | TokenType::I32 | TokenType::I64 | TokenType::I8
        | TokenType::U16 | TokenType::U32 | TokenType::U64 | TokenType::Usize
        | TokenType::U8 => true,
        _ => false,
    }
}

/// What may stand as the base of a type: a primitive type or a name.
pub open spec fn spec_is_type_kind(t: TokenType) -> bool {
    spec_is_var_type(t) || t == TokenType::Identifier
}

/// The binding strength of a binary operator, from `||` (1) to `*` and `/`
/// (6); 0 for every other kind.
pub open spec fn precedence(t: TokenType) -> usize {
    match t {
        TokenType::OrOr => 1,
        TokenType::AndAnd => 2,
        TokenType::EqualsEquals | TokenType::NotEquals => 3,
        TokenType::LessThan | TokenType::GreaterThan | TokenType::LessThanEquals
        | TokenType::GreaterThanEquals => 4,
        TokenType::Plus | TokenType::Minus => 5,
        TokenType::Multiply | TokenType::Divide => 6,
        _ => 0,
    }
}

/// The binary operators are the kinds with a precedence.
pub open spec fn spec_is_binary_operator(t: TokenType) -> bool {
    precedence(t) > 0
}

pub fn is_type_token(token: Token) -> (r: bool)
    ensures
        r == spec_is_type_kind(token.token_type),
{
    if is_var_type(token.token_type) {
        return true;
    }
    token.token_type == TokenType::Identifier
}

pub fn is_binary_operator_bool(token_type: TokenType) -> (r: bool)
    ensures
        r == spec_is_binary_operator(token_type),
{
    token_type == TokenType::Plus || token_type == TokenType::Minus || token_type
        == TokenType::Multiply || token_type == TokenType::Divide || token_type
        == TokenType::AndAnd || token_type == TokenType::OrOr || token_type
        == TokenType::LessThan || token_type == TokenType::LessThanEquals || token_type
        == TokenType::GreaterThan || token_type == TokenType::GreaterThanEquals || token_type
        == TokenType::EqualsEquals || token_type == TokenType::NotEquals
}

pub fn is_var_type(token_type: TokenType) -> (r: bool)
    ensures
        r == spec_is_var_type(token_type),
{
    match token_type {
        TokenType::Bool | TokenType::Char | TokenType::Int | TokenType::F32 | TokenType::F64
        | TokenType::I16 | TokenType::I32 | TokenType::I64 | TokenType::I8 | TokenType::U16
        | TokenType::U32 | TokenType::U64 | TokenType::Usize | TokenType::U8 | TokenType::String
        | TokenType::Void => true,
        _ => false,
    }
}

pub fn is_integer_var_type(token_type: TokenType) -> (r: bool)
    ensures
        r == spec_is_integer_var_type(token_type),
{
    match token_type {
        TokenType::Int | TokenType::I16 | TokenType::I32 | TokenType::I64 | TokenType::I8
        | TokenType::U16 | TokenType::U32 | TokenType::U64 | TokenType::Usize
        | TokenType::U8 => true,
        _ => false,
    }
}

pub fn get_precedence_bool(token_type: TokenType) -> (r: usize)
    ensures
        r == precedence(token_type),
        r <= 6,
{
    match token_type {
        TokenType::OrOr => 1,
        TokenType::AndAnd => 2,
        TokenType::EqualsEquals | TokenType::NotEquals => 3,
        TokenType::LessThan | TokenType::GreaterThan | TokenType::LessThanEquals
        | TokenType::GreaterThanEquals => 4,
        TokenType::Plus | TokenType::Minus => 5,
        TokenType::Multiply | TokenType::Divide => 6,
        _ => 0,
    }
}

} // verus!
