use vstd::prelude::*;

verus! {

/// Failures of the lexer.
#[derive(Clone, Copy, Debug, PartialEq, Eq, Structural)]
pub enum ParseError {
    CodeLengthIsZero,
    UnterminatedString,
    UnexpectedValue,
    UnterminatedChar,
}

/// Failures of the syntax tree builder.
#[derive(Clone, Copy, Debug, PartialEq, Eq, Structural)]
pub enum AstError {
    InfiniteWhileLoop,
    IndexOutOfRange,
    InvalidDeclaration,
    UnexpectedType,
    UnimplementedType,
    MissingExpectedType,
    UnexpectedEndOfFile,
    NullType,
    OutOfMemory,
}

/// Failures of the code emitter.
#[derive(Clone, Copy, Debug, PartialEq, Eq, Structural)]
pub enum ConvertError {
    NodeIsNull,
    NoAstNodes,
    OutOfMemory,
    UnimplementedNodeType,
    InvalidReturnType,
    InvalidNodeType,
    NodeIndexOutOfRange,
}

/// Failures of semantic checking.
#[derive(Clone, Copy, Debug, PartialEq, Eq, Structural)]
pub enum SemanticError {
    FunctionRedefinition,
    VariableRedefinition,
    OutOfMemory,
}

pub open spec fn parse_error_name(error: ParseError) -> Seq<char> {
    match error {
        ParseError::CodeLengthIsZero => "Code_Length_Is_Zero"@,
        ParseError::UnterminatedString => "Unterminated_String"@,
        ParseError::UnexpectedValue => "Unexpected_Value"@,
        ParseError::UnterminatedChar => "Unterminated_Char"@,
    }
}

pub fn parse_error_to_string(error: ParseError) -> (r: &'static str)
    ensures
        r@ == parse_error_name(error),
{
    match error {
        ParseError::CodeLengthIsZero => "Code_Length_Is_Zero",
        ParseError::UnterminatedString => "Unterminated_String",
        ParseError::UnexpectedValue => "Unexpected_Value",
        ParseError::UnterminatedChar => "Unterminated_Char",
    }
}

pub open spec fn ast_error_name(error: AstError) -> Seq<char> {
    match error {
        AstError::InfiniteWhileLoop => "Infinite_While_Loop"@,
        AstError::IndexOutOfRange => "Index_Out_Of_Range"@,
        AstError::InvalidDeclaration => "Invalid_Declaration"@,
        AstError::UnexpectedType => "Unexpected_Type"@,
        AstError::UnimplementedType => "Unimplemented_Type"@,
        AstError::MissingExpectedType => "Missing_Expected_Type"@,
        AstError::UnexpectedEndOfFile => "Unexpected_End_Of_File"@,
        AstError::NullType => "Null_Type"@,
        AstError::OutOfMemory => "Out_Of_Memory"@,
    }
}

pub fn ast_error_to_string(error: AstError) -> (r: &'static str)
    ensures
        r@ == ast_error_name(error),
{
    match error {
        AstError::InfiniteWhileLoop => "Infinite_While_Loop",
        AstError::IndexOutOfRange => "Index_Out_Of_Range",
        AstError::InvalidDeclaration => "Invalid_Declaration",
        AstError::UnexpectedType => "Unexpected_Type",
        AstError::UnimplementedType => "Unimplemented_Type",
        AstError::MissingExpectedType => "Missing_Expected_Type",
        AstError::UnexpectedEndOfFile => "Unexpected_End_Of_File",
        AstError::NullType => "Null_Type",
        AstError::OutOfMemory => "Out_Of_Memory",
    }
}

pub open spec fn convert_error_name(error: ConvertError) -> Seq<char> {
    match error {
        ConvertError::NodeIsNull => "Node_Is_Null"@,
        ConvertError::NoAstNodes => "No_AST_Nodes"@,
        ConvertError::OutOfMemory => "Out_Of_Memory"@,
        ConvertError::UnimplementedNodeType => "Unimplemented_Node_Type"@,
        ConvertError::InvalidReturnType => "Invalid_Return_Type"@,
        ConvertError::InvalidNodeType => "Invalid_Node_Type"@,
        ConvertError::NodeIndexOutOfRange => "NodeIndexOutOfRange"@,
    }
}

pub fn convert_error_to_string(error: ConvertError) -> (r: &'static str)
    ensures
        r@ == convert_error_name(error),
{
    match error {
        ConvertError::NodeIsNull => "Node_Is_Null",
        ConvertError::NoAstNodes => "No_AST_Nodes",
        ConvertError::OutOfMemory => "Out_Of_Memory",
        ConvertError::UnimplementedNodeType => "Unimplemented_Node_Type",
        ConvertError::InvalidReturnType => "Invalid_Return_Type",
        ConvertError::InvalidNodeType => "Invalid_Node_Type",
        ConvertError::NodeIndexOutOfRange => "NodeIndexOutOfRange",
    }
}

pub open spec fn semantic_error_name(error: SemanticError) -> Seq<char> {
    match error {
        SemanticError::FunctionRedefinition => "Function_Redefinition"@,
        SemanticError::VariableRedefinition => "Variable_Redefinition"@,
        SemanticError::OutOfMemory => "Out_Of_Memory"@,
    }
}

pub fn semantic_error_to_string(error: SemanticError) -> (r: &'static str)
    ensures
        r@ == semantic_error_name(error),
{
    match error {
        SemanticError::FunctionRedefinition => "Function_Redefinition",
        SemanticError::VariableRedefinition => "Variable_Redefinition",
        SemanticError::OutOfMemory => "Out_Of_Memory",
    }
}

} // verus!
