use togo::debugging::add_spacing;
use togo::debugging::is_infinite_while;
use togo::errors::ast_error_to_string;
use togo::errors::convert_error_to_string;
use togo::errors::parse_error_to_string;
use togo::errors::semantic_error_to_string;
use togo::errors::AstError;
use togo::errors::ConvertError;
use togo::errors::ParseError;
use togo::errors::SemanticError;
use togo::structs::empty_token;
use togo::structs::ASTData;
use togo::structs::ConvertData;
use togo::structs::Token;
use togo::enums::TokenType;
use togo::structs::get_default_node;
use togo::structs::ASTNode;

#[test]
fn error_names() {
    assert_eq!(parse_error_to_string(ParseError::CodeLengthIsZero), "Code_Length_Is_Zero");
    assert_eq!(parse_error_to_string(ParseError::UnterminatedString), "Unterminated_String");
    assert_eq!(parse_error_to_string(ParseError::UnexpectedValue), "Unexpected_Value");
    assert_eq!(parse_error_to_string(ParseError::UnterminatedChar), "Unterminated_Char");
    assert_eq!(ast_error_to_string(AstError::InfiniteWhileLoop), "Infinite_While_Loop");
    assert_eq!(ast_error_to_string(AstError::IndexOutOfRange), "Index_Out_Of_Range");
    assert_eq!(ast_error_to_string(AstError::InvalidDeclaration), "Invalid_Declaration");
    assert_eq!(ast_error_to_string(AstError::UnexpectedType), "Unexpected_Type");
    assert_eq!(ast_error_to_string(AstError::UnimplementedType), "Unimplemented_Type");
    assert_eq!(ast_error_to_string(AstError::MissingExpectedType), "Missing_Expected_Type");
    assert_eq!(ast_error_to_string(AstError::UnexpectedEndOfFile), "Unexpected_End_Of_File");
    assert_eq!(ast_error_to_string(AstError::NullType), "Null_Type");
    assert_eq!(ast_error_to_string(AstError::OutOfMemory), "Out_Of_Memory");
    assert_eq!(convert_error_to_string(ConvertError::NodeIsNull), "Node_Is_Null");
    assert_eq!(convert_error_to_string(ConvertError::NoAstNodes), "No_AST_Nodes");
    assert_eq!(convert_error_to_string(ConvertError::OutOfMemory), "Out_Of_Memory");
    assert_eq!(convert_error_to_string(ConvertError::UnimplementedNodeType), "Unimplemented_Node_Type");
    assert_eq!(convert_error_to_string(ConvertError::InvalidReturnType), "Invalid_Return_Type");
    assert_eq!(convert_error_to_string(ConvertError::InvalidNodeType), "Invalid_Node_Type");
    assert_eq!(convert_error_to_string(ConvertError::NodeIndexOutOfRange), "NodeIndexOutOfRange");
    assert_eq!(semantic_error_to_string(SemanticError::FunctionRedefinition), "Function_Redefinition");
    assert_eq!(semantic_error_to_string(SemanticError::VariableRedefinition), "Variable_Redefinition");
    assert_eq!(semantic_error_to_string(SemanticError::OutOfMemory), "Out_Of_Memory");
}

#[test]
fn loop_guard_counts_to_cap() {
    let mut count: usize = 0;
    for _ in 0..3 {
        assert!(!is_infinite_while(&mut count, 3));
    }
    assert_eq!(count, 3);
    assert!(is_infinite_while(&mut count, 3));
    assert_eq!(count, 3);
}

#[test]
fn tree_padding() {
    let mut padding: Vec<char> = Vec::new();
    for i in 0..5 {
        add_spacing(5, &mut padding, i);
    }
    let text: String = padding.iter().collect();
    assert_eq!(text, "    | | |-");
}

#[test]
fn context_cursor_methods() {
    let tokens = vec![
        Token { text: "(".to_string(), token_type: TokenType::LeftParenthesis, line_number: 2, char_number: 5 },
    ];
    let mut data = ASTData::new(&tokens);
    assert!(data.token_index_in_bounds());
    assert!(!data.is_error());
    assert_eq!(data.get_token().char_number, 5);
    assert!(data.expect_type(TokenType::LeftParenthesis, "missing"));
    assert!(!data.increment_index());
    assert_eq!(data.error_code, Some(AstError::UnexpectedEndOfFile));
    let mut data = ASTData::new(&tokens);
    assert!(!data.expect_type(TokenType::Comma, "missing comma"));
    assert_eq!(data.error_code, Some(AstError::MissingExpectedType));
    assert_eq!(data.error_detail, "missing comma");
    let mut data = ASTData::new(&tokens);
    data.token_index = 1;
    let t = data.get_token();
    assert_eq!(t.text, "");
    assert_eq!(data.error_code, Some(AstError::IndexOutOfRange));
    let mut data = ASTData::new(&tokens);
    data.append_node(get_default_node());
    assert_eq!(data.ast_nodes.len(), 1);
    let e = empty_token();
    assert_eq!(e.token_type, TokenType::Na);
}

#[test]
fn emitter_context_methods() {
    let nodes: Vec<ASTNode> = vec![get_default_node()];
    let mut data = ConvertData::new(&nodes);
    assert!(data.get_node().is_some());
    data.increment_index_count();
    data.increment_index_count();
    data.decrement_index_count();
    assert_eq!(data.index_count, 1);
    data.decrement_index_count();
    data.decrement_index_count();
    assert_eq!(data.index_count, 0);
    assert!(data.print_type(&nodes[0]).is_none());
    data.node_index = 1;
    assert!(data.get_node().is_none());
    assert!(data.is_error());
    assert_eq!(data.error_code, Some(ConvertError::InvalidNodeType));
}
