use togo::ast::build_asts;
use togo::ast_expressions::create_complex_declarations;
use togo::ast_expressions::fill_parameters;
use togo::ast_expressions::parsePrimaryAny;
use togo::ast_expressions::parse_binary_expression_any;
use togo::ast_functions::build_body_block;
use togo::ast_print::process_print;
use togo::ast_utils::fill_node_in_brackets;
use togo::enums::ASTNodeType;
use togo::enums::TokenType;
use togo::errors::AstError;
use togo::parsing::parse_to_tokens;
use togo::structs::get_default_node;
use togo::structs::ASTData;
use togo::structs::ASTNode;
use togo::structs::Token;

fn tok(text: &str, token_type: TokenType) -> Token {
    Token { text: text.to_string(), token_type, line_number: 0, char_number: 0 }
}

fn lex(code: &str) -> Vec<Token> {
    let mut error = None;
    let tokens = parse_to_tokens(&code.to_string(), &mut error);
    assert_eq!(error, None);
    tokens
}

fn text_of(node: &ASTNode) -> String {
    node.token.as_ref().unwrap().text.clone()
}

#[test]
fn precedence_binds_multiplication_tighter() {
    let tokens = lex("1 + 2 * 3");
    let mut data = ASTData::new(&tokens);
    let node = parse_binary_expression_any(&mut data, 0, ASTNodeType::PrintExpression);
    assert_eq!(data.error_code, None);
    assert_eq!(data.token_index, 5);
    assert_eq!(node.node_type, ASTNodeType::PrintExpression);
    assert_eq!(text_of(&node), "+");
    let left = node.left.as_ref().unwrap();
    assert_eq!(left.node_type, ASTNodeType::IntegerLiteral);
    assert_eq!(text_of(left), "1");
    let right = node.right.as_ref().unwrap();
    assert_eq!(text_of(right), "*");
    assert_eq!(text_of(right.left.as_ref().unwrap()), "2");
    assert_eq!(text_of(right.right.as_ref().unwrap()), "3");
}

#[test]
fn subtraction_is_left_associative() {
    let tokens = lex("1 - 2 - 3");
    let mut data = ASTData::new(&tokens);
    let node = parse_binary_expression_any(&mut data, 0, ASTNodeType::PrintExpression);
    assert_eq!(data.error_code, None);
    assert_eq!(text_of(&node), "-");
    assert_eq!(text_of(node.right.as_ref().unwrap()), "3");
    let left = node.left.as_ref().unwrap();
    assert_eq!(text_of(left), "-");
    assert_eq!(text_of(left.left.as_ref().unwrap()), "1");
    assert_eq!(text_of(left.right.as_ref().unwrap()), "2");
}

#[test]
fn comparison_binds_looser_than_addition() {
    let tokens = lex("1 + 2 == 3 && true");
    let mut data = ASTData::new(&tokens);
    let node = parse_binary_expression_any(&mut data, 0, ASTNodeType::PrintExpression);
    assert_eq!(data.error_code, None);
    assert_eq!(text_of(&node), "&&");
    let eq = node.left.as_ref().unwrap();
    assert_eq!(text_of(eq), "==");
    assert_eq!(text_of(eq.left.as_ref().unwrap()), "+");
    assert_eq!(node.right.as_ref().unwrap().node_type, ASTNodeType::BoolLiteral);
}

#[test]
fn threshold_stops_at_weaker_operator() {
    let tokens = lex("2 * 3 + 4");
    let mut data = ASTData::new(&tokens);
    let node = parse_binary_expression_any(&mut data, 6, ASTNodeType::PrintExpression);
    assert_eq!(data.error_code, None);
    assert_eq!(text_of(&node), "*");
    assert_eq!(data.token_index, 3);
}

#[test]
fn missing_operand_after_operator() {
    let tokens = lex("1 + )");
    let mut data = ASTData::new(&tokens);
    parse_binary_expression_any(&mut data, 0, ASTNodeType::PrintExpression);
    assert_eq!(data.error_code, Some(AstError::UnexpectedType));
    assert_eq!(data.error_token.text, "+");
}

#[test]
fn primary_literal_kinds() {
    let tokens = vec![
        tok("true", TokenType::True),
        tok("7", TokenType::IntegerValue),
        tok("hi", TokenType::StringValue),
        tok("c", TokenType::CharValue),
    ];
    let mut data = ASTData::new(&tokens);
    assert_eq!(parsePrimaryAny(&mut data).node_type, ASTNodeType::BoolLiteral);
    assert_eq!(parsePrimaryAny(&mut data).node_type, ASTNodeType::IntegerLiteral);
    assert_eq!(parsePrimaryAny(&mut data).node_type, ASTNodeType::StringLiteral);
    assert_eq!(parsePrimaryAny(&mut data).node_type, ASTNodeType::CharLiteral);
    assert_eq!(data.token_index, 4);
    assert_eq!(data.error_code, None);
}

#[test]
fn primary_closing_parenthesis_gives_invalid_node() {
    let tokens = vec![tok(")", TokenType::RightParenthesis)];
    let mut data = ASTData::new(&tokens);
    let node = parsePrimaryAny(&mut data);
    assert_eq!(node.node_type, ASTNodeType::Invalid);
    assert_eq!(data.token_index, 0);
    assert_eq!(data.error_code, None);
}

#[test]
fn primary_rejects_identifier() {
    let tokens = vec![tok("x", TokenType::Identifier)];
    let mut data = ASTData::new(&tokens);
    parsePrimaryAny(&mut data);
    assert_eq!(data.error_code, Some(AstError::UnexpectedType));
    assert_eq!(data.error_token.text, "x");
}

#[test]
fn primary_past_end_of_input() {
    let tokens: Vec<Token> = Vec::new();
    let mut data = ASTData::new(&tokens);
    parsePrimaryAny(&mut data);
    assert_eq!(data.error_code, Some(AstError::UnexpectedEndOfFile));
}

#[test]
fn type_chain_two_pointers_over_const_base() {
    let tokens = vec![
        tok("const", TokenType::Const),
        tok("*", TokenType::Multiply),
        tok("*", TokenType::Multiply),
        tok("i32", TokenType::I32),
        tok("x", TokenType::Identifier),
    ];
    let mut data = ASTData::new(&tokens);
    let chain = create_complex_declarations(&mut data);
    assert_eq!(data.error_code, None);
    assert_eq!(data.token_index, 4);
    assert_eq!(chain.node_type, ASTNodeType::Pointer);
    let inner = chain.left.as_ref().unwrap();
    assert_eq!(inner.node_type, ASTNodeType::Pointer);
    let base = inner.left.as_ref().unwrap();
    assert_eq!(base.node_type, ASTNodeType::VarType);
    assert_eq!(text_of(base), "i32");
    assert!(base.is_const);
    assert!(!chain.is_const);
    assert!(!inner.is_const);
    assert!(base.left.is_none());
}

#[test]
fn type_chain_const_after_pointer_marks_pointer() {
    let tokens = vec![
        tok("*", TokenType::Multiply),
        tok("const", TokenType::Const),
        tok("char", TokenType::Char),
        tok("x", TokenType::Identifier),
    ];
    let mut data = ASTData::new(&tokens);
    let chain = create_complex_declarations(&mut data);
    assert_eq!(data.error_code, None);
    assert!(chain.is_const);
    assert!(!chain.left.as_ref().unwrap().is_const);
}

#[test]
fn type_chain_plain_base() {
    let tokens = lex("void main");
    let mut data = ASTData::new(&tokens);
    let chain = create_complex_declarations(&mut data);
    assert_eq!(data.error_code, None);
    assert_eq!(chain.node_type, ASTNodeType::VarType);
    assert_eq!(text_of(&chain), "void");
    assert_eq!(data.token_index, 1);
}

#[test]
fn type_chain_without_base_type() {
    let tokens = lex("* ; x");
    let mut data = ASTData::new(&tokens);
    create_complex_declarations(&mut data);
    assert_eq!(data.error_code, Some(AstError::NullType));
    assert_eq!(data.error_token.text, ";");
}

#[test]
fn type_chain_base_type_at_end_of_input() {
    let tokens = lex("i32");
    let mut data = ASTData::new(&tokens);
    create_complex_declarations(&mut data);
    assert_eq!(data.error_code, Some(AstError::UnexpectedEndOfFile));
}

#[test]
fn type_chain_loop_cap() {
    let mut tokens: Vec<Token> = Vec::new();
    for _ in 0..1000 {
        tokens.push(tok("*", TokenType::Multiply));
    }
    tokens.push(tok("i32", TokenType::I32));
    tokens.push(tok("x", TokenType::Identifier));
    let mut data = ASTData::new(&tokens);
    create_complex_declarations(&mut data);
    assert_eq!(data.error_code, Some(AstError::InfiniteWhileLoop));
    assert_eq!(data.token_index, 1000);
}

#[test]
fn type_chain_just_under_cap() {
    let mut tokens: Vec<Token> = Vec::new();
    for _ in 0..999 {
        tokens.push(tok("*", TokenType::Multiply));
    }
    tokens.push(tok("i32", TokenType::I32));
    tokens.push(tok("x", TokenType::Identifier));
    let mut data = ASTData::new(&tokens);
    create_complex_declarations(&mut data);
    assert_eq!(data.error_code, None);
    assert_eq!(data.token_index, 1000);
}

#[test]
fn parameters_with_types_and_names() {
    let tokens = lex("i32 a, * string b)");
    let mut data = ASTData::new(&tokens);
    let params = fill_parameters(&mut data);
    assert_eq!(data.error_code, None);
    assert_eq!(params.node_type, ASTNodeType::Parameters);
    assert_eq!(params.children.len(), 2);
    assert_eq!(params.children[0].node_type, ASTNodeType::Parameter);
    assert_eq!(text_of(&params.children[0]), "a");
    assert_eq!(text_of(params.children[0].left.as_ref().unwrap()), "i32");
    assert_eq!(text_of(&params.children[1]), "b");
    assert_eq!(params.children[1].left.as_ref().unwrap().node_type, ASTNodeType::Pointer);
    assert_eq!(data.token_index, 6);
}

#[test]
fn parameter_without_name() {
    let tokens = lex("i32 , b)");
    let mut data = ASTData::new(&tokens);
    fill_parameters(&mut data);
    assert_eq!(data.error_code, Some(AstError::MissingExpectedType));
    assert_eq!(data.error_token.text, ",");
}

#[test]
fn parameter_loop_cap() {
    let mut tokens: Vec<Token> = Vec::new();
    for _ in 0..1000 {
        tokens.push(tok(",", TokenType::Comma));
    }
    tokens.push(tok(")", TokenType::RightParenthesis));
    let mut data = ASTData::new(&tokens);
    fill_parameters(&mut data);
    assert_eq!(data.error_code, Some(AstError::InfiniteWhileLoop));
}

#[test]
fn binary_loop_cap() {
    let mut tokens: Vec<Token> = vec![tok("1", TokenType::IntegerValue)];
    for _ in 0..1000 {
        tokens.push(tok("+", TokenType::Plus));
        tokens.push(tok("1", TokenType::IntegerValue));
    }
    tokens.push(tok("+", TokenType::Plus));
    tokens.push(tok("1", TokenType::IntegerValue));
    let mut data = ASTData::new(&tokens);
    parse_binary_expression_any(&mut data, 0, ASTNodeType::PrintExpression);
    assert_eq!(data.error_code, Some(AstError::InfiniteWhileLoop));
    assert_eq!(data.token_index, 2001);
}

#[test]
fn bracket_loop_cap() {
    let mut tokens: Vec<Token> = Vec::new();
    for _ in 0..500 {
        tokens.push(tok(",", TokenType::Comma));
    }
    tokens.push(tok(")", TokenType::RightParenthesis));
    let mut data = ASTData::new(&tokens);
    let mut node = get_default_node();
    fill_node_in_brackets(&mut data, &mut node, ASTNodeType::PrintExpression);
    assert_eq!(data.error_code, Some(AstError::InfiniteWhileLoop));
}

#[test]
fn bracket_items_with_commas() {
    let tokens = lex("\"a\", 1 + 2, true)");
    let mut data = ASTData::new(&tokens);
    let mut node = get_default_node();
    fill_node_in_brackets(&mut data, &mut node, ASTNodeType::PrintExpression);
    assert_eq!(data.error_code, None);
    assert_eq!(node.children.len(), 3);
    assert_eq!(node.children[1].node_type, ASTNodeType::PrintExpression);
    assert_eq!(data.token_index, 7);
}

#[test]
fn bracket_without_closing_parenthesis() {
    let tokens = lex("1, 2");
    let mut data = ASTData::new(&tokens);
    let mut node = get_default_node();
    fill_node_in_brackets(&mut data, &mut node, ASTNodeType::PrintExpression);
    assert_eq!(data.error_code, Some(AstError::IndexOutOfRange));
}

#[test]
fn empty_print_is_an_error() {
    let tokens = lex("print();");
    let mut data = ASTData::new(&tokens);
    process_print(&mut data, false);
    assert_eq!(data.error_code, Some(AstError::UnexpectedType));
    assert_eq!(data.error_detail, "empty print function");
}

#[test]
fn empty_println_is_accepted() {
    let tokens = lex("println();");
    let mut data = ASTData::new(&tokens);
    let node = process_print(&mut data, true);
    assert_eq!(data.error_code, None);
    assert_eq!(node.node_type, ASTNodeType::Println);
    assert_eq!(node.children.len(), 0);
    assert_eq!(data.token_index, 4);
}

#[test]
fn print_missing_semicolon() {
    let tokens = lex("println(1) x");
    let mut data = ASTData::new(&tokens);
    process_print(&mut data, true);
    assert_eq!(data.error_code, Some(AstError::MissingExpectedType));
    assert_eq!(data.error_token.text, "x");
}

#[test]
fn print_missing_open_parenthesis() {
    let tokens = lex("println 1;");
    let mut data = ASTData::new(&tokens);
    process_print(&mut data, true);
    assert_eq!(data.error_code, Some(AstError::MissingExpectedType));
}

#[test]
fn block_reads_print_statements() {
    let tokens = lex("print(1); println(\"x\", 2); }");
    let mut data = ASTData::new(&tokens);
    let block = build_body_block(&mut data, ASTNodeType::FunctionBody);
    assert_eq!(data.error_code, None);
    assert_eq!(block.node_type, ASTNodeType::FunctionBody);
    assert_eq!(block.children.len(), 2);
    assert_eq!(block.children[0].node_type, ASTNodeType::Print);
    assert_eq!(block.children[1].node_type, ASTNodeType::Println);
    assert_eq!(block.children[1].children.len(), 2);
    assert_eq!(data.token_index, 12);
}

#[test]
fn block_rejects_unknown_statement() {
    let tokens = lex("return 1; }");
    let mut data = ASTData::new(&tokens);
    build_body_block(&mut data, ASTNodeType::FunctionBody);
    assert_eq!(data.error_code, Some(AstError::UnimplementedType));
    assert_eq!(data.error_token.text, "return");
}

#[test]
fn hello_world_tree() {
    let code = "fn void main() {\n    println(\"Hello world!\");\n}";
    let tokens = lex(code);
    let data = build_asts(&tokens);
    assert_eq!(data.error_code, None);
    assert_eq!(data.ast_nodes.len(), 1);
    let f = &data.ast_nodes[0];
    assert_eq!(f.node_type, ASTNodeType::FunctionDeclaration);
    assert_eq!(text_of(f), "main");
    let ret = f.left.as_ref().unwrap();
    assert_eq!(ret.node_type, ASTNodeType::VarType);
    assert_eq!(text_of(ret), "void");
    let params = f.middle.as_ref().unwrap();
    assert_eq!(params.node_type, ASTNodeType::Parameters);
    assert_eq!(params.children.len(), 0);
    let body = f.right.as_ref().unwrap();
    assert_eq!(body.node_type, ASTNodeType::FunctionBody);
    assert_eq!(body.children.len(), 1);
    let print = &body.children[0];
    assert_eq!(print.node_type, ASTNodeType::Println);
    assert_eq!(print.children.len(), 1);
    assert_eq!(print.children[0].node_type, ASTNodeType::StringLiteral);
    assert_eq!(text_of(&print.children[0]), "Hello world!");
}

#[test]
fn unknown_top_level_construct_keeps_earlier_declarations() {
    let tokens = lex("fn void a() { } if");
    let data = build_asts(&tokens);
    assert_eq!(data.error_code, Some(AstError::UnimplementedType));
    assert_eq!(data.error_token.text, "if");
    assert_eq!(data.error_token.token_type, TokenType::If);
    assert_eq!(data.ast_nodes.len(), 1);
    assert_eq!(data.ast_nodes[0].node_type, ASTNodeType::FunctionDeclaration);
}

#[test]
fn failing_declaration_is_not_appended() {
    let tokens = lex("fn void a() { } fn void b( { }");
    let data = build_asts(&tokens);
    assert_eq!(data.error_code, Some(AstError::NullType));
    assert_eq!(data.ast_nodes.len(), 1);
    assert_eq!(text_of(&data.ast_nodes[0]), "a");
}

#[test]
fn empty_token_stream_gives_no_declarations() {
    let tokens: Vec<Token> = Vec::new();
    let data = build_asts(&tokens);
    assert_eq!(data.error_code, None);
    assert_eq!(data.ast_nodes.len(), 0);
}

#[test]
fn function_without_name() {
    let tokens = lex("fn void () { }");
    let data = build_asts(&tokens);
    assert_eq!(data.error_code, Some(AstError::MissingExpectedType));
    assert_eq!(data.error_token.text, "(");
}

#[test]
fn function_cut_short() {
    let tokens = lex("fn");
    let data = build_asts(&tokens);
    assert_eq!(data.error_code, Some(AstError::UnexpectedEndOfFile));
}

#[test]
fn function_without_closing_brace() {
    let tokens = lex("fn void a() { println();");
    let data = build_asts(&tokens);
    assert_eq!(data.error_code, Some(AstError::IndexOutOfRange));
}

#[test]
fn two_functions_in_order() {
    let tokens = lex("fn void a() { } fn i32 b(i32 x) { println(x); }");
    let data = build_asts(&tokens);
    assert_eq!(data.error_code, Some(AstError::UnexpectedType));
    assert_eq!(data.ast_nodes.len(), 1);
    let tokens = lex("fn void a() { } fn i32 b(i32 x) { println(1); }");
    let data = build_asts(&tokens);
    assert_eq!(data.error_code, None);
    assert_eq!(data.ast_nodes.len(), 2);
    assert_eq!(text_of(&data.ast_nodes[0]), "a");
    assert_eq!(text_of(&data.ast_nodes[1]), "b");
}

#[test]
fn cloned_tree_is_equal_and_independent() {
    let tokens3 = lex("fn * i32 f(bool a) { println(1, \"s\"); print(true); }");
    let data3 = build_asts(&tokens3);
    assert_eq!(data3.error_code, None);
    let tree = &data3.ast_nodes[0];
    let mut copy = tree.clone();
    assert_eq!(text_of(&copy), "f");
    assert_eq!(copy.left.as_ref().unwrap().node_type, ASTNodeType::Pointer);
    assert_eq!(text_of(copy.left.as_ref().unwrap().left.as_ref().unwrap()), "i32");
    assert_eq!(text_of(&copy.middle.as_ref().unwrap().children[0]), "a");
    let body = copy.right.as_ref().unwrap();
    assert_eq!(body.children.len(), 2);
    assert_eq!(text_of(&body.children[0].children[1]), "s");
    copy.token = None;
    assert_eq!(text_of(tree), "f");
}

#[test]
fn failed_primary_leaves_cursor_and_gives_invalid_node() {
    let tokens = vec![tok("{", TokenType::LeftBrace)];
    let mut data = ASTData::new(&tokens);
    let node = parsePrimaryAny(&mut data);
    assert_eq!(data.error_code, Some(AstError::UnexpectedType));
    assert_eq!(node.node_type, ASTNodeType::Invalid);
    assert_eq!(data.token_index, 0);
}

#[test]
fn type_chain_failing_at_first_token() {
    let tokens = lex("( x");
    let mut data = ASTData::new(&tokens);
    let node = create_complex_declarations(&mut data);
    assert_eq!(data.error_code, Some(AstError::NullType));
    assert_eq!(node.node_type, ASTNodeType::Invalid);
    assert_eq!(data.token_index, 0);
    assert_eq!(data.error_token.text, "(");
}
