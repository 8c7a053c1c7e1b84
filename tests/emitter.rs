use togo::ast::build_asts;
use togo::enums::ASTNodeType;
use togo::enums::TokenType;
use togo::errors::ConvertError;
use togo::go_convert::convert;
use togo::go_utils::convert_to_go_type;
use togo::go_utils::convert_type_to_go_type;
use togo::parsing::parse_to_tokens;
use togo::structs::get_default_node;
use togo::structs::ASTNode;
use togo::structs::StringBuilder;
use togo::structs::Token;

const PREAMBLE: &str = "package main\n\nimport \"fmt\"\n\n\n";

fn emit(code: &str) -> (String, Option<ConvertError>) {
    let mut lex_error = None;
    let tokens = parse_to_tokens(&code.to_string(), &mut lex_error);
    assert_eq!(lex_error, None);
    let data = build_asts(&tokens);
    assert_eq!(data.error_code, None);
    let mut error = Some(ConvertError::OutOfMemory);
    let text = convert(&data.ast_nodes, &mut error);
    (text, error)
}

fn tok(text: &str, token_type: TokenType) -> Token {
    Token { text: text.to_string(), token_type, line_number: 0, char_number: 0 }
}

#[test]
fn hello_world_program() {
    let (text, error) = emit("fn void main() {\n    println(\"Hello world!\");\n}");
    assert_eq!(error, None);
    let expected = format!("{}func main() {{\n\tfmt.Println(\"Hello world!\")\n\n\r}}\n\n", PREAMBLE);
    assert_eq!(text, expected);
}

#[test]
fn functions_emitted_in_order() {
    let (text, error) = emit("fn void a() { println(1); } fn void b() { print(2); } fn void c() { }");
    assert_eq!(error, None);
    let expected = format!(
        "{}func a() {{\n\tfmt.Println(1)\n\n\r}}\n\nfunc b() {{\n\tfmt.Print(2)\n\n\r}}\n\nfunc c() {{\n\n\r}}\n\n",
        PREAMBLE
    );
    assert_eq!(text, expected);
    assert_eq!(text.matches("func ").count(), 3);
    let a = text.find("func a").unwrap();
    let b = text.find("func b").unwrap();
    let c = text.find("func c").unwrap();
    assert!(a < b && b < c);
}

#[test]
fn signature_with_parameters_and_return_type() {
    let (text, error) = emit("fn i64 add(int a, * u8 b, string c, myType d) { }");
    assert_eq!(error, None);
    let expected = format!("{}func add(a int, b int8, c string, d Unknown) int64 {{\n\n\r}}\n\n", PREAMBLE);
    assert_eq!(text, expected);
}

#[test]
fn unknown_return_type_is_visible() {
    let (text, error) = emit("fn thing f() { }");
    assert_eq!(error, None);
    assert!(text.contains("func f() Unknown {\n"));
}

#[test]
fn print_arguments_are_joined() {
    let (text, error) = emit("fn void main() { println(\"a\", 1, true, 'c'); println(); }");
    assert_eq!(error, None);
    assert!(text.contains("\tfmt.Println(\"a\", 1, true, c)\n"));
    assert!(text.contains("\tfmt.Println()\n"));
}

#[test]
fn expression_argument_is_not_implemented() {
    let (text, error) = emit("fn void main() { println(1 + 2); }");
    assert_eq!(error, Some(ConvertError::UnimplementedNodeType));
    assert_eq!(text, "");
}

#[test]
fn no_declarations_to_emit() {
    let nodes: Vec<ASTNode> = Vec::new();
    let mut error = None;
    let text = convert(&nodes, &mut error);
    assert_eq!(error, Some(ConvertError::NoAstNodes));
    assert_eq!(text, "");
}

#[test]
fn top_level_node_that_is_not_a_function() {
    let mut node = get_default_node();
    node.node_type = ASTNodeType::Println;
    let nodes = vec![node];
    let mut error = None;
    let text = convert(&nodes, &mut error);
    assert_eq!(error, Some(ConvertError::UnimplementedNodeType));
    assert_eq!(text, "");
}

#[test]
fn function_without_return_type_node() {
    let mut node = get_default_node();
    node.node_type = ASTNodeType::FunctionDeclaration;
    node.token = Some(tok("f", TokenType::Identifier));
    let nodes = vec![node];
    let mut error = None;
    convert(&nodes, &mut error);
    assert_eq!(error, Some(ConvertError::NodeIsNull));
}

#[test]
fn invalid_statement_in_body() {
    let mut ret = get_default_node();
    ret.node_type = ASTNodeType::VarType;
    ret.token = Some(tok("void", TokenType::Void));
    let mut body = get_default_node();
    body.node_type = ASTNodeType::FunctionBody;
    body.children.push(get_default_node());
    let mut node = get_default_node();
    node.node_type = ASTNodeType::FunctionDeclaration;
    node.token = Some(tok("f", TokenType::Identifier));
    node.left = Some(Box::new(ret));
    node.right = Some(Box::new(body));
    let nodes = vec![node];
    let mut error = None;
    convert(&nodes, &mut error);
    assert_eq!(error, Some(ConvertError::InvalidNodeType));
}

#[test]
fn go_type_table() {
    assert_eq!(convert_type_to_go_type(TokenType::I8), "int8");
    assert_eq!(convert_type_to_go_type(TokenType::U8), "int8");
    assert_eq!(convert_type_to_go_type(TokenType::I16), "int16");
    assert_eq!(convert_type_to_go_type(TokenType::U16), "int16");
    assert_eq!(convert_type_to_go_type(TokenType::Int), "int");
    assert_eq!(convert_type_to_go_type(TokenType::I32), "int");
    assert_eq!(convert_type_to_go_type(TokenType::U32), "int");
    assert_eq!(convert_type_to_go_type(TokenType::I64), "int64");
    assert_eq!(convert_type_to_go_type(TokenType::U64), "int64");
    assert_eq!(convert_type_to_go_type(TokenType::Usize), "int64");
    assert_eq!(convert_type_to_go_type(TokenType::F32), "float32");
    assert_eq!(convert_type_to_go_type(TokenType::F64), "float64");
    assert_eq!(convert_type_to_go_type(TokenType::String), "string");
    assert_eq!(convert_type_to_go_type(TokenType::Char), "byte");
    assert_eq!(convert_type_to_go_type(TokenType::Bool), "bool");
    assert_eq!(convert_type_to_go_type(TokenType::Void), "");
    assert_eq!(convert_type_to_go_type(TokenType::Identifier), "Unknown");
    assert_eq!(convert_to_go_type(tok("f64", TokenType::F64)), "float64");
}

#[test]
fn string_builder_appends() {
    let mut builder = StringBuilder::with_capacity(16);
    assert!(builder.is_empty());
    builder.append("ab");
    builder.append_fmt("c".to_string());
    builder.append_line("d");
    builder.append_line_fmt("e".to_string());
    assert_eq!(builder.as_str(), "abcd\ne\n");
    assert_eq!(builder.len(), 7);
    let copy = builder.clone();
    builder.clear();
    assert!(builder.is_empty());
    assert_eq!(copy.into_string(), "abcd\ne\n");
    assert_eq!(StringBuilder::new().len(), 0);
}

fn literal(kind: ASTNodeType, text: &str, token_type: TokenType) -> ASTNode {
    let mut node = get_default_node();
    node.node_type = kind;
    node.token = Some(tok(text, token_type));
    node
}

#[test]
fn print_call_starts_with_tab() {
    let nodes: Vec<ASTNode> = Vec::new();
    let mut data = togo::structs::ConvertData::new(&nodes);
    let mut print = get_default_node();
    print.node_type = ASTNodeType::Print;
    print.children.push(literal(ASTNodeType::IntegerLiteral, "7", TokenType::IntegerValue));
    togo::go_print::process_print(&mut data, &print, false);
    assert_eq!(data.error_code, None);
    assert_eq!(data.code_builder.as_str(), "\tfmt.Print(7)");
}

#[test]
fn print_without_arguments_writes_only_tab() {
    let nodes: Vec<ASTNode> = Vec::new();
    let mut data = togo::structs::ConvertData::new(&nodes);
    let mut print = get_default_node();
    print.node_type = ASTNodeType::Print;
    togo::go_print::process_print(&mut data, &print, false);
    assert_eq!(data.code_builder.as_str(), "\t");
    let mut data = togo::structs::ConvertData::new(&nodes);
    print.node_type = ASTNodeType::Println;
    togo::go_print::process_print(&mut data, &print, true);
    assert_eq!(data.code_builder.as_str(), "\tfmt.Println()");
}

#[test]
fn failing_print_writes_nothing() {
    let nodes: Vec<ASTNode> = Vec::new();
    let mut data = togo::structs::ConvertData::new(&nodes);
    let mut print = get_default_node();
    print.node_type = ASTNodeType::Println;
    print.children.push(literal(ASTNodeType::StringLiteral, "a", TokenType::StringValue));
    print.children.push(get_default_node());
    togo::go_print::process_print(&mut data, &print, true);
    assert_eq!(data.error_code, Some(ConvertError::NodeIsNull));
    assert_eq!(data.code_builder.as_str(), "");
}

#[test]
fn body_stops_at_first_failing_statement() {
    let nodes: Vec<ASTNode> = Vec::new();
    let mut data = togo::structs::ConvertData::new(&nodes);
    let mut first = get_default_node();
    first.node_type = ASTNodeType::Println;
    first.children.push(literal(ASTNodeType::BoolLiteral, "true", TokenType::True));
    let mut body = get_default_node();
    body.node_type = ASTNodeType::FunctionBody;
    body.children.push(first);
    body.children.push(get_default_node());
    let mut last = get_default_node();
    last.node_type = ASTNodeType::Println;
    body.children.push(last);
    togo::go_body::process_body(&mut data, &body);
    assert_eq!(data.error_code, Some(ConvertError::InvalidNodeType));
    assert_eq!(data.code_builder.as_str(), "\tfmt.Println(true)\n");
}
