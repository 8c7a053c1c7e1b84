use vstd::prelude::*;
use crate::ast_expressions::create_complex_declarations;
use crate::ast_expressions::fill_parameters;
use crate::ast_expressions::parameters_node;
use crate::ast_expressions::type_chain;
use crate::ast_print::print_statement;
use crate::ast_print::process_print;
use crate::enums::ASTNodeType;
use crate::enums::TokenType;
use crate::errors::AstError;
use crate::structs::expect_failure;
use crate::structs::has_kind;
use crate::structs::invalid_view;
use crate::structs::reports;
use crate::structs::ASTData;
use crate::structs::ASTNode;
use crate::structs::NodeView;
use crate::structs::Parsed;
use crate::structs::Token;

verus! {

/// Where a loop that must make progress goes on after a construct that
/// began at `i` and ended at `j`: at `j`, or one token further if `j` did
/// not move forward.
pub open spec fn next_position(i: int, j: int) -> int {
    if j > i {
        j
    } else {
        i + 1
    }
}

/// How many tokens are left from position `i` on.
pub open spec fn remaining(ts: Seq<Token>, i: int) -> nat {
    if 0 <= i < ts.len() {
        (ts.len() - i) as nat
    } else {
        0
    }
}

/// The statement at position `i`, chosen by its first token.
pub open spec fn statement(ts: Seq<Token>, i: int) -> Parsed {
    if !(0 <= i < ts.len()) {
        Err((AstError::IndexOutOfRange, i))
    } else {
        match ts[i].token_type {
            TokenType::Println => print_statement(ts, i, true),
            TokenType::Print => print_statement(ts, i, false),
            _ => Err((AstError::UnimplementedType, i)),
        }
    }
}

/// The statements read from position `i` on after `acc`, up to the closing
/// brace or the end of the tokens.
pub open spec fn block_items_from(ts: Seq<Token>, i: int, acc: Seq<NodeView>) -> Result<
    (Seq<NodeView>, int),
    (AstError, int),
>
    decreases remaining(ts, i),
{
    if !(0 <= i < ts.len()) {
        Ok((acc, i))
    } else if ts[i].token_type == TokenType::RightBrace {
        Ok((acc, i))
    } else {
        match statement(ts, i) {
            Err(e) => Err(e),
            Ok((s, j)) => block_items_from(ts, next_position(i, j), acc.push(s)),
        }
    }
}

/// The block node of kind `kind` for the statements from position `i` on.
pub open spec fn block(ts: Seq<Token>, i: int, kind: ASTNodeType) -> Parsed {
    match block_items_from(ts, i, Seq::empty()) {
        Err(e) => Err(e),
        Ok((ss, j)) => Ok((NodeView { node_type: kind, children: ss, ..invalid_view() }, j)),
    }
}

/// The function declaration whose `fn` keyword is at position `i`: return
/// type chain, name, `(`, parameters, `)`, `{`, body, `}`.
pub open spec fn function_declaration(ts: Seq<Token>, i: int) -> Parsed {
    if !(0 <= i && i + 1 < ts.len()) {
        Err((AstError::UnexpectedEndOfFile, i))
    } else {
        match type_chain(ts, i + 1) {
            Err(e) => Err(e),
            Ok((ty, a)) => if !(0 <= a < ts.len()) {
                Err((AstError::IndexOutOfRange, a))
            } else if ts[a].token_type != TokenType::Identifier {
                Err((AstError::MissingExpectedType, a))
            } else if a + 1 >= ts.len() {
                Err((AstError::UnexpectedEndOfFile, a))
            } else if ts[a + 1].token_type != TokenType::LeftParenthesis {
                Err((AstError::MissingExpectedType, a + 1))
            } else if a + 2 >= ts.len() {
                Err((AstError::UnexpectedEndOfFile, a + 1))
            } else {
                match parameters_node(ts, a + 2) {
                    Err(e) => Err(e),
                    Ok((ps, b)) => if !has_kind(ts, b, TokenType::RightParenthesis) {
                        Err(expect_failure(ts, b))
                    } else if b + 1 >= ts.len() {
                        Err((AstError::UnexpectedEndOfFile, b))
                    } else if ts[b + 1].token_type != TokenType::LeftBrace {
                        Err((AstError::MissingExpectedType, b + 1))
                    } else {
                        match block(ts, b + 2, ASTNodeType::FunctionBody) {
                            Err(e) => Err(e),
                            Ok((body, c)) => if !has_kind(ts, c, TokenType::RightBrace) {
                                Err(expect_failure(ts, c))
                            } else {
                                Ok(
                                    (
                                        NodeView {
                                            node_type: ASTNodeType::FunctionDeclaration,
                                            token: Some(ts[a]),
                                            left: Some(Box::new(ty)),
                                            middle: Some(Box::new(ps)),
                                            right: Some(Box::new(body)),
                                            ..invalid_view()
                                        },
                                        c + 1,
                                    ),
                                )
                            },
                        }
                    },
                }
            },
        }
    }
}

/// Reads a function declaration, the cursor being on its `fn` keyword, and
/// appends it to the declarations.
pub fn process_function_declaration(ast_data: &mut ASTData)
    requires
        old(ast_data).error_code is None,
    ensures
        final(ast_data).token_list == old(ast_data).token_list,
        match function_declaration(old(ast_data).tokens(), old(ast_data).token_index as int) {
            Ok((f, j)) => final(ast_data).error_code is None && final(ast_data).token_index == j
                && final(ast_data).ast_nodes@ == old(ast_data).ast_nodes@.push(
                final(ast_data).ast_nodes@.last(),
            ) && final(ast_data).ast_nodes@.last()@ == f,
            Err((e, at)) => final(ast_data).failed_with(e, at) && final(ast_data).ast_nodes
                == old(ast_data).ast_nodes,
        },
{
    ast_data.error_function = "processFunctionDeclaration".to_string();
    let ghost ts = ast_data.tokens();
    let ghost i = ast_data.token_index as int;
    let ghost res = function_declaration(ts, i);
    if !ast_data.increment_index() {
        return;
    }
    let type_node: ASTNode = create_complex_declarations(ast_data);
    if ast_data.is_error() {
        return;
    }
    let ghost a = ast_data.token_index as int;
    let var_name_token: Token = ast_data.get_token();
    if ast_data.is_error() {
        assert(res == Parsed::Err((AstError::IndexOutOfRange, a)));
        return;
    }
    if var_name_token.token_type != TokenType::Identifier {
        ast_data.error_detail = "Missing expected function name".to_string();
        ast_data.fail_here(AstError::MissingExpectedType);
        assert(res == Parsed::Err((AstError::MissingExpectedType, a)));
        return;
    }
    if !ast_data.increment_index() {
        assert(res == Parsed::Err((AstError::UnexpectedEndOfFile, a)));
        return;
    }
    if !ast_data.expect_type(TokenType::LeftParenthesis, "Missing expected '('") {
        assert(res == Parsed::Err((AstError::MissingExpectedType, a + 1)));
        return;
    }
    if !ast_data.increment_index() {
        assert(res == Parsed::Err((AstError::UnexpectedEndOfFile, a + 1)));
        return;
    }
    let parameters_node: ASTNode = fill_parameters(ast_data);
    if ast_data.is_error() {
        return;
    }
    let ghost b = ast_data.token_index as int;
    if !ast_data.expect_type(TokenType::RightParenthesis, "Missing expected ')'") {
        assert(res == Parsed::Err(expect_failure(ts, b)));
        return;
    }
    if !ast_data.increment_index() {
        assert(res == Parsed::Err((AstError::UnexpectedEndOfFile, b)));
        return;
    }
    if !ast_data.expect_type(TokenType::LeftBrace, "Missing expected '{'") {
        assert(res == Parsed::Err((AstError::MissingExpectedType, b + 1)));
        return;
    }
    ast_data.token_index += 1;
    let function_body_node: ASTNode = build_body_block(ast_data, ASTNodeType::FunctionBody);
    if ast_data.is_error() {
        return;
    }
    let ghost c = ast_data.token_index as int;
    if !ast_data.expect_type(TokenType::RightBrace, "Missing expected '}'") {
        assert(res == Parsed::Err(expect_failure(ts, c)));
        return;
    }
    ast_data.token_index += 1;
    let function_node = ASTNode {
        node_type: ASTNodeType::FunctionDeclaration,
        token: Some(var_name_token),
        left: Some(Box::new(type_node)),
        middle: Some(Box::new(parameters_node)),
        right: Some(Box::new(function_body_node)),
        children: Vec::new(),
        is_const: false,
        size: 0,
    };
    assert(function_node@.children =~= Seq::<NodeView>::empty());
    ast_data.append_node(function_node);
}

/// Reads the statements of a block up to its closing brace, into a node of
/// kind `node_type`.
pub fn build_body_block(ast_data: &mut ASTData, node_type: ASTNodeType) -> (r: ASTNode)
    requires
        old(ast_data).error_code is None,
    ensures
        reports(
            *old(ast_data),
            *final(ast_data),
            r@,
            block(old(ast_data).tokens(), old(ast_data).token_index as int, node_type),
        ),
{
    ast_data.error_function = "buildBodyBlock".to_string();
    let ghost ts = ast_data.tokens();
    let ghost res = block_items_from(ts, ast_data.token_index as int, Seq::empty());
    let mut block_node = ASTNode {
        node_type,
        token: None,
        left: None,
        middle: None,
        right: None,
        children: Vec::new(),
        is_const: false,
        size: 0,
    };
    assert(block_node@.children =~= Seq::<NodeView>::empty());
    while ast_data.token_index_in_bounds()
        invariant
            ast_data.token_list == old(ast_data).token_list,
            ast_data.ast_nodes == old(ast_data).ast_nodes,
            ts == ast_data.tokens(),
            res == block_items_from(old(ast_data).tokens(), old(ast_data).token_index as int, Seq::empty()),
            ast_data.error_code is None,
            block_node@ == (NodeView { node_type, children: block_node@.children, ..invalid_view() }),
            block_items_from(ts, ast_data.token_index as int, block_node@.children) == res,
        decreases remaining(ts, ast_data.token_index as int),
    {
        let index_before: usize = ast_data.token_index;
        let token: Token = ast_data.get_token();
        if token.token_type == TokenType::RightBrace {
            return block_node;
        }
        process_function_token_ast(ast_data, token, &mut block_node, false);
        if ast_data.is_error() {
            return block_node;
        }
        if ast_data.token_index <= index_before {
            ast_data.token_index = index_before + 1;
        }
    }
    block_node
}

/// Reads the statement that `first_token`, the token at the cursor, begins,
/// and adds it to the children of `block_node`.
pub fn process_function_token_ast(
    ast_data: &mut ASTData,
    first_token: Token,
    block_node: &mut ASTNode,
    is_const: bool,
)
    requires
        old(ast_data).error_code is None,
        old(ast_data).token_index < old(ast_data).tokens().len(),
        first_token == old(ast_data).tokens()[old(ast_data).token_index as int],
    ensures
        final(ast_data).token_list == old(ast_data).token_list,
        final(ast_data).ast_nodes == old(ast_data).ast_nodes,
        match statement(old(ast_data).tokens(), old(ast_data).token_index as int) {
            Ok((s, j)) => final(ast_data).error_code is None && final(ast_data).token_index == j
                && final(block_node)@ == (NodeView {
                    children: old(block_node)@.children.push(s),
                    ..old(block_node)@
                }),
            Err((e, at)) => final(ast_data).failed_with(e, at),
        },
        first_token.token_type != TokenType::Println && first_token.token_type != TokenType::Print
            ==> *final(block_node) == *old(block_node) && final(ast_data).token_index == old(ast_data).token_index,
{
    ast_data.error_function = "processFunctionTokenAST".to_string();
    let ghost before = block_node@;
    let new_line = match first_token.token_type {
        TokenType::Println => true,
        TokenType::Print => false,
        _ => {
            ast_data.error_detail = "unimplemented type in function".to_string();
            ast_data.fail_here(AstError::UnimplementedType);
            return;
        },
    };
    let print_node: ASTNode = process_print(ast_data, new_line);
    if ast_data.is_error() {
        return;
    }
    block_node.children.push(print_node);
    assert(block_node@.children =~= before.children.push(print_node@));
}

} // verus!
