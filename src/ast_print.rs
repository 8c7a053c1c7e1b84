use vstd::prelude::*;
use crate::ast_utils::bracket_items_from;
use crate::ast_utils::fill_node_in_brackets;
use crate::enums::ASTNodeType;
use crate::enums::TokenType;
use crate::errors::AstError;
use crate::structs::expect_failure;
use crate::structs::has_kind;
use crate::structs::invalid_view;
use crate::structs::reports;
use crate::structs::ASTData;
use crate::structs::ASTNode;
use crate::structs::NodeView;
use crate::structs::Parsed;
use crate::structs::Token;

verus! {

/// The kind of a print statement node.
pub open spec fn print_kind(new_line: bool) -> ASTNodeType {
    if new_line {
        ASTNodeType::Println
    } else {
        ASTNodeType::Print
    }
}

/// The print statement at position `i`: the print keyword, `(`, its
/// arguments, `)` and `;`. Only the variant that ends the line may have no
/// argument.
pub open spec fn print_statement(ts: Seq<Token>, i: int, new_line: bool) -> Parsed {
    if !(0 <= i < ts.len()) {
        Err((AstError::IndexOutOfRange, i))
    } else if !has_kind(ts, i + 1, TokenType::LeftParenthesis) {
        Err(expect_failure(ts, i + 1))
    } else {
        match bracket_items_from(ts, i + 2, 0, Seq::empty(), ASTNodeType::PrintExpression) {
            Err(e) => Err(e),
            Ok((args, j)) => if args.len() == 0 && !new_line {
                Err((AstError::UnexpectedType, j))
            } else if !has_kind(ts, j, TokenType::RightParenthesis) {
                Err(expect_failure(ts, j))
            } else if !has_kind(ts, j + 1, TokenType::Semicolon) {
                Err(expect_failure(ts, j + 1))
            } else {
                Ok(
                    (
                        NodeView {
                            node_type: print_kind(new_line),
                            token: Some(ts[i]),
                            children: args,
                            ..invalid_view()
                        },
                        j + 2,
                    ),
                )
            },
        }
    }
}

/// A `print` statement (not `println`) at position `i` whose parentheses
/// hold no argument.
pub open spec fn is_empty_print(ts: Seq<Token>, i: int, new_line: bool) -> bool {
    &&& !new_line
    &&& 0 <= i < ts.len()
    &&& has_kind(ts, i + 1, TokenType::LeftParenthesis)
    &&& bracket_items_from(ts, i + 2, 0, Seq::empty(), ASTNodeType::PrintExpression) is Ok
    &&& bracket_items_from(ts, i + 2, 0, Seq::empty(), ASTNodeType::PrintExpression)->Ok_0.0.len()
        == 0
}

/// Reads a `print` or (with `new_line`) `println` statement.
pub fn process_print(ast_data: &mut ASTData, new_line: bool) -> (r: ASTNode)
    requires
        old(ast_data).error_code is None,
    ensures
        reports(
            *old(ast_data),
            *final(ast_data),
            r@,
            print_statement(old(ast_data).tokens(), old(ast_data).token_index as int, new_line),
        ),
        is_empty_print(old(ast_data).tokens(), old(ast_data).token_index as int, new_line)
            ==> final(ast_data).error_detail@ == "empty print function"@,
{
    ast_data.error_function = "processPrint".to_string();
    let ghost ts = ast_data.tokens();
    let ghost i = ast_data.token_index as int;
    let ghost res = print_statement(ts, i, new_line);
    let token: Token = ast_data.get_token();
    let mut print_node = ASTNode {
        node_type: if new_line {
            ASTNodeType::Println
        } else {
            ASTNodeType::Print
        },
        token: None,
        left: None,
        middle: None,
        right: None,
        children: Vec::new(),
        is_const: false,
        size: 0,
    };
    if ast_data.is_error() {
        return print_node;
    }
    print_node.token = Some(token);
    ast_data.token_index += 1;
    if !ast_data.expect_type(TokenType::LeftParenthesis, "missing expected '(' in print") {
        return print_node;
    }
    ast_data.token_index += 1;
    assert(print_node@.children =~= Seq::<NodeView>::empty());
    fill_node_in_brackets(ast_data, &mut print_node, ASTNodeType::PrintExpression);
    if ast_data.is_error() {
        return print_node;
    }
    let ghost j = ast_data.token_index as int;
    if print_node.children.len() == 0 && !new_line {
        ast_data.error_detail = "empty print function".to_owned();
        ast_data.fail_here(AstError::UnexpectedType);
        assert(res == Parsed::Err((AstError::UnexpectedType, j)));
        return print_node;
    }
    if !ast_data.expect_type(TokenType::RightParenthesis, "missing expected ')' in print") {
        assert(res == Parsed::Err(expect_failure(ts, j)));
        return print_node;
    }
    ast_data.token_index += 1;
    if !ast_data.expect_type(TokenType::Semicolon, "missing expected ';' in print") {
        assert(res == Parsed::Err(expect_failure(ts, j + 1)));
        return print_node;
    }
    ast_data.token_index += 1;
    assert(print_node@ == (NodeView {
        node_type: print_kind(new_line),
        token: Some(ts[i]),
        children: print_node@.children,
        ..invalid_view()
    }));
    print_node
}

} // verus!
