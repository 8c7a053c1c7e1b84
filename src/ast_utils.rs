use vstd::prelude::*;
use crate::ast_expressions::binary;
use crate::ast_expressions::parse_binary_expression_any;
use crate::enums::ASTNodeType;
use crate::enums::TokenType;
use crate::errors::AstError;
use crate::structs::ASTData;
use crate::structs::ASTNode;
use crate::structs::NodeView;
use crate::structs::Token;

verus! {

/// The most runs of the loop that reads a bracketed list.
pub const BRACKET_CAP: usize = 500;

/// The comma-separated expressions read from position `i` on, after `acc`
/// in `count` runs, up to the closing parenthesis.
pub open spec fn bracket_items_from(
    ts: Seq<Token>,
    i: int,
    count: nat,
    acc: Seq<NodeView>,
    kind: ASTNodeType,
) -> Result<(Seq<NodeView>, int), (AstError, int)>
    decreases BRACKET_CAP - count,
{
    if count >= BRACKET_CAP {
        Err((AstError::InfiniteWhileLoop, i))
    } else if !(0 <= i < ts.len()) {
        Err((AstError::IndexOutOfRange, i))
    } else if ts[i].token_type == TokenType::RightParenthesis {
        Ok((acc, i))
    } else if ts[i].token_type == TokenType::Comma {
        bracket_items_from(ts, i + 1, count + 1, acc, kind)
    } else {
        match binary(ts, i, 0, kind) {
            Err(e) => Err(e),
            Ok((v, j)) => bracket_items_from(ts, j, count + 1, acc.push(v), kind),
        }
    }
}

/// Reads comma-separated expressions up to the closing parenthesis and adds
/// them to the children of `output_node`; operator nodes get the kind
/// `node_type`.
pub fn fill_node_in_brackets(ast_data: &mut ASTData, output_node: &mut ASTNode, node_type: ASTNodeType)
    requires
        old(ast_data).error_code is None,
    ensures
        final(ast_data).token_list == old(ast_data).token_list,
        final(ast_data).ast_nodes == old(ast_data).ast_nodes,
        match bracket_items_from(old(ast_data).tokens(), old(ast_data).token_index as int, 0, old(output_node)@.children, node_type) {
            Ok((items, j)) => final(ast_data).error_code is None && final(ast_data).token_index == j
                && final(output_node)@ == (NodeView { children: items, ..old(output_node)@ }),
            Err((e, at)) => final(ast_data).failed_with(e, at),
        },
{
    ast_data.error_function = "fillNodeInBrackets".to_string();
    let ghost ts = ast_data.tokens();
    let ghost res = bracket_items_from(ts, ast_data.token_index as int, 0, output_node@.children, node_type);
    let ghost before = output_node@;
    let mut count: usize = 0;
    loop
        invariant
            ast_data.token_list == old(ast_data).token_list,
            ast_data.ast_nodes == old(ast_data).ast_nodes,
            ts == ast_data.tokens(),
            res == bracket_items_from(old(ast_data).tokens(), old(ast_data).token_index as int, 0, old(output_node)@.children, node_type),
            before == old(output_node)@,
            ast_data.error_code is None,
            count <= BRACKET_CAP,
            output_node@ == (NodeView { children: output_node@.children, ..before }),
            bracket_items_from(ts, ast_data.token_index as int, count as nat, output_node@.children, node_type) == res,
        decreases BRACKET_CAP - count,
    {
        let ghost i = ast_data.token_index as int;
        let ghost acc = output_node@.children;
        if count >= BRACKET_CAP {
            ast_data.fail_here(AstError::InfiniteWhileLoop);
            assert(res == Err::<(Seq<NodeView>, int), (AstError, int)>((AstError::InfiniteWhileLoop, i)));
            return;
        }
        count += 1;
        let token: Token = ast_data.get_token();
        if ast_data.is_error() {
            assert(res == Err::<(Seq<NodeView>, int), (AstError, int)>((AstError::IndexOutOfRange, i)));
            return;
        }
        if token.token_type == TokenType::RightParenthesis {
            assert(res == Ok::<(Seq<NodeView>, int), (AstError, int)>((acc, i)));
            return;
        }
        if token.token_type == TokenType::Comma {
            ast_data.token_index += 1;
            continue;
        }
        let value_node: ASTNode = parse_binary_expression_any(ast_data, 0, node_type);
        if ast_data.is_error() {
            return;
        }
        output_node.children.push(value_node);
        assert(output_node@.children =~= acc.push(value_node@));
    }
}

/// A bracketed list made of commas for as many tokens as its loop may run
/// stops with `InfiniteWhileLoop` where the cap is reached.
pub proof fn lemma_bracket_cap(ts: Seq<Token>, i: int, count: nat, acc: Seq<NodeView>, kind: ASTNodeType)
    requires
        0 <= i,
        count <= BRACKET_CAP,
        i + (BRACKET_CAP - count) <= ts.len(),
        forall|k: int| i <= k < i + (BRACKET_CAP - count) ==> (#[trigger] ts[k]).token_type == TokenType::Comma,
    ensures
        bracket_items_from(ts, i, count, acc, kind) == Err::<(Seq<NodeView>, int), (AstError, int)>(
            (AstError::InfiniteWhileLoop, i + (BRACKET_CAP - count)),
        ),
    decreases BRACKET_CAP - count,
{
    if count < BRACKET_CAP {
        lemma_bracket_cap(ts, i + 1, count + 1, acc, kind);
    }
}

} // verus!
