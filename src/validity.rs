//! Every tree the builder returns without an error is free of invalid
//! nodes; so are the declarations it has gathered when it stops on one.
use vstd::prelude::*;
use crate::ast::declaration;
use crate::ast::declarations;
use crate::ast::declarations_from;
use crate::ast_expressions::binary;
use crate::ast_expressions::binary_rest;
use crate::ast_expressions::binary_view;
use crate::ast_expressions::is_type_chain;
use crate::ast_expressions::lemma_type_chain_shape;
use crate::ast_expressions::levels_above;
use crate::ast_expressions::parameter;
use crate::ast_expressions::parameters_from;
use crate::ast_expressions::parameters_node;
use crate::ast_expressions::primary;
use crate::ast_expressions::type_chain;
use crate::ast_expressions::LOOP_CAP;
use crate::ast_functions::block;
use crate::ast_functions::block_items_from;
use crate::ast_functions::function_declaration;
use crate::ast_functions::next_position;
use crate::ast_functions::remaining;
use crate::ast_functions::statement;
use crate::ast_print::print_statement;
use crate::ast_utils::bracket_items_from;
use crate::ast_utils::BRACKET_CAP;
use crate::enums::ASTNodeType;
use crate::enums::TokenType;
use crate::structs::has_kind;
use crate::structs::invalid_view;
use crate::structs::no_invalid;
use crate::structs::prefix_valid;
use crate::structs::NodeView;
use crate::structs::Token;
use crate::token_utils::precedence;
use crate::token_utils::spec_is_binary_operator;

verus! {

/// No tree of the sequence holds an invalid node.
pub open spec fn all_valid(s: Seq<NodeView>) -> bool {
    prefix_valid(s, s.len() as int)
}

proof fn lemma_prefix_push(s: Seq<NodeView>, n: NodeView, k: int)
    requires
        0 <= k <= s.len(),
    ensures
        prefix_valid(s.push(n), k) == prefix_valid(s, k),
    decreases k,
{
    if k > 0 {
        assert(s.push(n)[k - 1] == s[k - 1]);
        lemma_prefix_push(s, n, k - 1);
    }
}

proof fn lemma_push_valid(s: Seq<NodeView>, n: NodeView)
    requires
        all_valid(s),
        no_invalid(n),
    ensures
        all_valid(s.push(n)),
{
    lemma_prefix_push(s, n, s.len() as int);
    assert(s.push(n)[s.len() as int] == n);
}

/// A node without children is free of invalid nodes when it is not invalid
/// itself and its slots are free of them.
proof fn lemma_childless_valid(n: NodeView)
    requires
        n.children.len() == 0,
        n.node_type != ASTNodeType::Invalid,
        n.left is Some ==> no_invalid(*n.left->Some_0),
        n.middle is Some ==> no_invalid(*n.middle->Some_0),
        n.right is Some ==> no_invalid(*n.right->Some_0),
    ensures
        no_invalid(n),
{
    assert(prefix_valid(n.children, 0));
}

proof fn lemma_chain_valid(n: NodeView)
    requires
        is_type_chain(n),
    ensures
        no_invalid(n),
    decreases n,
{
    if let Some(inner) = n.left {
        lemma_chain_valid(*inner);
    }
    lemma_childless_valid(n);
}

proof fn lemma_type_chain_valid(ts: Seq<Token>, i: int)
    ensures
        type_chain(ts, i) is Ok ==> no_invalid(type_chain(ts, i)->Ok_0.0),
{
    lemma_type_chain_shape(ts, i);
    if type_chain(ts, i) is Ok {
        lemma_chain_valid(type_chain(ts, i)->Ok_0.0);
    }
}

proof fn lemma_parameters_valid(ts: Seq<Token>, i: int, count: nat, acc: Seq<NodeView>)
    requires
        all_valid(acc),
    ensures
        parameters_from(ts, i, count, acc) is Ok ==> all_valid(
            parameters_from(ts, i, count, acc)->Ok_0.0,
        ),
    decreases LOOP_CAP - count,
{
    if 0 <= i < ts.len() && count < LOOP_CAP && ts[i].token_type != TokenType::RightParenthesis {
        if ts[i].token_type == TokenType::Comma {
            lemma_parameters_valid(ts, i + 1, count + 1, acc);
        } else {
            lemma_type_chain_valid(ts, i);
            if let Ok((p, j)) = parameter(ts, i) {
                assert(p.children =~= Seq::<NodeView>::empty());
                lemma_childless_valid(p);
                lemma_push_valid(acc, p);
                lemma_parameters_valid(ts, j, count + 1, acc.push(p));
            }
        }
    }
}

proof fn lemma_binary_valid(ts: Seq<Token>, i: int, min_prec: nat, kind: ASTNodeType)
    requires
        kind != ASTNodeType::Invalid,
    ensures
        binary(ts, i, min_prec, kind) is Ok ==> if has_kind(ts, i, TokenType::RightParenthesis) {
            binary(ts, i, min_prec, kind)->Ok_0.0 == invalid_view()
        } else {
            no_invalid(binary(ts, i, min_prec, kind)->Ok_0.0)
        },
    decreases levels_above(min_prec), 1int, 0int,
{
    if let Ok((left, j)) = primary(ts, i) {
        if !has_kind(ts, i, TokenType::RightParenthesis) {
            assert(left.children =~= Seq::<NodeView>::empty());
            lemma_childless_valid(left);
            lemma_binary_rest_valid(ts, j, min_prec, kind, left, 0);
        }
    }
}

proof fn lemma_binary_rest_valid(
    ts: Seq<Token>,
    i: int,
    min_prec: nat,
    kind: ASTNodeType,
    left: NodeView,
    count: nat,
)
    requires
        kind != ASTNodeType::Invalid,
        no_invalid(left),
    ensures
        binary_rest(ts, i, min_prec, kind, left, count) is Ok ==> no_invalid(
            binary_rest(ts, i, min_prec, kind, left, count)->Ok_0.0,
        ),
    decreases levels_above(min_prec), 0int, LOOP_CAP - count,
{
    if 0 <= i < ts.len() && count < LOOP_CAP {
        let op = ts[i];
        if spec_is_binary_operator(op.token_type) && precedence(op.token_type) >= min_prec {
            let p = (precedence(op.token_type) + 1) as nat;
            lemma_binary_valid(ts, i + 1, p, kind);
            if let Ok((right, j)) = binary(ts, i + 1, p, kind) {
                if right.node_type != ASTNodeType::Invalid {
                    let joined = binary_view(kind, op, left, right);
                    assert(joined.children =~= Seq::<NodeView>::empty());
                    lemma_childless_valid(joined);
                    lemma_binary_rest_valid(ts, j, min_prec, kind, joined, count + 1);
                }
            }
        }
    }
}

proof fn lemma_bracket_valid(ts: Seq<Token>, i: int, count: nat, acc: Seq<NodeView>, kind: ASTNodeType)
    requires
        kind != ASTNodeType::Invalid,
        all_valid(acc),
    ensures
        bracket_items_from(ts, i, count, acc, kind) is Ok ==> all_valid(
            bracket_items_from(ts, i, count, acc, kind)->Ok_0.0,
        ),
    decreases BRACKET_CAP - count,
{
    if count < BRACKET_CAP && 0 <= i < ts.len() && ts[i].token_type
        != TokenType::RightParenthesis {
        if ts[i].token_type == TokenType::Comma {
            lemma_bracket_valid(ts, i + 1, count + 1, acc, kind);
        } else {
            lemma_binary_valid(ts, i, 0, kind);
            if let Ok((v, j)) = binary(ts, i, 0, kind) {
                lemma_push_valid(acc, v);
                lemma_bracket_valid(ts, j, count + 1, acc.push(v), kind);
            }
        }
    }
}

proof fn lemma_statement_valid(ts: Seq<Token>, i: int)
    ensures
        statement(ts, i) is Ok ==> no_invalid(statement(ts, i)->Ok_0.0),
{
    if 0 <= i < ts.len() {
        lemma_bracket_valid(ts, i + 2, 0, Seq::empty(), ASTNodeType::PrintExpression);
        let nl = ts[i].token_type == TokenType::Println;
        if let Ok((s, j)) = statement(ts, i) {
            assert(s == print_statement(ts, i, nl)->Ok_0.0);
            assert(all_valid(s.children));
        }
    }
}

proof fn lemma_block_valid(ts: Seq<Token>, i: int, acc: Seq<NodeView>)
    requires
        all_valid(acc),
    ensures
        block_items_from(ts, i, acc) is Ok ==> all_valid(block_items_from(ts, i, acc)->Ok_0.0),
    decreases remaining(ts, i),
{
    if 0 <= i < ts.len() && ts[i].token_type != TokenType::RightBrace {
        lemma_statement_valid(ts, i);
        if let Ok((s, j)) = statement(ts, i) {
            lemma_push_valid(acc, s);
            lemma_block_valid(ts, next_position(i, j), acc.push(s));
        }
    }
}

proof fn lemma_function_valid(ts: Seq<Token>, i: int)
    ensures
        function_declaration(ts, i) is Ok ==> no_invalid(function_declaration(ts, i)->Ok_0.0),
{
    if 0 <= i && i + 1 < ts.len() {
        lemma_type_chain_valid(ts, i + 1);
        if let Ok((ty, a)) = type_chain(ts, i + 1) {
            lemma_parameters_valid(ts, a + 2, 0, Seq::empty());
            if let Ok((ps, b)) = parameters_node(ts, a + 2) {
                lemma_block_valid(ts, b + 2, Seq::empty());
                if let Ok((f, c)) = function_declaration(ts, i) {
                    let body = block(ts, b + 2, ASTNodeType::FunctionBody)->Ok_0.0;
                    assert(no_invalid(ps));
                    assert(no_invalid(body));
                    assert(f.children =~= Seq::<NodeView>::empty());
                    lemma_childless_valid(f);
                }
            }
        }
    }
}

proof fn lemma_declarations_from_valid(ts: Seq<Token>, i: int, acc: Seq<NodeView>)
    requires
        all_valid(acc),
    ensures
        all_valid(declarations_from(ts, i, acc).0),
    decreases remaining(ts, i),
{
    if 0 <= i < ts.len() {
        lemma_function_valid(ts, i);
        if let Ok((f, j)) = declaration(ts, i) {
            lemma_push_valid(acc, f);
            lemma_declarations_from_valid(ts, next_position(i, j), acc.push(f));
        }
    }
}

/// The declarations that the builder returns, whether it stops on an error
/// or not, hold no node of the invalid kind anywhere in their trees.
pub proof fn lemma_declarations_valid(ts: Seq<Token>)
    ensures
        all_valid(declarations(ts).0),
{
    lemma_declarations_from_valid(ts, 0, Seq::empty());
}

} // verus!
