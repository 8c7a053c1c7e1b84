use vstd::prelude::*;
use crate::ast_functions::function_declaration;
use crate::ast_functions::next_position;
use crate::ast_functions::process_function_declaration;
use crate::ast_functions::remaining;
use crate::enums::TokenType;
use crate::errors::AstError;
use crate::structs::views;
use crate::validity::all_valid;
use crate::validity::lemma_declarations_valid;
use crate::structs::ASTData;
use crate::structs::NodeView;
use crate::structs::Parsed;
use crate::structs::Token;

verus! {

/// The global declaration at position `i`, chosen by its first token: only
/// functions are known.
pub open spec fn declaration(ts: Seq<Token>, i: int) -> Parsed {
    if !(0 <= i < ts.len()) {
        Err((AstError::IndexOutOfRange, i))
    } else if ts[i].token_type == TokenType::Fn {
        function_declaration(ts, i)
    } else {
        Err((AstError::UnimplementedType, i))
    }
}

/// The declarations read from position `i` to the end of the tokens after
/// `acc`, and the error that stopped the reading, if any.
pub open spec fn declarations_from(ts: Seq<Token>, i: int, acc: Seq<NodeView>) -> (
    Seq<NodeView>,
    Option<(AstError, int)>,
)
    decreases remaining(ts, i),
{
    if !(0 <= i < ts.len()) {
        (acc, None)
    } else {
        match declaration(ts, i) {
            Err(e) => (acc, Some(e)),
            Ok((f, j)) => declarations_from(ts, next_position(i, j), acc.push(f)),
        }
    }
}

/// The declarations of a whole token stream.
pub open spec fn declarations(ts: Seq<Token>) -> (Seq<NodeView>, Option<(AstError, int)>) {
    declarations_from(ts, 0, Seq::empty())
}

/// A top-level construct that is not a function stops the stage with
/// `UnimplementedType` at its first token, and the declarations gathered
/// before it are returned as they were.
pub proof fn lemma_unknown_declaration_stops(ts: Seq<Token>, i: int, acc: Seq<NodeView>)
    requires
        0 <= i < ts.len(),
        ts[i].token_type != TokenType::Fn,
    ensures
        declarations_from(ts, i, acc) == (acc, Some((AstError::UnimplementedType, i))),
{
}

/// An empty token stream gives no declaration and no error.
pub proof fn lemma_empty_stream(ts: Seq<Token>)
    requires
        ts.len() == 0,
    ensures
        declarations(ts) == (Seq::<NodeView>::empty(), None::<(AstError, int)>),
{
}

/// Reads the global declaration at the cursor.
fn process_global_token_ast(ast_data: &mut ASTData, is_const: bool)
    requires
        old(ast_data).error_code is None,
    ensures
        final(ast_data).token_list == old(ast_data).token_list,
        match declaration(old(ast_data).tokens(), old(ast_data).token_index as int) {
            Ok((f, j)) => final(ast_data).error_code is None && final(ast_data).token_index == j
                && final(ast_data).ast_nodes@ == old(ast_data).ast_nodes@.push(
                final(ast_data).ast_nodes@.last(),
            ) && final(ast_data).ast_nodes@.last()@ == f,
            Err((e, at)) => final(ast_data).failed_with(e, at) && final(ast_data).ast_nodes
                == old(ast_data).ast_nodes,
        },
        old(ast_data).token_index < old(ast_data).tokens().len() && old(ast_data).tokens()[old(ast_data).token_index as int].token_type != TokenType::Fn ==> final(ast_data).token_index == old(ast_data).token_index,
{
    ast_data.error_function = "processGlobalTokenAST".to_string();
    let first_token: Token = ast_data.get_token();
    if ast_data.is_error() {
        return;
    }
    match first_token.token_type {
        TokenType::Fn => {
            process_function_declaration(ast_data);
        },
        _ => {
            ast_data.error_detail = "unimplemented type in ast".to_string();
            ast_data.fail_here(AstError::UnimplementedType);
        },
    }
}

/// Builds the syntax tree of a token stream: one declaration after another
/// until the tokens run out or the first error. The context returned holds
/// the declarations built and the error, if any.
pub fn build_asts<'a>(token_list: &'a Vec<Token>) -> (r: ASTData<'a>)
    ensures
        r.token_list == token_list,
        views(r.ast_nodes@) == declarations(token_list@).0,
        all_valid(views(r.ast_nodes@)),
        match declarations(token_list@).1 {
            None => r.error_code is None,
            Some((e, at)) => r.failed_with(e, at),
        },
{
    let mut ast_data = ASTData::new(token_list);
    let ghost ts = token_list@;
    proof {
        lemma_declarations_valid(ts);
    }
    let ghost res = declarations(ts);
    assert(views(ast_data.ast_nodes@) =~= Seq::<NodeView>::empty());
    let token_count: usize = ast_data.token_list.len();
    while ast_data.token_index < token_count
        invariant
            ast_data.token_list == token_list,
            ts == ast_data.tokens(),
            token_count == ts.len(),
            res == declarations(ts),
            all_valid(res.0),
            ast_data.error_code is None,
            declarations_from(ts, ast_data.token_index as int, views(ast_data.ast_nodes@)) == res,
        decreases remaining(ts, ast_data.token_index as int),
    {
        let index_before: usize = ast_data.token_index;
        let ghost acc = views(ast_data.ast_nodes@);
        let ghost old_nodes = ast_data.ast_nodes@;
        process_global_token_ast(&mut ast_data, false);
        if ast_data.is_error() {
            return ast_data;
        }
        assert(views(ast_data.ast_nodes@) =~= acc.push(ast_data.ast_nodes@.last()@)) by {
            assert(ast_data.ast_nodes@ == old_nodes.push(ast_data.ast_nodes@.last()));
        }
        if ast_data.token_index <= index_before {
            ast_data.token_index = index_before + 1;
        }
    }
    ast_data
}

} // verus!
