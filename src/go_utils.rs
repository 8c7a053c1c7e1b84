use vstd::prelude::*;
use crate::enums::TokenType;
use crate::errors::ConvertError;
use crate::structs::ASTNode;
use crate::structs::ConvertData;
use crate::structs::NodeView;
use crate::structs::Token;

verus! {

/// The Go type for a primitive type of the source language; the empty text
/// for `void`, and the visible marker `Unknown` for anything else.
pub open spec fn go_type_name(t: TokenType) -> Seq<char> {
    match t {
        TokenType::I8 | TokenType::U8 => "int8"@,
        TokenType::I16 | TokenType::U16 => "int16"@,
        TokenType::Int | TokenType::I32 | TokenType::U32 => "int"@,
        TokenType::I64 | TokenType::U64 | TokenType::Usize => "int64"@,
        TokenType::F32 => "float32"@,
        TokenType::F64 => "float64"@,
        TokenType::String => "string"@,
        TokenType::Char => "byte"@,
        TokenType::Bool => "bool"@,
        TokenType::Void => ""@,
        _ => "Unknown"@,
    }
}

pub fn convert_to_go_type(token: Token) -> (r: &'static str)
    ensures
        r@ == go_type_name(token.token_type),
{
    convert_type_to_go_type(token.token_type)
}

pub fn convert_type_to_go_type(token_type: TokenType) -> (r: &'static str)
    ensures
        r@ == go_type_name(token_type),
{
    match token_type {
        TokenType::I8 | TokenType::U8 => "int8",
        TokenType::I16 | TokenType::U16 => "int16",
        TokenType::Int | TokenType::I32 | TokenType::U32 => "int",
        TokenType::I64 | TokenType::U64 | TokenType::Usize => "int64",
        TokenType::F32 => "float32",
        TokenType::F64 => "float64",
        TokenType::String => "string",
        TokenType::Char => "byte",
        TokenType::Bool => "bool",
        TokenType::Void => "",
        _ => "Unknown",
    }
}

/// The innermost node of a type chain, reached through `left`.
pub open spec fn base_type(n: NodeView) -> NodeView
    decreases n,
{
    match n.left {
        Some(inner) => base_type(*inner),
        None => n,
    }
}

/// The innermost node of a type chain.
pub fn base_type_node(n: &ASTNode) -> (r: &ASTNode)
    ensures
        r@ == base_type(n@),
    decreases n,
{
    match &n.left {
        Some(inner) => base_type_node(inner),
        None => n,
    }
}

/// The pieces of text joined by `sep`, or the first error among them.
pub open spec fn join_results(parts: Seq<Result<Seq<char>, ConvertError>>, sep: Seq<char>) -> Result<
    Seq<char>,
    ConvertError,
>
    decreases parts.len(),
{
    if parts.len() == 0 {
        Ok(Seq::empty())
    } else {
        match join_results(parts.drop_last(), sep) {
            Err(e) => Err(e),
            Ok(s) => match parts.last() {
                Err(e) => Err(e),
                Ok(a) => Ok(
                    if parts.len() == 1 {
                        a
                    } else {
                        s + sep + a
                    },
                ),
            },
        }
    }
}

/// One more step of a join: the first `i + 1` pieces from the first `i`.
pub proof fn lemma_join_step(parts: Seq<Result<Seq<char>, ConvertError>>, sep: Seq<char>, i: int)
    requires
        0 <= i < parts.len(),
    ensures
        join_results(parts.take(i + 1), sep) == match join_results(parts.take(i), sep) {
            Err(e) => Err(e),
            Ok(s) => match parts[i] {
                Err(e) => Err(e),
                Ok(a) => Ok(
                    if i == 0 {
                        a
                    } else {
                        s + sep + a
                    },
                ),
            },
        },
{
    assert(parts.take(i + 1).drop_last() =~= parts.take(i));
}

/// A join fails with the error of the first piece that fails.
pub proof fn lemma_join_error(parts: Seq<Result<Seq<char>, ConvertError>>, sep: Seq<char>, i: int, k: int)
    requires
        0 <= i < k <= parts.len(),
        join_results(parts.take(i), sep) is Ok,
        parts[i] is Err,
    ensures
        join_results(parts.take(k), sep) == Err::<Seq<char>, ConvertError>(parts[i]->Err_0),
    decreases k - i,
{
    lemma_join_step(parts, sep, k - 1);
    if k > i + 1 {
        lemma_join_error(parts, sep, i, k - 1);
    }
}

/// A join that succeeds succeeds on each of its prefixes.
pub proof fn lemma_join_ok_prefix(parts: Seq<Result<Seq<char>, ConvertError>>, sep: Seq<char>, k: int)
    requires
        0 <= k <= parts.len(),
        join_results(parts, sep) is Ok,
    ensures
        join_results(parts.take(k), sep) is Ok,
    decreases parts.len() - k,
{
    if k < parts.len() {
        lemma_join_ok_prefix(parts, sep, k + 1);
        lemma_join_step(parts, sep, k);
    } else {
        assert(parts.take(k) =~= parts);
    }
}

/// `after` is the emitter context after writing, from `before` with no
/// error, what `res` gives: its text appended on success, its error recorded
/// on failure. The declarations, the cursor and the depth are kept.
pub open spec fn emitted<'a>(before: ConvertData<'a>, after: ConvertData<'a>, res: Result<Seq<char>, ConvertError>) -> bool {
    &&& after.ast_nodes == before.ast_nodes
    &&& after.node_index == before.node_index
    &&& after.index_count == before.index_count
    &&& match res {
        Ok(s) => after.error_code is None && after.code_builder@ == before.code_builder@ + s,
        Err(e) => after.error_code == Some(e),
    }
}

} // verus!
