use vstd::prelude::*;
use crate::enums::ASTNodeType;
use crate::errors::ConvertError;
use crate::go_functions::function_close;
use crate::go_functions::function_text;
use crate::go_functions::process_function_declaration;
use crate::go_utils::emitted;
use crate::go_utils::join_results;
use crate::go_utils::lemma_join_error;
use crate::go_utils::lemma_join_step;
use crate::structs::views;
use crate::structs::ASTNode;
use crate::structs::ConvertData;
use crate::structs::NodeView;

verus! {

/// What the Go program begins with, once.
pub open spec fn preamble() -> Seq<char> {
    "package main\n\nimport \"fmt\"\n\n"@ + "\n"@
}

/// The Go text of one top-level declaration: only functions are known.
pub open spec fn declaration_text(n: NodeView) -> Result<Seq<char>, ConvertError> {
    if n.node_type == ASTNodeType::FunctionDeclaration {
        function_text(n)
    } else {
        Err(ConvertError::UnimplementedNodeType)
    }
}

pub open spec fn declaration_parts(ns: Seq<NodeView>) -> Seq<Result<Seq<char>, ConvertError>> {
    ns.map_values(|n: NodeView| declaration_text(n))
}

/// The Go program for a sequence of declarations: the preamble, then each
/// declaration in order; there must be at least one.
pub open spec fn program_text(ns: Seq<NodeView>) -> Result<Seq<char>, ConvertError> {
    if ns.len() == 0 {
        Err(ConvertError::NoAstNodes)
    } else {
        match join_results(declaration_parts(ns), Seq::empty()) {
            Err(e) => Err(e),
            Ok(s) => Ok(preamble() + s),
        }
    }
}

/// The function blocks of declarations that all emit.
pub open spec fn function_blocks(ns: Seq<NodeView>) -> Seq<Seq<char>> {
    ns.map_values(|n: NodeView| function_text(n)->Ok_0)
}

proof fn lemma_join_blocks(ns: Seq<NodeView>, k: int)
    requires
        0 <= k <= ns.len(),
        forall|i: int|
            0 <= i < ns.len() ==> (#[trigger] ns[i]).node_type == ASTNodeType::FunctionDeclaration
                && function_text(ns[i]) is Ok,
    ensures
        join_results(declaration_parts(ns).take(k), Seq::empty()) == Ok::<Seq<char>, ConvertError>(
            function_blocks(ns).take(k).flatten(),
        ),
    decreases k,
{
    let blocks = function_blocks(ns);
    if k == 0 {
        assert(declaration_parts(ns).take(0) =~= Seq::<Result<Seq<char>, ConvertError>>::empty());
        assert(blocks.take(0) =~= Seq::<Seq<char>>::empty());
    } else {
        lemma_join_blocks(ns, k - 1);
        lemma_join_step(declaration_parts(ns), Seq::empty(), k - 1);
        assert(blocks.take(k) =~= blocks.take(k - 1).push(blocks[k - 1]));
        blocks.take(k - 1).lemma_flatten_push(blocks[k - 1]);
        if k == 1 {
            assert(blocks.take(0) =~= Seq::<Seq<char>>::empty());
            assert(blocks.take(0).flatten() =~= Seq::<char>::empty());
            assert(blocks.take(1).flatten() =~= blocks[0]);
        } else {
            assert(blocks.take(k - 1).flatten() + Seq::<char>::empty() + blocks[k - 1]
                =~= blocks.take(k - 1).flatten() + blocks[k - 1]);
        }
    }
}

/// Emitting declarations that are all functions, each of which emits, gives
/// the preamble followed by exactly one block per declaration, in the order
/// of the declarations; each block ends with its closing brace, so it is
/// closed before the next begins.
pub proof fn lemma_emission_order(ns: Seq<NodeView>)
    requires
        ns.len() > 0,
        forall|i: int|
            0 <= i < ns.len() ==> (#[trigger] ns[i]).node_type == ASTNodeType::FunctionDeclaration
                && function_text(ns[i]) is Ok,
    ensures
        program_text(ns) == Ok::<Seq<char>, ConvertError>(
            preamble() + function_blocks(ns).flatten(),
        ),
        function_blocks(ns).len() == ns.len(),
        forall|i: int|
            0 <= i < ns.len() ==> (#[trigger] function_blocks(ns)[i]).len() >= function_close().len()
                && function_blocks(ns)[i].subrange(
                function_blocks(ns)[i].len() - function_close().len(),
                function_blocks(ns)[i].len() as int,
            ) == function_close(),
{
    lemma_join_blocks(ns, ns.len() as int);
    assert(declaration_parts(ns).take(ns.len() as int) =~= declaration_parts(ns));
    assert(function_blocks(ns).take(ns.len() as int) =~= function_blocks(ns));
    assert forall|i: int| 0 <= i < ns.len() implies (#[trigger] function_blocks(ns)[i]).len()
        >= function_close().len() && function_blocks(ns)[i].subrange(
        function_blocks(ns)[i].len() - function_close().len(),
        function_blocks(ns)[i].len() as int,
    ) == function_close() by {
        let b = function_blocks(ns)[i];
        let f = ns[i];
        let sig = crate::go_functions::signature_text(f)->Ok_0;
        let body = crate::go_body::body_text(*f.right->Some_0)->Ok_0;
        assert(b == sig + body + function_close());
        assert(b.subrange(b.len() - function_close().len(), b.len() as int) =~= function_close());
    }
}

/// Writes the top-level declaration at the cursor.
fn process_global_node(convert_data: &mut ConvertData)
    requires
        old(convert_data).error_code is None,
        old(convert_data).index_count < usize::MAX,
        old(convert_data).node_index < old(convert_data).ast_nodes.len(),
    ensures
        emitted(
            *old(convert_data),
            *final(convert_data),
            declaration_text(old(convert_data).ast_nodes@[old(convert_data).node_index as int]@),
        ),
{
    convert_data.error_function = "processGlobalNode".to_string();
    let node: &ASTNode = match convert_data.get_node() {
        None => {
            return;
        },
        Some(n) => n,
    };
    match node.node_type {
        ASTNodeType::FunctionDeclaration => {
            process_function_declaration(convert_data, node);
        },
        _ => {
            convert_data.error_detail = "declaration not implemented yet".to_string();
            convert_data.error_code = Some(ConvertError::UnimplementedNodeType);
        },
    }
}

/// Emits the Go program for a sequence of declarations. On failure the text
/// is empty and `convert_error` holds the error.
pub fn convert(ast_nodes: &Vec<ASTNode>, convert_error: &mut Option<ConvertError>) -> (r: String)
    ensures
        match program_text(views(ast_nodes@)) {
            Ok(s) => r@ == s && *final(convert_error) == None::<ConvertError>,
            Err(e) => r@ == Seq::<char>::empty() && *final(convert_error) == Some(e),
        },
{
    let mut convert_data = ConvertData::new(ast_nodes);
    convert_data.error_function = "convert".to_string();
    let ghost ns = views(ast_nodes@);
    let ghost parts = declaration_parts(ns);
    let node_count: usize = convert_data.ast_nodes.len();
    if node_count == 0 {
        *convert_error = Some(ConvertError::NoAstNodes);
        return String::new();
    }
    convert_data.code_builder.append_line("package main\n\nimport \"fmt\"\n\n");
    assert(parts.take(0) =~= Seq::<Result<Seq<char>, ConvertError>>::empty());
    while convert_data.node_index < node_count
        invariant
            convert_data.ast_nodes == ast_nodes,
            node_count == ast_nodes.len(),
            ns == views(ast_nodes@),
            parts == declaration_parts(ns),
            convert_data.node_index <= node_count,
            convert_data.error_code is None,
            convert_data.index_count == 0,
            join_results(parts.take(convert_data.node_index as int), Seq::empty()) is Ok,
            convert_data.code_builder@ == preamble() + join_results(
                parts.take(convert_data.node_index as int),
                Seq::empty(),
            )->Ok_0,
        decreases node_count - convert_data.node_index,
    {
        let previous_index: usize = convert_data.node_index;
        proof {
            lemma_join_step(parts, Seq::empty(), previous_index as int);
        }
        assert(parts[previous_index as int] == declaration_text(ast_nodes@[previous_index as int]@));
        process_global_node(&mut convert_data);
        if convert_data.is_error() {
            proof {
                lemma_join_error(parts, Seq::empty(), previous_index as int, parts.len() as int);
                assert(parts.take(parts.len() as int) =~= parts);
            }
            *convert_error = convert_data.error_code;
            return String::new();
        }
        assert(convert_data.code_builder@ =~= preamble() + join_results(
            parts.take(previous_index + 1),
            Seq::empty(),
        )->Ok_0);
        convert_data.node_index += 1;
    }
    assert(parts.take(node_count as int) =~= parts);
    *convert_error = None;
    convert_data.code_builder.into_string()
}

} // verus!
