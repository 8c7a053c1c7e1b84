use vstd::prelude::*;
use crate::enums::ASTNodeType;
use crate::errors::ConvertError;
use crate::go_print::call_text;
use crate::go_print::process_print;
use crate::go_utils::emitted;
use crate::go_utils::join_results;
use crate::go_utils::lemma_join_error;
use crate::go_utils::lemma_join_step;
use crate::structs::lemma_children_view;
use crate::structs::ASTNode;
use crate::structs::ConvertData;
use crate::structs::NodeView;

verus! {

/// Statements of a body end their line.
pub const NEW_LINE: bool = true;

/// The Go text of one statement of a body, with a closing newline where
/// asked.
pub open spec fn statement_text(n: NodeView, add_new_line: bool) -> Result<
    Seq<char>,
    ConvertError,
> {
    match n.node_type {
        ASTNodeType::Invalid => Err(ConvertError::InvalidNodeType),
        ASTNodeType::Println | ASTNodeType::Print => match call_text(
            n,
            n.node_type == ASTNodeType::Println,
        ) {
            Err(e) => Err(e),
            Ok(c) => Ok(
                c + (if add_new_line {
                    "\n"@
                } else {
                    Seq::empty()
                }),
            ),
        },
        _ => Err(ConvertError::UnimplementedNodeType),
    }
}

pub open spec fn statement_parts(stmts: Seq<NodeView>) -> Seq<Result<Seq<char>, ConvertError>> {
    stmts.map_values(|s: NodeView| statement_text(s, NEW_LINE))
}

/// The Go text of a body: its statements, one after another.
pub open spec fn body_text(n: NodeView) -> Result<Seq<char>, ConvertError> {
    join_results(statement_parts(n.children), Seq::empty())
}

/// Writes the statements of a body. It stops at the first statement that
/// fails: the text then ends with the statements before that one.
pub fn process_body(convert_data: &mut ConvertData, node: &ASTNode)
    requires
        old(convert_data).error_code is None,
    ensures
        emitted(*old(convert_data), *final(convert_data), body_text(node@)),
        body_text(node@) is Err ==> exists|k: int|
            0 <= k < node@.children.len() && join_results(
                statement_parts(node@.children).take(k),
                Seq::empty(),
            ) is Ok && #[trigger] statement_parts(node@.children)[k] is Err && final(convert_data).code_builder@ == old(convert_data).code_builder@ + join_results(
                statement_parts(node@.children).take(k),
                Seq::empty(),
            )->Ok_0,
{
    convert_data.error_function = "processBody".to_string();
    let ghost start = convert_data.code_builder@;
    let ghost parts = statement_parts(node@.children);
    proof {
        lemma_children_view(*node);
    }
    let child_count: usize = node.children.len();
    let mut i: usize = 0;
    assert(parts.take(0) =~= Seq::<Result<Seq<char>, ConvertError>>::empty());
    while i < child_count
        invariant
            i <= child_count,
            child_count == node.children.len(),
            parts == statement_parts(node@.children),
            node@.children.len() == node.children.len(),
            forall|k: int| 0 <= k < node.children.len() ==> node@.children[k] == #[trigger] node.children@[k]@,
            convert_data.ast_nodes == old(convert_data).ast_nodes,
            convert_data.node_index == old(convert_data).node_index,
            convert_data.index_count == old(convert_data).index_count,
            convert_data.error_code is None,
            start == old(convert_data).code_builder@,
            join_results(parts.take(i as int), Seq::empty()) is Ok,
            convert_data.code_builder@ == start + join_results(parts.take(i as int), Seq::empty())->Ok_0,
        decreases child_count - i,
    {
        proof {
            lemma_join_step(parts, Seq::empty(), i as int);
        }
        let child: &ASTNode = &node.children[i];
        assert(parts[i as int] == statement_text(child@, NEW_LINE));
        process_function_body_node(convert_data, child, NEW_LINE);
        if convert_data.is_error() {
            proof {
                lemma_join_error(parts, Seq::empty(), i as int, parts.len() as int);
                assert(parts.take(parts.len() as int) =~= parts);
                assert(parts[i as int] is Err);
            }
            return;
        }
        assert(convert_data.code_builder@ =~= start + join_results(parts.take(i + 1), Seq::empty())->Ok_0);
        i += 1;
    }
    assert(parts.take(child_count as int) =~= parts);
}

/// Writes one statement of a body; on failure nothing is written.
fn process_function_body_node(convert_data: &mut ConvertData, node: &ASTNode, add_new_line: bool)
    requires
        old(convert_data).error_code is None,
    ensures
        emitted(*old(convert_data), *final(convert_data), statement_text(node@, add_new_line)),
        statement_text(node@, add_new_line) is Err ==> final(convert_data).code_builder == old(convert_data).code_builder,
{
    convert_data.error_function = "processFunctionBodyNode".to_string();
    let ghost start = convert_data.code_builder@;
    let new_line = match node.node_type {
        ASTNodeType::Println => true,
        ASTNodeType::Print => false,
        ASTNodeType::Invalid => {
            convert_data.error_detail = "invalid statement".to_string();
            convert_data.error_code = Some(ConvertError::InvalidNodeType);
            return;
        },
        _ => {
            convert_data.error_detail = "statement not implemented yet".to_string();
            convert_data.error_code = Some(ConvertError::UnimplementedNodeType);
            return;
        },
    };
    process_print(convert_data, node, new_line);
    if convert_data.is_error() {
        return;
    }
    if add_new_line {
        convert_data.code_builder.append("\n");
    }
    assert(convert_data.code_builder@ =~= start + statement_text(node@, add_new_line)->Ok_0);
}

} // verus!
