use vstd::prelude::*;
use crate::enums::ASTNodeType;
use crate::errors::ConvertError;
use crate::go_utils::emitted;
use crate::go_utils::join_results;
use crate::go_utils::lemma_join_ok_prefix;
use crate::go_utils::lemma_join_error;
use crate::go_utils::lemma_join_step;
use crate::structs::lemma_children_view;
use crate::structs::ASTNode;
use crate::structs::ConvertData;
use crate::structs::NodeView;

verus! {

/// The text of one print argument: a string literal in quotes, any other
/// literal as its raw text.
pub open spec fn argument_text(a: NodeView) -> Result<Seq<char>, ConvertError> {
    match a.token {
        None => Err(ConvertError::NodeIsNull),
        Some(t) => match a.node_type {
            ASTNodeType::StringLiteral => Ok("\""@ + t.text@ + "\""@),
            ASTNodeType::BoolLiteral | ASTNodeType::IntegerLiteral | ASTNodeType::CharLiteral => Ok(
                t.text@,
            ),
            _ => Err(ConvertError::UnimplementedNodeType),
        },
    }
}

pub open spec fn argument_parts(args: Seq<NodeView>) -> Seq<Result<Seq<char>, ConvertError>> {
    args.map_values(|a: NodeView| argument_text(a))
}

/// The Go text for a print statement node: a tab, then `fmt.Println(...)`
/// or `fmt.Print(...)` with its arguments joined by commas; a `print` with no
/// argument gives the tab alone.
pub open spec fn call_text(n: NodeView, new_line: bool) -> Result<Seq<char>, ConvertError> {
    if !new_line && n.children.len() == 0 {
        Ok("\t"@)
    } else {
        match join_results(argument_parts(n.children), ", "@) {
            Err(e) => Err(e),
            Ok(a) => Ok(
                "\t"@ + (if new_line {
                    "fmt.Println("@
                } else {
                    "fmt.Print("@
                }) + a + ")"@,
            ),
        }
    }
}

/// Writes the Go call for a print statement. The arguments are checked
/// before anything is written, so on failure the text is left as it was.
pub fn process_print(convert_data: &mut ConvertData, node: &ASTNode, new_line: bool)
    requires
        old(convert_data).error_code is None,
    ensures
        emitted(*old(convert_data), *final(convert_data), call_text(node@, new_line)),
        call_text(node@, new_line) is Err ==> final(convert_data).code_builder == old(convert_data).code_builder,
{
    let ghost start = convert_data.code_builder@;
    let ghost parts = argument_parts(node@.children);
    proof {
        lemma_children_view(*node);
    }
    let child_count: usize = node.children.len();
    let mut i: usize = 0;
    assert(parts.take(0) =~= Seq::<Result<Seq<char>, ConvertError>>::empty());
    while i < child_count
        invariant
            i <= child_count,
            child_count == node.children.len(),
            parts == argument_parts(node@.children),
            node@.children.len() == node.children.len(),
            forall|k: int| 0 <= k < node.children.len() ==> node@.children[k] == #[trigger] node.children@[k]@,
            *convert_data == *old(convert_data),
            join_results(parts.take(i as int), ", "@) is Ok,
        decreases child_count - i,
    {
        proof {
            lemma_join_step(parts, ", "@, i as int);
        }
        let child: &ASTNode = &node.children[i];
        assert(parts[i as int] == argument_text(child@));
        match &child.token {
            None => {
                convert_data.error_detail = "print argument has no token".to_string();
                convert_data.error_code = Some(ConvertError::NodeIsNull);
                proof {
                    lemma_join_error(parts, ", "@, i as int, parts.len() as int);
                    assert(parts.take(parts.len() as int) =~= parts);
                }
                return;
            },
            Some(token) => {
                match child.node_type {
                    ASTNodeType::StringLiteral | ASTNodeType::BoolLiteral
                    | ASTNodeType::IntegerLiteral | ASTNodeType::CharLiteral => {},
                    _ => {
                        convert_data.error_detail = "print argument is not a literal".to_string();
                        convert_data.error_token = token.clone();
                        convert_data.error_code = Some(ConvertError::UnimplementedNodeType);
                        proof {
                            lemma_join_error(parts, ", "@, i as int, parts.len() as int);
                            assert(parts.take(parts.len() as int) =~= parts);
                        }
                        return;
                    },
                }
            },
        }
        i += 1;
    }
    assert(parts.take(child_count as int) =~= parts);
    convert_data.code_builder.append("\t");
    if child_count == 0 && !new_line {
        return;
    }
    if new_line {
        convert_data.code_builder.append("fmt.Println(");
    } else {
        convert_data.code_builder.append("fmt.Print(");
    }
    let ghost head = convert_data.code_builder@;
    let mut i: usize = 0;
    while i < child_count
        invariant
            i <= child_count,
            child_count == node.children.len(),
            parts == argument_parts(node@.children),
            node@.children.len() == node.children.len(),
            forall|k: int| 0 <= k < node.children.len() ==> node@.children[k] == #[trigger] node.children@[k]@,
            join_results(parts, ", "@) is Ok,
            parts.take(child_count as int) == parts,
            convert_data.ast_nodes == old(convert_data).ast_nodes,
            convert_data.node_index == old(convert_data).node_index,
            convert_data.index_count == old(convert_data).index_count,
            convert_data.error_code is None,
            head == start + "\t"@ + (if new_line {
                "fmt.Println("@
            } else {
                "fmt.Print("@
            }),
            start == old(convert_data).code_builder@,
            join_results(parts.take(i as int), ", "@) is Ok,
            convert_data.code_builder@ == head + join_results(parts.take(i as int), ", "@)->Ok_0,
        decreases child_count - i,
    {
        proof {
            lemma_join_step(parts, ", "@, i as int);
            lemma_join_ok_prefix(parts, ", "@, i + 1);
        }
        let child: &ASTNode = &node.children[i];
        assert(parts[i as int] == argument_text(child@));
        if let Some(token) = &child.token {
            let quoted = match child.node_type {
                ASTNodeType::StringLiteral => true,
                _ => false,
            };
            if i != 0 {
                convert_data.code_builder.append(", ");
            }
            if quoted {
                convert_data.code_builder.append("\"");
            }
            convert_data.code_builder.append(token.text.as_str());
            if quoted {
                convert_data.code_builder.append("\"");
            }
        }
        assert(convert_data.code_builder@ =~= head + join_results(parts.take(i + 1), ", "@)->Ok_0);
        i += 1;
    }
    convert_data.code_builder.append(")");
    assert(convert_data.code_builder@ =~= start + call_text(node@, new_line)->Ok_0);
}

} // verus!
