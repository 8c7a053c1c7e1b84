use vstd::prelude::*;
use crate::errors::ConvertError;
use crate::go_body::body_text;
use crate::go_body::process_body;
use crate::go_utils::base_type;
use crate::go_utils::base_type_node;
use crate::go_utils::convert_type_to_go_type;
use crate::go_utils::emitted;
use crate::go_utils::go_type_name;
use crate::go_utils::join_results;
use crate::go_utils::lemma_join_error;
use crate::go_utils::lemma_join_step;
use crate::structs::lemma_children_view;
use crate::structs::ASTNode;
use crate::structs::ConvertData;
use crate::structs::NodeView;

verus! {

/// The Go text of one parameter: its name, then the Go name of its base type.
/// Pointer levels of the type chain are not written; the base type stands
/// for the whole chain.
pub open spec fn parameter_text(p: NodeView) -> Result<Seq<char>, ConvertError> {
    match p.token {
        None => Err(ConvertError::NodeIsNull),
        Some(name) => match p.left {
            None => Err(ConvertError::NodeIsNull),
            Some(ty) => match base_type(*ty).token {
                None => Err(ConvertError::NodeIsNull),
                Some(bt) => Ok(name.text@ + " "@ + go_type_name(bt.token_type)),
            },
        },
    }
}

pub open spec fn parameter_parts(ps: Seq<NodeView>) -> Seq<Result<Seq<char>, ConvertError>> {
    ps.map_values(|p: NodeView| parameter_text(p))
}

/// The Go text of a parameter list: its parameters joined by commas.
pub open spec fn parameters_text(ps: NodeView) -> Result<Seq<char>, ConvertError> {
    join_results(parameter_parts(ps.children), ", "@)
}

/// What closes a signature: the return type, if it has a Go name, and the
/// opening brace.
pub open spec fn signature_end(ret: Seq<char>) -> Seq<char> {
    if ret.len() == 0 {
        ") {\n"@
    } else {
        ") "@ + ret + " {\n"@
    }
}

/// The Go signature of a function declaration: `func`, its name, its
/// parameters and the Go name of its return type (the base of its type
/// chain, without pointer levels).
pub open spec fn signature_text(f: NodeView) -> Result<Seq<char>, ConvertError> {
    match f.left {
        None => Err(ConvertError::NodeIsNull),
        Some(ty) => match f.token {
            None => Err(ConvertError::NodeIsNull),
            Some(name) => match base_type(*ty).token {
                None => Err(ConvertError::NodeIsNull),
                Some(rt) => match (match f.middle {
                    None => Ok(Seq::empty()),
                    Some(ps) => parameters_text(*ps),
                }) {
                    Err(e) => Err(e),
                    Ok(p) => Ok(
                        "func "@ + name.text@ + "("@ + p + signature_end(go_type_name(rt.token_type)),
                    ),
                },
            },
        },
    }
}

/// What closes a function block.
pub open spec fn function_close() -> Seq<char> {
    "\n\r}\n\n"@
}

/// The Go block of a function declaration: its signature, its body and the
/// closing brace.
pub open spec fn function_text(f: NodeView) -> Result<Seq<char>, ConvertError> {
    match signature_text(f) {
        Err(e) => Err(e),
        Ok(sig) => match f.right {
            None => Err(ConvertError::NodeIsNull),
            Some(body) => match body_text(*body) {
                Err(e) => Err(e),
                Ok(b) => Ok(sig + b + function_close()),
            },
        },
    }
}

/// Writes a function declaration as a Go function.
pub fn process_function_declaration(convert_data: &mut ConvertData, node: &ASTNode)
    requires
        old(convert_data).error_code is None,
        old(convert_data).index_count < usize::MAX,
    ensures
        emitted(*old(convert_data), *final(convert_data), function_text(node@)),
{
    convert_data.error_function = "process_function_declaration".to_string();
    let ghost start = convert_data.code_builder@;
    write_function_name_and_parameters(convert_data, node);
    if convert_data.is_error() {
        return;
    }
    let ghost after_sig = convert_data.code_builder@;
    match &node.right {
        None => {
            convert_data.error_detail = "function has no body".to_string();
            convert_data.error_code = Some(ConvertError::NodeIsNull);
        },
        Some(body) => {
            convert_data.increment_index_count();
            process_body(convert_data, body);
            convert_data.decrement_index_count();
            if convert_data.is_error() {
                return;
            }
            convert_data.code_builder.append("\n\r}\n\n");
            assert(convert_data.code_builder@ =~= start + function_text(node@)->Ok_0);
        },
    }
}

/// Writes the signature of a function declaration.
fn write_function_name_and_parameters(convert_data: &mut ConvertData, node: &ASTNode)
    requires
        old(convert_data).error_code is None,
    ensures
        emitted(*old(convert_data), *final(convert_data), signature_text(node@)),
{
    convert_data.error_function = "writeFunctionNameAndParameters".to_string();
    let ghost start = convert_data.code_builder@;
    let type_node: &ASTNode = match &node.left {
        None => {
            convert_data.error_detail = "function has no return type".to_string();
            convert_data.error_code = Some(ConvertError::NodeIsNull);
            return;
        },
        Some(t) => t,
    };
    let function_name: &String = match &node.token {
        None => {
            convert_data.error_detail = "function has no name".to_string();
            convert_data.error_code = Some(ConvertError::NodeIsNull);
            return;
        },
        Some(t) => &t.text,
    };
    let base: &ASTNode = base_type_node(type_node);
    let return_type = match convert_data.print_type(base) {
        None => {
            convert_data.error_detail = "return type has no base type".to_string();
            convert_data.error_code = Some(ConvertError::NodeIsNull);
            return;
        },
        Some(t) => convert_type_to_go_type(t.token_type),
    };
    convert_data.code_builder.append("func ");
    convert_data.code_builder.append(function_name.as_str());
    convert_data.code_builder.append("(");
    let ghost head = convert_data.code_builder@;
    match &node.middle {
        Some(parameters) => {
            print_parameters(convert_data, parameters);
            if convert_data.is_error() {
                return;
            }
        },
        None => {
            assert(convert_data.code_builder@ =~= head + Seq::<char>::empty());
        },
    }
    if return_type.is_empty() {
        convert_data.code_builder.append(") {\n");
    } else {
        convert_data.code_builder.append(") ");
        convert_data.code_builder.append(return_type);
        convert_data.code_builder.append(" {\n");
    }
    assert(convert_data.code_builder@ =~= start + signature_text(node@)->Ok_0);
}

/// Writes the parameters of a parameter list node, joined by commas.
fn print_parameters(convert_data: &mut ConvertData, node: &ASTNode)
    requires
        old(convert_data).error_code is None,
    ensures
        emitted(*old(convert_data), *final(convert_data), parameters_text(node@)),
{
    let ghost start = convert_data.code_builder@;
    let ghost parts = parameter_parts(node@.children);
    proof {
        lemma_children_view(*node);
    }
    let child_count: usize = node.children.len();
    let mut i: usize = 0;
    assert(parts.take(0) =~= Seq::<Result<Seq<char>, ConvertError>>::empty());
    while i < child_count
        invariant
            i <= child_count,
            child_count == node.children.len(),
            parts == parameter_parts(node@.children),
            node@.children.len() == node.children.len(),
            forall|k: int| 0 <= k < node.children.len() ==> node@.children[k] == #[trigger] node.children@[k]@,
            convert_data.ast_nodes == old(convert_data).ast_nodes,
            convert_data.node_index == old(convert_data).node_index,
            convert_data.index_count == old(convert_data).index_count,
            convert_data.error_code is None,
            start == old(convert_data).code_builder@,
            join_results(parts.take(i as int), ", "@) is Ok,
            convert_data.code_builder@ == start + join_results(parts.take(i as int), ", "@)->Ok_0,
        decreases child_count - i,
    {
        proof {
            lemma_join_step(parts, ", "@, i as int);
        }
        let child: &ASTNode = &node.children[i];
        assert(parts[i as int] == parameter_text(child@));
        let parameter_name: &String = match &child.token {
            None => {
                convert_data.error_detail = "parameter has no name".to_string();
                convert_data.error_code = Some(ConvertError::NodeIsNull);
                proof {
                    lemma_join_error(parts, ", "@, i as int, parts.len() as int);
                    assert(parts.take(parts.len() as int) =~= parts);
                }
                return;
            },
            Some(t) => &t.text,
        };
        let type_node: &ASTNode = match &child.left {
            None => {
                convert_data.error_detail = "parameter has no type".to_string();
                convert_data.error_code = Some(ConvertError::NodeIsNull);
                proof {
                    lemma_join_error(parts, ", "@, i as int, parts.len() as int);
                    assert(parts.take(parts.len() as int) =~= parts);
                }
                return;
            },
            Some(t) => t,
        };
        let base: &ASTNode = base_type_node(type_node);
        let var_type = match &base.token {
            None => {
                convert_data.error_detail = "parameter type has no base type".to_string();
                convert_data.error_code = Some(ConvertError::NodeIsNull);
                proof {
                    lemma_join_error(parts, ", "@, i as int, parts.len() as int);
                    assert(parts.take(parts.len() as int) =~= parts);
                }
                return;
            },
            Some(t) => convert_type_to_go_type(t.token_type),
        };
        if i != 0 {
            convert_data.code_builder.append(", ");
        }
        convert_data.code_builder.append(parameter_name.as_str());
        convert_data.code_builder.append(" ");
        convert_data.code_builder.append(var_type);
        assert(convert_data.code_builder@ =~= start + join_results(parts.take(i + 1), ", "@)->Ok_0);
        i += 1;
    }
    assert(parts.take(child_count as int) =~= parts);
}

} // verus!
