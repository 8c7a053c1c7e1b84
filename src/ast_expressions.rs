use vstd::prelude::*;
use crate::debugging::is_infinite_while;
use crate::enums::ASTNodeType;
use crate::enums::TokenType;
use crate::errors::AstError;
use crate::structs::get_default_node;
use crate::structs::invalid_view;
use crate::structs::leaf_view;
use crate::structs::reports;
use crate::structs::ASTData;
use crate::structs::ASTNode;
use crate::structs::NodeView;
use crate::structs::Parsed;
use crate::structs::Token;
use crate::token_utils::get_precedence_bool;
use crate::token_utils::is_binary_operator_bool;
use crate::token_utils::is_type_token;
use crate::token_utils::precedence;
use crate::token_utils::spec_is_binary_operator;
use crate::token_utils::spec_is_type_kind;

verus! {

/// The most runs of a type-chain, parameter-list or binary-expression loop.
pub const LOOP_CAP: usize = 1000;

/// Puts the base type into the innermost open slot of a type chain under
/// construction: the node reached by following `left` to its end becomes a
/// `VarType` node that carries `base`.
pub open spec fn attach_base(chain: NodeView, base: Token) -> NodeView
    decreases chain,
{
    match chain.left {
        Some(inner) => NodeView { left: Some(Box::new(attach_base(*inner, base))), ..chain },
        None => NodeView { node_type: ASTNodeType::VarType, token: Some(base), ..chain },
    }
}

/// A type chain read from position `i` on, where `chain` has been built so
/// far in `count` runs: `const` marks the node under construction, `*` wraps
/// it in a pointer, a base type ends the chain. Each must be followed by
/// another token.
pub open spec fn type_chain_from(ts: Seq<Token>, i: int, count: nat, chain: NodeView) -> Parsed
    decreases LOOP_CAP - count,
{
    if !(0 <= i < ts.len()) {
        Err((AstError::NullType, i))
    } else if count >= LOOP_CAP {
        Err((AstError::InfiniteWhileLoop, i))
    } else {
        let t = ts[i];
        if t.token_type == TokenType::Const || t.token_type == TokenType::Multiply
            || spec_is_type_kind(t.token_type) {
            if i + 1 >= ts.len() {
                Err((AstError::UnexpectedEndOfFile, i))
            } else if t.token_type == TokenType::Const {
                type_chain_from(ts, i + 1, count + 1, NodeView { is_const: true, ..chain })
            } else if t.token_type == TokenType::Multiply {
                type_chain_from(
                    ts,
                    i + 1,
                    count + 1,
                    NodeView {
                        node_type: ASTNodeType::Pointer,
                        token: Some(t),
                        left: Some(Box::new(chain)),
                        ..invalid_view()
                    },
                )
            } else {
                Ok((attach_base(chain, t), i + 1))
            }
        } else {
            Err((AstError::NullType, i))
        }
    }
}

/// The token at position `i` can begin a type chain: a qualifier or a base
/// type.
pub open spec fn starts_type_chain(ts: Seq<Token>, i: int) -> bool {
    0 <= i < ts.len() && (ts[i].token_type == TokenType::Const || ts[i].token_type
        == TokenType::Multiply || spec_is_type_kind(ts[i].token_type))
}

/// The type chain that starts at position `i`.
pub open spec fn type_chain(ts: Seq<Token>, i: int) -> Parsed {
    if !(0 <= i < ts.len()) {
        Err((AstError::IndexOutOfRange, i))
    } else {
        type_chain_from(ts, i, 0, invalid_view())
    }
}

/// One parameter at position `i`: a type chain, then its name.
pub open spec fn parameter(ts: Seq<Token>, i: int) -> Parsed {
    match type_chain(ts, i) {
        Err(e) => Err(e),
        Ok((ty, j)) => if !(0 <= j < ts.len()) {
            Err((AstError::IndexOutOfRange, j))
        } else if ts[j].token_type != TokenType::Identifier {
            Err((AstError::MissingExpectedType, j))
        } else {
            Ok(
                (
                    NodeView {
                        node_type: ASTNodeType::Parameter,
                        token: Some(ts[j]),
                        left: Some(Box::new(ty)),
                        ..invalid_view()
                    },
                    j + 1,
                ),
            )
        },
    }
}

/// The parameters read from position `i` on, after `acc` in `count` runs:
/// up to a closing parenthesis or the end of the tokens, commas skipped.
pub open spec fn parameters_from(ts: Seq<Token>, i: int, count: nat, acc: Seq<NodeView>) -> Result<
    (Seq<NodeView>, int),
    (AstError, int),
>
    decreases LOOP_CAP - count,
{
    if !(0 <= i < ts.len()) {
        Ok((acc, i))
    } else if count >= LOOP_CAP {
        Err((AstError::InfiniteWhileLoop, i))
    } else if ts[i].token_type == TokenType::RightParenthesis {
        Ok((acc, i))
    } else if ts[i].token_type == TokenType::Comma {
        parameters_from(ts, i + 1, count + 1, acc)
    } else {
        match parameter(ts, i) {
            Err(e) => Err(e),
            Ok((p, j)) => parameters_from(ts, j, count + 1, acc.push(p)),
        }
    }
}

/// The parameter list node for the parameters from position `i` on.
pub open spec fn parameters_node(ts: Seq<Token>, i: int) -> Parsed {
    match parameters_from(ts, i, 0, Seq::empty()) {
        Err(e) => Err(e),
        Ok((ps, j)) => Ok(
            (NodeView { node_type: ASTNodeType::Parameters, children: ps, ..invalid_view() }, j),
        ),
    }
}

/// One operand at position `i`: a literal. A closing parenthesis gives the
/// invalid node and stays where it is.
pub open spec fn primary(ts: Seq<Token>, i: int) -> Parsed {
    if !(0 <= i < ts.len()) {
        Err((AstError::UnexpectedEndOfFile, i))
    } else {
        let t = ts[i];
        match t.token_type {
            TokenType::True | TokenType::False => Ok((leaf_view(ASTNodeType::BoolLiteral, t), i + 1)),
            TokenType::IntegerValue => Ok((leaf_view(ASTNodeType::IntegerLiteral, t), i + 1)),
            TokenType::StringValue => Ok((leaf_view(ASTNodeType::StringLiteral, t), i + 1)),
            TokenType::CharValue => Ok((leaf_view(ASTNodeType::CharLiteral, t), i + 1)),
            TokenType::RightParenthesis => Ok((invalid_view(), i)),
            _ => Err((AstError::UnexpectedType, i)),
        }
    }
}

/// How many precedence levels lie above a threshold.
pub open spec fn levels_above(min_prec: nat) -> nat {
    if min_prec <= 7 {
        (7 - min_prec) as nat
    } else {
        0
    }
}

/// The binary node that joins two operands with an operator.
pub open spec fn binary_view(kind: ASTNodeType, op: Token, left: NodeView, right: NodeView) -> NodeView {
    NodeView {
        node_type: kind,
        token: Some(op),
        left: Some(Box::new(left)),
        right: Some(Box::new(right)),
        ..invalid_view()
    }
}

/// The expression from position `i` on whose operators bind at least as
/// strongly as `min_prec`, operator nodes having the kind `kind`.
pub open spec fn binary(ts: Seq<Token>, i: int, min_prec: nat, kind: ASTNodeType) -> Parsed
    decreases levels_above(min_prec), 1int, 0int,
{
    match primary(ts, i) {
        Err(e) => Err(e),
        Ok((left, j)) => binary_rest(ts, j, min_prec, kind, left, 0),
    }
}

/// Continues an expression whose left operand so far is `left`, after
/// `count` runs: each operator of precedence at least `min_prec` takes the
/// expression of higher precedence that follows as its right operand, and
/// the joined node becomes the new left operand.
pub open spec fn binary_rest(
    ts: Seq<Token>,
    i: int,
    min_prec: nat,
    kind: ASTNodeType,
    left: NodeView,
    count: nat,
) -> Parsed
    decreases levels_above(min_prec), 0int, LOOP_CAP - count,
{
    if !(0 <= i < ts.len()) {
        Ok((left, i))
    } else if count >= LOOP_CAP {
        Err((AstError::InfiniteWhileLoop, i))
    } else {
        let op = ts[i];
        if !spec_is_binary_operator(op.token_type) || precedence(op.token_type) < min_prec {
            Ok((left, i))
        } else {
            match binary(ts, i + 1, (precedence(op.token_type) + 1) as nat, kind) {
                Err(e) => Err(e),
                Ok((right, j)) => if right.node_type == ASTNodeType::Invalid {
                    Err((AstError::UnexpectedType, i))
                } else {
                    binary_rest(ts, j, min_prec, kind, binary_view(kind, op, left, right), count + 1)
                },
            }
        }
    }
}

/// Fills the innermost open slot of a type chain with the base type.
fn attach_base_type(node: &mut ASTNode, base: Token)
    ensures
        final(node)@ == attach_base(old(node)@, base),
    decreases *old(node),
{
    match &mut node.left {
        Some(inner) => {
            attach_base_type(inner, base);
        },
        None => {
            node.node_type = ASTNodeType::VarType;
            node.token = Some(base);
        },
    }
}

/// Reads a type chain: any run of `const` and `*` ending in a base type.
pub fn create_complex_declarations(ast_data: &mut ASTData) -> (r: ASTNode)
    requires
        old(ast_data).error_code is None,
    ensures
        reports(
            *old(ast_data),
            *final(ast_data),
            r@,
            type_chain(old(ast_data).tokens(), old(ast_data).token_index as int),
        ),
        !starts_type_chain(old(ast_data).tokens(), old(ast_data).token_index as int) ==> r@
            == invalid_view() && final(ast_data).token_index == old(ast_data).token_index,
{
    ast_data.error_function = "createComplexDeclarations".to_string();
    let ghost ts = ast_data.tokens();
    let ghost res = type_chain(ts, ast_data.token_index as int);
    let ghost start = ast_data.token_index;
    let mut final_node: ASTNode = get_default_node();
    if !ast_data.token_index_in_bounds() {
        ast_data.fail_here(AstError::IndexOutOfRange);
        assert(res == Parsed::Err((AstError::IndexOutOfRange, ast_data.token_index as int)));
        return final_node;
    }
    let mut while_count: usize = 0;
    loop
        invariant
            ast_data.token_list == old(ast_data).token_list,
            ast_data.ast_nodes == old(ast_data).ast_nodes,
            ts == ast_data.tokens(),
            res == type_chain(old(ast_data).tokens(), old(ast_data).token_index as int),
            ast_data.error_code is None,
            ast_data.token_index < ts.len(),
            while_count <= LOOP_CAP,
            start == old(ast_data).token_index,
            ast_data.token_index == start ==> final_node@ == invalid_view(),
            ast_data.token_index >= start,
            type_chain_from(ts, ast_data.token_index as int, while_count as nat, final_node@)
                == res,
        decreases LOOP_CAP - while_count,
    {
        let ghost i = ast_data.token_index as int;
        let ghost chain = final_node@;
        let ghost count = while_count as nat;
        if is_infinite_while(&mut while_count, LOOP_CAP) {
            ast_data.fail_here(AstError::InfiniteWhileLoop);
            assert(res == Parsed::Err((AstError::InfiniteWhileLoop, i)));
            return final_node;
        }
        let token: Token = ast_data.get_token();
        if token.token_type == TokenType::Const {
            if !ast_data.increment_index() {
                assert(res == Parsed::Err((AstError::UnexpectedEndOfFile, i)));
                return final_node;
            }
            final_node.is_const = true;
            assert(final_node@ == NodeView { is_const: true, ..chain });
            continue;
        }
        if token.token_type == TokenType::Multiply {
            if !ast_data.increment_index() {
                assert(res == Parsed::Err((AstError::UnexpectedEndOfFile, i)));
                return final_node;
            }
            let pointer_node = ASTNode {
                node_type: ASTNodeType::Pointer,
                token: Some(token),
                left: Some(Box::new(final_node)),
                middle: None,
                right: None,
                children: Vec::new(),
                is_const: false,
                size: 0,
            };
            assert(pointer_node@.children =~= Seq::<NodeView>::empty());
            final_node = pointer_node;
            continue;
        }
        if is_type_token(token.clone()) {
            if !ast_data.increment_index() {
                assert(res == Parsed::Err((AstError::UnexpectedEndOfFile, i)));
                return final_node;
            }
            attach_base_type(&mut final_node, token);
            assert(res == Parsed::Ok((attach_base(chain, ts[i]), i + 1)));
            return final_node;
        }
        ast_data.error_detail = "missing base type in type declaration".to_string();
        ast_data.fail_here(AstError::NullType);
        assert(res == Parsed::Err((AstError::NullType, i)));
        return final_node;
    }
}

/// Reads one parameter: its type chain, then its name.
fn parse_single_parameter(ast_data: &mut ASTData) -> (r: ASTNode)
    requires
        old(ast_data).error_code is None,
    ensures
        reports(
            *old(ast_data),
            *final(ast_data),
            r@,
            parameter(old(ast_data).tokens(), old(ast_data).token_index as int),
        ),
{
    let ghost ts = ast_data.tokens();
    let ghost res = parameter(ts, ast_data.token_index as int);
    let type_node: ASTNode = create_complex_declarations(ast_data);
    if ast_data.is_error() {
        return type_node;
    }
    let ghost j = ast_data.token_index as int;
    let name_token: Token = ast_data.get_token();
    if ast_data.is_error() {
        assert(res == Parsed::Err((AstError::IndexOutOfRange, j)));
        return type_node;
    }
    if name_token.token_type != TokenType::Identifier {
        ast_data.error_detail = "Expected identifier for parameter name".to_string();
        ast_data.fail_here(AstError::MissingExpectedType);
        assert(res == Parsed::Err((AstError::MissingExpectedType, j)));
        return type_node;
    }
    ast_data.token_index += 1;
    let parameter_node = ASTNode {
        node_type: ASTNodeType::Parameter,
        token: Some(name_token),
        left: Some(Box::new(type_node)),
        middle: None,
        right: None,
        children: Vec::new(),
        is_const: false,
        size: 0,
    };
    assert(parameter_node@.children =~= Seq::<NodeView>::empty());
    parameter_node
}

/// Reads the parameters of a declaration, up to the closing parenthesis.
pub fn fill_parameters(ast_data: &mut ASTData) -> (r: ASTNode)
    requires
        old(ast_data).error_code is None,
    ensures
        reports(
            *old(ast_data),
            *final(ast_data),
            r@,
            parameters_node(old(ast_data).tokens(), old(ast_data).token_index as int),
        ),
{
    ast_data.error_function = "fillParameters".to_string();
    let ghost ts = ast_data.tokens();
    let ghost res = parameters_from(ts, ast_data.token_index as int, 0, Seq::empty());
    let mut parameters_node: ASTNode = get_default_node();
    parameters_node.node_type = ASTNodeType::Parameters;
    let mut while_count: usize = 0;
    while ast_data.token_index_in_bounds()
        invariant
            ast_data.token_list == old(ast_data).token_list,
            ast_data.ast_nodes == old(ast_data).ast_nodes,
            ts == ast_data.tokens(),
            res == parameters_from(old(ast_data).tokens(), old(ast_data).token_index as int, 0, Seq::empty()),
            ast_data.error_code is None,
            while_count <= LOOP_CAP,
            parameters_node@ == (NodeView { node_type: ASTNodeType::Parameters, children: parameters_node@.children, ..invalid_view() }),
            parameters_from(ts, ast_data.token_index as int, while_count as nat, parameters_node@.children)
                == res,
        decreases LOOP_CAP - while_count,
    {
        let ghost i = ast_data.token_index as int;
        let ghost acc = parameters_node@.children;
        if is_infinite_while(&mut while_count, LOOP_CAP) {
            ast_data.fail_here(AstError::InfiniteWhileLoop);
            assert(res == Err::<(Seq<NodeView>, int), (AstError, int)>((AstError::InfiniteWhileLoop, i)));
            return parameters_node;
        }
        let token: Token = ast_data.get_token();
        if token.token_type == TokenType::RightParenthesis {
            assert(res == Ok::<(Seq<NodeView>, int), (AstError, int)>((acc, i)));
            return parameters_node;
        }
        if token.token_type == TokenType::Comma {
            ast_data.token_index += 1;
        } else {
            let parameter_node: ASTNode = parse_single_parameter(ast_data);
            if ast_data.is_error() {
                assert(parameter(ts, i) is Err);
                return parameters_node;
            }
            parameters_node.children.push(parameter_node);
            assert(parameters_node@.children =~= acc.push(parameter_node@));
        }
    }
    assert(parameters_from(ts, ast_data.token_index as int, while_count as nat, parameters_node@.children)
        == Ok::<(Seq<NodeView>, int), (AstError, int)>((parameters_node@.children, ast_data.token_index as int)));
    parameters_node
}

/// Reads one operand: a literal.
#[allow(non_snake_case)]
pub fn parsePrimaryAny(ast_data: &mut ASTData) -> (r: ASTNode)
    requires
        old(ast_data).error_code is None,
    ensures
        reports(
            *old(ast_data),
            *final(ast_data),
            r@,
            primary(old(ast_data).tokens(), old(ast_data).token_index as int),
        ),
        primary(old(ast_data).tokens(), old(ast_data).token_index as int) is Err ==> r@
            == invalid_view() && final(ast_data).token_index == old(ast_data).token_index,
{
    ast_data.error_function = "parsePrimaryAny".to_string();
    let ghost i = ast_data.token_index as int;
    if !ast_data.token_index_in_bounds() {
        ast_data.fail_here(AstError::UnexpectedEndOfFile);
        return get_default_node();
    }
    let token: Token = ast_data.get_token();
    let kind = match token.token_type {
        TokenType::False | TokenType::True => ASTNodeType::BoolLiteral,
        TokenType::IntegerValue => ASTNodeType::IntegerLiteral,
        TokenType::StringValue => ASTNodeType::StringLiteral,
        TokenType::CharValue => ASTNodeType::CharLiteral,
        TokenType::RightParenthesis => {
            return get_default_node();
        },
        _ => {
            ast_data.error_detail = "Unexpected type in expression".to_string();
            ast_data.fail_here(AstError::UnexpectedType);
            return get_default_node();
        },
    };
    ast_data.token_index += 1;
    let node = ASTNode {
        node_type: kind,
        token: Some(token),
        left: None,
        middle: None,
        right: None,
        children: Vec::new(),
        is_const: false,
        size: 0,
    };
    assert(node@.children =~= Seq::<NodeView>::empty());
    node
}

/// Reads an expression by precedence climbing: operators that bind less
/// strongly than `min_prec` end it, and operator nodes get the kind
/// `node_type`.
pub fn parse_binary_expression_any(ast_data: &mut ASTData, min_prec: usize, node_type: ASTNodeType) -> (r: ASTNode)
    requires
        old(ast_data).error_code is None,
    ensures
        reports(
            *old(ast_data),
            *final(ast_data),
            r@,
            binary(old(ast_data).tokens(), old(ast_data).token_index as int, min_prec as nat, node_type),
        ),
    decreases levels_above(min_prec as nat), 1int, 0int,
{
    ast_data.error_function = "parseBinaryExprAny".to_string();
    let ghost ts = ast_data.tokens();
    let ghost res = binary(ts, ast_data.token_index as int, min_prec as nat, node_type);
    let mut left: ASTNode = parsePrimaryAny(ast_data);
    if ast_data.is_error() {
        return left;
    }
    let mut while_count: usize = 0;
    while ast_data.token_index_in_bounds()
        invariant
            ast_data.token_list == old(ast_data).token_list,
            ast_data.ast_nodes == old(ast_data).ast_nodes,
            ts == ast_data.tokens(),
            res == binary(old(ast_data).tokens(), old(ast_data).token_index as int, min_prec as nat, node_type),
            ast_data.error_code is None,
            while_count <= LOOP_CAP,
            binary_rest(ts, ast_data.token_index as int, min_prec as nat, node_type, left@, while_count as nat)
                == res,
        decreases LOOP_CAP - while_count,
    {
        let ghost i = ast_data.token_index as int;
        if is_infinite_while(&mut while_count, LOOP_CAP) {
            ast_data.fail_here(AstError::InfiniteWhileLoop);
            assert(res == Parsed::Err((AstError::InfiniteWhileLoop, i)));
            return left;
        }
        let operator_token: Token = ast_data.get_token();
        if !is_binary_operator_bool(operator_token.token_type) {
            assert(res == Parsed::Ok((left@, i)));
            return left;
        }
        let precedence: usize = get_precedence_bool(operator_token.token_type);
        if precedence < min_prec {
            assert(res == Parsed::Ok((left@, i)));
            return left;
        }
        ast_data.token_index += 1;
        let right: ASTNode = parse_binary_expression_any(ast_data, precedence + 1, node_type);
        if ast_data.is_error() {
            return left;
        }
        if right.node_type == ASTNodeType::Invalid {
            ast_data.error_detail = "Missing value after equation symbol".to_string();
            ast_data.error_token = operator_token;
            ast_data.error_code = Some(AstError::UnexpectedType);
            assert(res == Parsed::Err((AstError::UnexpectedType, i)));
            return left;
        }
        let new_node = ASTNode {
            node_type,
            token: Some(operator_token),
            left: Some(Box::new(left)),
            middle: None,
            right: Some(Box::new(right)),
            children: Vec::new(),
            is_const: false,
            size: 0,
        };
        assert(new_node@.children =~= Seq::<NodeView>::empty());
        left = new_node;
    }
    assert(binary_rest(ts, ast_data.token_index as int, min_prec as nat, node_type, left@, while_count as nat)
        == Parsed::Ok((left@, ast_data.token_index as int)));
    left
}

/// A type chain whose qualifiers (`const` or `*`) run on for as many
/// tokens as the loop may run, with a token after them, stops with
/// `InfiniteWhileLoop` where the cap is reached instead of going on.
pub proof fn lemma_type_chain_cap(ts: Seq<Token>, i: int, count: nat, chain: NodeView)
    requires
        0 <= i,
        count <= LOOP_CAP,
        i + (LOOP_CAP - count) < ts.len(),
        forall|k: int|
            i <= k < i + (LOOP_CAP - count) ==> (#[trigger] ts[k]).token_type == TokenType::Const
                || ts[k].token_type == TokenType::Multiply,
    ensures
        type_chain_from(ts, i, count, chain) == Parsed::Err(
            (AstError::InfiniteWhileLoop, i + (LOOP_CAP - count)),
        ),
    decreases LOOP_CAP - count,
{
    if count < LOOP_CAP {
        let t = ts[i];
        if t.token_type == TokenType::Const {
            lemma_type_chain_cap(ts, i + 1, count + 1, NodeView { is_const: true, ..chain });
        } else {
            lemma_type_chain_cap(
                ts,
                i + 1,
                count + 1,
                NodeView {
                    node_type: ASTNodeType::Pointer,
                    token: Some(t),
                    left: Some(Box::new(chain)),
                    ..invalid_view()
                },
            );
        }
    }
}

/// A parameter list made of commas for as many tokens as the loop may run
/// stops with `InfiniteWhileLoop` where the cap is reached.
pub proof fn lemma_parameters_cap(ts: Seq<Token>, i: int, count: nat, acc: Seq<NodeView>)
    requires
        0 <= i,
        count <= LOOP_CAP,
        i + (LOOP_CAP - count) < ts.len(),
        forall|k: int| i <= k < i + (LOOP_CAP - count) ==> (#[trigger] ts[k]).token_type == TokenType::Comma,
    ensures
        parameters_from(ts, i, count, acc) == Err::<(Seq<NodeView>, int), (AstError, int)>(
            (AstError::InfiniteWhileLoop, i + (LOOP_CAP - count)),
        ),
    decreases LOOP_CAP - count,
{
    if count < LOOP_CAP {
        lemma_parameters_cap(ts, i + 1, count + 1, acc);
    }
}

/// An expression that goes on with `+` and an integer, again and again, for
/// as many runs as its loop may take, stops with `InfiniteWhileLoop` at the
/// operator where the cap is reached.
pub proof fn lemma_binary_cap(
    ts: Seq<Token>,
    i: int,
    min_prec: nat,
    kind: ASTNodeType,
    left: NodeView,
    count: nat,
)
    requires
        0 <= i,
        count <= LOOP_CAP,
        min_prec <= 5,
        i + 2 * (LOOP_CAP - count) < ts.len(),
        forall|m: int|
            0 <= m <= LOOP_CAP - count ==> (#[trigger] ts[i + 2 * m]).token_type == TokenType::Plus,
        forall|m: int|
            0 <= m < LOOP_CAP - count ==> (#[trigger] ts[i + 2 * m + 1]).token_type
                == TokenType::IntegerValue,
    ensures
        binary_rest(ts, i, min_prec, kind, left, count) == Parsed::Err(
            (AstError::InfiniteWhileLoop, i + 2 * (LOOP_CAP - count)),
        ),
    decreases LOOP_CAP - count,
{
    if count < LOOP_CAP {
        assert(ts[i + 2 * 0].token_type == TokenType::Plus);
        assert(ts[i + 2 * 0 + 1].token_type == TokenType::IntegerValue);
        assert(ts[i + 2 * 1].token_type == TokenType::Plus);
        let operand = leaf_view(ASTNodeType::IntegerLiteral, ts[i + 1]);
        assert(binary_rest(ts, i + 2, 6, kind, operand, 0) == Parsed::Ok((operand, i + 2)));
        assert(binary(ts, i + 1, 6, kind) == Parsed::Ok((operand, i + 2)));
        assert forall|m: int| 0 <= m <= LOOP_CAP - (count + 1) implies (#[trigger] ts[(i + 2) + 2
            * m]).token_type == TokenType::Plus by {
            assert(ts[(i + 2) + 2 * m] == ts[i + 2 * (m + 1)]);
        }
        assert forall|m: int| 0 <= m < LOOP_CAP - (count + 1) implies (#[trigger] ts[(i + 2) + 2
            * m + 1]).token_type == TokenType::IntegerValue by {
            assert(ts[(i + 2) + 2 * m + 1] == ts[i + 2 * (m + 1) + 1]);
        }
        lemma_binary_cap(ts, i + 2, min_prec, kind, binary_view(kind, ts[i], left, operand), count + 1);
    }
}

/// A finished type chain: pointers, each wrapping the next through `left`,
/// down to one `VarType` leaf.
pub open spec fn is_type_chain(n: NodeView) -> bool
    decreases n,
{
    &&& n.middle is None
    &&& n.right is None
    &&& n.children.len() == 0
    &&& match n.left {
        None => n.node_type == ASTNodeType::VarType,
        Some(inner) => n.node_type == ASTNodeType::Pointer && is_type_chain(*inner),
    }
}

/// A chain under construction: pointers down to an open slot.
pub open spec fn is_open_chain(n: NodeView) -> bool
    decreases n,
{
    &&& n.middle is None
    &&& n.right is None
    &&& n.children.len() == 0
    &&& match n.left {
        None => n.node_type == ASTNodeType::Invalid,
        Some(inner) => n.node_type == ASTNodeType::Pointer && is_open_chain(*inner),
    }
}

proof fn lemma_attach_base_closes(chain: NodeView, base: Token)
    requires
        is_open_chain(chain),
    ensures
        is_type_chain(attach_base(chain, base)),
    decreases chain,
{
    if let Some(inner) = chain.left {
        lemma_attach_base_closes(*inner, base);
    }
}

proof fn lemma_type_chain_from_shape(ts: Seq<Token>, i: int, count: nat, chain: NodeView)
    requires
        is_open_chain(chain),
    ensures
        type_chain_from(ts, i, count, chain) is Ok ==> is_type_chain(
            type_chain_from(ts, i, count, chain)->Ok_0.0,
        ),
    decreases LOOP_CAP - count,
{
    if 0 <= i < ts.len() && count < LOOP_CAP {
        let t = ts[i];
        if i + 1 < ts.len() {
            if t.token_type == TokenType::Const {
                lemma_type_chain_from_shape(ts, i + 1, count + 1, NodeView { is_const: true, ..chain });
            } else if t.token_type == TokenType::Multiply {
                let wrapped = NodeView {
                    node_type: ASTNodeType::Pointer,
                    token: Some(t),
                    left: Some(Box::new(chain)),
                    ..invalid_view()
                };
                assert(is_open_chain(wrapped));
                lemma_type_chain_from_shape(ts, i + 1, count + 1, wrapped);
            } else if spec_is_type_kind(t.token_type) {
                lemma_attach_base_closes(chain, t);
            }
        }
    }
}

/// A type chain that parses is made of pointers, each wrapping the next
/// through the primary slot, down to exactly one `VarType` leaf.
pub proof fn lemma_type_chain_shape(ts: Seq<Token>, i: int)
    ensures
        type_chain(ts, i) is Ok ==> is_type_chain(type_chain(ts, i)->Ok_0.0),
{
    if 0 <= i < ts.len() {
        lemma_type_chain_from_shape(ts, i, 0, invalid_view());
    }
}

} // verus!
