use vstd::prelude::*;
use vstd::string::StringExecFns;
use vstd::utf8::encode_utf8;
use crate::enums::ASTNodeType;
use crate::enums::TokenType;
use crate::errors::AstError;
use crate::errors::ConvertError;

verus! {

/// A classified lexeme with its source position.
pub struct Token {
    pub text: String,
    pub token_type: TokenType,
    pub line_number: usize,
    pub char_number: usize,
}

impl Clone for Token {
    fn clone(&self) -> (r: Self)
        ensures
            r == *self,
    {
        Token {
            text: self.text.clone(),
            token_type: self.token_type,
            line_number: self.line_number,
            char_number: self.char_number,
        }
    }
}

/// The token that stands where there is none: no text, no kind, position zero.
pub open spec fn is_empty_token(t: Token) -> bool {
    &&& t.text@ == Seq::<char>::empty()
    &&& t.token_type == TokenType::Na
    &&& t.line_number == 0
    &&& t.char_number == 0
}

/// `t` is the token at position `i` of `ts`, or the empty token past its end.
pub open spec fn is_token_at(t: Token, ts: Seq<Token>, i: int) -> bool {
    if 0 <= i < ts.len() {
        t == ts[i]
    } else {
        is_empty_token(t)
    }
}

pub fn empty_token() -> (r: Token)
    ensures
        is_empty_token(r),
{
    Token { text: String::new(), token_type: TokenType::Na, line_number: 0, char_number: 0 }
}

/// One node of the syntax tree. Which slots are filled depends on the kind:
/// a function declaration has its name as `token`, the return type chain in
/// `left`, the parameter list in `middle` and the body in `right`; a binary
/// operation has its operator as `token` and its operands in `left` and
/// `right`; a pointer has its pointee in `left`; parameter lists, blocks and
/// print statements keep their items in `children`.
pub struct ASTNode {
    pub node_type: ASTNodeType,
    pub token: Option<Token>,
    pub left: Option<Box<ASTNode>>,
    pub middle: Option<Box<ASTNode>>,
    pub right: Option<Box<ASTNode>>,
    pub children: Vec<ASTNode>,
    pub is_const: bool,
    pub size: usize,
}

/// The mathematical value of an `ASTNode`: the same tree with its child
/// lists as sequences.
pub struct NodeView {
    pub node_type: ASTNodeType,
    pub token: Option<Token>,
    pub left: Option<Box<NodeView>>,
    pub middle: Option<Box<NodeView>>,
    pub right: Option<Box<NodeView>>,
    pub children: Seq<NodeView>,
    pub is_const: bool,
    pub size: usize,
}

/// A node with no kind, no token and nothing below it.
pub open spec fn invalid_view() -> NodeView {
    NodeView {
        node_type: ASTNodeType::Invalid,
        token: None,
        left: None,
        middle: None,
        right: None,
        children: Seq::empty(),
        is_const: false,
        size: 0,
    }
}

/// A node of the given kind with a token and nothing below it.
pub open spec fn leaf_view(kind: ASTNodeType, t: Token) -> NodeView {
    NodeView { node_type: kind, token: Some(t), ..invalid_view() }
}

pub open spec fn boxed_view(n: Option<Box<ASTNode>>) -> Option<Box<NodeView>>
    decreases n,
{
    match n {
        Some(b) => Some(Box::new((*b).view())),
        None => None,
    }
}

impl ASTNode {
    pub open spec fn view(self) -> NodeView
        decreases self,
    {
        NodeView {
            node_type: self.node_type,
            token: self.token,
            left: match self.left {
                Some(b) => Some(Box::new((*b).view())),
                None => None,
            },
            middle: match self.middle {
                Some(b) => Some(Box::new((*b).view())),
                None => None,
            },
            right: match self.right {
                Some(b) => Some(Box::new((*b).view())),
                None => None,
            },
            children: Seq::new(
                self.children.len() as nat,
                |i: int|
                    if 0 <= i < self.children.len() {
                        self.children@[i].view()
                    } else {
                        invalid_view()
                    },
            ),
            is_const: self.is_const,
            size: self.size,
        }
    }
}

/// A copy of a tree, node by node.
pub fn clone_node(n: &ASTNode) -> (r: ASTNode)
    ensures
        r@ == n@,
    decreases n,
{
    let left = match &n.left {
        Some(b) => Some(Box::new(clone_node(b))),
        None => None,
    };
    let middle = match &n.middle {
        Some(b) => Some(Box::new(clone_node(b))),
        None => None,
    };
    let right = match &n.right {
        Some(b) => Some(Box::new(clone_node(b))),
        None => None,
    };
    let mut children: Vec<ASTNode> = Vec::new();
    let mut i: usize = 0;
    while i < n.children.len()
        invariant
            i <= n.children.len(),
            children@.len() == i,
            forall|k: int| 0 <= k < i ==> (#[trigger] children@[k])@ == n.children@[k]@,
        decreases n.children.len() - i,
    {
        children.push(clone_node(&n.children[i]));
        i += 1;
    }
    let token = match &n.token {
        Some(t) => Some(t.clone()),
        None => None,
    };
    let r = ASTNode {
        node_type: n.node_type,
        token,
        left,
        middle,
        right,
        children,
        is_const: n.is_const,
        size: n.size,
    };
    assert(r@.children =~= n@.children);
    r
}

impl Clone for ASTNode {
    fn clone(&self) -> (r: Self)
        ensures
            r@ == self@,
    {
        clone_node(self)
    }
}

/// The views of a list of nodes.
pub open spec fn views(ns: Seq<ASTNode>) -> Seq<NodeView> {
    ns.map_values(|n: ASTNode| n@)
}

pub proof fn lemma_children_view(n: ASTNode)
    ensures
        n@.children == views(n.children@),
{
    assert(n@.children =~= views(n.children@));
}

pub fn get_default_node() -> (r: ASTNode)
    ensures
        r@ == invalid_view(),
{
    let r = ASTNode {
        node_type: ASTNodeType::Invalid,
        token: None,
        left: None,
        middle: None,
        right: None,
        children: Vec::new(),
        is_const: false,
        size: 0,
    };
    assert(r@.children =~= Seq::<NodeView>::empty());
    r
}

/// The diagnostic context of the syntax tree builder: the token stream, the
/// cursor into it, the declarations built so far and the first error met.
pub struct ASTData<'a> {
    pub ast_nodes: Vec<ASTNode>,
    pub token_index: usize,
    pub token_list: &'a Vec<Token>,
    pub error_detail: String,
    pub error_token: Token,
    pub error_function: String,
    pub error_code: Option<AstError>,
}

impl<'a> ASTData<'a> {
    /// A fresh context at the start of `token_list`.
    pub fn new(token_list: &'a Vec<Token>) -> (r: ASTData<'a>)
        ensures
            r.token_list == token_list,
            r.token_index == 0,
            r.ast_nodes@ == Seq::<ASTNode>::empty(),
            r.error_code is None,
    {
        ASTData {
            ast_nodes: Vec::new(),
            token_index: 0,
            token_list,
            error_detail: String::new(),
            error_token: empty_token(),
            error_function: String::new(),
            error_code: None,
        }
    }

    /// The tokens being read.
    pub open spec fn tokens(&self) -> Seq<Token> {
        self.token_list@
    }

    /// The error `code` was recorded, with the token at position `at` (or the
    /// empty token, past the end) as its offending token.
    pub open spec fn failed_with(&self, code: AstError, at: int) -> bool {
        self.error_code == Some(code) && is_token_at(self.error_token, self.tokens(), at)
    }

    /// The token at the cursor, without any effect.
    fn peek(&self) -> (r: Token)
        ensures
            is_token_at(r, self.tokens(), self.token_index as int),
    {
        if self.token_index < self.token_list.len() {
            self.token_list[self.token_index].clone()
        } else {
            empty_token()
        }
    }

    /// Records an error whose offending token is the one at the cursor.
    pub fn fail_here(&mut self, code: AstError)
        ensures
            final(self).failed_with(code, old(self).token_index as int),
            final(self).token_list == old(self).token_list,
            final(self).token_index == old(self).token_index,
            final(self).ast_nodes == old(self).ast_nodes,
            final(self).error_detail == old(self).error_detail,
    {
        self.error_token = self.peek();
        self.error_code = Some(code);
    }

    pub fn get_token(&mut self) -> (r: Token)
        ensures
            final(self).token_list == old(self).token_list,
            final(self).token_index == old(self).token_index,
            final(self).ast_nodes == old(self).ast_nodes,
            is_token_at(r, old(self).tokens(), old(self).token_index as int),
            old(self).tokens().len() <= usize::MAX,
            old(self).token_index < old(self).tokens().len() ==> *final(self) == *old(self),
            old(self).token_index >= old(self).tokens().len() ==> final(self).failed_with(
                AstError::IndexOutOfRange,
                old(self).token_index as int,
            ),
    {
        if self.token_index >= self.token_list.len() {
            self.fail_here(AstError::IndexOutOfRange);
            return empty_token();
        }
        self.token_list[self.token_index].clone()
    }

    pub fn token_index_in_bounds(&self) -> (r: bool)
        ensures
            r == (self.token_index < self.tokens().len()),
            self.tokens().len() <= usize::MAX,
    {
        self.token_index < self.token_list.len()
    }

    pub fn is_error(&self) -> (r: bool)
        ensures
            r == (self.error_code is Some),
    {
        self.error_code.is_some()
    }

    pub fn append_node(&mut self, node: ASTNode)
        ensures
            final(self).ast_nodes@ == old(self).ast_nodes@.push(node),
            *final(self) == (ASTData { ast_nodes: final(self).ast_nodes, ..*old(self) }),
    {
        self.ast_nodes.push(node);
    }

    /// Moves the cursor to the next token; there must be one.
    pub fn increment_index(&mut self) -> (r: bool)
        ensures
            final(self).token_list == old(self).token_list,
            final(self).ast_nodes == old(self).ast_nodes,
            r == (old(self).token_index + 1 < old(self).tokens().len()),
            r ==> final(self).token_index == old(self).token_index + 1 && final(self).error_code
                == old(self).error_code,
            !r ==> final(self).token_index == old(self).token_index && final(self).failed_with(
                AstError::UnexpectedEndOfFile,
                old(self).token_index as int,
            ),
    {
        if self.token_index >= self.token_list.len() || self.token_index + 1
            >= self.token_list.len() {
            self.fail_here(AstError::UnexpectedEndOfFile);
            return false;
        }
        self.token_index += 1;
        true
    }

    /// Checks that the token at the cursor has the kind `expected_type`,
    /// without moving the cursor.
    pub fn expect_type(&mut self, expected_type: TokenType, error_message: &str) -> (r: bool)
        ensures
            final(self).token_list == old(self).token_list,
            final(self).token_index == old(self).token_index,
            final(self).ast_nodes == old(self).ast_nodes,
            r == (old(self).error_code is None && old(self).token_index < old(self).tokens().len()
                && old(self).tokens()[old(self).token_index as int].token_type == expected_type),
            r ==> final(self).error_code == old(self).error_code,
            old(self).error_code is None && !r && old(self).token_index < old(self).tokens().len()
                ==> final(self).error_detail@ == error_message@,
            old(self).error_code is None && !r ==> final(self).failed_with(
                if old(self).token_index < old(self).tokens().len() {
                    AstError::MissingExpectedType
                } else {
                    AstError::IndexOutOfRange
                },
                old(self).token_index as int,
            ),
    {
        let token: Token = self.get_token();
        if self.is_error() {
            return false;
        }
        if token.token_type != expected_type {
            self.error_detail = error_message.to_owned();
            self.fail_here(AstError::MissingExpectedType);
            return false;
        }
        true
    }
}

/// A growable text buffer.
pub struct StringBuilder {
    buffer: String,
}

impl View for StringBuilder {
    type V = Seq<char>;

    closed spec fn view(&self) -> Seq<char> {
        self.buffer@
    }
}

/// Relies on String::with_capacity: the new string is empty.
#[verifier::external_body]
fn string_with_capacity(capacity: usize) -> (r: String)
    ensures
        r@ == Seq::<char>::empty(),
{
    String::with_capacity(capacity)
}

impl StringBuilder {
    pub fn new() -> (r: Self)
        ensures
            r@ == Seq::<char>::empty(),
    {
        StringBuilder { buffer: String::new() }
    }

    pub fn with_capacity(capacity: usize) -> (r: Self)
        ensures
            r@ == Seq::<char>::empty(),
    {
        StringBuilder { buffer: string_with_capacity(capacity) }
    }

    pub fn append(&mut self, s: &str)
        ensures
            final(self)@ == old(self)@ + s@,
    {
        self.buffer.append(s);
    }

    pub fn append_fmt(&mut self, s: String)
        ensures
            final(self)@ == old(self)@ + s@,
    {
        self.buffer.append(s.as_str());
    }

    pub fn append_line(&mut self, s: &str)
        ensures
            final(self)@ == old(self)@ + s@ + "\n"@,
    {
        self.buffer.append(s);
        self.buffer.append("\n");
    }

    pub fn append_line_fmt(&mut self, s: String)
        ensures
            final(self)@ == old(self)@ + s@ + "\n"@,
    {
        self.buffer.append(s.as_str());
        self.buffer.append("\n");
    }

    pub fn as_str(&self) -> (r: &str)
        ensures
            r@ == self@,
    {
        self.buffer.as_str()
    }

    pub fn into_string(self) -> (r: String)
        ensures
            r@ == self@,
    {
        self.buffer
    }

    pub fn clear(&mut self)
        ensures
            final(self)@ == Seq::<char>::empty(),
    {
        self.buffer = String::new();
    }

    /// The length of the text in bytes.
    pub fn len(&self) -> (r: usize)
        ensures
            r == encode_utf8(self@).len() as usize,
    {
        self.buffer.as_str().len()
    }

    pub fn is_empty(&self) -> (r: bool)
        ensures
            r == (self@.len() == 0),
    {
        self.buffer.as_str().is_empty()
    }
}

impl Clone for StringBuilder {
    fn clone(&self) -> (r: Self)
        ensures
            r@ == self@,
    {
        StringBuilder { buffer: self.buffer.clone() }
    }
}

/// The diagnostic context of the emitter: the declarations to emit, the
/// cursor into them, the text written so far and the first error met.
pub struct ConvertData<'a> {
    pub ast_nodes: &'a Vec<ASTNode>,
    pub node_index: usize,
    pub error_code: Option<ConvertError>,
    pub error_detail: String,
    pub error_token: Token,
    pub error_function: String,
    pub code_builder: StringBuilder,
    pub temp_var_count: usize,
    pub function_return_type: String,
    pub index_count: usize,
}

impl<'a> ConvertData<'a> {
    /// A fresh context at the first of `ast_nodes`, with nothing written.
    pub fn new(ast_nodes: &'a Vec<ASTNode>) -> (r: ConvertData<'a>)
        ensures
            r.ast_nodes == ast_nodes,
            r.node_index == 0,
            r.error_code is None,
            r.code_builder@ == Seq::<char>::empty(),
            r.index_count == 0,
    {
        ConvertData {
            ast_nodes,
            node_index: 0,
            error_code: None,
            error_detail: String::new(),
            error_token: empty_token(),
            error_function: String::new(),
            code_builder: StringBuilder::new(),
            temp_var_count: 0,
            function_return_type: String::new(),
            index_count: 0,
        }
    }

    pub fn is_error(&self) -> (r: bool)
        ensures
            r == (self.error_code is Some),
    {
        self.error_code.is_some()
    }

    /// The declaration at the cursor; past the end, none, and the error
    /// `InvalidNodeType` is recorded.
    pub fn get_node(&mut self) -> (r: Option<&'a ASTNode>)
        ensures
            final(self).ast_nodes == old(self).ast_nodes,
            final(self).node_index == old(self).node_index,
            final(self).code_builder == old(self).code_builder,
            final(self).index_count == old(self).index_count,
            old(self).node_index < old(self).ast_nodes.len() ==> r == Some(
                &old(self).ast_nodes@[old(self).node_index as int],
            ) && *final(self) == *old(self),
            old(self).node_index >= old(self).ast_nodes.len() ==> r is None
                && final(self).error_code == Some(ConvertError::InvalidNodeType),
    {
        if self.node_index >= self.ast_nodes.len() {
            self.error_code = Some(ConvertError::InvalidNodeType);
            return None;
        }
        Some(&self.ast_nodes[self.node_index])
    }

    pub fn increment_index_count(&mut self)
        requires
            old(self).index_count < usize::MAX,
        ensures
            final(self).index_count == old(self).index_count + 1,
            *final(self) == (ConvertData { index_count: final(self).index_count, ..*old(self) }),
    {
        self.index_count += 1;
    }

    /// Lowers the depth by one, staying at zero.
    pub fn decrement_index_count(&mut self)
        ensures
            final(self).index_count == if old(self).index_count == 0 {
                0
            } else {
                old(self).index_count - 1
            },
            *final(self) == (ConvertData { index_count: final(self).index_count, ..*old(self) }),
    {
        if self.index_count == 0 {
            return;
        }
        self.index_count -= 1;
    }

    /// The token that a type node carries.
    pub fn print_type(&self, node: &ASTNode) -> (r: Option<Token>)
        ensures
            r == node.token,
    {
        match &node.token {
            Some(t) => Some(t.clone()),
            None => None,
        }
    }
}

} // verus!

verus! {

/// What parsing one construct gives: its tree and the position after it, or
/// an error and the position of its offending token.
pub type Parsed = Result<(NodeView, int), (AstError, int)>;

/// The token at position `i` exists and has kind `k`.
pub open spec fn has_kind(ts: Seq<Token>, i: int, k: TokenType) -> bool {
    0 <= i < ts.len() && ts[i].token_type == k
}

/// The error of a failed expectation at position `i`: the token is missing,
/// or there is none.
pub open spec fn expect_failure(ts: Seq<Token>, i: int) -> (AstError, int) {
    if 0 <= i < ts.len() {
        (AstError::MissingExpectedType, i)
    } else {
        (AstError::IndexOutOfRange, i)
    }
}

/// `after` is the context after a parse that began in `before` with no
/// error and gave `res`: on success, no error, the cursor after the
/// construct and `node` its tree; on failure, the error recorded. The token
/// stream and the declarations are left as they were.
pub open spec fn reports<'a>(before: ASTData<'a>, after: ASTData<'a>, node: NodeView, res: Parsed) -> bool {
    &&& after.token_list == before.token_list
    &&& after.ast_nodes == before.ast_nodes
    &&& match res {
        Ok((v, p)) => after.error_code is None && node == v && after.token_index == p,
        Err((e, at)) => after.failed_with(e, at),
    }
}

/// No node of the tree has the invalid kind.
pub open spec fn no_invalid(n: NodeView) -> bool
    decreases n, 0int,
{
    &&& n.node_type != ASTNodeType::Invalid
    &&& match n.left {
        Some(b) => no_invalid(*b),
        None => true,
    }
    &&& match n.middle {
        Some(b) => no_invalid(*b),
        None => true,
    }
    &&& match n.right {
        Some(b) => no_invalid(*b),
        None => true,
    }
    &&& prefix_valid(n.children, n.children.len() as int)
}

/// No tree among the first `k` of `s` holds an invalid node.
pub open spec fn prefix_valid(s: Seq<NodeView>, k: int) -> bool
    decreases s, k,
{
    if k <= 0 || k > s.len() {
        k == 0
    } else {
        no_invalid(s[k - 1]) && prefix_valid(s, k - 1)
    }
}

} // verus!
