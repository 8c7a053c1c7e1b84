//! Front end and emitter of a small source-to-source compiler: a lexer that
//! turns source text into tokens, a recursive-descent and precedence-climbing
//! parser that turns tokens into an abstract syntax tree, and an emitter that
//! walks the tree and writes Go source text.
pub mod enums;
pub mod errors;
pub mod structs;
pub mod debugging;
pub mod token_utils;
pub mod ast_expressions;
pub mod ast_utils;
pub mod ast_print;
pub mod ast_functions;
pub mod ast;
pub mod go_utils;
pub mod go_print;
pub mod go_body;
pub mod go_functions;
pub mod go_convert;
pub mod parse_utils;
pub mod parsing;
pub mod validity;
