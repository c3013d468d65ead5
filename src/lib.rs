//! Syntax kinds of a TeX-like document and typed views over its lossless syntax tree.
//!
//! The taxonomy ([`SyntaxKind`]) is shared by the lexer's classifier, the tree and the
//! views. A tree is built once and then only read; each view wraps a reference to a node
//! of one kind and computes its accessors by walking the node.

pub mod ast;
pub mod classify;
pub mod kind;
pub mod lang;
pub mod tree;

pub use ast::{BeginItem, CmdItem, EndItem, EnvItem, FormulaItem, LRClause, LRItem};
pub use classify::kind_of_token;
pub use kind::{OutOfRange, SyntaxKind, VARIANT_COUNT};
pub use lang::TexLang;
pub use tree::{SyntaxElement, SyntaxNode, SyntaxToken};
