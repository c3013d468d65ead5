//! Typed views over syntax nodes: each view accepts nodes of one kind and reads them by
//! navigating the tree on demand.

use vstd::prelude::*;

use crate::kind::SyntaxKind;
use crate::tree::{
    child_nodes, child_nodes_of_kind, child_tokens_of_kind, first_of, first_token_of, last_of,
    last_token_of, lemma_nodes_of_kind_have_kind, opt_deref, seq_deref, SyntaxNode, SyntaxToken,
};

verus! {

/// Whether the text is `$$`.
pub open spec fn is_double_dollar(text: Seq<char>) -> bool {
    text == seq!['$', '$']
}

/// Whether the text is `$`.
pub open spec fn is_single_dollar(text: Seq<char>) -> bool {
    text == seq!['$']
}

/// Whether the text is the command `\left`.
pub open spec fn is_left_command(text: Seq<char>) -> bool {
    text == seq!['\\', 'l', 'e', 'f', 't']
}

/// A formula whose first token is the dollar token `$$`.
pub open spec fn formula_is_display(n: SyntaxNode) -> bool {
    match first_token_of(n) {
        Some(t) => t.kind == SyntaxKind::TokenDollar && is_double_dollar(t.text@),
        None => false,
    }
}

/// A formula whose first token is the dollar token `$`.
pub open spec fn formula_is_inline(n: SyntaxNode) -> bool {
    match first_token_of(n) {
        Some(t) => t.kind == SyntaxKind::TokenDollar && is_single_dollar(t.text@),
        None => false,
    }
}

/// The first token child of a node that is a command name.
pub open spec fn command_name(n: SyntaxNode) -> Option<SyntaxToken> {
    first_of(child_tokens_of_kind(n.children@, SyntaxKind::ClauseCommandName))
}

/// The argument clauses among a node's children, in document order.
pub open spec fn argument_clauses(n: SyntaxNode) -> Seq<SyntaxNode> {
    child_nodes_of_kind(n.children@, SyntaxKind::ClauseArgument)
}

/// The begin marker of an environment: its first begin-marker child.
pub open spec fn env_begin(n: SyntaxNode) -> Option<SyntaxNode> {
    first_of(child_nodes_of_kind(n.children@, SyntaxKind::ItemBegin))
}

/// The end marker of an environment: its first end-marker child.
pub open spec fn env_end(n: SyntaxNode) -> Option<SyntaxNode> {
    first_of(child_nodes_of_kind(n.children@, SyntaxKind::ItemEnd))
}

/// The name of a begin or end marker: its first token, when that is a command symbol.
pub open spec fn marker_name(n: SyntaxNode) -> Option<SyntaxToken> {
    match first_token_of(n) {
        Some(t) => if t.kind == SyntaxKind::TokenCommandSym {
            Some(t)
        } else {
            None
        },
        None => None,
    }
}

/// The name of an environment, read from its begin marker.
pub open spec fn env_name(n: SyntaxNode) -> Option<SyntaxToken> {
    match env_begin(n) {
        Some(b) => marker_name(b),
        None => None,
    }
}

/// The arguments of an environment, read from its begin marker.
pub open spec fn env_arguments(n: SyntaxNode) -> Seq<SyntaxNode> {
    match env_begin(n) {
        Some(b) => argument_clauses(b),
        None => Seq::empty(),
    }
}

/// A node kept only when it is a left-right clause.
pub open spec fn as_lr_clause(n: Option<SyntaxNode>) -> Option<SyntaxNode> {
    match n {
        Some(c) => if c.kind == SyntaxKind::ClauseLR {
            Some(c)
        } else {
            None
        },
        None => None,
    }
}

/// The left clause of a left-right group: its first node child, when that is a clause.
pub open spec fn lr_left(n: SyntaxNode) -> Option<SyntaxNode> {
    as_lr_clause(first_of(child_nodes(n.children@)))
}

/// The right clause of a left-right group: its last node child, when that is a clause.
pub open spec fn lr_right(n: SyntaxNode) -> Option<SyntaxNode> {
    as_lr_clause(last_of(child_nodes(n.children@)))
}

/// A clause that opens with the command `\left`.
pub open spec fn clause_is_left(n: SyntaxNode) -> bool {
    match first_token_of(n) {
        Some(t) => t.kind == SyntaxKind::ClauseCommandName && is_left_command(t.text@),
        None => false,
    }
}

/// The bracket of a clause: its last token, unless that is the command name itself.
pub open spec fn clause_sym(n: SyntaxNode) -> Option<SyntaxToken> {
    match last_token_of(n) {
        Some(t) => if t.kind != SyntaxKind::ClauseCommandName {
            Some(t)
        } else {
            None
        },
        None => None,
    }
}

/// The bracket of an optional clause.
pub open spec fn opt_clause_sym(c: Option<SyntaxNode>) -> Option<SyntaxToken> {
    match c {
        Some(c) => clause_sym(c),
        None => None,
    }
}

/// Whether two strings hold the same characters.
fn text_eq(s: &str, t: &str) -> (r: bool)
    ensures
        r == (s@ == t@),
{
    let n = s.unicode_len();
    if n != t.unicode_len() {
        return false;
    }
    let mut i: usize = 0;
    while i < n
        invariant
            n == s@.len(),
            n == t@.len(),
            i <= n,
            forall|j: int| 0 <= j < i ==> s@[j] == t@[j],
        decreases n - i,
    {
        if s.get_char(i) != t.get_char(i) {
            return false;
        }
        i += 1;
    }
    assert(s@ =~= t@);
    true
}

/// An inline formula or a display formula.
#[derive(Clone, Copy)]
pub struct FormulaItem<'a> {
    node: &'a SyntaxNode,
}

impl<'a> View for FormulaItem<'a> {
    type V = SyntaxNode;

    closed spec fn view(&self) -> SyntaxNode {
        *self.node
    }
}

impl<'a> FormulaItem<'a> {
    /// Whether a node of kind `kind` can be viewed as this item.
    pub fn can_cast(kind: SyntaxKind) -> (r: bool)
        ensures
            r == (kind == SyntaxKind::ItemFormula),
    {
        match kind {
            SyntaxKind::ItemFormula => true,
            _ => false,
        }
    }

    /// Views `node` as this item when its kind is the item's kind.
    pub fn cast(node: &'a SyntaxNode) -> (r: Option<FormulaItem<'a>>)
        ensures
            r is Some <==> node.kind == SyntaxKind::ItemFormula,
            r matches Some(v) ==> v@ == *node,
    {
        match node.kind {
            SyntaxKind::ItemFormula => Some(FormulaItem { node }),
            _ => None,
        }
    }

    /// The node under the view.
    pub fn syntax(&self) -> (r: &'a SyntaxNode)
        ensures
            *r == self@,
    {
        self.node
    }

    /// Checks whether it is a display formula.
    pub fn is_display(&self) -> (r: bool)
        ensures
            r == formula_is_display(self@),
    {
        proof {
            reveal_strlit("$$");
            assert("$$"@ =~= seq!['$', '$']);
        }
        match self.node.first_token() {
            Some(t) => t.kind == SyntaxKind::TokenDollar && text_eq(t.text(), "$$"),
            None => false,
        }
    }

    /// Checks whether it is an inline formula.
    pub fn is_inline(&self) -> (r: bool)
        ensures
            r == formula_is_inline(self@),
    {
        proof {
            reveal_strlit("$");
            assert("$"@ =~= seq!['$']);
        }
        match self.node.first_token() {
            Some(t) => t.kind == SyntaxKind::TokenDollar && text_eq(t.text(), "$"),
            None => false,
        }
    }
}

/// A command invocation: an optional leading argument, the command name, then its
/// arguments, as in `\documentclass{article}`.
#[derive(Clone, Copy)]
pub struct CmdItem<'a> {
    node: &'a SyntaxNode,
}

impl<'a> View for CmdItem<'a> {
    type V = SyntaxNode;

    closed spec fn view(&self) -> SyntaxNode {
        *self.node
    }
}

impl<'a> CmdItem<'a> {
    /// Whether a node of kind `kind` can be viewed as this item.
    pub fn can_cast(kind: SyntaxKind) -> (r: bool)
        ensures
            r == (kind == SyntaxKind::ItemCmd),
    {
        match kind {
            SyntaxKind::ItemCmd => true,
            _ => false,
        }
    }

    /// Views `node` as this item when its kind is the item's kind.
    pub fn cast(node: &'a SyntaxNode) -> (r: Option<CmdItem<'a>>)
        ensures
            r is Some <==> node.kind == SyntaxKind::ItemCmd,
            r matches Some(v) ==> v@ == *node,
    {
        match node.kind {
            SyntaxKind::ItemCmd => Some(CmdItem { node }),
            _ => None,
        }
    }

    /// The node under the view.
    pub fn syntax(&self) -> (r: &'a SyntaxNode)
        ensures
            *r == self@,
    {
        self.node
    }

    /// Get the token corresponding to command name.
    pub fn name_tok(&self) -> (r: Option<&'a SyntaxToken>)
        ensures
            opt_deref(r) == command_name(self@),
    {
        self.node.first_token_child_of_kind(SyntaxKind::ClauseCommandName)
    }

    /// Get the command arguments.
    pub fn arguments(&self) -> (r: Vec<&'a SyntaxNode>)
        ensures
            seq_deref(r@) == argument_clauses(self@),
    {
        self.node.children_of_kind(SyntaxKind::ClauseArgument)
    }
}

/// An environment: a begin marker holding the name and the arguments, the body, and an
/// optional end marker.
#[derive(Clone, Copy)]
pub struct EnvItem<'a> {
    node: &'a SyntaxNode,
}

impl<'a> View for EnvItem<'a> {
    type V = SyntaxNode;

    closed spec fn view(&self) -> SyntaxNode {
        *self.node
    }
}

impl<'a> EnvItem<'a> {
    /// Whether a node of kind `kind` can be viewed as this item.
    pub fn can_cast(kind: SyntaxKind) -> (r: bool)
        ensures
            r == (kind == SyntaxKind::ItemEnv),
    {
        match kind {
            SyntaxKind::ItemEnv => true,
            _ => false,
        }
    }

    /// Views `node` as this item when its kind is the item's kind.
    pub fn cast(node: &'a SyntaxNode) -> (r: Option<EnvItem<'a>>)
        ensures
            r is Some <==> node.kind == SyntaxKind::ItemEnv,
            r matches Some(v) ==> v@ == *node,
    {
        match node.kind {
            SyntaxKind::ItemEnv => Some(EnvItem { node }),
            _ => None,
        }
    }

    /// The node under the view.
    pub fn syntax(&self) -> (r: &'a SyntaxNode)
        ensures
            *r == self@,
    {
        self.node
    }

    /// Get the begin clause of the environment.
    pub fn begin(&self) -> (r: Option<BeginItem<'a>>)
        ensures
            match r {
                Some(b) => env_begin(self@) == Some(b@),
                None => env_begin(self@) is None,
            },
    {
        match self.node.first_child_of_kind(SyntaxKind::ItemBegin) {
            Some(b) => {
                proof {
                    lemma_nodes_of_kind_have_kind(self.node.children@, SyntaxKind::ItemBegin);
                }
                BeginItem::cast(b)
            },
            None => None,
        }
    }

    /// Get the end clause of the environment.
    pub fn end(&self) -> (r: Option<EndItem<'a>>)
        ensures
            match r {
                Some(e) => env_end(self@) == Some(e@),
                None => env_end(self@) is None,
            },
    {
        match self.node.first_child_of_kind(SyntaxKind::ItemEnd) {
            Some(e) => {
                proof {
                    lemma_nodes_of_kind_have_kind(self.node.children@, SyntaxKind::ItemEnd);
                }
                EndItem::cast(e)
            },
            None => None,
        }
    }

    /// Get the name of the environment.
    pub fn name_tok(&self) -> (r: Option<&'a SyntaxToken>)
        ensures
            opt_deref(r) == env_name(self@),
    {
        match self.begin() {
            Some(b) => b.name(),
            None => None,
        }
    }

    /// Get the arguments of the environment.
    pub fn arguments(&self) -> (r: Vec<&'a SyntaxNode>)
        ensures
            seq_deref(r@) == env_arguments(self@),
    {
        match self.begin() {
            Some(b) => b.arguments(),
            None => {
                let r: Vec<&'a SyntaxNode> = Vec::new();
                assert(seq_deref(r@) =~= Seq::<SyntaxNode>::empty());
                r
            },
        }
    }
}

/// A paired `\left` and `\right` command with the nodes in between.
#[derive(Clone, Copy)]
pub struct LRItem<'a> {
    node: &'a SyntaxNode,
}

impl<'a> View for LRItem<'a> {
    type V = SyntaxNode;

    closed spec fn view(&self) -> SyntaxNode {
        *self.node
    }
}

impl<'a> LRItem<'a> {
    /// Whether a node of kind `kind` can be viewed as this item.
    pub fn can_cast(kind: SyntaxKind) -> (r: bool)
        ensures
            r == (kind == SyntaxKind::ItemLR),
    {
        match kind {
            SyntaxKind::ItemLR => true,
            _ => false,
        }
    }

    /// Views `node` as this item when its kind is the item's kind.
    pub fn cast(node: &'a SyntaxNode) -> (r: Option<LRItem<'a>>)
        ensures
            r is Some <==> node.kind == SyntaxKind::ItemLR,
            r matches Some(v) ==> v@ == *node,
    {
        match node.kind {
            SyntaxKind::ItemLR => Some(LRItem { node }),
            _ => None,
        }
    }

    /// The node under the view.
    pub fn syntax(&self) -> (r: &'a SyntaxNode)
        ensures
            *r == self@,
    {
        self.node
    }

    /// Get the left clause.
    pub fn left(&self) -> (r: Option<LRClause<'a>>)
        ensures
            match r {
                Some(c) => lr_left(self@) == Some(c@),
                None => lr_left(self@) is None,
            },
    {
        match self.node.first_child() {
            Some(c) => LRClause::cast(c),
            None => None,
        }
    }

    /// Get the right clause.
    pub fn right(&self) -> (r: Option<LRClause<'a>>)
        ensures
            match r {
                Some(c) => lr_right(self@) == Some(c@),
                None => lr_right(self@) is None,
            },
    {
        match self.node.last_child() {
            Some(c) => LRClause::cast(c),
            None => None,
        }
    }

    /// Get the left symbol wrapped in the clause.
    pub fn left_sym(&self) -> (r: Option<&'a SyntaxToken>)
        ensures
            opt_deref(r) == opt_clause_sym(lr_left(self@)),
    {
        match self.left() {
            Some(c) => c.sym(),
            None => None,
        }
    }

    /// Get the right symbol wrapped in the clause.
    pub fn right_sym(&self) -> (r: Option<&'a SyntaxToken>)
        ensures
            opt_deref(r) == opt_clause_sym(lr_right(self@)),
    {
        match self.right() {
            Some(c) => c.sym(),
            None => None,
        }
    }
}

/// A `\left` or `\right` command with its bracket.
#[derive(Clone, Copy)]
pub struct LRClause<'a> {
    node: &'a SyntaxNode,
}

impl<'a> View for LRClause<'a> {
    type V = SyntaxNode;

    closed spec fn view(&self) -> SyntaxNode {
        *self.node
    }
}

impl<'a> LRClause<'a> {
    /// Whether a node of kind `kind` can be viewed as this item.
    pub fn can_cast(kind: SyntaxKind) -> (r: bool)
        ensures
            r == (kind == SyntaxKind::ClauseLR),
    {
        match kind {
            SyntaxKind::ClauseLR => true,
            _ => false,
        }
    }

    /// Views `node` as this item when its kind is the item's kind.
    pub fn cast(node: &'a SyntaxNode) -> (r: Option<LRClause<'a>>)
        ensures
            r is Some <==> node.kind == SyntaxKind::ClauseLR,
            r matches Some(v) ==> v@ == *node,
    {
        match node.kind {
            SyntaxKind::ClauseLR => Some(LRClause { node }),
            _ => None,
        }
    }

    /// The node under the view.
    pub fn syntax(&self) -> (r: &'a SyntaxNode)
        ensures
            *r == self@,
    {
        self.node
    }

    /// Get the command kind: whether the clause is a `\left`.
    pub fn is_left(&self) -> (r: bool)
        ensures
            r == clause_is_left(self@),
    {
        proof {
            reveal_strlit("\\left");
            assert("\\left"@ =~= seq!['\\', 'l', 'e', 'f', 't']);
        }
        match self.node.first_token() {
            Some(t) => t.kind == SyntaxKind::ClauseCommandName && text_eq(t.text(), "\\left"),
            None => false,
        }
    }

    /// Get the symbol wrapped in the clause.
    pub fn sym(&self) -> (r: Option<&'a SyntaxToken>)
        ensures
            opt_deref(r) == clause_sym(self@),
    {
        match self.node.last_token() {
            Some(t) => if t.kind != SyntaxKind::ClauseCommandName {
                Some(t)
            } else {
                None
            },
            None => None,
        }
    }
}

/// A `\begin{name}` marker with its arguments.
#[derive(Clone, Copy)]
pub struct BeginItem<'a> {
    node: &'a SyntaxNode,
}

impl<'a> View for BeginItem<'a> {
    type V = SyntaxNode;

    closed spec fn view(&self) -> SyntaxNode {
        *self.node
    }
}

impl<'a> BeginItem<'a> {
    /// Whether a node of kind `kind` can be viewed as this item.
    pub fn can_cast(kind: SyntaxKind) -> (r: bool)
        ensures
            r == (kind == SyntaxKind::ItemBegin),
    {
        match kind {
            SyntaxKind::ItemBegin => true,
            _ => false,
        }
    }

    /// Views `node` as this item when its kind is the item's kind.
    pub fn cast(node: &'a SyntaxNode) -> (r: Option<BeginItem<'a>>)
        ensures
            r is Some <==> node.kind == SyntaxKind::ItemBegin,
            r matches Some(v) ==> v@ == *node,
    {
        match node.kind {
            SyntaxKind::ItemBegin => Some(BeginItem { node }),
            _ => None,
        }
    }

    /// The node under the view.
    pub fn syntax(&self) -> (r: &'a SyntaxNode)
        ensures
            *r == self@,
    {
        self.node
    }

    /// Get the name in the begin clause.
    pub fn name(&self) -> (r: Option<&'a SyntaxToken>)
        ensures
            opt_deref(r) == marker_name(self@),
    {
        match self.node.first_token() {
            Some(t) => if t.kind == SyntaxKind::TokenCommandSym {
                Some(t)
            } else {
                None
            },
            None => None,
        }
    }

    /// Get the arguments of the environment.
    pub fn arguments(&self) -> (r: Vec<&'a SyntaxNode>)
        ensures
            seq_deref(r@) == argument_clauses(self@),
    {
        self.node.children_of_kind(SyntaxKind::ClauseArgument)
    }
}

/// An `\end{name}` marker.
#[derive(Clone, Copy)]
pub struct EndItem<'a> {
    node: &'a SyntaxNode,
}

impl<'a> View for EndItem<'a> {
    type V = SyntaxNode;

    closed spec fn view(&self) -> SyntaxNode {
        *self.node
    }
}

impl<'a> EndItem<'a> {
    /// Whether a node of kind `kind` can be viewed as this item.
    pub fn can_cast(kind: SyntaxKind) -> (r: bool)
        ensures
            r == (kind == SyntaxKind::ItemEnd),
    {
        match kind {
            SyntaxKind::ItemEnd => true,
            _ => false,
        }
    }

    /// Views `node` as this item when its kind is the item's kind.
    pub fn cast(node: &'a SyntaxNode) -> (r: Option<EndItem<'a>>)
        ensures
            r is Some <==> node.kind == SyntaxKind::ItemEnd,
            r matches Some(v) ==> v@ == *node,
    {
        match node.kind {
            SyntaxKind::ItemEnd => Some(EndItem { node }),
            _ => None,
        }
    }

    /// The node under the view.
    pub fn syntax(&self) -> (r: &'a SyntaxNode)
        ensures
            *r == self@,
    {
        self.node
    }

    /// Get the name in the end clause.
    pub fn name(&self) -> (r: Option<&'a SyntaxToken>)
        ensures
            opt_deref(r) == marker_name(self@),
    {
        match self.node.first_token() {
            Some(t) => if t.kind == SyntaxKind::TokenCommandSym {
                Some(t)
            } else {
                None
            },
            None => None,
        }
    }
}

} // verus!
