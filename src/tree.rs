//! The lossless syntax tree: nodes own their ordered children, tokens own their text.

use vstd::prelude::*;

use crate::kind::SyntaxKind;

verus! {

/// A leaf of the tree: a kind and the source text it covers.
pub struct SyntaxToken {
    pub kind: SyntaxKind,
    pub text: String,
}

/// A child of a node: either a node or a token.
pub enum SyntaxElement {
    Node(SyntaxNode),
    Token(SyntaxToken),
}

/// An inner node of the tree: a kind and its children in document order.
pub struct SyntaxNode {
    pub kind: SyntaxKind,
    pub children: Vec<SyntaxElement>,
}

/// The first token of a node's subtree, reached through first children; none when the
/// first child is a node without tokens.
pub open spec fn first_token_of(n: SyntaxNode) -> Option<SyntaxToken>
    decreases n,
{
    if n.children.len() == 0 {
        None
    } else {
        match n.children@[0] {
            SyntaxElement::Node(c) => first_token_of(c),
            SyntaxElement::Token(t) => Some(t),
        }
    }
}


/// The last token of a node's subtree, reached through last children; none when the
/// last child is a node without tokens.
pub open spec fn last_token_of(n: SyntaxNode) -> Option<SyntaxToken>
    decreases n,
{
    if n.children.len() == 0 {
        None
    } else {
        match n.children@[n.children.len() - 1] {
            SyntaxElement::Node(c) => last_token_of(c),
            SyntaxElement::Token(t) => Some(t),
        }
    }
}

/// The node children among `s`, in order.
pub open spec fn child_nodes(s: Seq<SyntaxElement>) -> Seq<SyntaxNode>
    decreases s.len(),
{
    if s.len() == 0 {
        Seq::empty()
    } else {
        let rest = child_nodes(s.drop_last());
        match s.last() {
            SyntaxElement::Node(c) => rest.push(c),
            SyntaxElement::Token(_) => rest,
        }
    }
}

/// The node children among `s` whose kind is `k`, in order.
pub open spec fn child_nodes_of_kind(s: Seq<SyntaxElement>, k: SyntaxKind) -> Seq<SyntaxNode>
    decreases s.len(),
{
    if s.len() == 0 {
        Seq::empty()
    } else {
        let rest = child_nodes_of_kind(s.drop_last(), k);
        match s.last() {
            SyntaxElement::Node(c) => if c.kind == k {
                rest.push(c)
            } else {
                rest
            },
            SyntaxElement::Token(_) => rest,
        }
    }
}

/// Every node that `child_nodes_of_kind` keeps has the kind asked for.
pub proof fn lemma_nodes_of_kind_have_kind(s: Seq<SyntaxElement>, k: SyntaxKind)
    ensures
        forall|i: int|
            0 <= i < child_nodes_of_kind(s, k).len() ==> (#[trigger] child_nodes_of_kind(s, k)[i]).kind
                == k,
    decreases s.len(),
{
    if s.len() > 0 {
        lemma_nodes_of_kind_have_kind(s.drop_last(), k);
    }
}

/// The token children among `s` whose kind is `k`, in order.
pub open spec fn child_tokens_of_kind(s: Seq<SyntaxElement>, k: SyntaxKind) -> Seq<SyntaxToken>
    decreases s.len(),
{
    if s.len() == 0 {
        Seq::empty()
    } else {
        let rest = child_tokens_of_kind(s.drop_last(), k);
        match s.last() {
            SyntaxElement::Token(t) => if t.kind == k {
                rest.push(t)
            } else {
                rest
            },
            SyntaxElement::Node(_) => rest,
        }
    }
}

/// The value an optional reference points to.
pub open spec fn opt_deref<T>(o: Option<&T>) -> Option<T> {
    match o {
        Some(x) => Some(*x),
        None => None,
    }
}

/// The values a sequence of references points to.
pub open spec fn seq_deref<T>(s: Seq<&T>) -> Seq<T> {
    s.map_values(|x: &T| *x)
}

/// The first element of a sequence, if any.
pub open spec fn first_of<T>(s: Seq<T>) -> Option<T> {
    if s.len() == 0 {
        None
    } else {
        Some(s[0])
    }
}

/// The last element of a sequence, if any.
pub open spec fn last_of<T>(s: Seq<T>) -> Option<T> {
    if s.len() == 0 {
        None
    } else {
        Some(s.last())
    }
}

impl SyntaxToken {
    /// A token of kind `kind` covering `text`.
    pub fn new(kind: SyntaxKind, text: String) -> (r: SyntaxToken)
        ensures
            r.kind == kind,
            r.text@ == text@,
    {
        SyntaxToken { kind, text }
    }

    /// The kind of the token.
    pub fn kind(&self) -> (r: SyntaxKind)
        ensures
            r == self.kind,
    {
        self.kind
    }

    /// The source text of the token.
    pub fn text(&self) -> (r: &str)
        ensures
            r@ == self.text@,
    {
        self.text.as_str()
    }
}

impl SyntaxNode {
    /// A node of kind `kind` with `children` in document order.
    pub fn new(kind: SyntaxKind, children: Vec<SyntaxElement>) -> (r: SyntaxNode)
        ensures
            r.kind == kind,
            r.children@ == children@,
    {
        SyntaxNode { kind, children }
    }

    /// The kind of the node.
    pub fn kind(&self) -> (r: SyntaxKind)
        ensures
            r == self.kind,
    {
        self.kind
    }

    /// All children, nodes and tokens, in document order.
    pub fn children_with_tokens(&self) -> (r: &[SyntaxElement])
        ensures
            r@ == self.children@,
    {
        self.children.as_slice()
    }

    /// The first token of the subtree.
    pub fn first_token(&self) -> (r: Option<&SyntaxToken>)
        ensures
            opt_deref(r) == first_token_of(*self),
        decreases self,
    {
        if self.children.len() == 0 {
            None
        } else {
            match &self.children[0] {
                SyntaxElement::Node(c) => c.first_token(),
                SyntaxElement::Token(t) => Some(t),
            }
        }
    }

    /// The last token of the subtree.
    pub fn last_token(&self) -> (r: Option<&SyntaxToken>)
        ensures
            opt_deref(r) == last_token_of(*self),
        decreases self,
    {
        if self.children.len() == 0 {
            None
        } else {
            match &self.children[self.children.len() - 1] {
                SyntaxElement::Node(c) => c.last_token(),
                SyntaxElement::Token(t) => Some(t),
            }
        }
    }

    /// The node children, in document order.
    pub fn children(&self) -> (r: Vec<&SyntaxNode>)
        ensures
            seq_deref(r@) == child_nodes(self.children@),
    {
        let mut r: Vec<&SyntaxNode> = Vec::new();
        let mut i: usize = 0;
        while i < self.children.len()
            invariant
                i <= self.children.len(),
                seq_deref(r@) == child_nodes(self.children@.take(i as int)),
            decreases self.children.len() - i,
        {
            assert(self.children@.take(i + 1).drop_last() =~= self.children@.take(i as int));
            if let SyntaxElement::Node(c) = &self.children[i] {
                r.push(c);
            }
            i += 1;
            assert(seq_deref(r@) =~= child_nodes(self.children@.take(i as int)));
        }
        assert(self.children@.take(i as int) =~= self.children@);
        r
    }

    /// The node children of kind `k`, in document order.
    pub fn children_of_kind(&self, k: SyntaxKind) -> (r: Vec<&SyntaxNode>)
        ensures
            seq_deref(r@) == child_nodes_of_kind(self.children@, k),
    {
        let mut r: Vec<&SyntaxNode> = Vec::new();
        let mut i: usize = 0;
        while i < self.children.len()
            invariant
                i <= self.children.len(),
                seq_deref(r@) == child_nodes_of_kind(self.children@.take(i as int), k),
            decreases self.children.len() - i,
        {
            assert(self.children@.take(i + 1).drop_last() =~= self.children@.take(i as int));
            if let SyntaxElement::Node(c) = &self.children[i] {
                if c.kind == k {
                    r.push(c);
                }
            }
            i += 1;
            assert(seq_deref(r@) =~= child_nodes_of_kind(self.children@.take(i as int), k));
        }
        assert(self.children@.take(i as int) =~= self.children@);
        r
    }

    /// The first node child of kind `k`.
    pub fn first_child_of_kind(&self, k: SyntaxKind) -> (r: Option<&SyntaxNode>)
        ensures
            opt_deref(r) == first_of(child_nodes_of_kind(self.children@, k)),
    {
        let mut r: Option<&SyntaxNode> = None;
        let mut i: usize = 0;
        while i < self.children.len()
            invariant
                i <= self.children.len(),
                opt_deref(r) == first_of(child_nodes_of_kind(self.children@.take(i as int), k)),
            decreases self.children.len() - i,
        {
            assert(self.children@.take(i + 1).drop_last() =~= self.children@.take(i as int));
            if let SyntaxElement::Node(c) = &self.children[i] {
                if c.kind == k && r.is_none() {
                    r = Some(c);
                }
            }
            i += 1;
        }
        assert(self.children@.take(i as int) =~= self.children@);
        r
    }

    /// The first token child of kind `k`; node children are passed over.
    pub fn first_token_child_of_kind(&self, k: SyntaxKind) -> (r: Option<&SyntaxToken>)
        ensures
            opt_deref(r) == first_of(child_tokens_of_kind(self.children@, k)),
    {
        let mut r: Option<&SyntaxToken> = None;
        let mut i: usize = 0;
        while i < self.children.len()
            invariant
                i <= self.children.len(),
                opt_deref(r) == first_of(child_tokens_of_kind(self.children@.take(i as int), k)),
            decreases self.children.len() - i,
        {
            assert(self.children@.take(i + 1).drop_last() =~= self.children@.take(i as int));
            if let SyntaxElement::Token(t) = &self.children[i] {
                if t.kind == k && r.is_none() {
                    r = Some(t);
                }
            }
            i += 1;
        }
        assert(self.children@.take(i as int) =~= self.children@);
        r
    }

    /// The first node child; tokens before it are passed over.
    pub fn first_child(&self) -> (r: Option<&SyntaxNode>)
        ensures
            opt_deref(r) == first_of(child_nodes(self.children@)),
    {
        let mut r: Option<&SyntaxNode> = None;
        let mut i: usize = 0;
        while i < self.children.len()
            invariant
                i <= self.children.len(),
                opt_deref(r) == first_of(child_nodes(self.children@.take(i as int))),
            decreases self.children.len() - i,
        {
            assert(self.children@.take(i + 1).drop_last() =~= self.children@.take(i as int));
            if let SyntaxElement::Node(c) = &self.children[i] {
                if r.is_none() {
                    r = Some(c);
                }
            }
            i += 1;
        }
        assert(self.children@.take(i as int) =~= self.children@);
        r
    }

    /// The last node child; tokens after it are passed over.
    pub fn last_child(&self) -> (r: Option<&SyntaxNode>)
        ensures
            opt_deref(r) == last_of(child_nodes(self.children@)),
    {
        let mut r: Option<&SyntaxNode> = None;
        let mut i: usize = 0;
        while i < self.children.len()
            invariant
                i <= self.children.len(),
                opt_deref(r) == last_of(child_nodes(self.children@.take(i as int))),
            decreases self.children.len() - i,
        {
            assert(self.children@.take(i + 1).drop_last() =~= self.children@.take(i as int));
            if let SyntaxElement::Node(c) = &self.children[i] {
                r = Some(c);
            }
            i += 1;
        }
        assert(self.children@.take(i as int) =~= self.children@);
        r
    }
}

} // verus!
