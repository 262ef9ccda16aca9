//! A finished tree and the untyped handles on its entries.
//!
//! A [`SyntaxTree`] is read-only. A [`SyntaxNode`] or a [`JsSyntaxToken`] is a
//! view of one entry: a reference to the tree and an index into it. Two views
//! are the same node exactly when they belong to the same tree and have the
//! same index.
use vstd::prelude::*;
use crate::kind::SyntaxKind;
use crate::text::TextRange;
use crate::tree::{model_of, well_formed, NodeData, NodeModel, TreeBuilder};

verus! {

/// Why a piece of the tree could not be reached.
#[derive(Clone, Copy, PartialEq, Eq, Debug, Structural)]
pub enum SyntaxError {
    /// A slot that the grammar requires to be filled is empty, or holds
    /// something of another kind than the grammar puts there.
    MissingRequiredChild,
}

/// What navigating to a required piece of the tree gives.
pub type SyntaxResult<T> = Result<T, SyntaxError>;

/// Turns an optional piece into a required one.
pub open spec fn spec_required<T>(piece: Option<T>) -> SyntaxResult<T> {
    match piece {
        Some(piece) => Ok(piece),
        None => Err(SyntaxError::MissingRequiredChild),
    }
}

/// Turns an optional piece into a required one.
#[verifier::when_used_as_spec(spec_required)]
pub fn required<T>(piece: Option<T>) -> (r: SyntaxResult<T>)
    ensures
        r == spec_required(piece),
{
    match piece {
        Some(piece) => Ok(piece),
        None => Err(SyntaxError::MissingRequiredChild),
    }
}

/// An immutable syntax tree.
#[derive(Debug)]
pub struct SyntaxTree {
    pub(crate) nodes: Vec<NodeData>,
    pub(crate) parents: Vec<Option<usize>>,
}

impl View for SyntaxTree {
    type V = Seq<NodeModel>;

    open(crate) spec fn view(&self) -> Seq<NodeModel> {
        model_of(self.nodes@, self.parents@)
    }
}

impl TreeBuilder {
    /// The tree made of the entries added so far.
    pub fn finish(self) -> (r: SyntaxTree)
        ensures
            r.wf(),
            r@ == self@,
    {
        proof {
            use_type_invariant(&self);
        }
        SyntaxTree { nodes: self.nodes, parents: self.parents }
    }
}

impl SyntaxTree {
    /// Every tree is well formed.
    #[verifier::type_invariant]
    pub open(crate) spec fn wf(&self) -> bool {
        &&& self.nodes.len() == self.parents.len()
        &&& well_formed(self@)
    }

    /// The node at `index`, where there is an entry at `index` and it is not a token.
    pub open(crate) spec fn spec_node(&self, index: usize) -> Option<SyntaxNode<'_>> {
        if index < self@.len() && !self@[index as int].kind.is_token() {
            Some(SyntaxNode { tree: self, index })
        } else {
            None
        }
    }

    /// The token at `index`, where there is an entry at `index` and it is a token.
    pub open(crate) spec fn spec_token(&self, index: usize) -> Option<JsSyntaxToken<'_>> {
        if index < self@.len() && self@[index as int].kind.is_token() {
            Some(JsSyntaxToken { tree: self, index })
        } else {
            None
        }
    }

    /// The number of entries, tokens and nodes together.
    pub fn len(&self) -> (r: usize)
        ensures
            r == self@.len(),
    {
        proof {
            use_type_invariant(self);
        }
        self.nodes.len()
    }

    /// The node at `index`, where there is an entry at `index` and it is not a token.
    #[verifier::when_used_as_spec(spec_node)]
    pub fn node(&self, index: usize) -> (r: Option<SyntaxNode<'_>>)
        ensures
            r == self.spec_node(index),
    {
        proof {
            use_type_invariant(self);
        }
        if index < self.nodes.len() && !self.nodes[index].kind.is_token() {
            Some(SyntaxNode { tree: self, index })
        } else {
            None
        }
    }

    /// The token at `index`, where there is an entry at `index` and it is a token.
    #[verifier::when_used_as_spec(spec_token)]
    pub fn token(&self, index: usize) -> (r: Option<JsSyntaxToken<'_>>)
        ensures
            r == self.spec_token(index),
    {
        proof {
            use_type_invariant(self);
        }
        if index < self.nodes.len() && self.nodes[index].kind.is_token() {
            Some(JsSyntaxToken { tree: self, index })
        } else {
            None
        }
    }
}

/// A node of a tree: an entry that is not a token.
#[derive(Clone, Copy, Debug)]
pub struct SyntaxNode<'a> {
    pub(crate) tree: &'a SyntaxTree,
    pub(crate) index: usize,
}

impl<'a> SyntaxNode<'a> {
    /// The view points at a node of a well-formed tree.
    #[verifier::type_invariant]
    pub open(crate) spec fn wf(&self) -> bool {
        &&& self.tree.wf()
        &&& self.index < self.tree@.len()
        &&& !self.tree@[self.index as int].kind.is_token()
    }

    /// The entries of the tree the node belongs to.
    pub open(crate) spec fn nodes(&self) -> Seq<NodeModel> {
        self.tree@
    }

    /// The entry the view points at.
    pub open(crate) spec fn model(&self) -> NodeModel {
        self.tree@[self.index as int]
    }

    /// The node of the same tree at `index`.
    pub open(crate) spec fn node_at(&self, index: usize) -> SyntaxNode<'a> {
        SyntaxNode { tree: self.tree, index }
    }

    /// The token of the same tree at `index`.
    pub open(crate) spec fn token_at(&self, index: usize) -> JsSyntaxToken<'a> {
        JsSyntaxToken { tree: self.tree, index }
    }

    /// Whether `other` is a view into the same tree.
    pub open(crate) spec fn same_tree(&self, other: SyntaxNode<'_>) -> bool {
        self.tree == other.tree
    }

    pub open(crate) spec fn spec_index(&self) -> usize {
        self.index
    }

    pub open spec fn spec_kind(&self) -> SyntaxKind {
        self.model().kind
    }

    pub open spec fn spec_range(&self) -> TextRange {
        self.model().range
    }

    pub open spec fn spec_slot_count(&self) -> usize {
        self.model().slots.len() as usize
    }

    /// The node in slot `slot`; nothing where the slot does not exist, is empty or holds a token.
    pub open spec fn spec_node_slot(&self, slot: usize) -> Option<SyntaxNode<'a>> {
        if slot < self.model().slots.len() {
            match self.model().slots[slot as int] {
                Some(child) if !self.nodes()[child as int].kind.is_token() => Some(self.node_at(child)),
                _ => None,
            }
        } else {
            None
        }
    }

    /// The token in slot `slot`; nothing where the slot does not exist, is empty or holds a node.
    pub open spec fn spec_token_slot(&self, slot: usize) -> Option<JsSyntaxToken<'a>> {
        if slot < self.model().slots.len() {
            match self.model().slots[slot as int] {
                Some(child) if self.nodes()[child as int].kind.is_token() => Some(self.token_at(child)),
                _ => None,
            }
        } else {
            None
        }
    }

    /// The token in slot `slot`, where it is there and has the kind `kind`.
    pub open spec fn spec_required_token(&self, slot: usize, kind: SyntaxKind) -> SyntaxResult<
        JsSyntaxToken<'a>,
    > {
        match self.spec_token_slot(slot) {
            Some(token) if token.kind() == kind => Ok(token),
            _ => Err(SyntaxError::MissingRequiredChild),
        }
    }

    /// The node in slot `slot` of a node whose kind puts a list there.
    pub open spec fn spec_list_slot(&self, slot: usize) -> SyntaxNode<'a> {
        self.spec_node_slot(slot).unwrap()
    }

    /// The node that has this one in one of its slots.
    pub open spec fn spec_parent(&self) -> Option<SyntaxNode<'a>> {
        match self.model().parent {
            Some(parent) => Some(self.node_at(parent)),
            None => None,
        }
    }

    /// The position of the node in its tree.
    #[verifier::when_used_as_spec(spec_index)]
    pub fn index(&self) -> (r: usize)
        ensures
            r == self.spec_index(),
    {
        self.index
    }

    #[verifier::when_used_as_spec(spec_kind)]
    pub fn kind(&self) -> (r: SyntaxKind)
        ensures
            r == self.spec_kind(),
    {
        proof {
            use_type_invariant(self);
        }
        self.tree.nodes[self.index].kind
    }

    /// Where the node stands in the source, without the trivia around it.
    #[verifier::when_used_as_spec(spec_range)]
    pub fn range(&self) -> (r: TextRange)
        ensures
            r == self.spec_range(),
    {
        proof {
            use_type_invariant(self);
        }
        self.tree.nodes[self.index].range
    }

    /// The number of slots of the node, filled or empty.
    #[verifier::when_used_as_spec(spec_slot_count)]
    pub fn slot_count(&self) -> (r: usize)
        ensures
            r == self.spec_slot_count(),
            r == self.model().slots.len(),
    {
        proof {
            use_type_invariant(self);
        }
        self.tree.nodes[self.index].slots.len()
    }

    /// The node in slot `slot`; nothing where the slot does not exist, is empty or holds a token.
    #[verifier::when_used_as_spec(spec_node_slot)]
    pub fn node_slot(&self, slot: usize) -> (r: Option<SyntaxNode<'a>>)
        ensures
            r == self.spec_node_slot(slot),
    {
        proof {
            use_type_invariant(self);
            lemma_child_in_range(self.tree@, self.index as int, slot as int);
        }
        let slots = &self.tree.nodes[self.index].slots;
        if slot < slots.len() {
            match slots[slot] {
                Some(child) => {
                    if self.tree.nodes[child].kind.is_token() {
                        None
                    } else {
                        Some(SyntaxNode { tree: self.tree, index: child })
                    }
                },
                None => None,
            }
        } else {
            None
        }
    }

    /// The token in slot `slot`; nothing where the slot does not exist, is empty or holds a node.
    #[verifier::when_used_as_spec(spec_token_slot)]
    pub fn token_slot(&self, slot: usize) -> (r: Option<JsSyntaxToken<'a>>)
        ensures
            r == self.spec_token_slot(slot),
    {
        proof {
            use_type_invariant(self);
            lemma_child_in_range(self.tree@, self.index as int, slot as int);
        }
        let slots = &self.tree.nodes[self.index].slots;
        if slot < slots.len() {
            match slots[slot] {
                Some(child) => {
                    if self.tree.nodes[child].kind.is_token() {
                        Some(JsSyntaxToken { tree: self.tree, index: child })
                    } else {
                        None
                    }
                },
                None => None,
            }
        } else {
            None
        }
    }

    /// The token in slot `slot`, where it is there and has the kind `kind`.
    #[verifier::when_used_as_spec(spec_required_token)]
    pub fn required_token(&self, slot: usize, kind: SyntaxKind) -> (r: SyntaxResult<JsSyntaxToken<'a>>)
        ensures
            r == self.spec_required_token(slot, kind),
    {
        match self.token_slot(slot) {
            Some(token) => {
                if token.kind() == kind {
                    Ok(token)
                } else {
                    Err(SyntaxError::MissingRequiredChild)
                }
            },
            None => Err(SyntaxError::MissingRequiredChild),
        }
    }

    /// The node in slot `slot` of a node whose kind puts a list there.
    #[verifier::when_used_as_spec(spec_list_slot)]
    pub(crate) fn list_slot(&self, slot: usize) -> (r: SyntaxNode<'a>)
        requires
            self.spec_node_slot(slot) is Some,
        ensures
            r == self.spec_list_slot(slot),
    {
        match self.node_slot(slot) {
            Some(list) => list,
            None => *self,
        }
    }

    /// The node that has this one in one of its slots; nothing for a root.
    #[verifier::when_used_as_spec(spec_parent)]
    pub fn parent(&self) -> (r: Option<SyntaxNode<'a>>)
        ensures
            r == self.spec_parent(),
    {
        proof {
            use_type_invariant(self);
            lemma_parent_is_node(self.tree@, self.index as int);
        }
        match self.tree.parents[self.index] {
            Some(parent) => Some(SyntaxNode { tree: self.tree, index: parent }),
            None => None,
        }
    }
}

impl<'a> SyntaxNode<'a> {
    /// What stands in a slot of a node is a node or a token of the same
    /// tree, entered before the node, and has the node as its parent.
    pub proof fn lemma_slot(&self, slot: usize)
        requires
            self.wf(),
        ensures
            self.spec_node_slot(slot) matches Some(child) ==> {
                &&& child.wf()
                &&& child.same_tree(*self)
                &&& child.index() < self.index()
                &&& child.spec_parent() == Some(*self)
            },
            self.spec_token_slot(slot) matches Some(child) ==> {
                &&& child.wf()
                &&& child.index() < self.index()
                &&& child.spec_parent() == Some(*self)
            },
    {
        lemma_child_in_range(self.tree@, self.index as int, slot as int);
    }

    /// The parent of a node is a node of the same tree, entered after it.
    pub proof fn lemma_parent(&self)
        requires
            self.wf(),
        ensures
            self.spec_parent() matches Some(parent) ==> {
                &&& parent.wf()
                &&& parent.same_tree(*self)
                &&& self.index() < parent.index()
                &&& exists|slot: usize| #[trigger] parent.spec_node_slot(slot) == Some(*self)
            },
    {
        lemma_parent_is_node(self.tree@, self.index as int);
        if let Some(p) = self.model().parent {
            assert(crate::tree::entry_ok(self.tree@, self.index as int));
            assert(crate::tree::entry_ok(self.tree@, p as int));
            let s = choose|s: int| crate::tree::is_child_at(self.tree@, p as int, s, self.index as int);
            assert(self.spec_parent() == Some(self.node_at(p)));
            assert(self.node_at(p).spec_node_slot(s as usize) == Some(*self));
        }
    }
}

/// A token of a tree: a leaf that carries text.
#[derive(Clone, Copy, Debug)]
pub struct JsSyntaxToken<'a> {
    pub(crate) tree: &'a SyntaxTree,
    pub(crate) index: usize,
}

impl<'a> JsSyntaxToken<'a> {
    /// The view points at a token of a well-formed tree.
    #[verifier::type_invariant]
    pub open(crate) spec fn wf(&self) -> bool {
        &&& self.tree.wf()
        &&& self.index < self.tree@.len()
        &&& self.tree@[self.index as int].kind.is_token()
    }

    /// The entries of the tree the token belongs to.
    pub open(crate) spec fn nodes(&self) -> Seq<NodeModel> {
        self.tree@
    }

    /// The entry the view points at.
    pub open(crate) spec fn model(&self) -> NodeModel {
        self.tree@[self.index as int]
    }

    pub open(crate) spec fn spec_index(&self) -> usize {
        self.index
    }

    pub open spec fn spec_kind(&self) -> SyntaxKind {
        self.model().kind
    }

    pub open spec fn spec_range(&self) -> TextRange {
        self.model().range
    }

    /// The text of the token without the trivia around it.
    pub open spec fn spec_text_trimmed(&self) -> Seq<char> {
        self.model().text
    }

    /// The node of the same tree at `index`.
    pub open(crate) spec fn node_at(&self, index: usize) -> SyntaxNode<'a> {
        SyntaxNode { tree: self.tree, index }
    }

    /// The node that has this token in one of its slots.
    pub open spec fn spec_parent(&self) -> Option<SyntaxNode<'a>> {
        match self.model().parent {
            Some(parent) => Some(self.node_at(parent)),
            None => None,
        }
    }

    /// The position of the token in its tree.
    #[verifier::when_used_as_spec(spec_index)]
    pub fn index(&self) -> (r: usize)
        ensures
            r == self.spec_index(),
    {
        self.index
    }

    #[verifier::when_used_as_spec(spec_kind)]
    pub fn kind(&self) -> (r: SyntaxKind)
        ensures
            r == self.spec_kind(),
    {
        proof {
            use_type_invariant(self);
        }
        self.tree.nodes[self.index].kind
    }

    /// Where the token stands in the source, without the trivia around it.
    #[verifier::when_used_as_spec(spec_range)]
    pub fn range(&self) -> (r: TextRange)
        ensures
            r == self.spec_range(),
    {
        proof {
            use_type_invariant(self);
        }
        self.tree.nodes[self.index].range
    }

    /// The text of the token without the trivia around it.
    pub fn text_trimmed(&self) -> (r: &'a str)
        ensures
            r@ == self.spec_text_trimmed(),
    {
        proof {
            use_type_invariant(self);
        }
        self.tree.nodes[self.index].text.as_str()
    }

    /// The white space and comments that precede the token.
    pub fn leading_trivia(&self) -> (r: &'a str)
        ensures
            r@ == self.model().leading_trivia,
    {
        proof {
            use_type_invariant(self);
        }
        self.tree.nodes[self.index].leading_trivia.as_str()
    }

    /// The white space and comments that follow the token.
    pub fn trailing_trivia(&self) -> (r: &'a str)
        ensures
            r@ == self.model().trailing_trivia,
    {
        proof {
            use_type_invariant(self);
        }
        self.tree.nodes[self.index].trailing_trivia.as_str()
    }

    /// The node that has this token in one of its slots; nothing for a token on its own.
    #[verifier::when_used_as_spec(spec_parent)]
    pub fn parent(&self) -> (r: Option<SyntaxNode<'a>>)
        ensures
            r == self.spec_parent(),
    {
        proof {
            use_type_invariant(self);
            lemma_parent_is_node(self.tree@, self.index as int);
        }
        match self.tree.parents[self.index] {
            Some(parent) => Some(SyntaxNode { tree: self.tree, index: parent }),
            None => None,
        }
    }
}

/// In a tree, what a slot holds is an entry that comes before its parent.
pub proof fn lemma_child_in_range(nodes: Seq<NodeModel>, index: int, slot: int)
    requires
        well_formed(nodes),
        0 <= index < nodes.len(),
    ensures
        0 <= slot < nodes[index].slots.len() ==> (nodes[index].slots[slot] matches Some(child) ==> child < index
            && nodes[child as int].parent == Some(index as usize)),
{
    assert(crate::tree::entry_ok(nodes, index));
}

/// In a tree, the parent of an entry is a node that comes after it.
pub proof fn lemma_parent_is_node(nodes: Seq<NodeModel>, index: int)
    requires
        well_formed(nodes),
        0 <= index < nodes.len(),
    ensures
        nodes[index].parent matches Some(parent) ==> index < parent < nodes.len() && !nodes[parent as int].kind.is_token(),
{
    assert(crate::tree::entry_ok(nodes, index));
    if let Some(parent) = nodes[index].parent {
        assert(crate::tree::entry_ok(nodes, parent as int));
    }
}

} // verus!
