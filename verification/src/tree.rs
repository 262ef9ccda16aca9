//! The syntax tree: an arena of tokens and nodes, built once and then only read.
//!
//! Every token and node is an entry of the arena and is known by its index.
//! A node lists its children by slot; a slot holds the index of a child or is
//! empty where the source left a piece out. Children are entered before their
//! parent, so a child always has the smaller index, and nothing in the tree
//! refers back to its parent except a table of indices kept beside the entries.
//!
//! The mathematical model of a tree is the sequence of its entries, each a
//! [`NodeModel`]; [`well_formed`] says which sequences are trees.
use vstd::prelude::*;
use crate::kind::SyntaxKind;
use crate::text::{is_quoted, quoted, TextRange};

verus! {

/// The slot of an element or a fragment that holds its child list.
pub const CHILDREN_SLOT: usize = 1;

/// The slot of an opening or self-closing element that holds its attribute
/// list. It follows the slots of `<`, the name and the type arguments.
pub const ATTRIBUTES_SLOT: usize = 3;

/// One entry of the tree, as specifications see it.
pub struct NodeModel {
    pub kind: SyntaxKind,
    /// Where the entry stands in the source, trivia excluded.
    pub range: TextRange,
    /// White space and comments before a token; empty for a node.
    pub leading_trivia: Seq<char>,
    /// The text of a token without its trivia; empty for a node.
    pub text: Seq<char>,
    /// White space and comments after a token; empty for a node.
    pub trailing_trivia: Seq<char>,
    /// The children of a node by slot; empty for a token.
    pub slots: Seq<Option<usize>>,
    /// The node that has this entry in one of its slots, if any.
    pub parent: Option<usize>,
}

/// The entry `child` stands in slot `slot` of the entry `parent`, and in no other slot of it.
pub open spec fn is_child_at(nodes: Seq<NodeModel>, parent: int, slot: int, child: int) -> bool {
    &&& 0 <= slot < nodes[parent].slots.len()
    &&& nodes[parent].slots[slot] == Some(child as usize)
    &&& forall|other: int|
        0 <= other < nodes[parent].slots.len() && other != slot ==> nodes[parent].slots[other]
            != Some(child as usize)
}

/// What the kind of a node demands of its slots: a list holds nothing but
/// entries of its item kind, and an element always has its list.
pub open spec fn has_shape(nodes: Seq<NodeModel>, kind: SyntaxKind, slots: Seq<Option<usize>>) -> bool {
    match kind {
        SyntaxKind::JsxAttributeList => forall|s: int|
            0 <= s < slots.len() ==> (#[trigger] slots[s] matches Some(c) && nodes[c as int].kind.is_attribute()),
        SyntaxKind::JsxChildList => forall|s: int|
            0 <= s < slots.len() ==> (#[trigger] slots[s] matches Some(c) && nodes[c as int].kind.is_child()),
        SyntaxKind::JsxOpeningElement | SyntaxKind::JsxSelfClosingElement => {
            &&& ATTRIBUTES_SLOT < slots.len()
            &&& slots[ATTRIBUTES_SLOT as int] matches Some(c)
            &&& nodes[c as int].kind == SyntaxKind::JsxAttributeList
        },
        SyntaxKind::JsxElement | SyntaxKind::JsxFragment => {
            &&& CHILDREN_SLOT < slots.len()
            &&& slots[CHILDREN_SLOT as int] matches Some(c)
            &&& nodes[c as int].kind == SyntaxKind::JsxChildList
        },
        _ => true,
    }
}

/// The entry at `index` fits into the tree around it.
pub open spec fn entry_ok(nodes: Seq<NodeModel>, index: int) -> bool {
    let entry = nodes[index];
    &&& entry.slots.len() <= usize::MAX
    &&& entry.kind.is_token() ==> entry.slots.len() == 0
    &&& entry.kind.is_string_literal() ==> is_quoted(entry.text)
    &&& forall|s: int|
        0 <= s < entry.slots.len() ==> (#[trigger] entry.slots[s] matches Some(c) ==> {
            &&& c < index
            &&& nodes[c as int].parent == Some(index as usize)
            &&& is_child_at(nodes, index, s, c as int)
        })
    &&& entry.parent matches Some(p) ==> {
        &&& index < p < nodes.len()
        &&& exists|s: int| is_child_at(nodes, p as int, s, index)
    }
    &&& has_shape(nodes, entry.kind, entry.slots)
}

/// The sequences of entries that are trees: children come before their
/// parent, every entry has at most one parent and stands in one slot of it,
/// tokens have no children, string literals are quoted, lists and elements
/// have the shape that [`has_shape`] describes, and no node has more slots
/// than can be counted.
pub open spec fn well_formed(nodes: Seq<NodeModel>) -> bool {
    forall|i: int| 0 <= i < nodes.len() ==> #[trigger] entry_ok(nodes, i)
}

/// Whether a token of kind `kind` may carry the text `text`.
pub open spec fn token_accepted(kind: SyntaxKind, text: Seq<char>) -> bool {
    &&& kind.is_token()
    &&& kind.is_string_literal() ==> is_quoted(text)
}

/// Whether a node of kind `kind` over the children `slots` may be added to `nodes`:
/// every child is an entry that has no parent yet, no child is named twice, and
/// the slots have the shape the kind demands. (That the slots can be counted
/// holds of every vector.)
pub open spec fn node_accepted(nodes: Seq<NodeModel>, kind: SyntaxKind, slots: Seq<Option<usize>>) -> bool {
    &&& !kind.is_token()
    &&& slots.len() <= usize::MAX
    &&& forall|s: int|
        0 <= s < slots.len() ==> (#[trigger] slots[s] matches Some(c) ==> {
            &&& c < nodes.len()
            &&& nodes[c as int].parent is None
            &&& forall|t: int| 0 <= t < slots.len() && t != s ==> slots[t] != Some(c)
        })
    &&& has_shape(nodes, kind, slots)
}

/// The entries `nodes` after the entries named in `slots` got `parent` as their parent.
pub open spec fn adopted(nodes: Seq<NodeModel>, slots: Seq<Option<usize>>, parent: usize) -> Seq<NodeModel> {
    Seq::new(
        nodes.len(),
        |i: int|
            if slots.contains(Some(i as usize)) {
                NodeModel { parent: Some(parent), ..nodes[i] }
            } else {
                nodes[i]
            },
    )
}

/// The model of a token that has just been added.
pub open spec fn new_token(
    kind: SyntaxKind,
    leading_trivia: Seq<char>,
    text: Seq<char>,
    trailing_trivia: Seq<char>,
    range: TextRange,
) -> NodeModel {
    NodeModel { kind, range, leading_trivia, text, trailing_trivia, slots: Seq::empty(), parent: None }
}

/// The model of a node that has just been added.
pub open spec fn new_node(kind: SyntaxKind, slots: Seq<Option<usize>>, range: TextRange) -> NodeModel {
    NodeModel {
        kind,
        range,
        leading_trivia: Seq::empty(),
        text: Seq::empty(),
        trailing_trivia: Seq::empty(),
        slots,
        parent: None,
    }
}

/// What the arena stores for one entry.
#[derive(Debug)]
pub(crate) struct NodeData {
    pub(crate) kind: SyntaxKind,
    pub(crate) range: TextRange,
    pub(crate) leading_trivia: String,
    pub(crate) text: String,
    pub(crate) trailing_trivia: String,
    pub(crate) slots: Vec<Option<usize>>,
}

/// The model of the arena: entry `i` is made of `nodes[i]` and `parents[i]`.
pub(crate) open spec fn model_of(nodes: Seq<NodeData>, parents: Seq<Option<usize>>) -> Seq<NodeModel> {
    Seq::new(
        nodes.len(),
        |i: int|
            NodeModel {
                kind: nodes[i].kind,
                range: nodes[i].range,
                leading_trivia: nodes[i].leading_trivia@,
                text: nodes[i].text@,
                trailing_trivia: nodes[i].trailing_trivia@,
                slots: nodes[i].slots@,
                parent: parents[i],
            },
    )
}

/// Builds a tree bottom-up: tokens and nodes are added one at a time, a node
/// after all of its children.
#[derive(Debug)]
pub struct TreeBuilder {
    pub(crate) nodes: Vec<NodeData>,
    pub(crate) parents: Vec<Option<usize>>,
}

impl View for TreeBuilder {
    type V = Seq<NodeModel>;

    open(crate) spec fn view(&self) -> Seq<NodeModel> {
        model_of(self.nodes@, self.parents@)
    }
}

impl TreeBuilder {
    /// The entries added so far form a tree.
    #[verifier::type_invariant]
    pub open(crate) spec fn wf(&self) -> bool {
        &&& self.nodes.len() == self.parents.len()
        &&& well_formed(self@)
    }

    /// A builder with no entries.
    pub fn new() -> (r: TreeBuilder)
        ensures
            r.wf(),
            r@.len() == 0,
    {
        TreeBuilder { nodes: Vec::new(), parents: Vec::new() }
    }

    /// The number of entries added so far, which is the index the next one gets.
    pub fn len(&self) -> (r: usize)
        ensures
            r == self@.len(),
    {
        proof {
            use_type_invariant(self);
        }
        self.nodes.len()
    }

    /// Adds a token and returns its index, or adds nothing where `kind` is not
    /// the kind of a token or a string literal comes without its quotes.
    pub fn token(
        &mut self,
        kind: SyntaxKind,
        leading_trivia: &str,
        text: &str,
        trailing_trivia: &str,
        range: TextRange,
    ) -> (r: Option<usize>)
        ensures
            final(self).wf(),
            r is Some <==> token_accepted(kind, text@),
            match r {
                Some(index) => {
                    &&& index == old(self)@.len()
                    &&& final(self)@ == old(self)@.push(
                        new_token(kind, leading_trivia@, text@, trailing_trivia@, range),
                    )
                },
                None => final(self)@ == old(self)@,
            },
    {
        proof {
            use_type_invariant(&*self);
        }
        if !kind.is_token() {
            return None;
        }
        if kind.is_string_literal() && !quoted(text) {
            return None;
        }
        let index: usize = self.nodes.len();
        let data = NodeData {
            kind,
            range,
            leading_trivia: leading_trivia.to_owned(),
            text: text.to_owned(),
            trailing_trivia: trailing_trivia.to_owned(),
            slots: Vec::new(),
        };
        let mut taken = TreeBuilder::new();
        core::mem::swap(self, &mut taken);
        let TreeBuilder { mut nodes, mut parents } = taken;
        push_token(&mut nodes, &mut parents, data);
        *self = TreeBuilder { nodes, parents };
        Some(index)
    }

    /// Whether every child named in `slots` is an entry without a parent, named once.
    fn children_free(&self, slots: &Vec<Option<usize>>) -> (r: bool)
        ensures
            r == forall|s: int|
                0 <= s < slots@.len() ==> (#[trigger] slots@[s] matches Some(c) ==> {
                    &&& c < self@.len()
                    &&& self@[c as int].parent is None
                    &&& forall|t: int| 0 <= t < slots@.len() && t != s ==> slots@[t] != Some(c)
                }),
    {
        proof {
            use_type_invariant(self);
        }
        let n: usize = slots.len();
        let mut s: usize = 0;
        while s < n
            invariant
                self.wf(),
                n == slots@.len(),
                s <= n,
                forall|k: int|
                    0 <= k < s ==> (#[trigger] slots@[k] matches Some(c) ==> {
                        &&& c < self@.len()
                        &&& self@[c as int].parent is None
                        &&& forall|t: int| 0 <= t < slots@.len() && t != k ==> slots@[t] != Some(c)
                    }),
            decreases n - s,
        {
            if let Some(c) = slots[s] {
                if c >= self.nodes.len() {
                    return false;
                }
                if self.parents[c].is_some() {
                    return false;
                }
                let mut t: usize = 0;
                while t < n
                    invariant
                        n == slots@.len(),
                        s < n,
                        t <= n,
                        slots@[s as int] == Some(c),
                        forall|u: int| 0 <= u < t && u != s ==> slots@[u] != Some(c),
                    decreases n - t,
                {
                    if t != s {
                        if let Some(d) = slots[t] {
                            if d == c {
                                return false;
                            }
                        }
                    }
                    t += 1;
                }
            }
            s += 1;
        }
        true
    }

    /// Whether every slot holds an entry of an item kind: that of an attribute
    /// where `attributes` is set, that of a child otherwise.
    fn holds_items(&self, slots: &Vec<Option<usize>>, attributes: bool) -> (r: bool)
        requires
            forall|s: int| 0 <= s < slots@.len() ==> (#[trigger] slots@[s] matches Some(c) ==> c < self@.len()),
        ensures
            r == forall|s: int|
                0 <= s < slots@.len() ==> (#[trigger] slots@[s] matches Some(c) && if attributes {
                    self@[c as int].kind.is_attribute()
                } else {
                    self@[c as int].kind.is_child()
                }),
    {
        proof {
            use_type_invariant(self);
        }
        let n: usize = slots.len();
        let mut s: usize = 0;
        while s < n
            invariant
                self.wf(),
                n == slots@.len(),
                s <= n,
                forall|k: int| 0 <= k < slots@.len() ==> (#[trigger] slots@[k] matches Some(c) ==> c < self@.len()),
                forall|k: int|
                    0 <= k < s ==> (#[trigger] slots@[k] matches Some(c) && if attributes {
                        self@[c as int].kind.is_attribute()
                    } else {
                        self@[c as int].kind.is_child()
                    }),
            decreases n - s,
        {
            match slots[s] {
                None => {
                    return false;
                },
                Some(c) => {
                    let kind: SyntaxKind = self.nodes[c].kind;
                    let fits: bool = if attributes {
                        kind.is_attribute()
                    } else {
                        kind.is_child()
                    };
                    if !fits {
                        return false;
                    }
                },
            }
            s += 1;
        }
        true
    }

    /// Whether slot `slot` holds an entry of kind `expected`.
    fn holds_kind(&self, slots: &Vec<Option<usize>>, slot: usize, expected: SyntaxKind) -> (r: bool)
        requires
            forall|s: int| 0 <= s < slots@.len() ==> (#[trigger] slots@[s] matches Some(c) ==> c < self@.len()),
        ensures
            r == {
                &&& slot < slots@.len()
                &&& slots@[slot as int] matches Some(c)
                &&& self@[c as int].kind == expected
            },
    {
        proof {
            use_type_invariant(self);
        }
        if slot < slots.len() {
            match slots[slot] {
                Some(c) => self.nodes[c].kind == expected,
                None => false,
            }
        } else {
            false
        }
    }

    /// Whether `slots` has the shape that a node of kind `kind` must have.
    fn shape_matches(&self, kind: SyntaxKind, slots: &Vec<Option<usize>>) -> (r: bool)
        requires
            forall|s: int| 0 <= s < slots@.len() ==> (#[trigger] slots@[s] matches Some(c) ==> c < self@.len()),
        ensures
            r == has_shape(self@, kind, slots@),
    {
        proof {
            use_type_invariant(self);
        }
        match kind {
            SyntaxKind::JsxAttributeList => self.holds_items(slots, true),
            SyntaxKind::JsxChildList => self.holds_items(slots, false),
            SyntaxKind::JsxOpeningElement | SyntaxKind::JsxSelfClosingElement => self.holds_kind(
                slots,
                ATTRIBUTES_SLOT,
                SyntaxKind::JsxAttributeList,
            ),
            SyntaxKind::JsxElement | SyntaxKind::JsxFragment => self.holds_kind(
                slots,
                CHILDREN_SLOT,
                SyntaxKind::JsxChildList,
            ),
            _ => true,
        }
    }

    /// Adds a node over the children `slots` and returns its index, or adds
    /// nothing where [`node_accepted`] does not hold. The children get the new
    /// node as their parent.
    pub fn node(&mut self, kind: SyntaxKind, slots: Vec<Option<usize>>, range: TextRange) -> (r: Option<usize>)
        ensures
            final(self).wf(),
            r is Some <==> node_accepted(old(self)@, kind, slots@),
            match r {
                Some(index) => {
                    &&& index == old(self)@.len()
                    &&& final(self)@ == adopted(old(self)@, slots@, index).push(new_node(kind, slots@, range))
                },
                None => final(self)@ == old(self)@,
            },
    {
        proof {
            use_type_invariant(&*self);
        }
        if kind.is_token() {
            return None;
        }
        assert(slots@.len() <= usize::MAX) by {
            assert(slots.len() == slots@.len());
        }
        if !self.children_free(&slots) {
            return None;
        }
        if !self.shape_matches(kind, &slots) {
            return None;
        }
        let index: usize = self.nodes.len();
        let mut taken = TreeBuilder::new();
        core::mem::swap(self, &mut taken);
        let TreeBuilder { mut nodes, mut parents } = taken;
        push_node(&mut nodes, &mut parents, kind, slots, range);
        *self = TreeBuilder { nodes, parents };
        Some(index)
    }
}

/// Enters an accepted token into the arena.
fn push_token(nodes: &mut Vec<NodeData>, parents: &mut Vec<Option<usize>>, data: NodeData)
    requires
        old(nodes).len() == old(parents).len(),
        well_formed(model_of(old(nodes)@, old(parents)@)),
        token_accepted(data.kind, data.text@),
        data.slots@.len() == 0,
    ensures
        final(nodes).len() == final(parents).len(),
        well_formed(model_of(final(nodes)@, final(parents)@)),
        model_of(final(nodes)@, final(parents)@) == model_of(old(nodes)@, old(parents)@).push(
            new_token(data.kind, data.leading_trivia@, data.text@, data.trailing_trivia@, data.range),
        ),
{
    let ghost before = model_of(nodes@, parents@);
    nodes.push(data);
    parents.push(None);
    proof {
        let after = model_of(nodes@, parents@);
        assert(data.slots@ =~= Seq::empty());
        assert(after =~= before.push(
            new_token(data.kind, data.leading_trivia@, data.text@, data.trailing_trivia@, data.range),
        ));
        assert forall|i: int| 0 <= i < after.len() implies #[trigger] entry_ok(after, i) by {
            if i < before.len() {
                assert(entry_ok(before, i));
                assert(after[i] == before[i]);
                let entry = before[i];
                assert forall|s: int| 0 <= s < entry.slots.len() implies (#[trigger] entry.slots[s] matches Some(
                    c,
                ) ==> {
                    &&& c < i
                    &&& after[c as int].parent == Some(i as usize)
                    &&& is_child_at(after, i, s, c as int)
                }) by {
                    if let Some(c) = entry.slots[s] {
                        assert(is_child_at(before, i, s, c as int));
                    }
                }
                if let Some(p) = entry.parent {
                    let s = choose|s: int| is_child_at(before, p as int, s, i);
                    assert(is_child_at(after, p as int, s, i));
                }
                lemma_shape_transfer(before, after, entry.kind, entry.slots);
            }
        }
    }
}

/// Enters an accepted node into the arena and makes it the parent of its children.
fn push_node(
    nodes: &mut Vec<NodeData>,
    parents: &mut Vec<Option<usize>>,
    kind: SyntaxKind,
    slots: Vec<Option<usize>>,
    range: TextRange,
)
    requires
        old(nodes).len() == old(parents).len(),
        well_formed(model_of(old(nodes)@, old(parents)@)),
        node_accepted(model_of(old(nodes)@, old(parents)@), kind, slots@),
    ensures
        final(nodes).len() == final(parents).len(),
        well_formed(model_of(final(nodes)@, final(parents)@)),
        model_of(final(nodes)@, final(parents)@) == adopted(
            model_of(old(nodes)@, old(parents)@),
            slots@,
            old(nodes).len(),
        ).push(new_node(kind, slots@, range)),
{
    let ghost before = model_of(nodes@, parents@);
    let ghost old_parents = parents@;
    let index: usize = nodes.len();
    let n: usize = slots.len();
    let mut s: usize = 0;
    while s < n
        invariant
            n == slots@.len(),
            s <= n,
            index == nodes.len(),
            parents.len() == old_parents.len(),
            nodes.len() == parents.len(),
            before == model_of(nodes@, old_parents),
            node_accepted(before, kind, slots@),
            forall|i: int|
                0 <= i < parents.len() ==> #[trigger] parents[i] == if slots@.subrange(0, s as int).contains(
                    Some(i as usize),
                ) {
                    Some(index)
                } else {
                    old_parents[i]
                },
        decreases n - s,
    {
        if let Some(c) = slots[s] {
            parents.set(c, Some(index));
        }
        proof {
            assert forall|i: int| 0 <= i < parents.len() implies #[trigger] parents[i] == if slots@.subrange(
                0,
                s + 1,
            ).contains(Some(i as usize)) {
                Some(index)
            } else {
                old_parents[i]
            } by {
                lemma_contains_step(slots@, s as int, Some(i as usize));
            }
        }
        s += 1;
    }
    let ghost children = slots@;
    let data = NodeData {
        kind,
        range,
        leading_trivia: String::new(),
        text: String::new(),
        trailing_trivia: String::new(),
        slots,
    };
    nodes.push(data);
    parents.push(None);
    proof {
        let after = model_of(nodes@, parents@);
        assert(children.subrange(0, n as int) =~= children);
        assert(after =~= adopted(before, children, index).push(new_node(kind, children, range)));
        assert forall|i: int| 0 <= i < after.len() implies #[trigger] entry_ok(after, i) by {
            if i < index {
                lemma_old_entry_after_adoption(before, after, kind, children, range, index, i);
            } else {
                lemma_new_entry_after_adoption(before, after, kind, children, range, index);
            }
        }
    }
}

/// A value occurs among the first `n + 1` items exactly when it occurs among
/// the first `n` or is the item at `n`.
pub(crate) proof fn lemma_contains_step<T>(items: Seq<T>, n: int, value: T)
    requires
        0 <= n < items.len(),
    ensures
        items.subrange(0, n + 1).contains(value) <==> items.subrange(0, n).contains(value) || items[n] == value,
{
    let done = items.subrange(0, n);
    let next = items.subrange(0, n + 1);
    if done.contains(value) {
        let k = choose|k: int| 0 <= k < done.len() && done[k] == value;
        assert(next[k] == value);
    }
    if items[n] == value {
        assert(next[n] == value);
    }
    if next.contains(value) {
        let k = choose|k: int| 0 <= k < next.len() && next[k] == value;
        if k < n {
            assert(done[k] == value);
        }
    }
}

/// The shape of a node looks only at the kinds of its children: where two
/// trees agree on those, they agree on the shape.
pub(crate) proof fn lemma_shape_transfer(
    before: Seq<NodeModel>,
    after: Seq<NodeModel>,
    kind: SyntaxKind,
    slots: Seq<Option<usize>>,
)
    requires
        has_shape(before, kind, slots),
        forall|s: int|
            0 <= s < slots.len() ==> (#[trigger] slots[s] matches Some(c) ==> after[c as int].kind
                == before[c as int].kind),
    ensures
        has_shape(after, kind, slots),
{
    if kind == SyntaxKind::JsxAttributeList || kind == SyntaxKind::JsxChildList {
        assert forall|s: int| 0 <= s < slots.len() implies (#[trigger] slots[s]) is Some by {}
    }
}

/// Adding an accepted node to a tree leaves every entry that was there in order.
pub(crate) proof fn lemma_old_entry_after_adoption(
    before: Seq<NodeModel>,
    after: Seq<NodeModel>,
    kind: SyntaxKind,
    slots: Seq<Option<usize>>,
    range: TextRange,
    index: usize,
    i: int,
)
    requires
        well_formed(before),
        node_accepted(before, kind, slots),
        index == before.len(),
        after == adopted(before, slots, index).push(new_node(kind, slots, range)),
        0 <= i < index,
    ensures
        entry_ok(after, i),
{
    assert(entry_ok(before, i));
    let entry = after[i];
    assert(entry.kind == before[i].kind);
    assert(entry.slots == before[i].slots);
    assert(entry.text == before[i].text);
    assert forall|s: int| 0 <= s < entry.slots.len() implies (#[trigger] entry.slots[s] matches Some(c) ==> {
        &&& c < i
        &&& after[c as int].parent == Some(i as usize)
        &&& is_child_at(after, i, s, c as int)
    }) by {
        if let Some(c) = entry.slots[s] {
            assert(is_child_at(before, i, s, c as int));
            if slots.contains(Some(c)) {
                let k = choose|k: int| 0 <= k < slots.len() && slots[k] == Some(c);
                assert(before[c as int].parent is None);
            }
        }
    }
    assert(entry.parent matches Some(p) ==> {
        &&& i < p < after.len()
        &&& exists|s: int| is_child_at(after, p as int, s, i)
    }) by {
        if slots.contains(Some(i as usize)) {
            let k = choose|k: int| 0 <= k < slots.len() && slots[k] == Some(i as usize);
            assert(is_child_at(after, index as int, k, i));
        } else if let Some(p) = before[i].parent {
            let s = choose|s: int| is_child_at(before, p as int, s, i);
            assert(is_child_at(after, p as int, s, i));
        }
    }
    assert(has_shape(after, entry.kind, entry.slots)) by {
        lemma_shape_transfer(before, after, entry.kind, entry.slots);
    }
}

/// An accepted node, once added with its children adopted, is in order itself.
pub(crate) proof fn lemma_new_entry_after_adoption(
    before: Seq<NodeModel>,
    after: Seq<NodeModel>,
    kind: SyntaxKind,
    slots: Seq<Option<usize>>,
    range: TextRange,
    index: usize,
)
    requires
        well_formed(before),
        node_accepted(before, kind, slots),
        index == before.len(),
        after == adopted(before, slots, index).push(new_node(kind, slots, range)),
    ensures
        entry_ok(after, index as int),
{
    let entry = after[index as int];
    assert(entry == new_node(kind, slots, range));
    assert forall|s: int| 0 <= s < slots.len() implies (#[trigger] slots[s] matches Some(c) ==> {
        &&& c < index
        &&& after[c as int].parent == Some(index)
        &&& is_child_at(after, index as int, s, c as int)
    }) by {
        if let Some(c) = slots[s] {
            assert(slots.contains(Some(c)));
        }
    }
    assert(has_shape(after, kind, slots)) by {
        lemma_shape_transfer(before, after, kind, slots);
    }
}

} // verus!
