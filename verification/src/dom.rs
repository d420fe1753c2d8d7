//! The document tree that link extraction walks, and the mathematical
//! description of what the walk collects.

use vstd::prelude::*;

verus! {

/// One attribute of an element: its normalized local name and its raw value.
#[derive(Debug)]
pub struct Attribute {
    pub name: String,
    pub value: String,
}

/// What a node of the document is.
#[derive(Debug)]
pub enum NodeData {
    /// An element with its normalized local tag name and its attributes in
    /// document order.
    Element { name: String, attrs: Vec<Attribute> },
    /// Anything that is not an element: the document root, text, a comment,
    /// a doctype, a processing instruction.
    Other,
}

/// A node of the document tree with its children in document order.
#[derive(Debug)]
pub struct DomNode {
    pub data: NodeData,
    pub children: Vec<DomNode>,
}

/// Whether `data` is an element whose tag name is exactly `name`.
pub open spec fn is_named(data: NodeData, name: Seq<char>) -> bool {
    match data {
        NodeData::Element { name: tag, .. } => tag@ == name,
        NodeData::Other => false,
    }
}

/// The node's own contribution to a search by tag name: itself or nothing.
pub open spec fn own_match(node: DomNode, name: Seq<char>) -> Seq<NodeData> {
    if is_named(node.data, name) {
        seq![node.data]
    } else {
        Seq::empty()
    }
}

/// The elements named `name` in the subtree rooted at `node`, in depth-first
/// pre-order: the node itself first, then what each child's subtree holds,
/// child by child.
pub open spec fn elements_by_name(node: DomNode, name: Seq<char>) -> Seq<NodeData>
    decreases node, 1nat, 0nat,
{
    own_match(node, name) + elements_in_children(node, name, node.children@.len())
}

/// The elements named `name` in the subtrees of the first `count` children of
/// `node`, in document order.
pub open spec fn elements_in_children(node: DomNode, name: Seq<char>, count: nat) -> Seq<NodeData>
    decreases node, 0nat, count,
{
    if count == 0 || count > node.children@.len() {
        Seq::empty()
    } else {
        elements_in_children(node, name, (count - 1) as nat) + elements_by_name(
            node.children@[count - 1],
            name,
        )
    }
}

/// The values of the attributes named `href` among the first `count` of
/// `attrs`, in order.
pub open spec fn hrefs_in(attrs: Seq<Attribute>, count: nat) -> Seq<Seq<char>>
    decreases count,
{
    if count == 0 || count > attrs.len() {
        Seq::empty()
    } else if attrs[count - 1].name@ == "href"@ {
        hrefs_in(attrs, (count - 1) as nat).push(attrs[count - 1].value@)
    } else {
        hrefs_in(attrs, (count - 1) as nat)
    }
}

/// The link targets that one node carries: every `href` value of an element,
/// nothing for any other node.
pub open spec fn hrefs_of(data: NodeData) -> Seq<Seq<char>> {
    match data {
        NodeData::Element { attrs, .. } => hrefs_in(attrs@, attrs@.len()),
        NodeData::Other => Seq::empty(),
    }
}

/// Whether `data` is an anchor element.
pub open spec fn is_anchor(data: NodeData) -> bool {
    is_named(data, "a"@)
}

/// The link targets that the node itself contributes: those of an anchor,
/// nothing for any other node.
pub open spec fn own_links(node: DomNode) -> Seq<Seq<char>> {
    if is_anchor(node.data) {
        hrefs_of(node.data)
    } else {
        Seq::empty()
    }
}

/// The link set of the subtree rooted at `node`: the `href` values of its
/// anchor elements in document order, duplicates kept. An anchor's own
/// targets come first, then those of each child's subtree, child by child.
pub open spec fn links_of(node: DomNode) -> Seq<Seq<char>>
    decreases node, 1nat, 0nat,
{
    own_links(node) + links_in_children(node, node.children@.len())
}

/// The link sets of the subtrees of the first `count` children of `node`,
/// one after the other.
pub open spec fn links_in_children(node: DomNode, count: nat) -> Seq<Seq<char>>
    decreases node, 0nat, count,
{
    if count == 0 || count > node.children@.len() {
        Seq::empty()
    } else {
        links_in_children(node, (count - 1) as nat) + links_of(node.children@[count - 1])
    }
}

/// The link targets of a sequence of elements, element by element.
pub open spec fn hrefs_of_all(elements: Seq<NodeData>) -> Seq<Seq<char>>
    decreases elements.len(),
{
    if elements.len() == 0 {
        Seq::empty()
    } else {
        hrefs_of_all(elements.drop_last()) + hrefs_of(elements.last())
    }
}

/// The targets of two runs of elements, one after the other, are the targets
/// of the first followed by those of the second.
pub proof fn lemma_hrefs_of_all_concat(first: Seq<NodeData>, second: Seq<NodeData>)
    ensures
        hrefs_of_all(first + second) == hrefs_of_all(first) + hrefs_of_all(second),
    decreases second.len(),
{
    if second.len() == 0 {
        assert(first + second =~= first);
        assert(hrefs_of_all(first) + hrefs_of_all(second) =~= hrefs_of_all(first));
    } else {
        assert((first + second).drop_last() =~= first + second.drop_last());
        assert((first + second).last() == second.last());
        lemma_hrefs_of_all_concat(first, second.drop_last());
        assert(hrefs_of_all(first + second) =~= hrefs_of_all(first) + hrefs_of_all(second));
    }
}

/// Collecting the anchors of a subtree in pre-order and then reading their
/// targets gives the subtree's link set: an anchor is found wherever it
/// stands, under elements of any name and under nodes that are no elements.
pub proof fn lemma_anchor_targets_are_links(node: DomNode)
    ensures
        hrefs_of_all(elements_by_name(node, "a"@)) == links_of(node),
    decreases node, 1nat, 0nat,
{
    let own = own_match(node, "a"@);
    let below = elements_in_children(node, "a"@, node.children@.len());
    lemma_child_anchor_targets_are_links(node, node.children@.len());
    lemma_hrefs_of_all_concat(own, below);
    if is_anchor(node.data) {
        assert(own.len() == 1 && own.last() == node.data);
        assert(own.drop_last().len() == 0);
        assert(hrefs_of_all(own.drop_last()) =~= Seq::<Seq<char>>::empty());
        assert(hrefs_of_all(own) =~= hrefs_of(node.data));
    }
}

/// The same for the subtrees of the first `count` children of a node.
pub proof fn lemma_child_anchor_targets_are_links(node: DomNode, count: nat)
    ensures
        hrefs_of_all(elements_in_children(node, "a"@, count)) == links_in_children(node, count),
    decreases node, 0nat, count,
{
    if count == 0 || count > node.children@.len() {
    } else {
        let child = node.children@[count - 1];
        lemma_child_anchor_targets_are_links(node, (count - 1) as nat);
        lemma_anchor_targets_are_links(child);
        lemma_hrefs_of_all_concat(
            elements_in_children(node, "a"@, (count - 1) as nat),
            elements_by_name(child, "a"@),
        );
    }
}

/// The link sets of the first `k` children open those of the first `n`, for
/// `k` up to `n`.
pub proof fn lemma_links_in_children_grow(node: DomNode, k: nat, n: nat)
    requires
        k <= n <= node.children@.len(),
    ensures
        links_in_children(node, k).len() <= links_in_children(node, n).len(),
        links_in_children(node, n).subrange(0, links_in_children(node, k).len() as int)
            == links_in_children(node, k),
    decreases n,
{
    let shorter = links_in_children(node, k);
    if k == n {
        assert(shorter.subrange(0, shorter.len() as int) =~= shorter);
    } else {
        lemma_links_in_children_grow(node, k, (n - 1) as nat);
        let before = links_in_children(node, (n - 1) as nat);
        assert(before.subrange(0, shorter.len() as int) == shorter);
        assert(links_in_children(node, n).subrange(0, shorter.len() as int) =~= before.subrange(
            0,
            shorter.len() as int,
        ));
    }
}

/// Nesting hides no link: the link set of every child's subtree stands
/// whole and in order inside the link set of its parent, after the parent's
/// own targets and those of the children before it, whatever the parent is.
pub proof fn lemma_child_links_are_kept(node: DomNode, k: int)
    requires
        0 <= k < node.children@.len(),
    ensures
        ({
            let start = (own_links(node).len() + links_in_children(node, k as nat).len()) as int;
            let inner = links_of(node.children@[k]);
            &&& start + inner.len() <= links_of(node).len()
            &&& links_of(node).subrange(start, start + inner.len()) == inner
        }),
{
    let own = own_links(node);
    let upto = links_in_children(node, k as nat);
    let with_child = links_in_children(node, (k + 1) as nat);
    let all = links_in_children(node, node.children@.len());
    let inner = links_of(node.children@[k]);
    assert(with_child == upto + inner);
    lemma_links_in_children_grow(node, (k + 1) as nat, node.children@.len());
    assert(all.subrange(0, with_child.len() as int) == with_child);
    let from = upto.len() as int;
    let to = from + inner.len();
    assert(with_child.subrange(from, to) =~= inner);
    assert(links_of(node).subrange(own.len() + from, own.len() + to) =~= all.subrange(
        0,
        with_child.len() as int,
    ).subrange(from, to));
}

/// The plain values behind a sequence of borrowed node data.
pub open spec fn data_of(found: Seq<&NodeData>) -> Seq<NodeData> {
    found.map_values(|d: &NodeData| *d)
}

/// The character sequences behind a sequence of strings.
pub open spec fn texts_of(strings: Seq<String>) -> Seq<Seq<char>> {
    strings.map_values(|s: String| s@)
}

} // verus!
