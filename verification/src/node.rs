//! A small model of rendered markup: the tree of nodes the job-result view
//! produces. The surrounding application hands such a tree to the
//! virtual-tree render engine; this crate only builds and describes it.

use vstd::prelude::*;

verus! {

/// The kind of a rendered node. `Text` nodes carry character data and
/// nothing else; the other kinds are elements.
#[derive(Clone, Copy, PartialEq, Eq, Structural, Debug)]
pub enum Tag {
    /// A generic block element.
    Div,
    /// The header element of a view.
    Header,
    /// A section element.
    Section,
    /// A text node.
    Text,
}

/// One rendered node: an element with a style class, a visibility mark and
/// children, or a text node carrying raw character data.
#[derive(Debug)]
pub struct Node {
    /// The kind of the node.
    pub tag: Tag,
    /// The style class, empty when the node has none.
    pub class: String,
    /// True when the node is explicitly marked non-visible.
    pub hidden: bool,
    /// The raw character data of a text node, empty for elements.
    pub text: String,
    /// The child nodes, in order.
    pub children: Vec<Node>,
}

/// The mathematical value of a rendered node: every observable part of it,
/// with strings as character sequences. Two nodes with equal views render
/// byte-identically.
#[verifier::ext_equal]
pub struct NodeView {
    /// The kind of the node.
    pub tag: Tag,
    /// The style class.
    pub class: Seq<char>,
    /// True when the node is marked non-visible.
    pub hidden: bool,
    /// The raw character data of a text node.
    pub text: Seq<char>,
    /// The views of the child nodes, in order.
    pub children: Seq<NodeView>,
}

/// The view of one node.
pub open spec fn node_view(n: Node) -> NodeView
    decreases n,
{
    NodeView {
        tag: n.tag,
        class: n.class@,
        hidden: n.hidden,
        text: n.text@,
        children: nodes_view(n.children@),
    }
}

/// The views of a sequence of nodes, element by element.
pub open spec fn nodes_view(s: Seq<Node>) -> Seq<NodeView>
    decreases s,
{
    if s.len() == 0 {
        Seq::<NodeView>::empty()
    } else {
        nodes_view(s.subrange(0, s.len() - 1)).push(node_view(s[s.len() - 1]))
    }
}

impl View for Node {
    type V = NodeView;

    open spec fn view(&self) -> NodeView {
        node_view(*self)
    }
}

/// `nodes_view` maps `node_view` over the sequence: it keeps the length
/// and views each element in place.
pub proof fn lemma_nodes_view_elems(s: Seq<Node>)
    ensures
        nodes_view(s).len() == s.len(),
        forall|i: int| 0 <= i < s.len() ==> nodes_view(s)[i] == node_view(s[i]),
    decreases s.len(),
{
    if s.len() > 0 {
        let head = s.subrange(0, s.len() - 1);
        lemma_nodes_view_elems(head);
        assert forall|i: int| 0 <= i < s.len() implies nodes_view(s)[i] == node_view(s[i]) by {
            if i < s.len() - 1 {
                assert(head[i] == s[i]);
            }
        }
    }
}

/// The view of a text node with the given character data.
pub open spec fn spec_text_view(t: Seq<char>) -> NodeView {
    NodeView {
        tag: Tag::Text,
        class: Seq::<char>::empty(),
        hidden: false,
        text: t,
        children: Seq::<NodeView>::empty(),
    }
}

/// The view of an element with the given kind, class, visibility mark and
/// children.
pub open spec fn spec_elem_view(
    tag: Tag,
    class: Seq<char>,
    hidden: bool,
    children: Seq<NodeView>,
) -> NodeView {
    NodeView { tag, class, hidden, text: Seq::<char>::empty(), children }
}

/// Build a text node carrying the given raw character data. The data is
/// stored as-is; nothing interprets it as markup.
pub fn text_node(text: String) -> (r: Node)
    ensures
        r@ == spec_text_view(text@),
{
    let r = Node {
        tag: Tag::Text,
        class: String::new(),
        hidden: false,
        text,
        children: Vec::<Node>::new(),
    };
    proof {
        assert(r@ =~~= spec_text_view(r.text@));
    }
    r
}

/// Build an element with the given kind, class, visibility mark and
/// children.
pub fn elem(tag: Tag, class: String, hidden: bool, children: Vec<Node>) -> (r: Node)
    ensures
        r@ == spec_elem_view(tag, class@, hidden, nodes_view(children@)),
{
    let r = Node { tag, class, hidden, text: String::new(), children };
    proof {
        assert(r@ =~~= spec_elem_view(r.tag, r.class@, r.hidden, nodes_view(r.children@)));
    }
    r
}

} // verus!
