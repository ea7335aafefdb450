//! View nodes: immutable descriptions of a piece of user interface.
//!
//! A node is text, an element with attributes and ordered children, or a
//! keyed node, whose key is its identity among its siblings from one render
//! to the next. An event binding holds the message it yields when it fires,
//! so a tree is plain data: two renders can be compared node by node.

use vstd::prelude::*;

verus! {

/// The mathematical value of an attribute or event binding.
pub enum AttrSpec<M> {
    Class(Seq<char>),
    OnClick(M),
}

/// The mathematical value of a view node.
pub enum NodeSpec<M> {
    Text(Seq<char>),
    Element { tag: Seq<char>, attrs: Seq<AttrSpec<M>>, children: Seq<NodeSpec<M>> },
    Keyed { key: nat, node: Box<NodeSpec<M>> },
}

/// A named attribute of an element, or an event binding.
#[derive(Debug, PartialEq, Eq)]
pub enum Attr<M> {
    /// A class marker.
    Class(String),
    /// A click subscription: when it fires, it yields the message it holds.
    OnClick(M),
}

impl<M: View> View for Attr<M> {
    type V = AttrSpec<M::V>;

    open spec fn view(&self) -> AttrSpec<M::V> {
        match self {
            Attr::Class(name) => AttrSpec::Class(name@),
            Attr::OnClick(msg) => AttrSpec::OnClick(msg@),
        }
    }
}

/// A view node.
#[derive(Debug, PartialEq, Eq)]
pub enum Node<M> {
    /// A run of text.
    Text(String),
    /// An element: its tag, its attributes and its children in mounted order.
    Element { tag: String, attrs: Vec<Attr<M>>, children: Vec<Node<M>> },
    /// A node with an identity among its siblings.
    Keyed { key: usize, node: Box<Node<M>> },
}

impl<M: View> View for Node<M> {
    type V = NodeSpec<M::V>;

    open spec fn view(&self) -> NodeSpec<M::V> {
        node_view(*self)
    }
}

/// The value of a node: the values of its parts, child by child.
pub open spec fn node_view<M: View>(node: Node<M>) -> NodeSpec<M::V>
    decreases node,
{
    match node {
        Node::Text(s) => NodeSpec::Text(s@),
        Node::Element { tag, attrs, children } => NodeSpec::Element {
            tag: tag@,
            attrs: attrs_view(attrs@),
            children: Seq::new(
                children@.len(),
                |i: int|
                    if 0 <= i < children@.len() {
                        node_view(children@[i])
                    } else {
                        NodeSpec::Text(Seq::empty())
                    },
            ),
        },
        Node::Keyed { key, node } => NodeSpec::Keyed {
            key: key as nat,
            node: Box::new(node_view(*node)),
        },
    }
}

/// The values of a sequence of attributes, in order.
pub open spec fn attrs_view<M: View>(attrs: Seq<Attr<M>>) -> Seq<AttrSpec<M::V>> {
    Seq::new(attrs.len(), |i: int| attrs[i]@)
}

/// The values of a sequence of nodes, in order.
pub open spec fn nodes_view<M: View>(nodes: Seq<Node<M>>) -> Seq<NodeSpec<M::V>> {
    Seq::new(nodes.len(), |i: int| nodes[i]@)
}

/// The value of an element is made of the values of its parts.
pub proof fn lemma_element_view<M: View>(node: Node<M>)
    requires
        node is Element,
    ensures
        node@ == (NodeSpec::Element {
            tag: node->tag@,
            attrs: attrs_view(node->attrs@),
            children: nodes_view(node->children@),
        }),
{
    assert(node@->children =~= nodes_view(node->children@));
}

/// The capability of a bundle of attributes: to say which attributes and
/// event bindings it puts on its element.
pub trait Attributes<M: View>: Sized {
    /// The attributes this bundle contributes, in order.
    spec fn attrs(&self) -> Seq<AttrSpec<M::V>>;

    /// Hands the attributes over.
    fn into_attrs(self) -> (out: Vec<Attr<M>>)
        ensures
            attrs_view(out@) == self.attrs(),
    ;
}

/// No attribute.
impl<M: View> Attributes<M> for () {
    open spec fn attrs(&self) -> Seq<AttrSpec<M::V>> {
        Seq::empty()
    }

    fn into_attrs(self) -> (out: Vec<Attr<M>>) {
        let out: Vec<Attr<M>> = Vec::new();
        assert(attrs_view(out@) =~= Seq::<AttrSpec<M::V>>::empty());
        out
    }
}

/// One attribute.
impl<M: View> Attributes<M> for Attr<M> {
    open spec fn attrs(&self) -> Seq<AttrSpec<M::V>> {
        seq![self@]
    }

    fn into_attrs(self) -> (out: Vec<Attr<M>>) {
        let mut out = Vec::new();
        out.push(self);
        assert(attrs_view(out@) =~= seq![self@]);
        out
    }
}

/// A bundle that may be absent: an absent one contributes nothing.
impl<M: View, A: Attributes<M>> Attributes<M> for Option<A> {
    open spec fn attrs(&self) -> Seq<AttrSpec<M::V>> {
        match self {
            Some(bundle) => bundle.attrs(),
            None => Seq::empty(),
        }
    }

    fn into_attrs(self) -> (out: Vec<Attr<M>>) {
        match self {
            Some(bundle) => bundle.into_attrs(),
            None => {
                let out: Vec<Attr<M>> = Vec::new();
                assert(attrs_view(out@) =~= Seq::<AttrSpec<M::V>>::empty());
                out
            },
        }
    }
}

/// Two bundles, one after the other.
impl<M: View, A: Attributes<M>, B: Attributes<M>> Attributes<M> for (A, B) {
    open spec fn attrs(&self) -> Seq<AttrSpec<M::V>> {
        self.0.attrs() + self.1.attrs()
    }

    fn into_attrs(self) -> (out: Vec<Attr<M>>) {
        let mut out = self.0.into_attrs();
        let mut rest = self.1.into_attrs();
        let ghost head = out@;
        let ghost tail = rest@;
        out.append(&mut rest);
        assert(attrs_view(out@) =~= attrs_view(head) + attrs_view(tail));
        out
    }
}

/// A collection of attributes.
impl<M: View> Attributes<M> for Vec<Attr<M>> {
    open spec fn attrs(&self) -> Seq<AttrSpec<M::V>> {
        attrs_view(self@)
    }

    fn into_attrs(self) -> (out: Vec<Attr<M>>) {
        self
    }
}

/// The capability of a view: to say which nodes it puts under its parent.
pub trait Render<M: View>: Sized {
    /// The nodes this view contributes, in mounted order.
    spec fn nodes(&self) -> Seq<NodeSpec<M::V>>;

    /// Hands the nodes over.
    fn render(self) -> (out: Vec<Node<M>>)
        ensures
            nodes_view(out@) == self.nodes(),
    ;
}

/// No content.
impl<M: View> Render<M> for () {
    open spec fn nodes(&self) -> Seq<NodeSpec<M::V>> {
        Seq::empty()
    }

    fn render(self) -> (out: Vec<Node<M>>) {
        let out: Vec<Node<M>> = Vec::new();
        assert(nodes_view(out@) =~= Seq::<NodeSpec<M::V>>::empty());
        out
    }
}

/// A single node.
impl<M: View> Render<M> for Node<M> {
    open spec fn nodes(&self) -> Seq<NodeSpec<M::V>> {
        seq![self@]
    }

    fn render(self) -> (out: Vec<Node<M>>) {
        let mut out = Vec::new();
        out.push(self);
        assert(nodes_view(out@) =~= seq![self@]);
        out
    }
}

/// A sequence of nodes.
impl<M: View> Render<M> for Vec<Node<M>> {
    open spec fn nodes(&self) -> Seq<NodeSpec<M::V>> {
        nodes_view(self@)
    }

    fn render(self) -> (out: Vec<Node<M>>) {
        self
    }
}

/// Two views of any types, one after the other.
impl<M: View, A: Render<M>, B: Render<M>> Render<M> for (A, B) {
    open spec fn nodes(&self) -> Seq<NodeSpec<M::V>> {
        self.0.nodes() + self.1.nodes()
    }

    fn render(self) -> (out: Vec<Node<M>>) {
        let mut out = self.0.render();
        let mut rest = self.1.render();
        let ghost head = out@;
        let ghost tail = rest@;
        out.append(&mut rest);
        assert(nodes_view(out@) =~= nodes_view(head) + nodes_view(tail));
        out
    }
}

/// A string is a text node.
impl<M: View> Render<M> for String {
    open spec fn nodes(&self) -> Seq<NodeSpec<M::V>> {
        seq![NodeSpec::Text(self@)]
    }

    fn render(self) -> (out: Vec<Node<M>>) {
        let mut out = Vec::new();
        out.push(Node::Text(self));
        assert(nodes_view(out@) =~= seq![NodeSpec::<M::V>::Text(self@)]);
        out
    }
}

/// A string slice is a text node.
impl<'a, M: View> Render<M> for &'a str {
    open spec fn nodes(&self) -> Seq<NodeSpec<M::V>> {
        seq![NodeSpec::Text(self@)]
    }

    fn render(self) -> (out: Vec<Node<M>>) {
        let mut out = Vec::new();
        out.push(Node::Text(String::from_str(self)));
        assert(nodes_view(out@) =~= seq![NodeSpec::<M::V>::Text(self@)]);
        out
    }
}

/// The nodes of a keyed sequence: each entry's node under its key.
pub open spec fn keyed_view<M: View>(entries: Seq<(usize, Node<M>)>) -> Seq<NodeSpec<M::V>> {
    Seq::new(
        entries.len(),
        |i: int| NodeSpec::Keyed { key: entries[i].0 as nat, node: Box::new(entries[i].1@) },
    )
}

/// A keyed sequence: each node has its key as its identity among its
/// siblings.
impl<M: View> Render<M> for Vec<(usize, Node<M>)> {
    open spec fn nodes(&self) -> Seq<NodeSpec<M::V>> {
        keyed_view(self@)
    }

    fn render(self) -> (out: Vec<Node<M>>) {
        let ghost entries = self@;
        let mut out: Vec<Node<M>> = Vec::new();
        for entry in it: self
            invariant
                it.seq() == entries,
                out@.len() == it.index(),
                forall|i: int|
                    0 <= i < out@.len() ==> (#[trigger] out@[i])@ == keyed_view(entries)[i],
        {
            let (key, node) = entry;
            out.push(Node::Keyed { key, node: Box::new(node) });
        }
        assert(nodes_view(out@) =~= keyed_view(entries));
        out
    }
}

/// A text node.
pub fn text<M: View>(s: &str) -> (n: Node<M>)
    ensures
        n@ == NodeSpec::<M::V>::Text(s@),
{
    Node::Text(String::from_str(s))
}

/// A class marker.
pub fn class<M: View>(name: &str) -> (a: Attr<M>)
    ensures
        a@ == AttrSpec::<M::V>::Class(name@),
{
    Attr::Class(String::from_str(name))
}

/// A click binding that yields `msg`.
pub fn on_click<M: View>(msg: M) -> (a: Attr<M>)
    ensures
        a@ == AttrSpec::OnClick(msg@),
{
    Attr::OnClick(msg)
}

/// An element with the given tag, the attributes of `attrs` and, as its
/// children, the nodes of `content`.
pub fn element<M: View, A: Attributes<M>, C: Render<M>>(tag: &str, attrs: A, content: C) -> (n:
    Node<M>)
    ensures
        n@ == (NodeSpec::Element { tag: tag@, attrs: attrs.attrs(), children: content.nodes() }),
{
    let attrs = attrs.into_attrs();
    let children = content.render();
    let n = Node::Element { tag: String::from_str(tag), attrs, children };
    proof {
        lemma_element_view(n);
    }
    n
}

} // verus!
