//! A view whose static type has been erased, for places where the set of
//! alternatives is open and a fixed choice between view types does not fit.

use vstd::prelude::*;
use crate::node::Node;
use crate::node::NodeSpec;
use crate::node::Render;
use crate::node::nodes_view;

verus! {

/// A view of any type, held on the heap as the nodes it contributes.
#[derive(Debug, PartialEq, Eq)]
pub struct AnyView<M> {
    held: Vec<Node<M>>,
}

impl<M: View> AnyView<M> {
    /// Erases the type of `view`.
    pub fn new<V: Render<M>>(view: V) -> (any: Self)
        ensures
            any.nodes() == view.nodes(),
    {
        AnyView { held: view.render() }
    }
}

impl<M: View> Render<M> for AnyView<M> {
    closed spec fn nodes(&self) -> Seq<NodeSpec<M::V>> {
        nodes_view(self.held@)
    }

    fn render(self) -> (out: Vec<Node<M>>) {
        self.held
    }
}

} // verus!
