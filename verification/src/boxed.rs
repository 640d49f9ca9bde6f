use vstd::prelude::*;
use crate::buffer::Buffer;
use crate::node::Input;
use crate::node::Node;

verus! {

/// A wrapper owning a heap-allocated node.
///
/// The wrapper is a fixed-size handle, so nodes of differing concrete
/// sizes can be stored in one homogeneous container (such as a graph's
/// node list). Ownership of the node is exclusive: the wrapper is movable
/// but not duplicable, and dropping it releases the owned node.
pub struct BoxedNode<N: Node>(pub Box<N>);

/// A wrapper owning a heap-allocated node that may cross threads.
///
/// Identical to [`BoxedNode`] in every respect, with one additional
/// static guarantee: it can only be constructed around a node type that
/// is safe to transfer to another thread of execution (`N: Send`). This
/// lets a graph assembled on one thread be handed off wholesale to a
/// dedicated processing thread; a non-transferable node type is rejected
/// by the type system before any wrapper exists.
pub struct BoxedNodeSend<N: Node + Send>(pub Box<N>);

impl<N: Node> BoxedNode<N> {
    /// Create a new `BoxedNode` around the given `node`.
    ///
    /// This is short-hand for `BoxedNode::from(Box::new(node))`.
    pub fn new(node: N) -> (r: Self)
        ensures
            *r.0 == node,
    {
        Self::from(Box::new(node))
    }

    /// Borrow the owned node, e.g. to read its configuration.
    pub fn node(&self) -> (r: &N)
        ensures
            *r == *self.0,
    {
        &self.0
    }

    /// Borrow the owned node mutably, e.g. to update parameters outside
    /// of the processing cycle.
    pub fn node_mut(&mut self) -> (r: &mut N)
        ensures
            *r == *old(self).0,
            *final(self).0 == *final(r),
    {
        &mut self.0
    }

    /// A human-readable identification of the wrapper. The owned node's
    /// concrete type is not introspectable, so no internal state is shown.
    pub fn label(&self) -> (r: String)
        ensures
            r@ == "BoxedNode"@,
    {
        "BoxedNode".to_owned()
    }
}

impl<N: Node + Send> BoxedNodeSend<N> {
    /// Create a new `BoxedNodeSend` around the given `node`.
    ///
    /// This is short-hand for `BoxedNodeSend::from(Box::new(node))`.
    pub fn new(node: N) -> (r: Self)
        ensures
            *r.0 == node,
    {
        Self::from(Box::new(node))
    }

    /// Borrow the owned node, e.g. to read its configuration.
    pub fn node(&self) -> (r: &N)
        ensures
            *r == *self.0,
    {
        &self.0
    }

    /// Borrow the owned node mutably, e.g. to update parameters outside
    /// of the processing cycle.
    pub fn node_mut(&mut self) -> (r: &mut N)
        ensures
            *r == *old(self).0,
            *final(self).0 == *final(r),
    {
        &mut self.0
    }

    /// A human-readable identification of the wrapper. The owned node's
    /// concrete type is not introspectable, so no internal state is shown.
    pub fn label(&self) -> (r: String)
        ensures
            r@ == "BoxedNodeSend"@,
    {
        "BoxedNodeSend".to_owned()
    }
}

impl<N: Node> Node for BoxedNode<N> {
    /// Forwarding is transparent: the wrapper's processing relation is
    /// exactly the owned node's.
    open spec fn process_spec(
        pre: Self,
        post: Self,
        inputs: Seq<Input>,
        out_pre: Seq<Buffer>,
        out_post: Seq<Buffer>,
    ) -> bool {
        N::process_spec(*pre.0, *post.0, inputs, out_pre, out_post)
    }

    fn process(&mut self, inputs: &[Input], output: &mut [Buffer]) {
        self.0.process(inputs, output)
    }
}

impl<N: Node + Send> Node for BoxedNodeSend<N> {
    /// Forwarding is transparent: the wrapper's processing relation is
    /// exactly the owned node's.
    open spec fn process_spec(
        pre: Self,
        post: Self,
        inputs: Seq<Input>,
        out_pre: Seq<Buffer>,
        out_post: Seq<Buffer>,
    ) -> bool {
        N::process_spec(*pre.0, *post.0, inputs, out_pre, out_post)
    }

    fn process(&mut self, inputs: &[Input], output: &mut [Buffer]) {
        self.0.process(inputs, output)
    }
}

impl<N: Node> From<Box<N>> for BoxedNode<N> {
    /// Wrap a pre-existing heap allocation, avoiding a redundant copy.
    fn from(n: Box<N>) -> (r: Self) {
        BoxedNode(n)
    }
}

impl<N: Node> vstd::std_specs::convert::FromSpecImpl<Box<N>> for BoxedNode<N> {
    open spec fn obeys_from_spec() -> bool {
        true
    }

    open spec fn from_spec(n: Box<N>) -> Self {
        BoxedNode(n)
    }
}

impl<N: Node + Send> From<Box<N>> for BoxedNodeSend<N> {
    /// Wrap a pre-existing heap allocation, avoiding a redundant copy.
    fn from(n: Box<N>) -> (r: Self) {
        BoxedNodeSend(n)
    }
}

impl<N: Node + Send> vstd::std_specs::convert::FromSpecImpl<Box<N>> for BoxedNodeSend<N> {
    open spec fn obeys_from_spec() -> bool {
        true
    }

    open spec fn from_spec(n: Box<N>) -> Self {
        BoxedNodeSend(n)
    }
}

/// Dispatch transparency: one call of `process` on a `BoxedNode` means
/// exactly what the same call means on the owned node itself — same
/// effect on the node's state and same effect on the output buffers.
pub proof fn lemma_boxed_node_transparent<N: Node>(
    pre: BoxedNode<N>,
    post: BoxedNode<N>,
    inputs: Seq<Input>,
    out_pre: Seq<Buffer>,
    out_post: Seq<Buffer>,
)
    ensures
        BoxedNode::<N>::process_spec(pre, post, inputs, out_pre, out_post)
            <==> N::process_spec(*pre.0, *post.0, inputs, out_pre, out_post),
{
}

/// Dispatch transparency for the thread-transferable wrapper: one call of
/// `process` on a `BoxedNodeSend` means exactly what the same call means
/// on the owned node itself.
pub proof fn lemma_boxed_node_send_transparent<N: Node + Send>(
    pre: BoxedNodeSend<N>,
    post: BoxedNodeSend<N>,
    inputs: Seq<Input>,
    out_pre: Seq<Buffer>,
    out_post: Seq<Buffer>,
)
    ensures
        BoxedNodeSend::<N>::process_spec(pre, post, inputs, out_pre, out_post)
            <==> N::process_spec(*pre.0, *post.0, inputs, out_pre, out_post),
{
}

} // verus!
