use vstd::prelude::*;
use crate::buffer::Buffer;

verus! {

/// The buffers feeding one input connection of a node: the output blocks
/// of one upstream node, one buffer per channel. Opaque to the wrapper
/// layer, which only forwards references to it.
pub struct Input {
    buffers: Vec<Buffer>,
}

impl View for Input {
    type V = Seq<Buffer>;

    closed spec fn view(&self) -> Seq<Buffer> {
        self.buffers@
    }
}

impl Input {
    /// An input connection carrying the given buffers.
    pub fn new(buffers: Vec<Buffer>) -> (r: Input)
        ensures
            r@ == buffers@,
    {
        Input { buffers }
    }

    /// The buffers carried by this input connection.
    pub fn buffers(&self) -> (r: &Vec<Buffer>)
        ensures
            r@ == self@,
    {
        &self.buffers
    }
}

/// The capability contract every audio-processing unit implements.
///
/// A node exposes exactly one operation: process a set of input buffers
/// into a set of output buffers. It owns whatever internal state it needs;
/// one call may read `inputs`, write `output`, and update that state, and
/// nothing else. There is no error channel: a node that cannot produce
/// meaningful output is expected to write its natural fallback (typically
/// silence) rather than fail the call.
///
/// Each implementor describes what its `process` does with the
/// `process_spec` relation; `process` itself is then bound to that
/// relation, and may never change how many buffers the output holds.
pub trait Node: Sized {
    /// The node's processing relation: how one call of `process` relates
    /// the node's state before (`pre`) and after (`post`) the call, the
    /// input connections, and the output block list before (`out_pre`)
    /// and after (`out_post`) the call.
    spec fn process_spec(
        pre: Self,
        post: Self,
        inputs: Seq<Input>,
        out_pre: Seq<Buffer>,
        out_post: Seq<Buffer>,
    ) -> bool;

    /// Process the given input connections into `output`, updating
    /// internal state as this node's `process_spec` describes.
    fn process(&mut self, inputs: &[Input], output: &mut [Buffer])
        ensures
            final(output)@.len() == old(output)@.len(),
            Self::process_spec(*old(self), *final(self), inputs@, old(output)@, final(output)@),
    ;
}

} // verus!
