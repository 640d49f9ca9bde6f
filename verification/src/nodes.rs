use vstd::prelude::*;
use crate::buffer::Buffer;
use crate::buffer::BUFFER_LEN;
use crate::buffer::silent_block;
use crate::node::Input;
use crate::node::Node;

verus! {

broadcast use vstd::array::group_array_axioms;

/// What a passthrough leaves in output buffer `k`: the corresponding
/// buffer of the first input connection, or silence where there is no
/// such buffer.
pub open spec fn passthrough_block(inputs: Seq<Input>, k: int) -> Seq<i64> {
    if inputs.len() > 0 && 0 <= k < inputs[0]@.len() {
        inputs[0]@[k]@
    } else {
        silent_block()
    }
}

/// A block holding the sample value `v` everywhere.
pub open spec fn constant_block(v: i64) -> Seq<i64> {
    Seq::new(BUFFER_LEN as nat, |i: int| v)
}

/// The call counter value after one more call: one higher, wrapping at
/// the counter's limit.
pub open spec fn next_count(c: u64) -> u64 {
    if c == u64::MAX {
        0
    } else {
        (c + 1) as u64
    }
}

/// A stateless node that copies its first input connection, channel by
/// channel, to its output, silencing any output channel that has no
/// matching input buffer.
pub struct PassthroughNode;

impl Node for PassthroughNode {
    open spec fn process_spec(
        pre: Self,
        post: Self,
        inputs: Seq<Input>,
        out_pre: Seq<Buffer>,
        out_post: Seq<Buffer>,
    ) -> bool {
        &&& post == pre
        &&& out_post.len() == out_pre.len()
        &&& forall|k: int|
            0 <= k < out_post.len() ==> (#[trigger] out_post[k])@ == passthrough_block(inputs, k)
    }

    fn process(&mut self, inputs: &[Input], output: &mut [Buffer]) {
        let n: usize = output.len();
        let mut k: usize = 0;
        while k < n
            invariant
                k <= n,
                n == output@.len(),
                output@.len() == old(output)@.len(),
                forall|j: int|
                    0 <= j < k ==> (#[trigger] output@[j])@ == passthrough_block(inputs@, j),
            decreases n - k,
        {
            if inputs.len() > 0 {
                let bufs = inputs[0].buffers();
                if k < bufs.len() {
                    output[k] = bufs[k];
                } else {
                    output[k] = Buffer::silent();
                }
            } else {
                output[k] = Buffer::silent();
            }
            k = k + 1;
        }
    }
}

/// A stateless node that ignores its inputs and writes silence to every
/// output buffer.
pub struct SilenceNode;

impl Node for SilenceNode {
    open spec fn process_spec(
        pre: Self,
        post: Self,
        inputs: Seq<Input>,
        out_pre: Seq<Buffer>,
        out_post: Seq<Buffer>,
    ) -> bool {
        &&& post == pre
        &&& out_post.len() == out_pre.len()
        &&& forall|k: int| 0 <= k < out_post.len() ==> (#[trigger] out_post[k])@ == silent_block()
    }

    fn process(&mut self, inputs: &[Input], output: &mut [Buffer]) {
        let n: usize = output.len();
        let mut k: usize = 0;
        while k < n
            invariant
                k <= n,
                n == output@.len(),
                output@.len() == old(output)@.len(),
                forall|j: int| 0 <= j < k ==> (#[trigger] output@[j])@ == silent_block(),
            decreases n - k,
        {
            output[k] = Buffer::silent();
            k = k + 1;
        }
    }
}

/// A node that ignores its inputs and fills every output buffer with one
/// fixed sample value.
pub struct ConstantNode {
    /// The sample value written to every output sample.
    pub value: i64,
}

impl Node for ConstantNode {
    open spec fn process_spec(
        pre: Self,
        post: Self,
        inputs: Seq<Input>,
        out_pre: Seq<Buffer>,
        out_post: Seq<Buffer>,
    ) -> bool {
        &&& post == pre
        &&& out_post.len() == out_pre.len()
        &&& forall|k: int|
            0 <= k < out_post.len() ==> (#[trigger] out_post[k])@ == constant_block(pre.value)
    }

    fn process(&mut self, inputs: &[Input], output: &mut [Buffer]) {
        let n: usize = output.len();
        let mut k: usize = 0;
        while k < n
            invariant
                k <= n,
                n == output@.len(),
                output@.len() == old(output)@.len(),
                forall|j: int|
                    0 <= j < k ==> (#[trigger] output@[j])@ == constant_block(self.value),
            decreases n - k,
        {
            let filled: [i64; 64] = [self.value; 64];
            let b = Buffer::from_samples(filled);
            proof {
                // Name the fill's spec term so its element axiom can fire.
                assert(filled == vstd::array::spec_array_fill_for_copy_type::<i64, 64>(self.value));
                assert(b@ =~= constant_block(self.value));
            }
            output[k] = b;
            k = k + 1;
        }
    }
}

/// A metering node: it leaves the output untouched and counts how many
/// times it has been invoked, wrapping at the counter's limit.
pub struct CounterNode {
    /// The number of completed `process` calls.
    pub count: u64,
}

impl CounterNode {
    /// A counter that has not yet been invoked.
    pub fn new() -> (r: CounterNode)
        ensures
            r.count == 0,
    {
        CounterNode { count: 0 }
    }
}

impl Node for CounterNode {
    open spec fn process_spec(
        pre: Self,
        post: Self,
        inputs: Seq<Input>,
        out_pre: Seq<Buffer>,
        out_post: Seq<Buffer>,
    ) -> bool {
        &&& post.count == next_count(pre.count)
        &&& out_post == out_pre
    }

    fn process(&mut self, inputs: &[Input], output: &mut [Buffer]) {
        if self.count == u64::MAX {
            self.count = 0;
        } else {
            self.count = self.count + 1;
        }
    }
}

/// A node that is any one of this crate's concrete node kinds.
///
/// Each value dispatches `process` to the kind it holds, so wrappers
/// around differing node kinds can share one homogeneous container while
/// every element keeps its own behaviour and state.
pub enum AnyNode {
    Passthrough(PassthroughNode),
    Silence(SilenceNode),
    Constant(ConstantNode),
    Counter(CounterNode),
}

impl Node for AnyNode {
    open spec fn process_spec(
        pre: Self,
        post: Self,
        inputs: Seq<Input>,
        out_pre: Seq<Buffer>,
        out_post: Seq<Buffer>,
    ) -> bool {
        match (pre, post) {
            (AnyNode::Passthrough(a), AnyNode::Passthrough(b)) => PassthroughNode::process_spec(
                a,
                b,
                inputs,
                out_pre,
                out_post,
            ),
            (AnyNode::Silence(a), AnyNode::Silence(b)) => SilenceNode::process_spec(
                a,
                b,
                inputs,
                out_pre,
                out_post,
            ),
            (AnyNode::Constant(a), AnyNode::Constant(b)) => ConstantNode::process_spec(
                a,
                b,
                inputs,
                out_pre,
                out_post,
            ),
            (AnyNode::Counter(a), AnyNode::Counter(b)) => CounterNode::process_spec(
                a,
                b,
                inputs,
                out_pre,
                out_post,
            ),
            _ => false,
        }
    }

    fn process(&mut self, inputs: &[Input], output: &mut [Buffer]) {
        match self {
            AnyNode::Passthrough(n) => n.process(inputs, output),
            AnyNode::Silence(n) => n.process(inputs, output),
            AnyNode::Constant(n) => n.process(inputs, output),
            AnyNode::Counter(n) => n.process(inputs, output),
        }
    }
}

} // verus!
