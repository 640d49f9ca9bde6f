use vstd::prelude::*;

verus! {

broadcast use vstd::array::group_array_axioms;

/// Number of samples in every buffer: one channel's worth of audio for one
/// processing period.
pub const BUFFER_LEN: usize = 64;

/// The all-zero block of samples, i.e. one period of silence.
pub open spec fn silent_block() -> Seq<i64> {
    Seq::new(BUFFER_LEN as nat, |i: int| 0i64)
}

/// A fixed-size block of audio samples for one channel over one processing
/// period. Samples are fixed-point integers. The wrapper layer never
/// inspects sample values; only concrete nodes read and write them.
#[derive(Clone, Copy)]
pub struct Buffer {
    samples: [i64; 64],
}

impl View for Buffer {
    type V = Seq<i64>;

    closed spec fn view(&self) -> Seq<i64> {
        self.samples@
    }
}

impl Buffer {
    /// A buffer holding one period of silence.
    pub fn silent() -> (r: Buffer)
        ensures
            r@ == silent_block(),
    {
        let b = Buffer { samples: [0i64; 64] };
        proof {
            // Name the fill's spec term so its element axiom can fire.
            assert(b.samples == vstd::array::spec_array_fill_for_copy_type::<i64, 64>(0i64));
            assert(b@ =~= silent_block());
        }
        b
    }

    /// A buffer holding the given samples.
    pub fn from_samples(samples: [i64; 64]) -> (r: Buffer)
        ensures
            r@ == samples@,
    {
        Buffer { samples }
    }

    /// The number of samples in the buffer; always `BUFFER_LEN`.
    pub fn len(&self) -> (r: usize)
        ensures
            r == BUFFER_LEN,
            r == self@.len(),
    {
        BUFFER_LEN
    }

    /// The sample at position `i`.
    pub fn sample(&self, i: usize) -> (r: i64)
        requires
            i < BUFFER_LEN,
        ensures
            r == self@[i as int],
    {
        self.samples[i]
    }

    /// Overwrite the sample at position `i` with `v`.
    pub fn set_sample(&mut self, i: usize, v: i64)
        requires
            i < BUFFER_LEN,
        ensures
            final(self)@ == old(self)@.update(i as int, v),
    {
        self.samples[i] = v;
    }

    /// Overwrite every sample with zero.
    pub fn silence(&mut self)
        ensures
            final(self)@ == silent_block(),
    {
        self.samples = [0i64; 64];
        proof {
            // Name the fill's spec term so its element axiom can fire.
            assert(self.samples == vstd::array::spec_array_fill_for_copy_type::<i64, 64>(0i64));
            assert(self@ =~= silent_block());
        }
    }

    /// Every buffer holds exactly `BUFFER_LEN` samples.
    pub proof fn lemma_len(&self)
        ensures
            self@.len() == BUFFER_LEN,
    {
    }
}

} // verus!
