//! The boundary contract a neural network must meet to be scored.
//!
//! The benchmark consumes a network only through its forward computation,
//! assumed to be a pure function of the input for the duration of one
//! fitness evaluation: computing neither changes the network nor depends on
//! anything but the input.  Each implementation states its input-output map
//! as the specification `response` and its fixed arities, which the driver
//! reads before any evaluation.

use vstd::prelude::*;

verus! {

/// A neural network, seen as a pure input-output map of fixed arity.
pub trait NeuralNetwork: Sized {
    /// How many scalars one forward computation consumes.
    spec fn inputs_count(&self) -> usize;

    /// How many scalars one forward computation yields.
    spec fn outputs_count(&self) -> usize;

    /// The network's input-output map over scalar bit patterns.
    spec fn response(&self, input: Seq<u32>) -> Seq<u32>;

    /// The response always has exactly `outputs_count` scalars.
    proof fn response_arity(&self, input: Seq<u32>)
        ensures
            self.response(input).len() == self.outputs_count(),
    ;

    /// Forward computation: yields the response to the input and leaves the
    /// network as it was.
    fn compute(&mut self, input: &Vec<u32>) -> (out: Vec<u32>)
        requires
            input@.len() == old(self).inputs_count(),
        ensures
            *final(self) == *old(self),
            out@ == old(self).response(input@),
    ;
}

/// A degenerate reference network: it answers every input with one fixed
/// scalar.  It makes a convenient baseline when exercising an evaluation
/// protocol, since its response is known in full.
pub struct ConstantNetwork {
    /// The bit pattern of the one scalar every computation yields.
    pub out_bits: u32,
}

impl ConstantNetwork {
    /// A network that always answers with the scalar whose bits are `out_bits`.
    pub fn new(out_bits: u32) -> (r: ConstantNetwork)
        ensures
            r.out_bits == out_bits,
    {
        ConstantNetwork { out_bits }
    }
}

impl NeuralNetwork for ConstantNetwork {
    open spec fn inputs_count(&self) -> usize {
        1
    }

    open spec fn outputs_count(&self) -> usize {
        1
    }

    open spec fn response(&self, input: Seq<u32>) -> Seq<u32> {
        seq![self.out_bits]
    }

    proof fn response_arity(&self, input: Seq<u32>) {
    }

    fn compute(&mut self, input: &Vec<u32>) -> (out: Vec<u32>) {
        let mut v: Vec<u32> = Vec::new();
        v.push(self.out_bits);
        proof {
            assert(v@ =~= self.response(input@));
        }
        v
    }
}

} // verus!
