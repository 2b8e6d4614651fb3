//! The capability surface an evolutionary driver scores candidates through.
//!
//! `Problem` is the generic capability: score an arbitrary individual.
//! `NeuroProblem` refines it for problems whose candidates are neural
//! networks: it reports the network shape it expects and scores a network
//! directly.  Both fatal conditions of the protocol are distinct variants of
//! `ProblemError`, never a sentinel fitness value.

use vstd::prelude::*;
use crate::network::NeuralNetwork;

verus! {

/// The two caller-contract violations of the evaluation protocol.
#[derive(Clone, Copy, Debug, PartialEq, Eq, Structural)]
pub enum ProblemError {
    /// Construction was asked for a variant tag outside the closed set the
    /// problem family defines; the offending tag is carried along.
    InvalidProblemType(char),
    /// The generic individual-based scoring path was taken on a problem that
    /// only scores neural networks: a wiring mismatch, not a data error.
    UnsupportedEvaluationPath,
}

impl ProblemError {
    /// A short description of the error condition.
    pub fn describe(&self) -> (s: &'static str)
        ensures
            (*self matches ProblemError::InvalidProblemType(_)) ==> s@
                == "unknown problem type for symbolic regression problem"@,
            *self == ProblemError::UnsupportedEvaluationPath ==> s@
                == "evaluation path not supported by this problem"@,
    {
        match self {
            ProblemError::InvalidProblemType(_) => "unknown problem type for symbolic regression problem",
            ProblemError::UnsupportedEvaluationPath => "evaluation path not supported by this problem",
        }
    }
}

/// An opaque genome representation; the generic scoring path is stated over
/// it and nothing else is assumed of it.
pub trait Individual {
}

/// Anything that can produce a scalar fitness, as a bit pattern of an IEEE
/// 754 single-precision value, for an individual.  Lower is better
/// throughout this crate: the benchmarks score by error.
pub trait Problem {
    /// Generic scoring entry point for arbitrary genome representations.
    /// A problem that cannot score this representation reports
    /// `ProblemError::UnsupportedEvaluationPath` rather than a made-up score.
    fn compute_from_ind<T: Individual>(&self, ind: &T) -> (r: Result<u32, ProblemError>);
}

/// A problem whose candidates are neural networks of a fixed shape.
pub trait NeuroProblem: Problem {
    /// How many scalars the problem feeds a network per evaluation point.
    spec fn spec_inputs_count(&self) -> usize;

    /// How many scalars the problem reads back per evaluation point.
    spec fn spec_outputs_count(&self) -> usize;

    /// The input arity a compatible network must have; stable for the
    /// lifetime of the problem and queryable without an evaluation.
    fn get_inputs_count(&self) -> (n: usize)
        ensures
            n == self.spec_inputs_count(),
    ;

    /// The output arity a compatible network must have; stable for the
    /// lifetime of the problem and queryable without an evaluation.
    fn get_outputs_count(&self) -> (n: usize)
        ensures
            n == self.spec_outputs_count(),
    ;

    /// Score one network of the matching shape.  The network is handed back
    /// exactly as it came: an evaluation owns no state beyond its own pass.
    fn compute<N: NeuralNetwork>(&self, nn: &mut N) -> (r: u32)
        requires
            old(nn).inputs_count() == self.spec_inputs_count(),
            old(nn).outputs_count() == self.spec_outputs_count(),
        ensures
            *final(nn) == *old(nn),
    ;
}

} // verus!
