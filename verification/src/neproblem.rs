//! Symbolic-regression benchmark problems for evolving neural networks.
//!
//! A `SymbolicRegressionProblem` holds one of three fixed univariate target
//! polynomials, chosen at construction by a one-character tag out of a
//! closed set, and scores a network by how well it approximates that target
//! over a fixed, seeded sample sequence (see `sampling`): the fitness is the
//! plain sum of the twenty per-point absolute errors, not averaged and not
//! normalized, so lower is better and an exact reproduction scores zero.
//! See Luke S., Essentials of metaheuristics, for the function family.

use vstd::prelude::*;
use crate::float_bits::{
    abs_bits, abs_bits_spec, add_bits, add_bits_spec, is_finite_bits, is_nan_bits,
    is_nonneg_bits, lemma_abs_bits, mul_bits, mul_bits_spec, sub_bits, sub_bits_spec,
};
use crate::network::NeuralNetwork;
use crate::problem::{Individual, NeuroProblem, Problem, ProblemError};
use crate::sampling::{draw_sample, fixed_seed, fixed_seeded_rng, rng_pos, rng_seed, sample_at};

verus! {

/// How many sample points one fitness evaluation draws.
pub const SAMPLE_COUNT: usize = 20;

/// The bit pattern of the single-precision value two.
pub const TWO_BITS: u32 = 0x4000_0000;

/// The closed set of target functions of the benchmark family.
#[derive(Clone, Copy, Debug, PartialEq, Eq, Structural)]
pub enum TargetFunction {
    /// f(x) = x^4 + x^3 + x^2 + x
    F,
    /// g(x) = x^5 - 2x^3 + x
    G,
    /// h(x) = x^6 - 2x^4 + x^2
    H,
}

/// f(x) = x^4 + x^3 + x^2 + x, evaluated on bit patterns as the sum
/// ((x2*x2 + x2*x) + x2) + x with x2 = x*x.
pub open spec fn spec_f(x: u32) -> u32 {
    let x2 = mul_bits_spec(x, x);
    add_bits_spec(
        add_bits_spec(add_bits_spec(mul_bits_spec(x2, x2), mul_bits_spec(x2, x)), x2),
        x,
    )
}

/// g(x) = x^5 - 2x^3 + x, evaluated on bit patterns as
/// ((x2*x2)*x - (2*x2)*x) + x with x2 = x*x.
pub open spec fn spec_g(x: u32) -> u32 {
    let x2 = mul_bits_spec(x, x);
    add_bits_spec(
        sub_bits_spec(
            mul_bits_spec(mul_bits_spec(x2, x2), x),
            mul_bits_spec(mul_bits_spec(TWO_BITS, x2), x),
        ),
        x,
    )
}

/// h(x) = x^6 - 2x^4 + x^2, evaluated on bit patterns as
/// ((x2*x2)*x2 - (2*x2)*x2) + x2 with x2 = x*x.
pub open spec fn spec_h(x: u32) -> u32 {
    let x2 = mul_bits_spec(x, x);
    add_bits_spec(
        sub_bits_spec(
            mul_bits_spec(mul_bits_spec(x2, x2), x2),
            mul_bits_spec(mul_bits_spec(TWO_BITS, x2), x2),
        ),
        x2,
    )
}

/// The value of the selected target function at `x`.
pub open spec fn spec_target(t: TargetFunction, x: u32) -> u32 {
    match t {
        TargetFunction::F => spec_f(x),
        TargetFunction::G => spec_g(x),
        TargetFunction::H => spec_h(x),
    }
}

fn eval_f_bits(x: u32) -> (r: u32)
    ensures
        r == spec_f(x),
{
    let x2 = mul_bits(x, x);
    add_bits(add_bits(add_bits(mul_bits(x2, x2), mul_bits(x2, x)), x2), x)
}

fn eval_g_bits(x: u32) -> (r: u32)
    ensures
        r == spec_g(x),
{
    let x2 = mul_bits(x, x);
    add_bits(
        sub_bits(mul_bits(mul_bits(x2, x2), x), mul_bits(mul_bits(TWO_BITS, x2), x)),
        x,
    )
}

fn eval_h_bits(x: u32) -> (r: u32)
    ensures
        r == spec_h(x),
{
    let x2 = mul_bits(x, x);
    add_bits(
        sub_bits(mul_bits(mul_bits(x2, x2), x2), mul_bits(mul_bits(TWO_BITS, x2), x2)),
        x2,
    )
}

impl TargetFunction {
    /// Evaluate this target function at `x`.
    pub fn evaluate(&self, x: u32) -> (r: u32)
        ensures
            r == spec_target(*self, x),
    {
        match self {
            TargetFunction::F => eval_f_bits(x),
            TargetFunction::G => eval_g_bits(x),
            TargetFunction::H => eval_h_bits(x),
        }
    }
}

/// A benchmark problem holding exactly one selected target function,
/// immutable after construction; it carries no other state, so one instance
/// is safe to share read-only across any number of evaluations.
#[derive(Clone, Copy, Debug)]
pub struct SymbolicRegressionProblem {
    target: TargetFunction,
}

impl SymbolicRegressionProblem {
    /// The target function this problem was constructed with.
    pub closed spec fn spec_target_function(&self) -> TargetFunction {
        self.target
    }

    /// Select the target function by its tag: 'f', 'g' and 'h' each pick
    /// one member of the closed set; any other tag is an invalid
    /// construction and yields no instance.
    pub fn new(problem_type: char) -> (r: Result<SymbolicRegressionProblem, ProblemError>)
        ensures
            problem_type == 'f' ==> (r matches Ok(p) && p.spec_target_function()
                == TargetFunction::F),
            problem_type == 'g' ==> (r matches Ok(p) && p.spec_target_function()
                == TargetFunction::G),
            problem_type == 'h' ==> (r matches Ok(p) && p.spec_target_function()
                == TargetFunction::H),
            problem_type != 'f' && problem_type != 'g' && problem_type != 'h' ==> r
                == Err::<SymbolicRegressionProblem, ProblemError>(
                ProblemError::InvalidProblemType(problem_type),
            ),
    {
        match problem_type {
            'f' => Ok(SymbolicRegressionProblem::new_f()),
            'g' => Ok(SymbolicRegressionProblem::new_g()),
            'h' => Ok(SymbolicRegressionProblem::new_h()),
            _ => Err(ProblemError::InvalidProblemType(problem_type)),
        }
    }

    /// The problem for f(x) = x^4 + x^3 + x^2 + x.
    pub fn new_f() -> (r: SymbolicRegressionProblem)
        ensures
            r.spec_target_function() == TargetFunction::F,
    {
        SymbolicRegressionProblem { target: TargetFunction::F }
    }

    /// The problem for g(x) = x^5 - 2x^3 + x.
    pub fn new_g() -> (r: SymbolicRegressionProblem)
        ensures
            r.spec_target_function() == TargetFunction::G,
    {
        SymbolicRegressionProblem { target: TargetFunction::G }
    }

    /// The problem for h(x) = x^6 - 2x^4 + x^2.
    pub fn new_h() -> (r: SymbolicRegressionProblem)
        ensures
            r.spec_target_function() == TargetFunction::H,
    {
        SymbolicRegressionProblem { target: TargetFunction::H }
    }

    /// Which target function this problem scores against.
    pub fn target_function(&self) -> (t: TargetFunction)
        ensures
            t == self.spec_target_function(),
    {
        self.target
    }

    /// f(x) = x^4 + x^3 + x^2 + x.
    pub fn f(&self, x: u32) -> (r: u32)
        ensures
            r == spec_f(x),
    {
        eval_f_bits(x)
    }

    /// g(x) = x^5 - 2x^3 + x.
    pub fn g(&self, x: u32) -> (r: u32)
        ensures
            r == spec_g(x),
    {
        eval_g_bits(x)
    }

    /// h(x) = x^6 - 2x^4 + x^2.
    pub fn h(&self, x: u32) -> (r: u32)
        ensures
            r == spec_h(x),
    {
        eval_h_bits(x)
    }
}

/// The scalar the network answers at the i-th sample point of the fixed
/// sequence.
pub open spec fn net_output_bits<N: NeuralNetwork>(net: N, i: int) -> u32 {
    net.response(seq![sample_at(i)])[0]
}

/// The signed error at the i-th sample point: network output minus target.
pub open spec fn point_diff_bits<N: NeuralNetwork>(t: TargetFunction, net: N, i: int) -> u32 {
    sub_bits_spec(net_output_bits(net, i), spec_target(t, sample_at(i)))
}

/// The absolute error at the i-th sample point.
pub open spec fn point_error_bits<N: NeuralNetwork>(t: TargetFunction, net: N, i: int) -> u32 {
    abs_bits_spec(point_diff_bits(t, net, i))
}

/// The error sum over the first n sample points, accumulated in draw order
/// starting from +0.
pub open spec fn fitness_prefix_bits<N: NeuralNetwork>(t: TargetFunction, net: N, n: int) -> u32
    decreases n,
{
    if n <= 0 {
        0u32
    } else {
        add_bits_spec(fitness_prefix_bits(t, net, n - 1), point_error_bits(t, net, n - 1))
    }
}

/// The fitness of a network against a target function: the sum of the
/// absolute errors over all `SAMPLE_COUNT` sample points.
pub open spec fn fitness_bits<N: NeuralNetwork>(t: TargetFunction, net: N) -> u32 {
    fitness_prefix_bits(t, net, SAMPLE_COUNT as int)
}

/// No signed error over the first n sample points is a NaN.
pub open spec fn no_nan_errors<N: NeuralNetwork>(t: TargetFunction, net: N, n: int) -> bool {
    forall|i: int| 0 <= i < n ==> !is_nan_bits(#[trigger] point_diff_bits(t, net, i))
}

/// Over the first n sample points the network answers exactly the target
/// value, and that value is finite.
pub open spec fn reproduces_targets<N: NeuralNetwork>(t: TargetFunction, net: N, n: int) -> bool {
    forall|i: int| 0 <= i < n ==> (#[trigger] net_output_bits(net, i) == spec_target(
        t,
        sample_at(i),
    ) && is_finite_bits(spec_target(t, sample_at(i))))
}

/// Law: the fitness is a function of the selected target function and of the
/// network's input-output map alone; two networks that respond identically
/// score identically, however often and in whatever order they are evaluated.
pub proof fn lemma_fitness_deterministic<N: NeuralNetwork, M: NeuralNetwork>(
    t: TargetFunction,
    a: N,
    b: M,
    n: int,
)
    requires
        forall|s: Seq<u32>| #[trigger] a.response(s) == b.response(s),
    ensures
        fitness_prefix_bits(t, a, n) == fitness_prefix_bits(t, b, n),
    decreases n,
{
    if n > 0 {
        lemma_fitness_deterministic(t, a, b, n - 1);
    }
}

impl Problem for SymbolicRegressionProblem {
    fn compute_from_ind<T: Individual>(&self, ind: &T) -> (r: Result<u32, ProblemError>)
        ensures
            r == Err::<u32, ProblemError>(ProblemError::UnsupportedEvaluationPath),
    {
        Err(ProblemError::UnsupportedEvaluationPath)
    }
}

impl NeuroProblem for SymbolicRegressionProblem {
    open spec fn spec_inputs_count(&self) -> usize {
        1
    }

    open spec fn spec_outputs_count(&self) -> usize {
        1
    }

    fn get_inputs_count(&self) -> (n: usize)
        ensures
            n == 1,
    {
        1
    }

    fn get_outputs_count(&self) -> (n: usize)
        ensures
            n == 1,
    {
        1
    }

    /// One evaluation pass: reconstruct the fixed sample sequence, feed each
    /// sample to the network, and sum the absolute errors against the
    /// selected target function.
    fn compute<N: NeuralNetwork>(&self, nn: &mut N) -> (r: u32)
        ensures
            r == fitness_bits(self.spec_target_function(), *old(nn)),
            no_nan_errors(self.spec_target_function(), *old(nn), SAMPLE_COUNT as int)
                ==> is_nonneg_bits(r) && !is_nan_bits(r),
            reproduces_targets(self.spec_target_function(), *old(nn), SAMPLE_COUNT as int) ==> r
                == 0,
    {
        let ghost t = self.spec_target_function();
        let mut rng = fixed_seeded_rng();
        let mut er: u32 = 0;
        let mut input: Vec<u32> = Vec::new();
        input.push(0u32);
        let mut i: usize = 0;
        proof {
            assert(0u32 & 0x8000_0000u32 == 0) by (bit_vector);
            assert(0u32 & 0x7F80_0000u32 != 0x7F80_0000u32) by (bit_vector);
        }
        while i < SAMPLE_COUNT
            invariant
                i <= SAMPLE_COUNT,
                *nn == *old(nn),
                nn.inputs_count() == 1,
                nn.outputs_count() == 1,
                t == self.spec_target_function(),
                rng_seed(rng) == fixed_seed(),
                rng_pos(rng) == i,
                input@.len() == 1,
                er == fitness_prefix_bits(t, *old(nn), i as int),
                no_nan_errors(t, *old(nn), i as int) ==> is_nonneg_bits(er) && !is_nan_bits(er),
                reproduces_targets(t, *old(nn), i as int) ==> er == 0,
            decreases SAMPLE_COUNT - i,
        {
            let ghost gi = i as int;
            let x = draw_sample(&mut rng);
            let y = self.target.evaluate(x);
            input.set(0, x);
            let out = nn.compute(&input);
            proof {
                assert(input@ =~= seq![x]);
                nn.response_arity(input@);
                assert(out@[0] == net_output_bits(*old(nn), gi));
            }
            let d = sub_bits(out[0], y);
            let err = abs_bits(d);
            let er2 = add_bits(er, err);
            proof {
                lemma_abs_bits(d);
                assert(d == point_diff_bits(t, *old(nn), gi));
                assert(err == point_error_bits(t, *old(nn), gi));
                assert(er2 == fitness_prefix_bits(t, *old(nn), gi + 1));
                assert(no_nan_errors(t, *old(nn), gi + 1) ==> is_nonneg_bits(er2) && !is_nan_bits(
                    er2,
                ));
                assert(reproduces_targets(t, *old(nn), gi + 1) ==> er2 == 0);
            }
            er = er2;
            i = i + 1;
        }
        er
    }
}

/// A reference network that reproduces one target function exactly: on
/// input [x] it answers [target(x)].  Against the problem holding the same
/// target function it witnesses that a perfect approximation scores zero.
pub struct TargetNetwork {
    /// The target function this network computes.
    pub target: TargetFunction,
}

impl TargetNetwork {
    /// The network computing the given target function.
    pub fn new(target: TargetFunction) -> (r: TargetNetwork)
        ensures
            r.target == target,
    {
        TargetNetwork { target }
    }
}

impl NeuralNetwork for TargetNetwork {
    open spec fn inputs_count(&self) -> usize {
        1
    }

    open spec fn outputs_count(&self) -> usize {
        1
    }

    open spec fn response(&self, input: Seq<u32>) -> Seq<u32> {
        seq![spec_target(self.target, input[0])]
    }

    proof fn response_arity(&self, input: Seq<u32>) {
    }

    fn compute(&mut self, input: &Vec<u32>) -> (out: Vec<u32>) {
        let y = self.target.evaluate(input[0]);
        let mut v: Vec<u32> = Vec::new();
        v.push(y);
        proof {
            assert(v@ =~= self.response(input@));
        }
        v
    }
}

} // verus!
