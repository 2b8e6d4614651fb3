use revonet::neproblem::{SymbolicRegressionProblem, TargetFunction, TargetNetwork, SAMPLE_COUNT};
use revonet::network::ConstantNetwork;
use revonet::problem::{Individual, NeuroProblem, Problem, ProblemError};
use revonet::sampling::sample_sequence;

struct OpaqueGenome;

impl Individual for OpaqueGenome {}

fn f_closed(x: f32) -> f32 {
    let x2 = x * x;
    x2 * x2 + x2 * x + x2 + x
}

fn g_closed(x: f32) -> f32 {
    let x2 = x * x;
    x2 * x2 * x - 2f32 * x2 * x + x
}

fn h_closed(x: f32) -> f32 {
    let x2 = x * x;
    x2 * x2 * x2 - 2f32 * x2 * x2 + x2
}

#[test]
fn target_functions_at_anchor_points() {
    let p = SymbolicRegressionProblem::new_f();
    assert_eq!(f32::from_bits(p.f(0f32.to_bits())), 0.0);
    assert_eq!(f32::from_bits(p.g(0f32.to_bits())), 0.0);
    assert_eq!(f32::from_bits(p.h(0f32.to_bits())), 0.0);
    assert_eq!(f32::from_bits(p.f(1f32.to_bits())), 4.0);
    assert_eq!(f32::from_bits(p.g(1f32.to_bits())), 0.0);
    assert_eq!(f32::from_bits(p.h(1f32.to_bits())), 0.0);
    assert_eq!(f32::from_bits(p.f((-1f32).to_bits())), 0.0);
    assert_eq!(f32::from_bits(p.g((-1f32).to_bits())), 0.0);
    assert_eq!(f32::from_bits(p.h((-1f32).to_bits())), 0.0);
    assert_eq!(f32::from_bits(p.f(0.5f32.to_bits())), 0.9375);
    assert_eq!(f32::from_bits(p.g(0.5f32.to_bits())), 0.28125);
    assert_eq!(f32::from_bits(p.h(0.5f32.to_bits())), 0.140625);
}

#[test]
fn target_functions_match_hardware_bit_for_bit() {
    let p = SymbolicRegressionProblem::new_f();
    let xs: [f32; 8] = [0.0, 1.0, -1.0, 0.5, -0.25, 1.3, -2.7, 123.456];
    for &x in xs.iter() {
        let b = x.to_bits();
        assert_eq!(p.f(b), f_closed(x).to_bits(), "f at {}", x);
        assert_eq!(p.g(b), g_closed(x).to_bits(), "g at {}", x);
        assert_eq!(p.h(b), h_closed(x).to_bits(), "h at {}", x);
    }
}

#[test]
fn construction_by_tag_and_arity() {
    for &(tag, want) in [('f', TargetFunction::F), ('g', TargetFunction::G), ('h', TargetFunction::H)]
        .iter()
    {
        let p = SymbolicRegressionProblem::new(tag).unwrap();
        assert_eq!(p.target_function(), want);
        assert_eq!(p.get_inputs_count(), 1);
        assert_eq!(p.get_outputs_count(), 1);
    }
    assert_eq!(SymbolicRegressionProblem::new_f().target_function(), TargetFunction::F);
    assert_eq!(SymbolicRegressionProblem::new_g().target_function(), TargetFunction::G);
    assert_eq!(SymbolicRegressionProblem::new_h().target_function(), TargetFunction::H);
}

#[test]
fn construction_rejects_unknown_tags() {
    for &tag in ['x', 'a', 'F', 'G', 'H', ' ', '0', 'z'].iter() {
        match SymbolicRegressionProblem::new(tag) {
            Ok(_) => panic!("tag {:?} must not construct a problem", tag),
            Err(e) => assert_eq!(e, ProblemError::InvalidProblemType(tag)),
        }
    }
}

#[test]
fn error_conditions_are_distinguishable() {
    let bad = SymbolicRegressionProblem::new('q').unwrap_err();
    let unsupported = ProblemError::UnsupportedEvaluationPath;
    assert_ne!(bad, unsupported);
    assert_ne!(bad.describe(), unsupported.describe());
}

#[test]
fn unsupported_individual_path() {
    let p = SymbolicRegressionProblem::new('f').unwrap();
    let r = p.compute_from_ind(&OpaqueGenome);
    assert_eq!(r, Err(ProblemError::UnsupportedEvaluationPath));
}

#[test]
fn repeated_evaluation_is_bit_identical() {
    let p = SymbolicRegressionProblem::new('g').unwrap();
    let mut net = ConstantNetwork::new(0.25f32.to_bits());
    let first = p.compute(&mut net);
    let second = p.compute(&mut net);
    let third = p.compute(&mut net);
    assert_eq!(first, second);
    assert_eq!(second, third);
}

#[test]
fn exact_network_scores_zero() {
    for &tag in ['f', 'g', 'h'].iter() {
        let p = SymbolicRegressionProblem::new(tag).unwrap();
        let mut net = TargetNetwork::new(p.target_function());
        let fitness = p.compute(&mut net);
        assert_eq!(fitness, 0u32, "tag {:?}", tag);
        assert_eq!(f32::from_bits(fitness), 0.0);
    }
}

#[test]
fn fitness_is_nonnegative() {
    let candidates: [f32; 5] = [0.0, 1.0, -3.5, 0.75, -0.001];
    for &tag in ['f', 'g', 'h'].iter() {
        let p = SymbolicRegressionProblem::new(tag).unwrap();
        for &c in candidates.iter() {
            let mut net = ConstantNetwork::new(c.to_bits());
            let fitness = f32::from_bits(p.compute(&mut net));
            assert!(fitness >= 0.0, "tag {:?} constant {}", tag, c);
        }
    }
}

#[test]
fn fitness_sums_twenty_absolute_errors() {
    let p = SymbolicRegressionProblem::new('f').unwrap();
    let c = 0.25f32;
    let mut net = ConstantNetwork::new(c.to_bits());
    let got = p.compute(&mut net);
    let samples = sample_sequence(SAMPLE_COUNT);
    assert_eq!(samples.len(), 20);
    let mut er = 0f32;
    for &sb in samples.iter() {
        let x = f32::from_bits(sb);
        let y = f_closed(x);
        er += (c - y).abs();
    }
    assert_eq!(got, er.to_bits());
    assert!(f32::from_bits(got) > 0.0);
}

#[test]
fn shared_instance_interleaved_evaluations() {
    let p = SymbolicRegressionProblem::new('h').unwrap();
    let shared = &p;
    let mut a = ConstantNetwork::new(0.5f32.to_bits());
    let mut b = TargetNetwork::new(TargetFunction::H);
    let a1 = shared.compute(&mut a);
    let b1 = shared.compute(&mut b);
    let a2 = shared.compute(&mut a);
    let b2 = shared.compute(&mut b);
    assert_eq!(a1, a2);
    assert_eq!(b1, b2);
    assert_eq!(b1, 0u32);
    let mut fresh = ConstantNetwork::new(0.5f32.to_bits());
    assert_eq!(SymbolicRegressionProblem::new('h').unwrap().compute(&mut fresh), a1);
}
