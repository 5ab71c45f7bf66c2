use std::ops::ControlFlow;
use validation::{Validation, ValidationResidual};

fn failure(errors: Vec<&'static str>, warnings: Vec<&'static str>) -> Validation<u32, &'static str, &'static str> {
    Validation { warnings, result: Err(errors) }
}

fn step_a() -> Validation<u32, &'static str, &'static str> {
    let mut v = Validation::from_output(5);
    v.warn("A-warn");
    v
}

fn step_b(x: u32) -> Validation<u32, &'static str, &'static str> {
    assert_eq!(x, 5);
    failure(vec!["B-err"], vec!["B-warn"])
}

fn chain() -> Validation<u32, &'static str, &'static str> {
    let a = match step_a().branch() {
        ControlFlow::Continue(a) => a,
        ControlFlow::Break(residual) => return Validation::from_residual(residual),
    };
    let b = match step_b(a).branch() {
        ControlFlow::Continue(b) => b,
        ControlFlow::Break(residual) => return Validation::from_residual(residual),
    };
    Validation::from_output(b + 1)
}

#[test]
fn success_ok_ignores_warnings() {
    let mut v: Validation<u32, &str, &str> = Validation::from_output(7);
    v.warn("w1").warns(vec!["w2", "w3"]);
    assert_eq!(v.warnings, vec!["w1", "w2", "w3"]);
    assert_eq!(v.ok(), Some(7));
}

#[test]
fn failure_ok_is_none() {
    assert_eq!(failure(vec!["e"], vec!["w"]).ok(), None);
    assert_eq!(failure(vec![], vec![]).ok(), None);
}

#[test]
fn map_success_keeps_warnings() {
    let v = Validation { warnings: vec!["w1", "w2"], result: Ok::<u32, Vec<&str>>(20) };
    let m = v.map(|x| x * 2 + 1);
    assert_eq!(m.warnings, vec!["w1", "w2"]);
    assert_eq!(m.result, Ok(41));
}

#[test]
fn map_failure_does_not_call_function() {
    let mut called = false;
    let m = failure(vec!["e1", "e2"], vec!["w"]).map(|x| {
        called = true;
        x.to_string()
    });
    assert!(!called);
    assert_eq!(m.warnings, vec!["w"]);
    assert_eq!(m.result, Err(vec!["e1", "e2"]));
}

#[test]
fn failure_round_trip() {
    match failure(vec!["e1", "e2"], vec!["w1"]).branch() {
        ControlFlow::Break(residual) => {
            assert_eq!(residual.warnings, vec!["w1"]);
            assert_eq!(residual.errors, vec!["e1", "e2"]);
            let rebuilt: Validation<u32, &str, &str> = Validation::from_residual(residual);
            assert_eq!(rebuilt, failure(vec!["e1", "e2"], vec!["w1"]));
        }
        ControlFlow::Continue(_) => panic!("a failure must break"),
    }
}

#[test]
fn success_continues_without_warnings() {
    let v = Validation { warnings: vec!["w1"], result: Ok::<u32, Vec<&str>>(3) };
    match v.branch() {
        ControlFlow::Continue(x) => assert_eq!(x, 3),
        ControlFlow::Break(_) => panic!("a success must continue"),
    }
}

#[test]
fn from_output_then_branch_continues() {
    let v: Validation<&str, u8, u8> = Validation::from_output("value");
    assert!(v.warnings.is_empty());
    assert!(matches!(v.branch(), ControlFlow::Continue("value")));
}

#[test]
fn from_residual_then_branch_breaks() {
    let residual = ValidationResidual { warnings: vec![1u8, 2], errors: vec![3u8] };
    let v: Validation<u32, u8, u8> = Validation::from_residual(residual);
    assert_eq!(v.result, Err(vec![3]));
    match v.branch() {
        ControlFlow::Break(r) => {
            assert_eq!(r.warnings, vec![1, 2]);
            assert_eq!(r.errors, vec![3]);
        }
        ControlFlow::Continue(_) => panic!("a rebuilt failure must break"),
    }
}

#[test]
fn empty_failure_breaks_with_no_errors() {
    match failure(vec![], vec!["w"]).branch() {
        ControlFlow::Break(r) => {
            assert_eq!(r.warnings, vec!["w"]);
            assert!(r.errors.is_empty());
        }
        ControlFlow::Continue(_) => panic!("a failure must break"),
    }
}

#[test]
fn warns_empty_is_no_op() {
    let mut v = failure(vec!["e"], vec!["w1", "w2"]);
    let before = v.clone();
    let same = v.warns(Vec::new());
    assert_eq!(*same, before);
    assert_eq!(v, before);
}

#[test]
fn warn_keeps_order_and_outcome() {
    let mut v = failure(vec!["e"], vec![]);
    v.warn("w1").warn("w2");
    v.warns(vec!["w3", "w4"]).warn("w5");
    assert_eq!(v.warnings, vec!["w1", "w2", "w3", "w4", "w5"]);
    assert_eq!(v.result, Err(vec!["e"]));
}

#[test]
fn chain_keeps_only_failing_step_warnings() {
    let r = chain();
    assert_eq!(r.result, Err(vec!["B-err"]));
    assert_eq!(r.warnings, vec!["B-warn"]);
}

#[test]
fn clone_and_order_follow_fields() {
    let a = failure(vec!["e"], vec!["a"]);
    let b = failure(vec!["e"], vec!["b"]);
    assert_eq!(a.clone(), a);
    assert!(a < b);
    let s: Validation<u32, &str, &str> = Validation { warnings: vec!["a"], result: Ok(1) };
    assert!(s < a);
}
