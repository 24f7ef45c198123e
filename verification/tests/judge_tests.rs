use rpc_server::judge::{distance, evaluate, judge, Tensor, ACCEPT_THRESHOLD, FIXED_SCALE};
use rpc_server::ServiceError;

fn fixed(x: f64) -> i64 {
    (x * FIXED_SCALE as f64).round() as i64
}

fn tensor(rows: Vec<Vec<i64>>) -> Tensor {
    Tensor { data: rows, shape: vec![] }
}

#[test]
fn distance_of_reversed_ramp() {
    let a = tensor(vec![(1i64..=10).map(|v| v * FIXED_SCALE).collect()]);
    let b = tensor(vec![(1i64..=10).rev().map(|v| v * FIXED_SCALE).collect()]);
    let d = distance(&a, &b).unwrap();
    let got = d as f64 / FIXED_SCALE as f64;
    assert!((got - 18.16590212458495).abs() < 1e-8);
}

#[test]
fn distance_shape_mismatch_before_math() {
    let a = tensor(vec![(1i64..=10).map(|v| v * FIXED_SCALE).collect()]);
    let b = tensor(vec![(1i64..=9).map(|v| v * FIXED_SCALE).collect()]);
    assert_eq!(distance(&a, &b), Err(ServiceError::ShapeMismatch));
}

#[test]
fn distance_compares_first_rows_only() {
    let a = tensor(vec![vec![0], vec![1, 2, 3]]);
    let b = tensor(vec![vec![3 * FIXED_SCALE], vec![9]]);
    assert_eq!(distance(&a, &b), Ok(3 * FIXED_SCALE));
}

#[test]
fn distance_of_empty_tensors_is_zero() {
    let a = tensor(vec![]);
    let b = tensor(vec![]);
    assert_eq!(distance(&a, &b), Ok(0));
}

#[test]
fn distance_rounds_down() {
    let a = tensor(vec![vec![0, 0]]);
    let b = tensor(vec![vec![FIXED_SCALE, FIXED_SCALE]]);
    // sqrt(2) at nine fractional digits, floored
    assert_eq!(distance(&a, &b), Ok(1414213562));
}

#[test]
fn judge_threshold_boundary() {
    assert!(judge(fixed(0.0999), fixed(0.1)));
    assert!(!judge(fixed(0.1), fixed(0.1)));
}

#[test]
fn judge_is_strict_less_than() {
    assert!(judge(-1, 0));
    assert!(!judge(0, 0));
    assert!(!judge(1, 0));
}

#[test]
fn evaluate_accepts_exact_match() {
    let a = tensor(vec![vec![fixed(1.5), fixed(-2.25)]]);
    let b = tensor(vec![vec![fixed(1.5), fixed(-2.25)]]);
    let r = evaluate(&a, &b, ACCEPT_THRESHOLD).unwrap();
    assert!(r.accept);
    assert_eq!(r.distance, 0);
}

#[test]
fn evaluate_rejects_wide_miss() {
    let a = tensor(vec![vec![0]]);
    let b = tensor(vec![vec![FIXED_SCALE]]);
    let r = evaluate(&a, &b, ACCEPT_THRESHOLD).unwrap();
    assert!(!r.accept);
    assert_eq!(r.distance, FIXED_SCALE);
}

#[test]
fn tensor_wf_bounds() {
    let ok = tensor(vec![vec![1125899906842624, -1125899906842624]]);
    assert!(ok.is_wf());
    let bad = tensor(vec![vec![1125899906842625]]);
    assert!(!bad.is_wf());
}
