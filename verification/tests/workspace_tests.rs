use rpc_server::workspace::{check_project_name, ensure_project, ArtifactKind};
use rpc_server::ServiceError;

#[test]
fn ensure_project_is_idempotent() {
    let w1 = ensure_project("demo").unwrap();
    let w2 = ensure_project("demo").unwrap();
    assert_eq!(w1.base_dir, w2.base_dir);
    assert_eq!(w1.input_json, w2.input_json);
    assert_eq!(w1.vk, w2.vk);
    assert_eq!(w1.cfg_prove, w2.cfg_prove);
}

#[test]
fn ensure_project_canonical_paths() {
    let w = ensure_project("demo").unwrap();
    assert_eq!(w.base_dir, "./data/demo");
    assert_eq!(w.input_json, "./data/demo/input.json");
    assert_eq!(w.output_json, "./data/demo/output.json");
    assert_eq!(w.network_onnx, "./data/demo/network.onnx");
    assert_eq!(w.vk, "./data/demo/demo.vk");
    assert_eq!(w.proof, "./data/demo/demo.pf");
    assert_eq!(w.sol_code, "./data/demo/demo.sol");
    assert_eq!(w.deployment_code, "./data/demo/demo.code");
    assert_eq!(w.params, "kzg.params");
    assert_eq!(w.cfg_forward, "./data/demo/forward_demo.json");
    assert_eq!(w.cfg_mock, "./data/demo/mock_demo.json");
    assert_eq!(w.cfg_prove, "./data/demo/prove_demo.json");
    assert_eq!(w.cfg_genevm, "./data/demo/genevm_demo.json");
}

#[test]
fn ensure_project_rejects_traversal() {
    assert_eq!(
        ensure_project("../../etc").err(),
        Some(ServiceError::InvalidProjectName)
    );
}

#[test]
fn ensure_project_rejects_unsafe_names() {
    for bad in ["", ".", "..", "a/b", "a\\b", "a\"b", "/etc", "..."] {
        assert!(ensure_project(bad).is_err(), "{bad:?} should be rejected");
    }
}

#[test]
fn ensure_project_accepts_plain_names() {
    for good in ["demo", "baby_gaia_2d", "my.project", "x-2", "A9"] {
        assert!(ensure_project(good).is_ok(), "{good:?} should be accepted");
    }
}

#[test]
fn project_name_check() {
    assert!(check_project_name("eth_tokyo"));
    assert!(!check_project_name("../../etc"));
}

#[test]
fn path_for_selects_artifacts() {
    let w = ensure_project("p").unwrap();
    assert_eq!(w.path_for(ArtifactKind::InputData), &w.input_json);
    assert_eq!(w.path_for(ArtifactKind::OutputData), &w.output_json);
    assert_eq!(w.path_for(ArtifactKind::Model), &w.network_onnx);
    assert_eq!(w.path_for(ArtifactKind::VerificationKey), &w.vk);
    assert_eq!(w.path_for(ArtifactKind::Proof), &w.proof);
    assert_eq!(w.path_for(ArtifactKind::SolCode), &w.sol_code);
    assert_eq!(w.path_for(ArtifactKind::DeploymentCode), &w.deployment_code);
    assert_eq!(w.path_for(ArtifactKind::Params), &w.params);
}
