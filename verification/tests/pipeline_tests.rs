use rpc_server::judge::{Tensor, FIXED_SCALE};
use rpc_server::model::decode_model;
use rpc_server::pipeline::{start, step, Action, Event, Request, Response, Stage};
use rpc_server::record::{check_record, render_record, EchoData};
use rpc_server::types::{ProofData, VerifyandAwardParams};
use rpc_server::ServiceError;

fn record() -> EchoData {
    EchoData {
        input_data: vec![vec![FIXED_SCALE, 2 * FIXED_SCALE]],
        input_shapes: vec![vec![1, 2]],
        output_data: vec![vec![3 * FIXED_SCALE]],
    }
}

fn target_matching() -> Tensor {
    Tensor { data: vec![vec![3 * FIXED_SCALE]], shape: vec![1, 1] }
}

#[test]
fn record_document_text() {
    let e = EchoData {
        input_data: vec![vec![1500000000], vec![-500000000]],
        input_shapes: vec![vec![2, 1]],
        output_data: vec![vec![0]],
    };
    assert!(check_record(&e));
    assert_eq!(
        render_record(&e),
        "{\"input_data\":[[1.500000000],[-0.500000000]],\"input_shapes\":[[2,1]],\"output_data\":[[0.000000000]]}"
    );
}

#[test]
fn invalid_project_name_emits_no_filesystem_action() {
    let (p, a) = start(Request::Forward { project: "../../etc".to_string(), record: record() });
    assert_eq!(p.stage, Stage::Done);
    match a {
        Action::Respond { response: Response::Failure { error, .. } } => {
            assert_eq!(error, ServiceError::InvalidProjectName);
        },
        _ => panic!("expected an immediate typed failure"),
    }
}

#[test]
fn forward_pipeline_actions() {
    let (mut p, a) = start(Request::Forward { project: "p1".to_string(), record: record() });
    match a {
        Action::CreateDir { path } => assert_eq!(path, "./data/p1"),
        _ => panic!("expected directory creation"),
    }
    match step(&mut p, Event::DirCreated) {
        Action::WriteText { path, contents } => {
            assert_eq!(path, "./data/p1/input.json");
            assert_eq!(contents, render_record(&record()));
        },
        _ => panic!("expected the input artifact write"),
    }
    match step(&mut p, Event::Written) {
        Action::WriteText { path, contents } => {
            assert_eq!(path, "./data/p1/forward_p1.json");
            assert!(contents.starts_with("{\"command\":{\"Forward\":"));
            assert!(contents.contains("\"logrows\":19"));
        },
        _ => panic!("expected the configuration write"),
    }
    match step(&mut p, Event::Written) {
        Action::RunEngine { config_path } => assert_eq!(config_path, "./data/p1/forward_p1.json"),
        _ => panic!("expected the engine run"),
    }
    match step(&mut p, Event::EngineCompleted) {
        Action::ReadTensor { path } => assert_eq!(path, "./data/p1/output.json"),
        _ => panic!("expected the output read-back"),
    }
    match step(&mut p, Event::TensorRead { record: record() }) {
        Action::Respond { response: Response::OutputTensor { record: r } } => {
            assert_eq!(r.output_data, record().output_data);
        },
        _ => panic!("expected the output response"),
    }
    assert_eq!(p.stage, Stage::Done);
}

#[test]
fn mock_pipeline_judges_accept() {
    let (mut p, _) = start(Request::Mock {
        project: "p2".to_string(),
        record: record(),
        target: target_matching(),
    });
    step(&mut p, Event::DirCreated);
    step(&mut p, Event::Written);
    match step(&mut p, Event::Written) {
        Action::RunEngine { config_path } => assert_eq!(config_path, "./data/p2/mock_p2.json"),
        _ => panic!("expected the engine run"),
    }
    match step(&mut p, Event::EngineCompleted) {
        Action::Respond { response: Response::Judged { result } } => {
            assert!(result.accept);
            assert_eq!(result.distance, 0);
        },
        _ => panic!("expected a judged response"),
    }
}

#[test]
fn mock_pipeline_judges_reject_on_miss() {
    let target = Tensor { data: vec![vec![4 * FIXED_SCALE]], shape: vec![1, 1] };
    let (mut p, _) = start(Request::Mock { project: "p3".to_string(), record: record(), target });
    step(&mut p, Event::DirCreated);
    step(&mut p, Event::Written);
    step(&mut p, Event::Written);
    match step(&mut p, Event::EngineCompleted) {
        Action::Respond { response: Response::Judged { result } } => {
            assert!(!result.accept);
            assert_eq!(result.distance, FIXED_SCALE);
        },
        _ => panic!("expected a judged response"),
    }
}

#[test]
fn mock_pipeline_shape_mismatch() {
    let target = Tensor { data: vec![vec![1, 2]], shape: vec![1, 2] };
    let (mut p, _) = start(Request::Mock { project: "p4".to_string(), record: record(), target });
    step(&mut p, Event::DirCreated);
    step(&mut p, Event::Written);
    step(&mut p, Event::Written);
    match step(&mut p, Event::EngineCompleted) {
        Action::Respond { response: Response::Failure { error, .. } } => {
            assert_eq!(error, ServiceError::ShapeMismatch);
        },
        _ => panic!("expected a shape mismatch"),
    }
}

#[test]
fn engine_failure_is_not_judged_false() {
    let (mut p, _) = start(Request::Mock {
        project: "p5".to_string(),
        record: record(),
        target: target_matching(),
    });
    step(&mut p, Event::DirCreated);
    step(&mut p, Event::Written);
    step(&mut p, Event::Written);
    match step(&mut p, Event::EngineFailed { reason: "constraint unsatisfied".to_string() }) {
        Action::Respond { response: Response::Failure { error, reason } } => {
            assert_eq!(error, ServiceError::EngineFailure);
            assert_eq!(reason, "constraint unsatisfied");
        },
        _ => panic!("an engine failure must stay a typed failure"),
    }
}

fn drive_generate_verifier(fail_first_run: bool) -> (usize, Response) {
    let req = Request::GenerateVerifier {
        project: "p6".to_string(),
        model_b64: "AAAA".to_string(),
        record: record(),
    };
    let (mut p, mut a) = start(req);
    let mut runs: usize = 0;
    loop {
        a = match a {
            Action::CreateDir { .. } => step(&mut p, Event::DirCreated),
            Action::WriteText { .. } => step(&mut p, Event::Written),
            Action::WriteBytes { bytes, .. } => {
                assert_eq!(bytes, vec![0u8, 0u8, 0u8]);
                step(&mut p, Event::Written)
            },
            Action::RunEngine { .. } => {
                runs += 1;
                if fail_first_run && runs == 1 {
                    step(&mut p, Event::EngineFailed { reason: "prove failed".to_string() })
                } else {
                    step(&mut p, Event::EngineCompleted)
                }
            },
            Action::ReadText { path } => {
                assert_eq!(path, "./data/p6/p6.sol");
                step(&mut p, Event::TextRead { text: "contract Verifier {}".to_string() })
            },
            Action::ReadTensor { .. } | Action::ReadProof { .. } => panic!("unexpected read"),
            Action::Respond { response } => return (runs, response),
        };
    }
}

#[test]
fn generate_verifier_happy_path_runs_twice() {
    let (runs, response) = drive_generate_verifier(false);
    assert_eq!(runs, 2);
    match response {
        Response::VerifierSource { source } => assert_eq!(source, "contract Verifier {}"),
        _ => panic!("expected the verifier source"),
    }
}

#[test]
fn generate_verifier_prove_failure_stops_second_run() {
    let (runs, response) = drive_generate_verifier(true);
    assert_eq!(runs, 1);
    match response {
        Response::Failure { error, reason } => {
            assert_eq!(error, ServiceError::EngineFailure);
            assert_eq!(reason, "prove failed");
        },
        _ => panic!("expected the engine failure to surface"),
    }
}

#[test]
fn prove_and_retrieve_reads_proof_artifact() {
    let req = Request::ProveAndRetrieve {
        project: "p7".to_string(),
        model_b64: "aGVsbG8=".to_string(),
        record: record(),
    };
    let (mut p, a) = start(req);
    match a {
        Action::CreateDir { path } => assert_eq!(path, "./data/p7"),
        _ => panic!("expected directory creation"),
    }
    match step(&mut p, Event::DirCreated) {
        Action::WriteBytes { path, bytes } => {
            assert_eq!(path, "./data/p7/network.onnx");
            assert_eq!(bytes, b"hello".to_vec());
        },
        _ => panic!("expected the model write"),
    }
    step(&mut p, Event::Written);
    match step(&mut p, Event::Written) {
        Action::WriteText { path, contents } => {
            assert_eq!(path, "./data/p7/prove_p7.json");
            assert!(contents.contains("\"vk_path\":\"./data/p7/p7.vk\""));
            assert!(contents.contains("\"logrows\":17"));
        },
        _ => panic!("expected the configuration write"),
    }
    match step(&mut p, Event::Written) {
        Action::RunEngine { config_path } => assert_eq!(config_path, "./data/p7/prove_p7.json"),
        _ => panic!("expected the engine run"),
    }
    match step(&mut p, Event::EngineCompleted) {
        Action::ReadProof { path } => assert_eq!(path, "./data/p7/p7.pf"),
        _ => panic!("expected the proof read-back"),
    }
    let proof = ProofData { num_instance: vec![1], instances: vec![vec![vec![7]]], proof: vec![1, 2, 3] };
    match step(&mut p, Event::ProofRead { proof }) {
        Action::Respond { response: Response::ProofBundle { status, proof } } => {
            assert_eq!(status, "completed");
            assert_eq!(proof.proof, vec![1, 2, 3]);
            assert_eq!(proof.num_instance, vec![1]);
        },
        _ => panic!("expected the proof bundle"),
    }
}

#[test]
fn invalid_model_encoding_fails_before_any_action() {
    let req = Request::GenerateVerifier {
        project: "p8".to_string(),
        model_b64: "!!!".to_string(),
        record: record(),
    };
    let (p, a) = start(req);
    assert_eq!(p.stage, Stage::Done);
    match a {
        Action::Respond { response: Response::Failure { error, .. } } => {
            assert_eq!(error, ServiceError::InvalidModelEncoding);
        },
        _ => panic!("expected an immediate typed failure"),
    }
}

#[test]
fn decode_model_known_values() {
    assert_eq!(decode_model("AAAA"), Ok(vec![0u8, 0u8, 0u8]));
    assert_eq!(decode_model("aGVsbG8="), Ok(b"hello".to_vec()));
    assert_eq!(decode_model("!!!"), Err(ServiceError::InvalidModelEncoding));
}

#[test]
fn workspace_failure_is_typed() {
    let (mut p, _) = start(Request::Forward { project: "p9".to_string(), record: record() });
    match step(&mut p, Event::DirFailed) {
        Action::Respond { response: Response::Failure { error, .. } } => {
            assert_eq!(error, ServiceError::WorkspaceError);
        },
        _ => panic!("expected a workspace error"),
    }
}

#[test]
fn persist_failure_is_typed() {
    let (mut p, _) = start(Request::Forward { project: "pa".to_string(), record: record() });
    step(&mut p, Event::DirCreated);
    match step(&mut p, Event::WriteFailed) {
        Action::Respond { response: Response::Failure { error, .. } } => {
            assert_eq!(error, ServiceError::PersistError);
        },
        _ => panic!("expected a persist error"),
    }
}

#[test]
fn error_labels() {
    assert_eq!(ServiceError::ShapeMismatch.label(), "shape mismatch");
    assert_eq!(ServiceError::InvalidProjectName.label(), "invalid project name");
}

#[test]
fn empty_record_document_text() {
    let e = EchoData { input_data: vec![], input_shapes: vec![], output_data: vec![] };
    assert_eq!(
        render_record(&e),
        "{\"input_data\":[],\"input_shapes\":[],\"output_data\":[]}"
    );
}

#[test]
fn contract_data_maps_onto_requests() {
    let d = rpc_server::types::CreateEvmContractData {
        project_name: "p".to_string(),
        echo_data: record(),
        onnx_file_data: "AAAA".to_string(),
    };
    match rpc_server::pipeline::verifier_request(d) {
        Request::GenerateVerifier { project, model_b64, .. } => {
            assert_eq!(project, "p");
            assert_eq!(model_b64, "AAAA");
        },
        _ => panic!("wrong request kind"),
    }
    let d2 = rpc_server::types::CreateEvmContractData {
        project_name: "q".to_string(),
        echo_data: record(),
        onnx_file_data: "aGVsbG8=".to_string(),
    };
    match rpc_server::pipeline::retrieval_request(d2) {
        Request::ProveAndRetrieve { project, model_b64, .. } => {
            assert_eq!(project, "q");
            assert_eq!(model_b64, "aGVsbG8=");
        },
        _ => panic!("wrong request kind"),
    }
}

#[test]
fn settlement_params_carry_fields() {
    let p = VerifyandAwardParams::new("hunt-1".to_string(), "0xabc".to_string(), "0xproof".to_string());
    assert_eq!(p.hunt_id, "hunt-1");
    assert_eq!(p.winner, "0xabc");
    assert_eq!(p.proof, "0xproof");
}
