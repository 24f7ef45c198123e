use rpc_server::config::{
    parse_config, render_config, CheckMode, JobCommand, JobConfig, JobKind, RunParameters,
    StrategyKind, TranscriptKind,
};
use rpc_server::utils::{generate_evm_config_json, generate_genevm_config_json};
use rpc_server::ServiceError;

fn args() -> RunParameters {
    RunParameters {
        tolerance: 0,
        scale: 7,
        bits: 16,
        logrows: 17,
        public_inputs: false,
        public_outputs: true,
        public_params: false,
        check_mode: CheckMode::Unsafe,
        pack_base: 1,
    }
}

fn roundtrip(cfg: JobConfig) -> JobConfig {
    let doc = render_config(&cfg).unwrap();
    let parsed = parse_config(&doc).unwrap();
    let doc2 = render_config(&parsed).unwrap();
    assert_eq!(doc, doc2);
    parsed
}

#[test]
fn forward_config_roundtrip() {
    let cfg = JobConfig {
        command: JobCommand::Forward {
            data: "./data/p/input.json".to_string(),
            model: "./data/p/network.onnx".to_string(),
            output: "./data/p/output.json".to_string(),
        },
        args: args(),
    };
    let parsed = roundtrip(cfg);
    assert_eq!(parsed.kind(), JobKind::Forward);
    match parsed.command {
        JobCommand::Forward { data, model, output } => {
            assert_eq!(data, "./data/p/input.json");
            assert_eq!(model, "./data/p/network.onnx");
            assert_eq!(output, "./data/p/output.json");
        },
        _ => panic!("wrong kind"),
    }
}

#[test]
fn mock_config_roundtrip() {
    let cfg = JobConfig {
        command: JobCommand::Mock {
            data: "in.json".to_string(),
            model: "net.onnx".to_string(),
        },
        args: RunParameters { check_mode: CheckMode::Safe, logrows: 19, ..args() },
    };
    let parsed = roundtrip(cfg);
    assert_eq!(parsed.kind(), JobKind::Mock);
    assert_eq!(parsed.args.check_mode, CheckMode::Safe);
    assert_eq!(parsed.args.logrows, 19);
}

#[test]
fn prove_config_roundtrip() {
    let cfg = JobConfig {
        command: JobCommand::Prove {
            data: "in.json".to_string(),
            model: "net.onnx".to_string(),
            vk_path: "p.vk".to_string(),
            proof_path: "p.pf".to_string(),
            params_path: "kzg.params".to_string(),
            transcript: TranscriptKind::Evm,
            strategy: StrategyKind::Single,
        },
        args: args(),
    };
    let parsed = roundtrip(cfg);
    assert_eq!(parsed.kind(), JobKind::Prove);
}

#[test]
fn prove_config_roundtrip_blake_accum() {
    let cfg = JobConfig {
        command: JobCommand::Prove {
            data: "in.json".to_string(),
            model: "net.onnx".to_string(),
            vk_path: "p.vk".to_string(),
            proof_path: "p.pf".to_string(),
            params_path: "kzg.params".to_string(),
            transcript: TranscriptKind::Blake,
            strategy: StrategyKind::Accum,
        },
        args: RunParameters { public_inputs: true, public_params: true, tolerance: 3, ..args() },
    };
    let parsed = roundtrip(cfg);
    match parsed.command {
        JobCommand::Prove { transcript, strategy, .. } => {
            assert_eq!(transcript, TranscriptKind::Blake);
            assert_eq!(strategy, StrategyKind::Accum);
        },
        _ => panic!("wrong kind"),
    }
    assert_eq!(parsed.args.tolerance, 3);
    assert!(parsed.args.public_inputs);
    assert!(parsed.args.public_params);
}

#[test]
fn genevm_config_roundtrip() {
    let cfg = JobConfig {
        command: JobCommand::CreateEvmVerifier {
            data: "in.json".to_string(),
            model: "net.onnx".to_string(),
            params_path: "kzg.params".to_string(),
            vk_path: "p.vk".to_string(),
            deployment_code_path: "p.code".to_string(),
            sol_code_path: "p.sol".to_string(),
        },
        args: args(),
    };
    let parsed = roundtrip(cfg);
    assert_eq!(parsed.kind(), JobKind::GenerateVerifier);
}

#[test]
fn render_rejects_missing_path() {
    let cfg = JobConfig {
        command: JobCommand::Mock { data: String::new(), model: "net.onnx".to_string() },
        args: args(),
    };
    assert_eq!(render_config(&cfg), Err(ServiceError::SerializationError));
}

#[test]
fn render_rejects_zero_scale() {
    let cfg = JobConfig {
        command: JobCommand::Mock { data: "in.json".to_string(), model: "net.onnx".to_string() },
        args: RunParameters { scale: 0, ..args() },
    };
    assert_eq!(render_config(&cfg), Err(ServiceError::SerializationError));
}

#[test]
fn parse_rejects_garbage() {
    assert!(parse_config("nonsense").is_none());
    assert!(parse_config("").is_none());
    assert!(parse_config("{\"command\":{\"Unknown\":{}}}").is_none());
}

#[test]
fn parse_rejects_oversized_field() {
    let doc = "{\"command\":{\"Mock\":{\"data\":\"a\",\"model\":\"b\"}},\"args\":{\"bits\":4294967296,\"check_mode\":\"UNSAFE\",\"logrows\":17,\"pack_base\":1,\"public_inputs\":false,\"public_outputs\":true,\"public_params\":false,\"scale\":7,\"tolerance\":0}}";
    assert!(parse_config(doc).is_none());
}

#[test]
fn parse_rejects_superfluous_leading_zero() {
    let doc = "{\"command\":{\"Mock\":{\"data\":\"a\",\"model\":\"b\"}},\"args\":{\"bits\":016,\"check_mode\":\"UNSAFE\",\"logrows\":17,\"pack_base\":1,\"public_inputs\":false,\"public_outputs\":true,\"public_params\":false,\"scale\":7,\"tolerance\":0}}";
    assert!(parse_config(doc).is_none());
}

#[test]
fn parse_rejects_trailing_text() {
    let cfg = JobConfig {
        command: JobCommand::Mock { data: "a".to_string(), model: "b".to_string() },
        args: args(),
    };
    let mut doc = render_config(&cfg).unwrap();
    assert!(parse_config(&doc).is_some());
    doc.push(' ');
    assert!(parse_config(&doc).is_none());
}

#[test]
fn evm_config_document_text() {
    let doc = generate_evm_config_json("a", "b", "c", "d");
    assert_eq!(
        doc,
        "{\"command\":{\"Prove\":{\"data\":\"a\",\"model\":\"b\",\"vk_path\":\"c\",\"proof_path\":\"d\",\"params_path\":\"kzg.params\",\"transcript\":\"EVM\",\"strategy\":\"Single\"}},\"args\":{\"bits\":16,\"check_mode\":\"UNSAFE\",\"logrows\":17,\"pack_base\":1,\"public_inputs\":false,\"public_outputs\":true,\"public_params\":false,\"scale\":7,\"tolerance\":0}}"
    );
}

#[test]
fn genevm_config_document_text() {
    let doc = generate_genevm_config_json("a", "b", "c", "d", "e");
    assert_eq!(
        doc,
        "{\"command\":{\"CreateEVMVerifier\":{\"data\":\"a\",\"model\":\"b\",\"params_path\":\"kzg.params\",\"vk_path\":\"c\",\"deployment_code_path\":\"d\",\"sol_code_path\":\"e\"}},\"args\":{\"bits\":16,\"check_mode\":\"UNSAFE\",\"logrows\":17,\"pack_base\":1,\"public_inputs\":false,\"public_outputs\":true,\"public_params\":false,\"scale\":7,\"tolerance\":0}}"
    );
}

#[test]
fn default_parameters_use_the_safe_mode() {
    let p = RunParameters::default();
    assert_eq!(p.check_mode, CheckMode::Safe);
    assert_eq!(p.scale, 7);
    assert_eq!(p.bits, 16);
    assert_eq!(p.logrows, 17);
    assert_eq!(p.tolerance, 0);
}

#[test]
fn server_parameters_use_the_given_row_count() {
    let p = RunParameters::server_args(19);
    assert_eq!(p.logrows, 19);
    assert_eq!(p.check_mode, CheckMode::Unsafe);
    assert!(p.public_outputs);
    assert!(!p.public_inputs);
}

#[test]
fn generated_documents_parse_back() {
    let doc = generate_evm_config_json("in.json", "net.onnx", "p.vk", "p.pf");
    let parsed = parse_config(&doc).unwrap();
    assert_eq!(parsed.kind(), JobKind::Prove);
    let doc2 = generate_genevm_config_json("in.json", "net.onnx", "p.vk", "p.code", "p.sol");
    let parsed2 = parse_config(&doc2).unwrap();
    assert_eq!(parsed2.kind(), JobKind::GenerateVerifier);
}
