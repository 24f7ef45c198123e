//! Stand-alone generators for the two verifier-bound configuration
//! documents, with the fixed per-deployment tuning record baked in.

use vstd::prelude::*;
use vstd::string::*;

use crate::codec::no_quote;
use crate::config::{
    path_ok, render_config, spec_render_config, CheckMode, JobCommand, JobCommandV, JobConfig,
    JobConfigV, RunParameters, StrategyKind, TranscriptKind,
};

verus! {

/// The tuning record both generators emit.
pub open spec fn spec_evm_args() -> RunParameters {
    RunParameters {
        tolerance: 0u32,
        scale: 7u32,
        bits: 16u32,
        logrows: 17u32,
        public_inputs: false,
        public_outputs: true,
        public_params: false,
        check_mode: CheckMode::Unsafe,
        pack_base: 1u32,
    }
}

fn evm_args() -> (r: RunParameters)
    ensures
        r == spec_evm_args(),
{
    RunParameters {
        tolerance: 0,
        scale: 7,
        bits: 16,
        logrows: 17,
        public_inputs: false,
        public_outputs: true,
        public_params: false,
        check_mode: CheckMode::Unsafe,
        pack_base: 1,
    }
}

proof fn lemma_kzg_params_ok()
    ensures
        path_ok("kzg.params"@),
{
    reveal_strlit("kzg.params");
    assert("kzg.params"@ =~= seq!['k', 'z', 'g', '.', 'p', 'a', 'r', 'a', 'm', 's']);
    assert(no_quote("kzg.params"@));
}

/// The proving configuration document of an EVM-bound run: the given
/// paths, the shared parameters file, an EVM transcript and the single
/// strategy, over the fixed tuning record.
///
/// The signature cannot fail, so missing or unembeddable paths are
/// excluded up front (`check_path` tests the condition at runtime); a
/// caller that cannot rule them out uses `render_config`, which reports
/// `SerializationError` on exactly the inputs excluded here.
pub fn generate_evm_config_json(
    input_json_path: &str,
    network_onnx_path: &str,
    vk_path: &str,
    proof_path: &str,
) -> (r: String)
    requires
        path_ok(input_json_path@),
        path_ok(network_onnx_path@),
        path_ok(vk_path@),
        path_ok(proof_path@),
    ensures
        r@ == spec_render_config(
            JobConfigV {
                command: JobCommandV::Prove {
                    data: input_json_path@,
                    model: network_onnx_path@,
                    vk_path: vk_path@,
                    proof_path: proof_path@,
                    params_path: "kzg.params"@,
                    transcript: TranscriptKind::Evm,
                    strategy: StrategyKind::Single,
                },
                args: spec_evm_args(),
            },
        ),
{
    let cfg = JobConfig {
        command: JobCommand::Prove {
            data: String::from_str(input_json_path),
            model: String::from_str(network_onnx_path),
            vk_path: String::from_str(vk_path),
            proof_path: String::from_str(proof_path),
            params_path: String::from_str("kzg.params"),
            transcript: TranscriptKind::Evm,
            strategy: StrategyKind::Single,
        },
        args: evm_args(),
    };
    proof {
        lemma_kzg_params_ok();
    }
    match render_config(&cfg) {
        Ok(s) => s,
        Err(_) => {
            proof {
                assert(false);
            }
            String::new()
        },
    }
}

/// The verifier-generation configuration document: the given paths and
/// the shared parameters file, over the fixed tuning record.
///
/// As with `generate_evm_config_json`, the infallible signature puts
/// the empty-path failure one call down in `render_config`.
pub fn generate_genevm_config_json(
    input_json_path: &str,
    network_onnx_path: &str,
    vk_path: &str,
    deployment_code_path: &str,
    sol_code_path: &str,
) -> (r: String)
    requires
        path_ok(input_json_path@),
        path_ok(network_onnx_path@),
        path_ok(vk_path@),
        path_ok(deployment_code_path@),
        path_ok(sol_code_path@),
    ensures
        r@ == spec_render_config(
            JobConfigV {
                command: JobCommandV::CreateEvmVerifier {
                    data: input_json_path@,
                    model: network_onnx_path@,
                    params_path: "kzg.params"@,
                    vk_path: vk_path@,
                    deployment_code_path: deployment_code_path@,
                    sol_code_path: sol_code_path@,
                },
                args: spec_evm_args(),
            },
        ),
{
    let cfg = JobConfig {
        command: JobCommand::CreateEvmVerifier {
            data: String::from_str(input_json_path),
            model: String::from_str(network_onnx_path),
            params_path: String::from_str("kzg.params"),
            vk_path: String::from_str(vk_path),
            deployment_code_path: String::from_str(deployment_code_path),
            sol_code_path: String::from_str(sol_code_path),
        },
        args: evm_args(),
    };
    proof {
        lemma_kzg_params_ok();
    }
    match render_config(&cfg) {
        Ok(s) => s,
        Err(_) => {
            proof {
                assert(false);
            }
            String::new()
        },
    }
}

} // verus!
