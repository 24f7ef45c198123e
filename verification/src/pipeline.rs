//! The pipeline coordinator: a pure state machine that sequences one
//! request through workspace setup, artifact persistence, configuration
//! rendering, the engine run (or two runs, for verifier generation),
//! judging and response assembly.
//!
//! The library performs no I/O itself.  `start` and `step` hand the
//! embedding program an `Action` to perform — create a directory, write
//! a file, run the engine on a configuration file, read an artifact —
//! and the program feeds the outcome back as an `Event`.  The engine
//! configuration travels as an explicit per-invocation path inside the
//! action, never through shared mutable state, so concurrent pipelines
//! cannot overwrite one another's hand-off.

use vstd::prelude::*;
use vstd::string::*;

use crate::config::{
    spec_render_config, CheckMode, JobCommand, JobCommandV, JobConfig, JobConfigV, RunParameters,
    StrategyKind, TranscriptKind,
};
use crate::config::render_config;
use crate::judge::{copy_rows, evaluate, is_isqrt, sum_sq_diff, JudgeResult, Tensor,
    ACCEPT_THRESHOLD};
use crate::model::{base64_decoding, base64_ok, decode_model};
use crate::record::{spec_render_record, EchoData};
use crate::types::{CreateEvmContractData, ProofData};
use crate::workspace::{
    ensure_project, lemma_workspace_paths_embeddable, spec_base_dir, spec_in_base,
    spec_named_artifact, valid_project_name, WorkspacePaths,
};
use crate::ServiceError;

verus! {

/// The five request kinds the service serves.
#[derive(Clone, Copy, Debug, PartialEq, Eq, Structural)]
pub enum RequestKind {
    Forward,
    Mock,
    Prove,
    GenerateVerifier,
    ProveAndRetrieve,
}

/// Whether a request of this kind carries a model blob to persist.
pub open spec fn has_model(k: RequestKind) -> bool {
    k is GenerateVerifier || k is ProveAndRetrieve
}

/// Whether a request of this kind ends in a judged comparison.
pub open spec fn is_judged(k: RequestKind) -> bool {
    k is Mock || k is Prove
}

/// One incoming request.
pub enum Request {
    Forward { project: String, record: EchoData },
    Mock { project: String, record: EchoData, target: Tensor },
    Prove { project: String, record: EchoData, target: Tensor },
    GenerateVerifier { project: String, model_b64: String, record: EchoData },
    ProveAndRetrieve { project: String, model_b64: String, record: EchoData },
}

impl Request {
    pub open spec fn kind(self) -> RequestKind {
        match self {
            Request::Forward { .. } => RequestKind::Forward,
            Request::Mock { .. } => RequestKind::Mock,
            Request::Prove { .. } => RequestKind::Prove,
            Request::GenerateVerifier { .. } => RequestKind::GenerateVerifier,
            Request::ProveAndRetrieve { .. } => RequestKind::ProveAndRetrieve,
        }
    }

    pub open spec fn project(self) -> Seq<char> {
        match self {
            Request::Forward { project, .. } => project@,
            Request::Mock { project, .. } => project@,
            Request::Prove { project, .. } => project@,
            Request::GenerateVerifier { project, .. } => project@,
            Request::ProveAndRetrieve { project, .. } => project@,
        }
    }

    pub open spec fn record(self) -> crate::record::EchoDataV {
        match self {
            Request::Forward { record, .. } => record@,
            Request::Mock { record, .. } => record@,
            Request::Prove { record, .. } => record@,
            Request::GenerateVerifier { record, .. } => record@,
            Request::ProveAndRetrieve { record, .. } => record@,
        }
    }

    /// The base64 model blob of a model-carrying request; empty for the
    /// kinds that carry none.
    pub open spec fn model_b64(self) -> Seq<char> {
        match self {
            Request::GenerateVerifier { model_b64, .. } => model_b64@,
            Request::ProveAndRetrieve { model_b64, .. } => model_b64@,
            _ => Seq::empty(),
        }
    }

    /// Tensors are within the judge's machine bounds.
    pub open spec fn wf(self) -> bool {
        &&& self.record().wf()
        &&& match self {
            Request::Mock { target, .. } => target.wf(),
            Request::Prove { target, .. } => target.wf(),
            _ => true,
        }
    }
}

/// Maps a contract-data record onto a verifier-generation request.
pub fn verifier_request(d: CreateEvmContractData) -> (r: Request)
    ensures
        r matches Request::GenerateVerifier { project, model_b64, record } && project@
            == d.project_name@ && model_b64@ == d.onnx_file_data@ && record == d.echo_data,
{
    Request::GenerateVerifier {
        project: d.project_name,
        model_b64: d.onnx_file_data,
        record: d.echo_data,
    }
}

/// Maps a contract-data record onto a prove-and-retrieve request.
pub fn retrieval_request(d: CreateEvmContractData) -> (r: Request)
    ensures
        r matches Request::ProveAndRetrieve { project, model_b64, record } && project@
            == d.project_name@ && model_b64@ == d.onnx_file_data@ && record == d.echo_data,
{
    Request::ProveAndRetrieve {
        project: d.project_name,
        model_b64: d.onnx_file_data,
        record: d.echo_data,
    }
}

/// What the embedding program must do next.
pub enum Action {
    /// Create this directory if it is absent; never clear it.
    CreateDir { path: String },
    /// Write this text to this path.
    WriteText { path: String, contents: String },
    /// Write these bytes to this path.
    WriteBytes { path: String, bytes: Vec<u8> },
    /// Run the proving engine on the configuration file at this path.
    RunEngine { config_path: String },
    /// Read the output tensor artifact at this path.
    ReadTensor { path: String },
    /// Read the text artifact at this path.
    ReadText { path: String },
    /// Read the proof artifact at this path.
    ReadProof { path: String },
    /// The pipeline is finished; deliver this response.
    Respond { response: Response },
}

/// The outcome of a performed action.
pub enum Event {
    DirCreated,
    DirFailed,
    Written,
    WriteFailed,
    EngineCompleted,
    EngineFailed { reason: String },
    TensorRead { record: EchoData },
    TextRead { text: String },
    ProofRead { proof: ProofData },
    ReadFailed,
}

/// The terminal answer of one pipeline run.  An engine failure is kept
/// apart from a judged rejection: callers can tell "the engine crashed"
/// from "the output missed the target".
pub enum Response {
    /// The engine's output tensors (a forward run).
    OutputTensor { record: EchoData },
    /// The judged comparison and its distance (a mock or prove run).
    Judged { result: JudgeResult },
    /// The generated verifier contract source.
    VerifierSource { source: String },
    /// The proof artifact with a status text.
    ProofBundle { status: String, proof: ProofData },
    /// A typed failure; `reason` carries the engine's words when the
    /// error is `EngineFailure`, else it is empty.  An artifact that a
    /// completed run should have written but that cannot be read back
    /// also surfaces as `EngineFailure`: the taxonomy has no closer tag
    /// for a missing or malformed engine artifact.
    Failure { error: ServiceError, reason: String },
}

/// Where a pipeline stands.
#[derive(Clone, Copy, Debug, PartialEq, Eq, Structural)]
pub enum Stage {
    CreatingDir,
    WritingModel,
    WritingInput,
    WritingConfig,
    RunningJob,
    WritingSecondConfig,
    RunningSecondJob,
    Reading,
    Done,
}

/// The stages at which a given request kind can stand.
pub open spec fn stage_ok(k: RequestKind, st: Stage) -> bool {
    match st {
        Stage::WritingModel => has_model(k),
        Stage::WritingSecondConfig => k is GenerateVerifier,
        Stage::RunningSecondJob => k is GenerateVerifier,
        Stage::Reading => k is Forward || k is GenerateVerifier || k is ProveAndRetrieve,
        _ => true,
    }
}

/// The events a stage can answer to, for a given request kind.
pub open spec fn stage_accepts(k: RequestKind, st: Stage, ev: Event) -> bool {
    match st {
        Stage::CreatingDir => ev is DirCreated || ev is DirFailed,
        Stage::WritingModel => ev is Written || ev is WriteFailed,
        Stage::WritingInput => ev is Written || ev is WriteFailed,
        Stage::WritingConfig => ev is Written || ev is WriteFailed,
        Stage::RunningJob => ev is EngineCompleted || ev is EngineFailed,
        Stage::WritingSecondConfig => ev is Written || ev is WriteFailed,
        Stage::RunningSecondJob => ev is EngineCompleted || ev is EngineFailed,
        Stage::Reading => match k {
            RequestKind::Forward => ev is TensorRead || ev is ReadFailed,
            RequestKind::GenerateVerifier => ev is TextRead || ev is ReadFailed,
            RequestKind::ProveAndRetrieve => ev is ProofRead || ev is ReadFailed,
            _ => false,
        },
        Stage::Done => false,
    }
}

/// The stage the pipeline moves to on an event.
pub open spec fn spec_next_stage(k: RequestKind, st: Stage, ev: Event) -> Stage {
    match st {
        Stage::CreatingDir => match ev {
            Event::DirCreated => if has_model(k) {
                Stage::WritingModel
            } else {
                Stage::WritingInput
            },
            _ => Stage::Done,
        },
        Stage::WritingModel => match ev {
            Event::Written => Stage::WritingInput,
            _ => Stage::Done,
        },
        Stage::WritingInput => match ev {
            Event::Written => Stage::WritingConfig,
            _ => Stage::Done,
        },
        Stage::WritingConfig => match ev {
            Event::Written => Stage::RunningJob,
            _ => Stage::Done,
        },
        Stage::RunningJob => match ev {
            Event::EngineCompleted => match k {
                RequestKind::Forward => Stage::Reading,
                RequestKind::Mock => Stage::Done,
                RequestKind::Prove => Stage::Done,
                RequestKind::GenerateVerifier => Stage::WritingSecondConfig,
                RequestKind::ProveAndRetrieve => Stage::Reading,
            },
            _ => Stage::Done,
        },
        Stage::WritingSecondConfig => match ev {
            Event::Written => Stage::RunningSecondJob,
            _ => Stage::Done,
        },
        Stage::RunningSecondJob => match ev {
            Event::EngineCompleted => Stage::Reading,
            _ => Stage::Done,
        },
        Stage::Reading => Stage::Done,
        Stage::Done => Stage::Done,
    }
}

/// Whether answering (stage, event) starts an engine run.  An engine run
/// starts only when a configuration was just persisted.
pub open spec fn emits_engine_run(k: RequestKind, st: Stage, ev: Event) -> bool {
    match st {
        Stage::WritingConfig => ev is Written,
        Stage::WritingSecondConfig => ev is Written,
        _ => false,
    }
}

/// PIPELINE ORDERING LAW: when the first (prove) run of a
/// verifier-generation pipeline fails, the pipeline is done and the
/// answer to that failure starts no engine run; and a finished pipeline
/// accepts no further event at all (`step` demands an unfinished one),
/// so the second (verifier-generation) run never happens.
pub proof fn lemma_prove_failure_stops_generate_verifier(ev: Event)
    requires
        ev is EngineFailed,
    ensures
        spec_next_stage(RequestKind::GenerateVerifier, Stage::RunningJob, ev) is Done,
        !emits_engine_run(RequestKind::GenerateVerifier, Stage::RunningJob, ev),
        forall|e: Event| !stage_accepts(RequestKind::GenerateVerifier, Stage::Done, e),
{
}

/// EARLY-FAILURE LAW: a failed directory creation or a failed write
/// finishes the pipeline at once and never starts an engine run — any
/// I/O failure before the job executes aborts without invoking the
/// engine.
pub proof fn lemma_early_failure_aborts(k: RequestKind, st: Stage, ev: Event)
    requires
        ev is DirFailed || ev is WriteFailed,
    ensures
        !emits_engine_run(k, st, ev),
        spec_next_stage(k, st, ev) is Done,
{
}

/// The tuning record used for a kind's jobs: the fixed per-deployment
/// configuration; verifier-bound runs use the smaller row count.
pub open spec fn spec_args_for(k: RequestKind) -> RunParameters {
    RunParameters {
        tolerance: 0u32,
        scale: 7u32,
        bits: 16u32,
        logrows: if has_model(k) {
            17u32
        } else {
            19u32
        },
        public_inputs: false,
        public_outputs: true,
        public_params: false,
        check_mode: CheckMode::Unsafe,
        pack_base: 1u32,
    }
}

/// The configuration of a kind's first engine run, as a function of the
/// project name alone.
pub open spec fn spec_first_config(k: RequestKind, name: Seq<char>) -> JobConfigV {
    let data = spec_in_base(name, "input.json"@);
    let model = spec_in_base(name, "network.onnx"@);
    let command = match k {
        RequestKind::Forward => JobCommandV::Forward {
            data,
            model,
            output: spec_in_base(name, "output.json"@),
        },
        RequestKind::Mock => JobCommandV::Mock { data, model },
        _ => JobCommandV::Prove {
            data,
            model,
            vk_path: spec_named_artifact(name, ".vk"@),
            proof_path: spec_named_artifact(name, ".pf"@),
            params_path: "kzg.params"@,
            transcript: TranscriptKind::Evm,
            strategy: StrategyKind::Single,
        },
    };
    JobConfigV { command, args: spec_args_for(k) }
}

/// The configuration of the second engine run of a verifier-generation
/// pipeline.
pub open spec fn spec_second_config(name: Seq<char>) -> JobConfigV {
    JobConfigV {
        command: JobCommandV::CreateEvmVerifier {
            data: spec_in_base(name, "input.json"@),
            model: spec_in_base(name, "network.onnx"@),
            params_path: "kzg.params"@,
            vk_path: spec_named_artifact(name, ".vk"@),
            deployment_code_path: spec_named_artifact(name, ".code"@),
            sol_code_path: spec_named_artifact(name, ".sol"@),
        },
        args: spec_args_for(RequestKind::GenerateVerifier),
    }
}

/// The configuration file a kind's first run is rendered to.
pub open spec fn spec_first_cfg_path(k: RequestKind, name: Seq<char>) -> Seq<char> {
    match k {
        RequestKind::Forward => spec_in_base(name, "forward_"@ + name + ".json"@),
        RequestKind::Mock => spec_in_base(name, "mock_"@ + name + ".json"@),
        _ => spec_in_base(name, "prove_"@ + name + ".json"@),
    }
}

/// One request in flight.
pub struct Pipeline {
    pub kind: RequestKind,
    pub stage: Stage,
    pub project: String,
    pub paths: WorkspacePaths,
    pub record: EchoData,
    /// The tensor the judge compares: the record's declared output.
    pub observed: Option<Tensor>,
    /// The caller-supplied target tensor, for judged kinds.
    pub target: Option<Tensor>,
    /// The decoded model bytes, for model-carrying kinds.
    pub model: Option<Vec<u8>>,
}

impl Pipeline {
    pub open spec fn wf(self) -> bool {
        &&& valid_project_name(self.project@)
        &&& self.paths.is_for(self.project@)
        &&& self.record@.wf()
        &&& stage_ok(self.kind, self.stage)
        &&& is_judged(self.kind) ==> {
            &&& self.observed matches Some(o) && o.wf() && o.row0() == row0_of(
                self.record@.output_data,
            )
            &&& self.target matches Some(t) && t.wf()
        }
        &&& has_model(self.kind) ==> self.model is Some
    }
}

/// The first row of a block of rows; an absent first row counts empty.
pub open spec fn row0_of(rs: Seq<Seq<i64>>) -> Seq<i64> {
    if rs.len() > 0 {
        rs[0]
    } else {
        Seq::empty()
    }
}

/// Builds the executable configuration of a kind's first engine run.
fn first_config(k: RequestKind, w: &WorkspacePaths) -> (r: JobConfig)
    requires
        exists|name: Seq<char>| w.is_for(name),
    ensures
        forall|name: Seq<char>| w.is_for(name) ==> r@ == spec_first_config(k, name),
{
    let args = RunParameters {
        tolerance: 0,
        scale: 7,
        bits: 16,
        logrows: match k {
            RequestKind::GenerateVerifier => 17,
            RequestKind::ProveAndRetrieve => 17,
            _ => 19,
        },
        public_inputs: false,
        public_outputs: true,
        public_params: false,
        check_mode: CheckMode::Unsafe,
        pack_base: 1,
    };
    let command = match k {
        RequestKind::Forward => JobCommand::Forward {
            data: w.input_json.clone(),
            model: w.network_onnx.clone(),
            output: w.output_json.clone(),
        },
        RequestKind::Mock => JobCommand::Mock {
            data: w.input_json.clone(),
            model: w.network_onnx.clone(),
        },
        _ => JobCommand::Prove {
            data: w.input_json.clone(),
            model: w.network_onnx.clone(),
            vk_path: w.vk.clone(),
            proof_path: w.proof.clone(),
            params_path: w.params.clone(),
            transcript: TranscriptKind::Evm,
            strategy: StrategyKind::Single,
        },
    };
    JobConfig { command, args }
}

/// Builds the executable configuration of the second engine run of a
/// verifier-generation pipeline.
fn second_config(w: &WorkspacePaths) -> (r: JobConfig)
    requires
        exists|name: Seq<char>| w.is_for(name),
    ensures
        forall|name: Seq<char>| w.is_for(name) ==> r@ == spec_second_config(name),
{
    JobConfig {
        command: JobCommand::CreateEvmVerifier {
            data: w.input_json.clone(),
            model: w.network_onnx.clone(),
            params_path: w.params.clone(),
            vk_path: w.vk.clone(),
            deployment_code_path: w.deployment_code.clone(),
            sol_code_path: w.sol_code.clone(),
        },
        args: RunParameters {
            tolerance: 0,
            scale: 7,
            bits: 16,
            logrows: 17,
            public_inputs: false,
            public_outputs: true,
            public_params: false,
            check_mode: CheckMode::Unsafe,
            pack_base: 1,
        },
    }
}

/// Renders a configuration that is known to be well formed.
fn render_wf_config(c: &JobConfig) -> (r: String)
    requires
        c@.wf(),
    ensures
        r@ == spec_render_config(c@),
{
    match render_config(c) {
        Ok(s) => s,
        Err(_) => {
            proof {
                assert(false);
            }
            String::new()
        },
    }
}

fn fail(error: ServiceError) -> (a: Action)
    ensures
        a matches Action::Respond { response: Response::Failure { error: e, reason } } && e
            == error && reason@ =~= Seq::<char>::empty(),
{
    let reason = String::new();
    Action::Respond { response: Response::Failure { error, reason } }
}

/// Takes in a request: validates the project name, decodes the model
/// blob if the kind carries one, and either finishes at once with a
/// typed failure or hands back the pipeline and its first action, the
/// workspace-directory creation.  No filesystem action is emitted for an
/// invalid project name, a model blob is rejected exactly when it is
/// not valid base64, and on every other request the pipeline starts.
pub fn start(req: Request) -> (r: (Pipeline, Action))
    requires
        req.wf(),
    ensures
        !valid_project_name(req.project()) ==> (r.0.stage is Done && (
        r.1 matches Action::Respond {
            response: Response::Failure { error: ServiceError::InvalidProjectName, .. },
        })),
        valid_project_name(req.project()) && has_model(req.kind()) && !base64_ok(
            req.model_b64(),
        ) ==> (r.0.stage is Done && (r.1 matches Action::Respond {
            response: Response::Failure { error: ServiceError::InvalidModelEncoding, .. },
        })),
        valid_project_name(req.project()) && (has_model(req.kind()) ==> base64_ok(
            req.model_b64(),
        )) ==> {
            &&& r.0.stage is CreatingDir
            &&& r.0.wf()
            &&& r.0.kind == req.kind()
            &&& r.0.project@ == req.project()
            &&& r.0.record@ == req.record()
            &&& (r.1 matches Action::CreateDir { path } && path@ == spec_base_dir(
                req.project(),
            ))
            &&& has_model(req.kind()) ==> (r.0.model matches Some(m) && m@ == base64_decoding(
                req.model_b64(),
            ))
            &&& match req {
                Request::Mock { target, .. } => r.0.target == Some(target),
                Request::Prove { target, .. } => r.0.target == Some(target),
                _ => true,
            }
        },
{
    let (project, record, target, model_b64, kind): (
        String,
        EchoData,
        Option<Tensor>,
        Option<String>,
        RequestKind,
    ) = match req {
        Request::Forward { project, record } => (project, record, None, None, RequestKind::Forward),
        Request::Mock { project, record, target } => (
            project,
            record,
            Some(target),
            None,
            RequestKind::Mock,
        ),
        Request::Prove { project, record, target } => (
            project,
            record,
            Some(target),
            None,
            RequestKind::Prove,
        ),
        Request::GenerateVerifier { project, model_b64, record } => (
            project,
            record,
            None,
            Some(model_b64),
            RequestKind::GenerateVerifier,
        ),
        Request::ProveAndRetrieve { project, model_b64, record } => (
            project,
            record,
            None,
            Some(model_b64),
            RequestKind::ProveAndRetrieve,
        ),
    };
    let paths = match ensure_project(project.as_str()) {
        Ok(w) => w,
        Err(e) => {
            let p = Pipeline {
                kind,
                stage: Stage::Done,
                project,
                paths: WorkspacePaths {
                    base_dir: String::new(),
                    input_json: String::new(),
                    output_json: String::new(),
                    network_onnx: String::new(),
                    vk: String::new(),
                    proof: String::new(),
                    sol_code: String::new(),
                    deployment_code: String::new(),
                    params: String::new(),
                    cfg_forward: String::new(),
                    cfg_mock: String::new(),
                    cfg_prove: String::new(),
                    cfg_genevm: String::new(),
                },
                record,
                observed: None,
                target,
                model: None,
            };
            return (p, fail(e));
        },
    };
    let model: Option<Vec<u8>> = match &model_b64 {
        Some(b64) => match decode_model(b64.as_str()) {
            Ok(m) => Some(m),
            Err(e) => {
                let p = Pipeline {
                    kind,
                    stage: Stage::Done,
                    project,
                    paths,
                    record,
                    observed: None,
                    target,
                    model: None,
                };
                return (p, fail(e));
            },
        },
        None => None,
    };
    let observed: Option<Tensor> = match kind {
        RequestKind::Mock | RequestKind::Prove => {
            let data = copy_rows(&record.output_data);
            proof {
                assert(record@.output_data.len() == record.output_data@.len());
                if record.output_data@.len() > 0 {
                    assert(record@.output_data[0] == record.output_data@[0]@);
                }
            }
            Some(Tensor { data, shape: Vec::new() })
        },
        _ => None,
    };
    let dir = paths.base_dir.clone();
    let p = Pipeline { kind, stage: Stage::CreatingDir, project, paths, record, observed, target, model };
    proof {
        if is_judged(p.kind) {
            let o = p.observed->Some_0;
            assert(p.record@.output_data.len() == p.record.output_data@.len());
            if p.record.output_data@.len() > 0 {
                assert(p.record@.output_data[0] == p.record.output_data@[0]@);
            }
            assert(o.row0() == row0_of(p.record@.output_data));
            assert forall|i: int| 0 <= i < o.data@.len() implies crate::judge::row_wf(
                #[trigger] o.data@[i]@,
            ) by {
                assert(o.data@[i]@ == p.record.output_data@[i]@);
                assert(p.record@.output_data[i] == p.record.output_data@[i]@);
                assert(crate::record::rows_wf(p.record@.output_data));
                assert(crate::judge::row_wf(p.record@.output_data[i]));
            }
            assert(o.wf());
        }
    }
    (p, Action::CreateDir { path: dir })
}

/// Answers one event: moves the pipeline one stage on and emits the next
/// action.  The whole transition table stands in the contract: which
/// stage follows, when an engine run starts, what is written where, and
/// what the terminal response is.
pub fn step(self_: &mut Pipeline, ev: Event) -> (a: Action)
    requires
        old(self_).wf(),
        !(old(self_).stage is Done),
        stage_accepts(old(self_).kind, old(self_).stage, ev),
    ensures
        final(self_).wf(),
        final(self_).kind == old(self_).kind,
        final(self_).project == old(self_).project,
        final(self_).paths == old(self_).paths,
        final(self_).record == old(self_).record,
        final(self_).observed == old(self_).observed,
        final(self_).target == old(self_).target,
        final(self_).model == old(self_).model,
        final(self_).stage == spec_next_stage(old(self_).kind, old(self_).stage, ev),
        (a is RunEngine) == emits_engine_run(old(self_).kind, old(self_).stage, ev),
        // directory created: persist the model, or the input record
        old(self_).stage is CreatingDir && ev is DirCreated ==> (if has_model(old(self_).kind) {
            a matches Action::WriteBytes { path, bytes } && path@ == spec_in_base(
                old(self_).project@,
                "network.onnx"@,
            ) && (old(self_).model matches Some(m) && bytes@ == m@)
        } else {
            a matches Action::WriteText { path, contents } && path@ == spec_in_base(
                old(self_).project@,
                "input.json"@,
            ) && contents@ == spec_render_record(old(self_).record@)
        }),
        old(self_).stage is CreatingDir && ev is DirFailed ==> (a matches Action::Respond {
            response: Response::Failure { error: ServiceError::WorkspaceError, .. },
        }),
        // model persisted: persist the input record
        old(self_).stage is WritingModel && ev is Written ==> (a matches Action::WriteText {
            path,
            contents,
        } && path@ == spec_in_base(old(self_).project@, "input.json"@) && contents@
            == spec_render_record(old(self_).record@)),
        // input persisted: render and persist the first configuration
        old(self_).stage is WritingInput && ev is Written ==> (a matches Action::WriteText {
            path,
            contents,
        } && path@ == spec_first_cfg_path(old(self_).kind, old(self_).project@) && contents@
            == spec_render_config(spec_first_config(old(self_).kind, old(self_).project@))),
        // configuration persisted: run the engine on it
        old(self_).stage is WritingConfig && ev is Written ==> (a matches Action::RunEngine {
            config_path,
        } && config_path@ == spec_first_cfg_path(old(self_).kind, old(self_).project@)),
        // write failures are typed persist errors
        (old(self_).stage is WritingModel || old(self_).stage is WritingInput || old(
            self_,
        ).stage is WritingConfig || old(self_).stage is WritingSecondConfig) && ev is WriteFailed
            ==> (a matches Action::Respond {
            response: Response::Failure { error: ServiceError::PersistError, .. },
        }),
        // an engine failure ends the pipeline with a typed failure that
        // carries the engine's reason; it is never judged
        (old(self_).stage is RunningJob || old(self_).stage is RunningSecondJob) ==> match ev {
            Event::EngineFailed { reason } => a matches Action::Respond {
                response: Response::Failure { error: ServiceError::EngineFailure, reason: r2 },
            } && r2@ == reason@,
            _ => true,
        },
        // first run completed
        old(self_).stage is RunningJob && ev is EngineCompleted ==> match old(self_).kind {
            RequestKind::Forward => a matches Action::ReadTensor { path } && path@ == spec_in_base(
                old(self_).project@,
                "output.json"@,
            ),
            RequestKind::Mock | RequestKind::Prove => ({
                let obs = row0_of(old(self_).record@.output_data);
                let tgt = old(self_).target->Some_0.row0();
                if obs.len() == tgt.len() {
                    a matches Action::Respond { response: Response::Judged { result } } && is_isqrt(
                        sum_sq_diff(obs, tgt),
                        result.distance as int,
                    ) && result.accept == (result.distance < ACCEPT_THRESHOLD)
                } else {
                    a matches Action::Respond {
                        response: Response::Failure { error: ServiceError::ShapeMismatch, .. },
                    }
                }
            }),
            RequestKind::GenerateVerifier => a matches Action::WriteText { path, contents }
                && path@ == spec_in_base(
                old(self_).project@,
                "genevm_"@ + old(self_).project@ + ".json"@,
            ) && contents@ == spec_render_config(spec_second_config(old(self_).project@)),
            RequestKind::ProveAndRetrieve => a matches Action::ReadProof { path } && path@
                == spec_named_artifact(old(self_).project@, ".pf"@),
        },
        // second configuration persisted: run the engine on it
        old(self_).stage is WritingSecondConfig && ev is Written ==> (a matches Action::RunEngine {
            config_path,
        } && config_path@ == spec_in_base(
            old(self_).project@,
            "genevm_"@ + old(self_).project@ + ".json"@,
        )),
        // second run completed: read the generated source back
        old(self_).stage is RunningSecondJob && ev is EngineCompleted ==> (
        a matches Action::ReadText { path } && path@ == spec_named_artifact(
            old(self_).project@,
            ".sol"@,
        )),
        // artifacts read back verbatim
        old(self_).stage is Reading ==> match ev {
            Event::TensorRead { record } => a == Action::Respond {
                response: Response::OutputTensor { record },
            },
            Event::TextRead { text } => a == Action::Respond {
                response: Response::VerifierSource { source: text },
            },
            Event::ProofRead { proof } => a matches Action::Respond {
                response: Response::ProofBundle { status, proof: pf },
            } && pf == proof && status@ == "completed"@,
            _ => a matches Action::Respond {
                response: Response::Failure { error: ServiceError::EngineFailure, .. },
            },
        },
{
    proof {
        lemma_workspace_paths_embeddable(self_.project@);
    }
    match self_.stage {
        Stage::CreatingDir => match ev {
            Event::DirCreated => {
                let carries_model = match self_.kind {
                    RequestKind::GenerateVerifier => true,
                    RequestKind::ProveAndRetrieve => true,
                    _ => false,
                };
                if carries_model {
                    let bytes = match &self_.model {
                        Some(m) => copy_bytes(m),
                        None => {
                            proof {
                                assert(false);
                            }
                            Vec::new()
                        },
                    };
                    self_.stage = Stage::WritingModel;
                    Action::WriteBytes { path: self_.paths.network_onnx.clone(), bytes }
                } else {
                    self_.stage = Stage::WritingInput;
                    let contents = crate::record::render_record(&self_.record);
                    Action::WriteText { path: self_.paths.input_json.clone(), contents }
                }
            },
            _ => {
                self_.stage = Stage::Done;
                fail(ServiceError::WorkspaceError)
            },
        },
        Stage::WritingModel => match ev {
            Event::Written => {
                self_.stage = Stage::WritingInput;
                let contents = crate::record::render_record(&self_.record);
                Action::WriteText { path: self_.paths.input_json.clone(), contents }
            },
            _ => {
                self_.stage = Stage::Done;
                fail(ServiceError::PersistError)
            },
        },
        Stage::WritingInput => match ev {
            Event::Written => {
                self_.stage = Stage::WritingConfig;
                let cfg = first_config(self_.kind, &self_.paths);
                proof {
                    assert(cfg@ == spec_first_config(self_.kind, self_.project@));
                }
                let contents = render_wf_config(&cfg);
                let path = match self_.kind {
                    RequestKind::Forward => self_.paths.cfg_forward.clone(),
                    RequestKind::Mock => self_.paths.cfg_mock.clone(),
                    _ => self_.paths.cfg_prove.clone(),
                };
                Action::WriteText { path, contents }
            },
            _ => {
                self_.stage = Stage::Done;
                fail(ServiceError::PersistError)
            },
        },
        Stage::WritingConfig => match ev {
            Event::Written => {
                self_.stage = Stage::RunningJob;
                let config_path = match self_.kind {
                    RequestKind::Forward => self_.paths.cfg_forward.clone(),
                    RequestKind::Mock => self_.paths.cfg_mock.clone(),
                    _ => self_.paths.cfg_prove.clone(),
                };
                Action::RunEngine { config_path }
            },
            _ => {
                self_.stage = Stage::Done;
                fail(ServiceError::PersistError)
            },
        },
        Stage::RunningJob => match ev {
            Event::EngineCompleted => match self_.kind {
                RequestKind::Forward => {
                    self_.stage = Stage::Reading;
                    Action::ReadTensor { path: self_.paths.output_json.clone() }
                },
                RequestKind::Mock | RequestKind::Prove => {
                    self_.stage = Stage::Done;
                    let obs = match &self_.observed {
                        Some(o) => o,
                        None => {
                            proof {
                                assert(false);
                            }
                            return fail(ServiceError::ShapeMismatch);
                        },
                    };
                    let tgt = match &self_.target {
                        Some(t) => t,
                        None => {
                            proof {
                                assert(false);
                            }
                            return fail(ServiceError::ShapeMismatch);
                        },
                    };
                    match evaluate(obs, tgt, ACCEPT_THRESHOLD) {
                        Ok(result) => Action::Respond {
                            response: Response::Judged { result },
                        },
                        Err(e) => fail(e),
                    }
                },
                RequestKind::GenerateVerifier => {
                    self_.stage = Stage::WritingSecondConfig;
                    let cfg = second_config(&self_.paths);
                    proof {
                        assert(cfg@ == spec_second_config(self_.project@));
                    }
                    let contents = render_wf_config(&cfg);
                    Action::WriteText { path: self_.paths.cfg_genevm.clone(), contents }
                },
                RequestKind::ProveAndRetrieve => {
                    self_.stage = Stage::Reading;
                    Action::ReadProof { path: self_.paths.proof.clone() }
                },
            },
            Event::EngineFailed { reason } => {
                self_.stage = Stage::Done;
                Action::Respond {
                    response: Response::Failure { error: ServiceError::EngineFailure, reason },
                }
            },
            _ => {
                self_.stage = Stage::Done;
                fail(ServiceError::EngineFailure)
            },
        },
        Stage::WritingSecondConfig => match ev {
            Event::Written => {
                self_.stage = Stage::RunningSecondJob;
                Action::RunEngine { config_path: self_.paths.cfg_genevm.clone() }
            },
            _ => {
                self_.stage = Stage::Done;
                fail(ServiceError::PersistError)
            },
        },
        Stage::RunningSecondJob => match ev {
            Event::EngineCompleted => {
                self_.stage = Stage::Reading;
                Action::ReadText { path: self_.paths.sol_code.clone() }
            },
            Event::EngineFailed { reason } => {
                self_.stage = Stage::Done;
                Action::Respond {
                    response: Response::Failure { error: ServiceError::EngineFailure, reason },
                }
            },
            _ => {
                self_.stage = Stage::Done;
                fail(ServiceError::EngineFailure)
            },
        },
        Stage::Reading => {
            self_.stage = Stage::Done;
            match ev {
                Event::TensorRead { record } => Action::Respond {
                    response: Response::OutputTensor { record },
                },
                Event::TextRead { text } => Action::Respond {
                    response: Response::VerifierSource { source: text },
                },
                Event::ProofRead { proof } => Action::Respond {
                    response: Response::ProofBundle { status: String::from_str("completed"), proof },
                },
                _ => fail(ServiceError::EngineFailure),
            }
        },
        Stage::Done => {
            proof {
                assert(false);
            }
            fail(ServiceError::EngineFailure)
        },
    }
}

/// A byte-for-byte copy.
fn copy_bytes(v: &Vec<u8>) -> (r: Vec<u8>)
    ensures
        r@ == v@,
{
    let mut out: Vec<u8> = Vec::new();
    let mut i: usize = 0;
    while i < v.len()
        invariant
            0 <= i <= v@.len(),
            out@ == v@.take(i as int),
        decreases v@.len() - i,
    {
        out.push(v[i]);
        proof {
            assert(out@ =~= v@.take(i as int + 1));
        }
        i += 1;
    }
    proof {
        assert(v@.take(v@.len() as int) =~= v@);
    }
    out
}

} // verus!
