//! Typed job configurations and their on-disk document format.
//!
//! A `JobConfig` pairs a kind-specific command (the paths the proving
//! engine reads and writes) with the numeric tuning record shared by all
//! job kinds.  `render_config` turns it into the configuration document
//! the engine consumes; `parse_config` reads such a document back.  The
//! two are proved inverse on well-formed configurations.

use vstd::prelude::*;
use vstd::string::*;

use crate::codec::{
    check_no_quote, expect_at, lemma_eat_lit, lemma_eat_lit_mismatch, lemma_eat_lit_sound,
    lemma_scan_num, lemma_scan_num_sound, lemma_scan_q, lemma_scan_q_sound, no_quote, push_digits,
    scan_num_at, scan_quote_at, sp_eat_lit, sp_scan_num, sp_scan_q, spec_digits,
};
use crate::ServiceError;

verus! {

/// The closed enumeration of job kinds.
#[derive(Clone, Copy, Debug, PartialEq, Eq, Structural)]
pub enum JobKind {
    Forward,
    Mock,
    Prove,
    GenerateVerifier,
}

/// Whether the engine runs its numeric checks in safe or unsafe mode;
/// exactly one mode is active at a time.
#[derive(Clone, Copy, Debug, PartialEq, Eq, Structural)]
pub enum CheckMode {
    Safe,
    Unsafe,
}

/// The challenge-generation scheme used to make a proof non-interactive.
#[derive(Clone, Copy, Debug, PartialEq, Eq, Structural)]
pub enum TranscriptKind {
    Evm,
    Blake,
}

/// Single proofs or batched accumulation.
#[derive(Clone, Copy, Debug, PartialEq, Eq, Structural)]
pub enum StrategyKind {
    Single,
    Accum,
}

/// The immutable numeric tuning record shared by all job kinds.
#[derive(Clone, Copy, Debug, PartialEq, Eq, Structural)]
pub struct RunParameters {
    pub tolerance: u32,
    pub scale: u32,
    pub bits: u32,
    pub logrows: u32,
    pub public_inputs: bool,
    pub public_outputs: bool,
    pub public_params: bool,
    pub check_mode: CheckMode,
    pub pack_base: u32,
}

impl RunParameters {
    /// Scale, bit width and row count must be positive.
    pub open spec fn wf(self) -> bool {
        self.scale >= 1 && self.bits >= 1 && self.logrows >= 1
    }

    /// The tuning record the service uses for its own jobs: the fixed
    /// per-deployment configuration, parameterized by the row count.
    pub fn server_args(logrows: u32) -> (r: RunParameters)
        ensures
            r == (RunParameters {
                tolerance: 0u32,
                scale: 7u32,
                bits: 16u32,
                logrows: logrows,
                public_inputs: false,
                public_outputs: true,
                public_params: false,
                check_mode: CheckMode::Unsafe,
                pack_base: 1u32,
            }),
    {
        RunParameters {
            tolerance: 0,
            scale: 7,
            bits: 16,
            logrows,
            public_inputs: false,
            public_outputs: true,
            public_params: false,
            check_mode: CheckMode::Unsafe,
            pack_base: 1,
        }
    }
}

impl Default for RunParameters {
    /// When a variant omits the safety-check mode, the stricter (safe)
    /// mode is assumed.
    fn default() -> (r: Self)
        ensures
            r == (RunParameters {
                tolerance: 0u32,
                scale: 7u32,
                bits: 16u32,
                logrows: 17u32,
                public_inputs: false,
                public_outputs: true,
                public_params: false,
                check_mode: CheckMode::Safe,
                pack_base: 1u32,
            }),
    {
        RunParameters {
            tolerance: 0,
            scale: 7,
            bits: 16,
            logrows: 17,
            public_inputs: false,
            public_outputs: true,
            public_params: false,
            check_mode: CheckMode::Safe,
            pack_base: 1,
        }
    }
}

/// The kind-specific path set of a job.
pub enum JobCommand {
    Forward { data: String, model: String, output: String },
    Mock { data: String, model: String },
    Prove {
        data: String,
        model: String,
        vk_path: String,
        proof_path: String,
        params_path: String,
        transcript: TranscriptKind,
        strategy: StrategyKind,
    },
    CreateEvmVerifier {
        data: String,
        model: String,
        params_path: String,
        vk_path: String,
        deployment_code_path: String,
        sol_code_path: String,
    },
}

/// The mathematical model of a `JobCommand`: the same shape over
/// character sequences.
pub enum JobCommandV {
    Forward { data: Seq<char>, model: Seq<char>, output: Seq<char> },
    Mock { data: Seq<char>, model: Seq<char> },
    Prove {
        data: Seq<char>,
        model: Seq<char>,
        vk_path: Seq<char>,
        proof_path: Seq<char>,
        params_path: Seq<char>,
        transcript: TranscriptKind,
        strategy: StrategyKind,
    },
    CreateEvmVerifier {
        data: Seq<char>,
        model: Seq<char>,
        params_path: Seq<char>,
        vk_path: Seq<char>,
        deployment_code_path: Seq<char>,
        sol_code_path: Seq<char>,
    },
}

impl View for JobCommand {
    type V = JobCommandV;

    open spec fn view(&self) -> JobCommandV {
        match self {
            JobCommand::Forward { data, model, output } => JobCommandV::Forward {
                data: data@,
                model: model@,
                output: output@,
            },
            JobCommand::Mock { data, model } => JobCommandV::Mock { data: data@, model: model@ },
            JobCommand::Prove { data, model, vk_path, proof_path, params_path, transcript, strategy } => JobCommandV::Prove {
                data: data@,
                model: model@,
                vk_path: vk_path@,
                proof_path: proof_path@,
                params_path: params_path@,
                transcript: *transcript,
                strategy: *strategy,
            },
            JobCommand::CreateEvmVerifier {
                data,
                model,
                params_path,
                vk_path,
                deployment_code_path,
                sol_code_path,
            } => JobCommandV::CreateEvmVerifier {
                data: data@,
                model: model@,
                params_path: params_path@,
                vk_path: vk_path@,
                deployment_code_path: deployment_code_path@,
                sol_code_path: sol_code_path@,
            },
        }
    }
}

/// A path embedded in a document must be present and quote free.
pub open spec fn path_ok(p: Seq<char>) -> bool {
    p.len() > 0 && no_quote(p)
}

impl JobCommandV {
    pub open spec fn kind(self) -> JobKind {
        match self {
            JobCommandV::Forward { .. } => JobKind::Forward,
            JobCommandV::Mock { .. } => JobKind::Mock,
            JobCommandV::Prove { .. } => JobKind::Prove,
            JobCommandV::CreateEvmVerifier { .. } => JobKind::GenerateVerifier,
        }
    }

    /// Every path required by the kind is present and embeddable.
    pub open spec fn wf(self) -> bool {
        match self {
            JobCommandV::Forward { data, model, output } => path_ok(data) && path_ok(model)
                && path_ok(output),
            JobCommandV::Mock { data, model } => path_ok(data) && path_ok(model),
            JobCommandV::Prove { data, model, vk_path, proof_path, params_path, .. } => path_ok(
                data,
            ) && path_ok(model) && path_ok(vk_path) && path_ok(proof_path) && path_ok(params_path),
            JobCommandV::CreateEvmVerifier {
                data,
                model,
                params_path,
                vk_path,
                deployment_code_path,
                sol_code_path,
            } => path_ok(data) && path_ok(model) && path_ok(params_path) && path_ok(vk_path)
                && path_ok(deployment_code_path) && path_ok(sol_code_path),
        }
    }
}

/// A job configuration: a command and the shared tuning record.
pub struct JobConfig {
    pub command: JobCommand,
    pub args: RunParameters,
}

pub struct JobConfigV {
    pub command: JobCommandV,
    pub args: RunParameters,
}

impl View for JobConfig {
    type V = JobConfigV;

    open spec fn view(&self) -> JobConfigV {
        JobConfigV { command: self.command@, args: self.args }
    }
}

impl JobConfigV {
    pub open spec fn wf(self) -> bool {
        self.command.wf() && self.args.wf()
    }
}

impl JobConfig {
    pub fn kind(&self) -> (k: JobKind)
        ensures
            k == self@.command.kind(),
    {
        match &self.command {
            JobCommand::Forward { .. } => JobKind::Forward,
            JobCommand::Mock { .. } => JobKind::Mock,
            JobCommand::Prove { .. } => JobKind::Prove,
            JobCommand::CreateEvmVerifier { .. } => JobKind::GenerateVerifier,
        }
    }
}

// ---------------------------------------------------------------------
// The rendered document, specified right-nested so the parser peels one
// piece at a time.
// ---------------------------------------------------------------------
/// A scanned field followed by its closing quote, then the rest.
pub open spec fn qfield(f: Seq<char>, rest: Seq<char>) -> Seq<char> {
    f + (seq!['"'] + rest)
}

/// A rendered number followed by the rest.
pub open spec fn qnum(n: nat, rest: Seq<char>) -> Seq<char> {
    spec_digits(n) + rest
}

pub open spec fn seg_check_mode(m: CheckMode, rest: Seq<char>) -> Seq<char> {
    match m {
        CheckMode::Safe => ",\"check_mode\":\"SAFE\",\"logrows\":"@ + rest,
        CheckMode::Unsafe => ",\"check_mode\":\"UNSAFE\",\"logrows\":"@ + rest,
    }
}

pub open spec fn seg_public_inputs(b: bool, rest: Seq<char>) -> Seq<char> {
    if b {
        ",\"public_inputs\":true,\"public_outputs\":"@ + rest
    } else {
        ",\"public_inputs\":false,\"public_outputs\":"@ + rest
    }
}

pub open spec fn seg_public_outputs(b: bool, rest: Seq<char>) -> Seq<char> {
    if b {
        "true,\"public_params\":"@ + rest
    } else {
        "false,\"public_params\":"@ + rest
    }
}

pub open spec fn seg_public_params(b: bool, rest: Seq<char>) -> Seq<char> {
    if b {
        "true,\"scale\":"@ + rest
    } else {
        "false,\"scale\":"@ + rest
    }
}

pub open spec fn seg_transcript(t: TranscriptKind, rest: Seq<char>) -> Seq<char> {
    match t {
        TranscriptKind::Evm => ",\"transcript\":\"EVM\",\"strategy\":\""@ + rest,
        TranscriptKind::Blake => ",\"transcript\":\"Blake\",\"strategy\":\""@ + rest,
    }
}

pub open spec fn seg_strategy(s: StrategyKind, rest: Seq<char>) -> Seq<char> {
    match s {
        StrategyKind::Single => "Single\""@ + rest,
        StrategyKind::Accum => "Accum\""@ + rest,
    }
}

/// The `args` section: every tuning field, in a fixed order, closing the
/// document.
pub open spec fn spec_render_args(a: RunParameters) -> Seq<char> {
    "}},\"args\":{\"bits\":"@ + qnum(
        a.bits as nat,
        seg_check_mode(
            a.check_mode,
            qnum(
                a.logrows as nat,
                ",\"pack_base\":"@ + qnum(
                    a.pack_base as nat,
                    seg_public_inputs(
                        a.public_inputs,
                        seg_public_outputs(
                            a.public_outputs,
                            seg_public_params(
                                a.public_params,
                                qnum(
                                    a.scale as nat,
                                    ",\"tolerance\":"@ + qnum(a.tolerance as nat, "}}"@),
                                ),
                            ),
                        ),
                    ),
                ),
            ),
        ),
    )
}

/// The whole configuration document for a job.
pub open spec fn spec_render_config(c: JobConfigV) -> Seq<char> {
    let args = spec_render_args(c.args);
    match c.command {
        JobCommandV::Forward { data, model, output } => "{\"command\":{\"Forward\":{\"data\":\""@
            + qfield(data, ",\"model\":\""@ + qfield(model, ",\"output\":\""@ + qfield(output, args))),
        JobCommandV::Mock { data, model } => "{\"command\":{\"Mock\":{\"data\":\""@ + qfield(
            data,
            ",\"model\":\""@ + qfield(model, args),
        ),
        JobCommandV::Prove { data, model, vk_path, proof_path, params_path, transcript, strategy } => "{\"command\":{\"Prove\":{\"data\":\""@
            + qfield(
            data,
            ",\"model\":\""@ + qfield(
                model,
                ",\"vk_path\":\""@ + qfield(
                    vk_path,
                    ",\"proof_path\":\""@ + qfield(
                        proof_path,
                        ",\"params_path\":\""@ + qfield(
                            params_path,
                            seg_transcript(transcript, seg_strategy(strategy, args)),
                        ),
                    ),
                ),
            ),
        ),
        JobCommandV::CreateEvmVerifier {
            data,
            model,
            params_path,
            vk_path,
            deployment_code_path,
            sol_code_path,
        } => "{\"command\":{\"CreateEVMVerifier\":{\"data\":\""@ + qfield(
            data,
            ",\"model\":\""@ + qfield(
                model,
                ",\"params_path\":\""@ + qfield(
                    params_path,
                    ",\"vk_path\":\""@ + qfield(
                        vk_path,
                        ",\"deployment_code_path\":\""@ + qfield(
                            deployment_code_path,
                            ",\"sol_code_path\":\""@ + qfield(sol_code_path, args),
                        ),
                    ),
                ),
            ),
        ),
    }
}

// ---------------------------------------------------------------------
// The specification parser: the meaning of a configuration document.
// ---------------------------------------------------------------------
/// Tries the first literal, then the second; reports which one matched.
pub open spec fn sp_eat_alt(t: Seq<char>, lit1: Seq<char>, lit2: Seq<char>) -> Option<
    (bool, Seq<char>),
> {
    match sp_eat_lit(t, lit1) {
        Some(r) => Some((true, r)),
        None => match sp_eat_lit(t, lit2) {
            Some(r) => Some((false, r)),
            None => None,
        },
    }
}

/// A decimal number that must fit a 32-bit field.
pub open spec fn sp_parse_num_u32(t: Seq<char>) -> Option<(u32, Seq<char>)> {
    match sp_scan_num(t) {
        Some((v, rest)) => if v <= 0xFFFFFFFF {
            Some((v as u32, rest))
        } else {
            None
        },
        None => None,
    }
}

/// Parses the `args` section, which must close the document.
pub open spec fn sp_parse_args(t: Seq<char>) -> Option<RunParameters> {
    match sp_eat_lit(t, "}},\"args\":{\"bits\":"@) {
        None => None,
        Some(t1) => match sp_parse_num_u32(t1) {
            None => None,
            Some((bits, t2)) => match sp_eat_alt(
                t2,
                ",\"check_mode\":\"SAFE\",\"logrows\":"@,
                ",\"check_mode\":\"UNSAFE\",\"logrows\":"@,
            ) {
                None => None,
                Some((cm_safe, t3)) => match sp_parse_num_u32(t3) {
                    None => None,
                    Some((logrows, t4)) => match sp_eat_lit(t4, ",\"pack_base\":"@) {
                        None => None,
                        Some(t5) => match sp_parse_num_u32(t5) {
                            None => None,
                            Some((pack_base, t6)) => match sp_eat_alt(
                                t6,
                                ",\"public_inputs\":true,\"public_outputs\":"@,
                                ",\"public_inputs\":false,\"public_outputs\":"@,
                            ) {
                                None => None,
                                Some((pi, t7)) => match sp_eat_alt(
                                    t7,
                                    "true,\"public_params\":"@,
                                    "false,\"public_params\":"@,
                                ) {
                                    None => None,
                                    Some((po, t8)) => match sp_eat_alt(
                                        t8,
                                        "true,\"scale\":"@,
                                        "false,\"scale\":"@,
                                    ) {
                                        None => None,
                                        Some((pp, t9)) => match sp_parse_num_u32(t9) {
                                            None => None,
                                            Some((scale, t10)) => match sp_eat_lit(
                                                t10,
                                                ",\"tolerance\":"@,
                                            ) {
                                                None => None,
                                                Some(t11) => match sp_parse_num_u32(t11) {
                                                    None => None,
                                                    Some((tolerance, t12)) => match sp_eat_lit(
                                                        t12,
                                                        "}}"@,
                                                    ) {
                                                        None => None,
                                                        Some(t13) => if t13.len() == 0 {
                                                            Some(
                                                                RunParameters {
                                                                    tolerance,
                                                                    scale,
                                                                    bits,
                                                                    logrows,
                                                                    public_inputs: pi,
                                                                    public_outputs: po,
                                                                    public_params: pp,
                                                                    check_mode: if cm_safe {
                                                                        CheckMode::Safe
                                                                    } else {
                                                                        CheckMode::Unsafe
                                                                    },
                                                                    pack_base,
                                                                },
                                                            )
                                                        } else {
                                                            None
                                                        },
                                                    },
                                                },
                                            },
                                        },
                                    },
                                },
                            },
                        },
                    },
                },
            },
        },
    }
}

pub open spec fn sp_parse_forward(t: Seq<char>) -> Option<JobConfigV> {
    match sp_scan_q(t) {
        None => None,
        Some((data, t1)) => match sp_eat_lit(t1, ",\"model\":\""@) {
            None => None,
            Some(t2) => match sp_scan_q(t2) {
                None => None,
                Some((model, t3)) => match sp_eat_lit(t3, ",\"output\":\""@) {
                    None => None,
                    Some(t4) => match sp_scan_q(t4) {
                        None => None,
                        Some((output, t5)) => match sp_parse_args(t5) {
                            None => None,
                            Some(args) => Some(
                                JobConfigV {
                                    command: JobCommandV::Forward { data, model, output },
                                    args,
                                },
                            ),
                        },
                    },
                },
            },
        },
    }
}

pub open spec fn sp_parse_mock(t: Seq<char>) -> Option<JobConfigV> {
    match sp_scan_q(t) {
        None => None,
        Some((data, t1)) => match sp_eat_lit(t1, ",\"model\":\""@) {
            None => None,
            Some(t2) => match sp_scan_q(t2) {
                None => None,
                Some((model, t3)) => match sp_parse_args(t3) {
                    None => None,
                    Some(args) => Some(
                        JobConfigV { command: JobCommandV::Mock { data, model }, args },
                    ),
                },
            },
        },
    }
}

pub open spec fn sp_parse_prove_tail(
    data: Seq<char>,
    model: Seq<char>,
    vk_path: Seq<char>,
    proof_path: Seq<char>,
    t7: Seq<char>,
) -> Option<JobConfigV> {
    match sp_eat_lit(t7, ",\"params_path\":\""@) {
        None => None,
        Some(t8) => match sp_scan_q(t8) {
            None => None,
            Some((params_path, t9)) => match sp_eat_alt(
                t9,
                ",\"transcript\":\"EVM\",\"strategy\":\""@,
                ",\"transcript\":\"Blake\",\"strategy\":\""@,
            ) {
                None => None,
                Some((is_evm, t10)) => match sp_eat_alt(t10, "Single\""@, "Accum\""@) {
                    None => None,
                    Some((is_single, t11)) => match sp_parse_args(t11) {
                        None => None,
                        Some(args) => Some(
                            JobConfigV {
                                command: JobCommandV::Prove {
                                    data,
                                    model,
                                    vk_path,
                                    proof_path,
                                    params_path,
                                    transcript: if is_evm {
                                        TranscriptKind::Evm
                                    } else {
                                        TranscriptKind::Blake
                                    },
                                    strategy: if is_single {
                                        StrategyKind::Single
                                    } else {
                                        StrategyKind::Accum
                                    },
                                },
                                args,
                            },
                        ),
                    },
                },
            },
        },
    }
}

pub open spec fn sp_parse_prove(t: Seq<char>) -> Option<JobConfigV> {
    match sp_scan_q(t) {
        None => None,
        Some((data, t1)) => match sp_eat_lit(t1, ",\"model\":\""@) {
            None => None,
            Some(t2) => match sp_scan_q(t2) {
                None => None,
                Some((model, t3)) => match sp_eat_lit(t3, ",\"vk_path\":\""@) {
                    None => None,
                    Some(t4) => match sp_scan_q(t4) {
                        None => None,
                        Some((vk_path, t5)) => match sp_eat_lit(t5, ",\"proof_path\":\""@) {
                            None => None,
                            Some(t6) => match sp_scan_q(t6) {
                                None => None,
                                Some((proof_path, t7)) => sp_parse_prove_tail(
                                    data,
                                    model,
                                    vk_path,
                                    proof_path,
                                    t7,
                                ),
                            },
                        },
                    },
                },
            },
        },
    }
}

pub open spec fn sp_parse_genevm_tail(
    data: Seq<char>,
    model: Seq<char>,
    params_path: Seq<char>,
    t5: Seq<char>,
) -> Option<JobConfigV> {
    match sp_eat_lit(t5, ",\"vk_path\":\""@) {
        None => None,
        Some(t6) => match sp_scan_q(t6) {
            None => None,
            Some((vk_path, t7)) => match sp_eat_lit(t7, ",\"deployment_code_path\":\""@) {
                None => None,
                Some(t8) => match sp_scan_q(t8) {
                    None => None,
                    Some((deployment_code_path, t9)) => match sp_eat_lit(
                        t9,
                        ",\"sol_code_path\":\""@,
                    ) {
                        None => None,
                        Some(t10) => match sp_scan_q(t10) {
                            None => None,
                            Some((sol_code_path, t11)) => match sp_parse_args(t11) {
                                None => None,
                                Some(args) => Some(
                                    JobConfigV {
                                        command: JobCommandV::CreateEvmVerifier {
                                            data,
                                            model,
                                            params_path,
                                            vk_path,
                                            deployment_code_path,
                                            sol_code_path,
                                        },
                                        args,
                                    },
                                ),
                            },
                        },
                    },
                },
            },
        },
    }
}

pub open spec fn sp_parse_genevm(t: Seq<char>) -> Option<JobConfigV> {
    match sp_scan_q(t) {
        None => None,
        Some((data, t1)) => match sp_eat_lit(t1, ",\"model\":\""@) {
            None => None,
            Some(t2) => match sp_scan_q(t2) {
                None => None,
                Some((model, t3)) => match sp_eat_lit(t3, ",\"params_path\":\""@) {
                    None => None,
                    Some(t4) => match sp_scan_q(t4) {
                        None => None,
                        Some((params_path, t5)) => sp_parse_genevm_tail(
                            data,
                            model,
                            params_path,
                            t5,
                        ),
                    },
                },
            },
        },
    }
}

/// What a configuration document means: the configuration it denotes,
/// if it is well formed.
pub open spec fn sp_parse_config(s: Seq<char>) -> Option<JobConfigV> {
    match sp_eat_lit(s, "{\"command\":{\"Forward\":{\"data\":\""@) {
        Some(t) => sp_parse_forward(t),
        None => match sp_eat_lit(s, "{\"command\":{\"Mock\":{\"data\":\""@) {
            Some(t) => sp_parse_mock(t),
            None => match sp_eat_lit(s, "{\"command\":{\"Prove\":{\"data\":\""@) {
                Some(t) => sp_parse_prove(t),
                None => match sp_eat_lit(s, "{\"command\":{\"CreateEVMVerifier\":{\"data\":\""@) {
                    Some(t) => sp_parse_genevm(t),
                    None => None,
                },
            },
        },
    }
}

// ---------------------------------------------------------------------
// Executable rendering.
// ---------------------------------------------------------------------
/// Whether `p` can be embedded as a path field of a document.
pub fn check_path(p: &String) -> (r: bool)
    ensures
        r == path_ok(p@),
{
    p.as_str().unicode_len() > 0 && check_no_quote(p.as_str())
}

/// Puts `lit` in front of `rest`.  The document is assembled back to
/// front so the text provably matches its right-nested specification.
fn prepend_str(lit: &str, rest: String) -> (r: String)
    ensures
        r@ == lit@ + rest@,
{
    let s = String::from_str(lit);
    s.concat(rest.as_str())
}

/// Puts the decimal rendering of `n` in front of `rest`.
fn prepend_digits(n: u64, rest: String) -> (r: String)
    ensures
        r@ == qnum(n as nat, rest@),
{
    let mut s = String::new();
    push_digits(&mut s, n);
    proof {
        assert(s@ =~= spec_digits(n as nat));
    }
    s.concat(rest.as_str())
}

/// Puts a scanned field and its closing quote in front of `rest`.
fn prepend_qfield(f: &String, rest: String) -> (r: String)
    ensures
        r@ == qfield(f@, rest@),
{
    let t = prepend_str("\"", rest);
    proof {
        reveal_strlit("\"");
        assert("\""@ =~= seq!['"']);
    }
    prepend_str(f.as_str(), t)
}

/// Builds the `args` section of the document.
fn build_args(a: &RunParameters) -> (r: String)
    ensures
        r@ == spec_render_args(*a),
{
    let mut t = String::from_str("}}");
    t = prepend_digits(a.tolerance as u64, t);
    t = prepend_str(",\"tolerance\":", t);
    t = prepend_digits(a.scale as u64, t);
    if a.public_params {
        t = prepend_str("true,\"scale\":", t);
    } else {
        t = prepend_str("false,\"scale\":", t);
    }
    if a.public_outputs {
        t = prepend_str("true,\"public_params\":", t);
    } else {
        t = prepend_str("false,\"public_params\":", t);
    }
    if a.public_inputs {
        t = prepend_str(",\"public_inputs\":true,\"public_outputs\":", t);
    } else {
        t = prepend_str(",\"public_inputs\":false,\"public_outputs\":", t);
    }
    t = prepend_digits(a.pack_base as u64, t);
    t = prepend_str(",\"pack_base\":", t);
    t = prepend_digits(a.logrows as u64, t);
    match a.check_mode {
        CheckMode::Safe => {
            t = prepend_str(",\"check_mode\":\"SAFE\",\"logrows\":", t);
        },
        CheckMode::Unsafe => {
            t = prepend_str(",\"check_mode\":\"UNSAFE\",\"logrows\":", t);
        },
    }
    t = prepend_digits(a.bits as u64, t);
    t = prepend_str("}},\"args\":{\"bits\":", t);
    t
}

/// Renders a configuration to the document text the engine reads, or
/// reports which configurations cannot be rendered: one with a missing
/// (or unembeddable) required path for its kind.
pub fn render_config(c: &JobConfig) -> (r: Result<String, ServiceError>)
    ensures
        c@.wf() ==> (r matches Ok(s) && s@ == spec_render_config(c@)),
        !c@.wf() ==> r == Err::<String, ServiceError>(ServiceError::SerializationError),
{
    let args_ok = c.args.scale >= 1 && c.args.bits >= 1 && c.args.logrows >= 1;
    match &c.command {
        JobCommand::Forward { data, model, output } => {
            if !(args_ok && check_path(data) && check_path(model) && check_path(output)) {
                return Err(ServiceError::SerializationError);
            }
            let mut t = build_args(&c.args);
            t = prepend_qfield(output, t);
            t = prepend_str(",\"output\":\"", t);
            t = prepend_qfield(model, t);
            t = prepend_str(",\"model\":\"", t);
            t = prepend_qfield(data, t);
            t = prepend_str("{\"command\":{\"Forward\":{\"data\":\"", t);
            Ok(t)
        },
        JobCommand::Mock { data, model } => {
            if !(args_ok && check_path(data) && check_path(model)) {
                return Err(ServiceError::SerializationError);
            }
            let mut t = build_args(&c.args);
            t = prepend_qfield(model, t);
            t = prepend_str(",\"model\":\"", t);
            t = prepend_qfield(data, t);
            t = prepend_str("{\"command\":{\"Mock\":{\"data\":\"", t);
            Ok(t)
        },
        JobCommand::Prove { data, model, vk_path, proof_path, params_path, transcript, strategy } => {
            if !(args_ok && check_path(data) && check_path(model) && check_path(vk_path)
                && check_path(proof_path) && check_path(params_path)) {
                return Err(ServiceError::SerializationError);
            }
            let mut t = build_args(&c.args);
            match strategy {
                StrategyKind::Single => {
                    t = prepend_str("Single\"", t);
                },
                StrategyKind::Accum => {
                    t = prepend_str("Accum\"", t);
                },
            }
            match transcript {
                TranscriptKind::Evm => {
                    t = prepend_str(",\"transcript\":\"EVM\",\"strategy\":\"", t);
                },
                TranscriptKind::Blake => {
                    t = prepend_str(",\"transcript\":\"Blake\",\"strategy\":\"", t);
                },
            }
            t = prepend_qfield(params_path, t);
            t = prepend_str(",\"params_path\":\"", t);
            t = prepend_qfield(proof_path, t);
            t = prepend_str(",\"proof_path\":\"", t);
            t = prepend_qfield(vk_path, t);
            t = prepend_str(",\"vk_path\":\"", t);
            t = prepend_qfield(model, t);
            t = prepend_str(",\"model\":\"", t);
            t = prepend_qfield(data, t);
            t = prepend_str("{\"command\":{\"Prove\":{\"data\":\"", t);
            Ok(t)
        },
        JobCommand::CreateEvmVerifier {
            data,
            model,
            params_path,
            vk_path,
            deployment_code_path,
            sol_code_path,
        } => {
            if !(args_ok && check_path(data) && check_path(model) && check_path(params_path)
                && check_path(vk_path) && check_path(deployment_code_path) && check_path(
                sol_code_path,
            )) {
                return Err(ServiceError::SerializationError);
            }
            let mut t = build_args(&c.args);
            t = prepend_qfield(sol_code_path, t);
            t = prepend_str(",\"sol_code_path\":\"", t);
            t = prepend_qfield(deployment_code_path, t);
            t = prepend_str(",\"deployment_code_path\":\"", t);
            t = prepend_qfield(vk_path, t);
            t = prepend_str(",\"vk_path\":\"", t);
            t = prepend_qfield(params_path, t);
            t = prepend_str(",\"params_path\":\"", t);
            t = prepend_qfield(model, t);
            t = prepend_str(",\"model\":\"", t);
            t = prepend_qfield(data, t);
            t = prepend_str("{\"command\":{\"CreateEVMVerifier\":{\"data\":\"", t);
            Ok(t)
        },
    }
}

// ---------------------------------------------------------------------
// Executable parsing.
// ---------------------------------------------------------------------
/// Tries the first literal, then the second, at position `i`.
fn expect_alt(s: &str, n: usize, i: usize, lit1: &str, lit2: &str) -> (r: Option<(bool, usize)>)
    requires
        n == s@.len(),
        i <= n,
    ensures
        match r {
            Some(bj) => {
                &&& i <= bj.1 <= n
                &&& sp_eat_alt(s@.skip(i as int), lit1@, lit2@) == Some(
                    (bj.0, s@.skip(bj.1 as int)),
                )
            },
            None => sp_eat_alt(s@.skip(i as int), lit1@, lit2@) is None,
        },
{
    match expect_at(s, n, i, lit1) {
        Some(j) => Some((true, j)),
        None => match expect_at(s, n, i, lit2) {
            Some(j) => Some((false, j)),
            None => None,
        },
    }
}

/// Scans a decimal number that must fit a 32-bit field.
fn parse_num_u32_at(s: &str, n: usize, i: usize) -> (r: Option<(u32, usize)>)
    requires
        n == s@.len(),
        i <= n,
    ensures
        match r {
            Some(vj) => {
                &&& i <= vj.1 <= n
                &&& sp_parse_num_u32(s@.skip(i as int)) == Some((vj.0, s@.skip(vj.1 as int)))
            },
            None => sp_parse_num_u32(s@.skip(i as int)) is None,
        },
{
    match scan_num_at(s, n, i) {
        None => None,
        Some((v, j)) => {
            if v <= 0xFFFFFFFF {
                Some((v as u32, j))
            } else {
                None
            }
        },
    }
}

/// Parses the `args` section at position `i`; it must end the document.
fn parse_args_at(s: &str, n: usize, i: usize) -> (r: Option<RunParameters>)
    requires
        n == s@.len(),
        i <= n,
    ensures
        match r {
            Some(a) => sp_parse_args(s@.skip(i as int)) == Some(a),
            None => sp_parse_args(s@.skip(i as int)) is None,
        },
{
    let i1 = match expect_at(s, n, i, "}},\"args\":{\"bits\":") {
        None => { return None },
        Some(j) => j,
    };
    let (bits, i2) = match parse_num_u32_at(s, n, i1) {
        None => { return None },
        Some(x) => x,
    };
    let (cm_safe, i3) = match expect_alt(
        s,
        n,
        i2,
        ",\"check_mode\":\"SAFE\",\"logrows\":",
        ",\"check_mode\":\"UNSAFE\",\"logrows\":",
    ) {
        None => { return None },
        Some(x) => x,
    };
    let (logrows, i4) = match parse_num_u32_at(s, n, i3) {
        None => { return None },
        Some(x) => x,
    };
    let i5 = match expect_at(s, n, i4, ",\"pack_base\":") {
        None => { return None },
        Some(j) => j,
    };
    let (pack_base, i6) = match parse_num_u32_at(s, n, i5) {
        None => { return None },
        Some(x) => x,
    };
    let (pi, i7) = match expect_alt(
        s,
        n,
        i6,
        ",\"public_inputs\":true,\"public_outputs\":",
        ",\"public_inputs\":false,\"public_outputs\":",
    ) {
        None => { return None },
        Some(x) => x,
    };
    let (po, i8) = match expect_alt(s, n, i7, "true,\"public_params\":", "false,\"public_params\":") {
        None => { return None },
        Some(x) => x,
    };
    let (pp, i9) = match expect_alt(s, n, i8, "true,\"scale\":", "false,\"scale\":") {
        None => { return None },
        Some(x) => x,
    };
    let (scale, i10) = match parse_num_u32_at(s, n, i9) {
        None => { return None },
        Some(x) => x,
    };
    let i11 = match expect_at(s, n, i10, ",\"tolerance\":") {
        None => { return None },
        Some(j) => j,
    };
    let (tolerance, i12) = match parse_num_u32_at(s, n, i11) {
        None => { return None },
        Some(x) => x,
    };
    let i13 = match expect_at(s, n, i12, "}}") {
        None => { return None },
        Some(j) => j,
    };
    if i13 != n {
        proof {
            assert(s@.skip(i13 as int).len() != 0);
        }
        return None;
    }
    proof {
        assert(s@.skip(i13 as int).len() == 0);
    }
    Some(
        RunParameters {
            tolerance,
            scale,
            bits,
            logrows,
            public_inputs: pi,
            public_outputs: po,
            public_params: pp,
            check_mode: if cm_safe {
                CheckMode::Safe
            } else {
                CheckMode::Unsafe
            },
            pack_base,
        },
    )
}

fn parse_forward_at(s: &str, n: usize, i: usize) -> (r: Option<JobConfig>)
    requires
        n == s@.len(),
        i <= n,
    ensures
        match r {
            Some(c) => sp_parse_forward(s@.skip(i as int)) == Some(c@),
            None => sp_parse_forward(s@.skip(i as int)) is None,
        },
{
    let (data, i1) = match scan_quote_at(s, n, i) {
        None => { return None },
        Some(x) => x,
    };
    let i2 = match expect_at(s, n, i1, ",\"model\":\"") {
        None => { return None },
        Some(j) => j,
    };
    let (model, i3) = match scan_quote_at(s, n, i2) {
        None => { return None },
        Some(x) => x,
    };
    let i4 = match expect_at(s, n, i3, ",\"output\":\"") {
        None => { return None },
        Some(j) => j,
    };
    let (output, i5) = match scan_quote_at(s, n, i4) {
        None => { return None },
        Some(x) => x,
    };
    let args = match parse_args_at(s, n, i5) {
        None => { return None },
        Some(a) => a,
    };
    Some(JobConfig { command: JobCommand::Forward { data, model, output }, args })
}

fn parse_mock_at(s: &str, n: usize, i: usize) -> (r: Option<JobConfig>)
    requires
        n == s@.len(),
        i <= n,
    ensures
        match r {
            Some(c) => sp_parse_mock(s@.skip(i as int)) == Some(c@),
            None => sp_parse_mock(s@.skip(i as int)) is None,
        },
{
    let (data, i1) = match scan_quote_at(s, n, i) {
        None => { return None },
        Some(x) => x,
    };
    let i2 = match expect_at(s, n, i1, ",\"model\":\"") {
        None => { return None },
        Some(j) => j,
    };
    let (model, i3) = match scan_quote_at(s, n, i2) {
        None => { return None },
        Some(x) => x,
    };
    let args = match parse_args_at(s, n, i3) {
        None => { return None },
        Some(a) => a,
    };
    Some(JobConfig { command: JobCommand::Mock { data, model }, args })
}

fn parse_prove_at(s: &str, n: usize, i: usize) -> (r: Option<JobConfig>)
    requires
        n == s@.len(),
        i <= n,
    ensures
        match r {
            Some(c) => sp_parse_prove(s@.skip(i as int)) == Some(c@),
            None => sp_parse_prove(s@.skip(i as int)) is None,
        },
{
    let (data, i1) = match scan_quote_at(s, n, i) {
        None => { return None },
        Some(x) => x,
    };
    let i2 = match expect_at(s, n, i1, ",\"model\":\"") {
        None => { return None },
        Some(j) => j,
    };
    let (model, i3) = match scan_quote_at(s, n, i2) {
        None => { return None },
        Some(x) => x,
    };
    let i4 = match expect_at(s, n, i3, ",\"vk_path\":\"") {
        None => { return None },
        Some(j) => j,
    };
    let (vk_path, i5) = match scan_quote_at(s, n, i4) {
        None => { return None },
        Some(x) => x,
    };
    let i6 = match expect_at(s, n, i5, ",\"proof_path\":\"") {
        None => { return None },
        Some(j) => j,
    };
    let (proof_path, i7) = match scan_quote_at(s, n, i6) {
        None => { return None },
        Some(x) => x,
    };
    let i8 = match expect_at(s, n, i7, ",\"params_path\":\"") {
        None => { return None },
        Some(j) => j,
    };
    let (params_path, i9) = match scan_quote_at(s, n, i8) {
        None => { return None },
        Some(x) => x,
    };
    let (is_evm, i10) = match expect_alt(
        s,
        n,
        i9,
        ",\"transcript\":\"EVM\",\"strategy\":\"",
        ",\"transcript\":\"Blake\",\"strategy\":\"",
    ) {
        None => { return None },
        Some(x) => x,
    };
    let (is_single, i11) = match expect_alt(s, n, i10, "Single\"", "Accum\"") {
        None => { return None },
        Some(x) => x,
    };
    let args = match parse_args_at(s, n, i11) {
        None => { return None },
        Some(a) => a,
    };
    Some(
        JobConfig {
            command: JobCommand::Prove {
                data,
                model,
                vk_path,
                proof_path,
                params_path,
                transcript: if is_evm {
                    TranscriptKind::Evm
                } else {
                    TranscriptKind::Blake
                },
                strategy: if is_single {
                    StrategyKind::Single
                } else {
                    StrategyKind::Accum
                },
            },
            args,
        },
    )
}

fn parse_genevm_at(s: &str, n: usize, i: usize) -> (r: Option<JobConfig>)
    requires
        n == s@.len(),
        i <= n,
    ensures
        match r {
            Some(c) => sp_parse_genevm(s@.skip(i as int)) == Some(c@),
            None => sp_parse_genevm(s@.skip(i as int)) is None,
        },
{
    let (data, i1) = match scan_quote_at(s, n, i) {
        None => { return None },
        Some(x) => x,
    };
    let i2 = match expect_at(s, n, i1, ",\"model\":\"") {
        None => { return None },
        Some(j) => j,
    };
    let (model, i3) = match scan_quote_at(s, n, i2) {
        None => { return None },
        Some(x) => x,
    };
    let i4 = match expect_at(s, n, i3, ",\"params_path\":\"") {
        None => { return None },
        Some(j) => j,
    };
    let (params_path, i5) = match scan_quote_at(s, n, i4) {
        None => { return None },
        Some(x) => x,
    };
    let i6 = match expect_at(s, n, i5, ",\"vk_path\":\"") {
        None => { return None },
        Some(j) => j,
    };
    let (vk_path, i7) = match scan_quote_at(s, n, i6) {
        None => { return None },
        Some(x) => x,
    };
    let i8 = match expect_at(s, n, i7, ",\"deployment_code_path\":\"") {
        None => { return None },
        Some(j) => j,
    };
    let (deployment_code_path, i9) = match scan_quote_at(s, n, i8) {
        None => { return None },
        Some(x) => x,
    };
    let i10 = match expect_at(s, n, i9, ",\"sol_code_path\":\"") {
        None => { return None },
        Some(j) => j,
    };
    let (sol_code_path, i11) = match scan_quote_at(s, n, i10) {
        None => { return None },
        Some(x) => x,
    };
    let args = match parse_args_at(s, n, i11) {
        None => { return None },
        Some(a) => a,
    };
    Some(
        JobConfig {
            command: JobCommand::CreateEvmVerifier {
                data,
                model,
                params_path,
                vk_path,
                deployment_code_path,
                sol_code_path,
            },
            args,
        },
    )
}

/// Reads a configuration document back into the configuration it
/// denotes, exactly as the specification parser does.
pub fn parse_config(s: &str) -> (r: Option<JobConfig>)
    ensures
        match r {
            Some(c) => sp_parse_config(s@) == Some(c@),
            None => sp_parse_config(s@) is None,
        },
{
    let n = s.unicode_len();
    proof {
        assert(s@.skip(0) =~= s@);
    }
    match expect_at(s, n, 0, "{\"command\":{\"Forward\":{\"data\":\"") {
        Some(i) => parse_forward_at(s, n, i),
        None => match expect_at(s, n, 0, "{\"command\":{\"Mock\":{\"data\":\"") {
            Some(i) => parse_mock_at(s, n, i),
            None => match expect_at(s, n, 0, "{\"command\":{\"Prove\":{\"data\":\"") {
                Some(i) => parse_prove_at(s, n, i),
                None => match expect_at(s, n, 0, "{\"command\":{\"CreateEVMVerifier\":{\"data\":\"") {
                    Some(i) => parse_genevm_at(s, n, i),
                    None => None,
                },
            },
        },
    }
}

// ---------------------------------------------------------------------
// The round trip: a rendered document parses back to what it was
// rendered from.
// ---------------------------------------------------------------------
/// The `args` section round trips for every tuning record.
proof fn lemma_roundtrip_args(a: RunParameters)
    ensures
        sp_parse_args(spec_render_args(a)) == Some(a),
{
    reveal_strlit("}},\"args\":{\"bits\":");
    reveal_strlit(",\"check_mode\":\"SAFE\",\"logrows\":");
    reveal_strlit(",\"check_mode\":\"UNSAFE\",\"logrows\":");
    reveal_strlit(",\"pack_base\":");
    reveal_strlit(",\"public_inputs\":true,\"public_outputs\":");
    reveal_strlit(",\"public_inputs\":false,\"public_outputs\":");
    reveal_strlit("true,\"public_params\":");
    reveal_strlit("false,\"public_params\":");
    reveal_strlit("true,\"scale\":");
    reveal_strlit("false,\"scale\":");
    reveal_strlit(",\"tolerance\":");
    reveal_strlit("}}");
    let t12 = "}}"@;
    let t11 = qnum(a.tolerance as nat, t12);
    let t10 = ",\"tolerance\":"@ + t11;
    let t9 = qnum(a.scale as nat, t10);
    let t8 = seg_public_params(a.public_params, t9);
    let t7 = seg_public_outputs(a.public_outputs, t8);
    let t6 = seg_public_inputs(a.public_inputs, t7);
    let t5 = qnum(a.pack_base as nat, t6);
    let t4 = ",\"pack_base\":"@ + t5;
    let t3 = qnum(a.logrows as nat, t4);
    let t2 = seg_check_mode(a.check_mode, t3);
    let t1 = qnum(a.bits as nat, t2);
    let t0 = spec_render_args(a);
    assert(t0 == "}},\"args\":{\"bits\":"@ + t1);
    lemma_eat_lit("}},\"args\":{\"bits\":"@, t1);
    // bits
    assert(t2.len() > 0 && t2[0] == ',');
    lemma_scan_num(a.bits as nat, t2);
    assert(sp_parse_num_u32(t1) == Some((a.bits, t2)));
    // check mode
    match a.check_mode {
        CheckMode::Safe => {
            lemma_eat_lit(",\"check_mode\":\"SAFE\",\"logrows\":"@, t3);
            assert(sp_eat_alt(
                t2,
                ",\"check_mode\":\"SAFE\",\"logrows\":"@,
                ",\"check_mode\":\"UNSAFE\",\"logrows\":"@,
            ) == Some((true, t3)));
        },
        CheckMode::Unsafe => {
            assert(t2[15] == 'U');
            lemma_eat_lit_mismatch(t2, ",\"check_mode\":\"SAFE\",\"logrows\":"@, 15);
            lemma_eat_lit(",\"check_mode\":\"UNSAFE\",\"logrows\":"@, t3);
            assert(sp_eat_alt(
                t2,
                ",\"check_mode\":\"SAFE\",\"logrows\":"@,
                ",\"check_mode\":\"UNSAFE\",\"logrows\":"@,
            ) == Some((false, t3)));
        },
    }
    // logrows
    assert(t4.len() > 0 && t4[0] == ',');
    lemma_scan_num(a.logrows as nat, t4);
    assert(sp_parse_num_u32(t3) == Some((a.logrows, t4)));
    lemma_eat_lit(",\"pack_base\":"@, t5);
    // pack base
    assert(t6.len() > 0 && t6[0] == ',');
    lemma_scan_num(a.pack_base as nat, t6);
    assert(sp_parse_num_u32(t5) == Some((a.pack_base, t6)));
    // public inputs
    if a.public_inputs {
        lemma_eat_lit(",\"public_inputs\":true,\"public_outputs\":"@, t7);
    } else {
        assert(t6[17] == 'f');
        lemma_eat_lit_mismatch(t6, ",\"public_inputs\":true,\"public_outputs\":"@, 17);
        lemma_eat_lit(",\"public_inputs\":false,\"public_outputs\":"@, t7);
    }
    assert(sp_eat_alt(
        t6,
        ",\"public_inputs\":true,\"public_outputs\":"@,
        ",\"public_inputs\":false,\"public_outputs\":"@,
    ) == Some((a.public_inputs, t7)));
    // public outputs
    if a.public_outputs {
        lemma_eat_lit("true,\"public_params\":"@, t8);
    } else {
        assert(t7[0] == 'f');
        lemma_eat_lit_mismatch(t7, "true,\"public_params\":"@, 0);
        lemma_eat_lit("false,\"public_params\":"@, t8);
    }
    assert(sp_eat_alt(t7, "true,\"public_params\":"@, "false,\"public_params\":"@) == Some(
        (a.public_outputs, t8),
    ));
    // public params
    if a.public_params {
        lemma_eat_lit("true,\"scale\":"@, t9);
    } else {
        assert(t8[0] == 'f');
        lemma_eat_lit_mismatch(t8, "true,\"scale\":"@, 0);
        lemma_eat_lit("false,\"scale\":"@, t9);
    }
    assert(sp_eat_alt(t8, "true,\"scale\":"@, "false,\"scale\":"@) == Some(
        (a.public_params, t9),
    ));
    // scale
    assert(t10.len() > 0 && t10[0] == ',');
    lemma_scan_num(a.scale as nat, t10);
    assert(sp_parse_num_u32(t9) == Some((a.scale, t10)));
    lemma_eat_lit(",\"tolerance\":"@, t11);
    // tolerance
    assert(t12.len() > 0 && t12[0] == '}');
    lemma_scan_num(a.tolerance as nat, t12);
    assert(sp_parse_num_u32(t11) == Some((a.tolerance, t12)));
    // closing braces, end of document
    assert(t12 =~= "}}"@ + Seq::<char>::empty());
    lemma_eat_lit("}}"@, Seq::<char>::empty());
    assert(sp_parse_args(t0) == Some(a));
}

proof fn lemma_roundtrip_prove_tail(c: JobConfigV)
    requires
        c.wf(),
        c.command is Prove,
    ensures
        match c.command {
            JobCommandV::Prove {
                data,
                model,
                vk_path,
                proof_path,
                params_path,
                transcript,
                strategy,
            } => sp_parse_prove_tail(
                data,
                model,
                vk_path,
                proof_path,
                ",\"params_path\":\""@ + qfield(
                    params_path,
                    seg_transcript(transcript, seg_strategy(strategy, spec_render_args(c.args))),
                ),
            ) == Some(c),
            _ => true,
        },
{
    reveal_strlit(",\"transcript\":\"EVM\",\"strategy\":\"");
    reveal_strlit(",\"transcript\":\"Blake\",\"strategy\":\"");
    reveal_strlit("Single\"");
    reveal_strlit("Accum\"");
    lemma_roundtrip_args(c.args);
    match c.command {
        JobCommandV::Prove { data, model, vk_path, proof_path, params_path, transcript, strategy } => {
            let args = spec_render_args(c.args);
            let r11 = seg_strategy(strategy, args);
            let r10 = seg_transcript(transcript, r11);
            lemma_eat_lit(",\"params_path\":\""@, qfield(params_path, r10));
            lemma_scan_q(params_path, r10);
            match transcript {
                TranscriptKind::Evm => {
                    lemma_eat_lit(",\"transcript\":\"EVM\",\"strategy\":\""@, r11);
                },
                TranscriptKind::Blake => {
                    assert(r10[15] == 'B');
                    lemma_eat_lit_mismatch(r10, ",\"transcript\":\"EVM\",\"strategy\":\""@, 15);
                    lemma_eat_lit(",\"transcript\":\"Blake\",\"strategy\":\""@, r11);
                },
            }
            assert(sp_eat_alt(
                r10,
                ",\"transcript\":\"EVM\",\"strategy\":\""@,
                ",\"transcript\":\"Blake\",\"strategy\":\""@,
            ) == Some((transcript is Evm, r11)));
            match strategy {
                StrategyKind::Single => {
                    lemma_eat_lit("Single\""@, args);
                },
                StrategyKind::Accum => {
                    assert(r11[0] == 'A');
                    lemma_eat_lit_mismatch(r11, "Single\""@, 0);
                    lemma_eat_lit("Accum\""@, args);
                },
            }
            assert(sp_eat_alt(r11, "Single\""@, "Accum\""@) == Some(
                (strategy is Single, args),
            ));
        },
        _ => {},
    }
}

proof fn lemma_roundtrip_genevm_tail(c: JobConfigV)
    requires
        c.wf(),
        c.command is CreateEvmVerifier,
    ensures
        match c.command {
            JobCommandV::CreateEvmVerifier { data, model, params_path, .. } => sp_parse_genevm_tail(
                data,
                model,
                params_path,
                genevm_tail_text(c),
            ) == Some(c),
            _ => true,
        },
{
    lemma_roundtrip_args(c.args);
    match c.command {
        JobCommandV::CreateEvmVerifier {
            data,
            model,
            params_path,
            vk_path,
            deployment_code_path,
            sol_code_path,
        } => {
            let args = spec_render_args(c.args);
            let r11 = ",\"sol_code_path\":\""@ + qfield(sol_code_path, args);
            let r9 = ",\"deployment_code_path\":\""@ + qfield(deployment_code_path, r11);
            lemma_eat_lit(",\"vk_path\":\""@, qfield(vk_path, r9));
            lemma_scan_q(vk_path, r9);
            lemma_eat_lit(",\"deployment_code_path\":\""@, qfield(deployment_code_path, r11));
            lemma_scan_q(deployment_code_path, r11);
            lemma_eat_lit(",\"sol_code_path\":\""@, qfield(sol_code_path, args));
            lemma_scan_q(sol_code_path, args);
        },
        _ => {},
    }
}

/// THE ROUND-TRIP LAW: rendering any well-formed job configuration and
/// parsing the resulting document gives back exactly that configuration
/// (so re-rendering gives the identical document).
#[verifier::rlimit(100)]
#[verifier::spinoff_prover]
pub proof fn lemma_config_roundtrip(c: JobConfigV)
    requires
        c.wf(),
    ensures
        sp_parse_config(spec_render_config(c)) == Some(c),
{
    reveal_strlit("{\"command\":{\"Forward\":{\"data\":\"");
    reveal_strlit("{\"command\":{\"Mock\":{\"data\":\"");
    reveal_strlit("{\"command\":{\"Prove\":{\"data\":\"");
    reveal_strlit("{\"command\":{\"CreateEVMVerifier\":{\"data\":\"");
    reveal_strlit(",\"model\":\"");
    reveal_strlit(",\"output\":\"");
    reveal_strlit(",\"vk_path\":\"");
    reveal_strlit(",\"proof_path\":\"");
    reveal_strlit(",\"params_path\":\"");
    reveal_strlit(",\"deployment_code_path\":\"");
    reveal_strlit(",\"sol_code_path\":\"");
    reveal_strlit(",\"transcript\":\"EVM\",\"strategy\":\"");
    reveal_strlit(",\"transcript\":\"Blake\",\"strategy\":\"");
    reveal_strlit("Single\"");
    reveal_strlit("Accum\"");
    let doc = spec_render_config(c);
    let args = spec_render_args(c.args);
    lemma_roundtrip_args(c.args);
    match c.command {
        JobCommandV::Forward { data, model, output } => {
            let r5 = ",\"output\":\""@ + qfield(output, args);
            let r3 = ",\"model\":\""@ + qfield(model, r5);
            let r1 = qfield(data, r3);
            assert(doc == "{\"command\":{\"Forward\":{\"data\":\""@ + r1);
            lemma_eat_lit("{\"command\":{\"Forward\":{\"data\":\""@, r1);
            lemma_scan_q(data, r3);
            lemma_eat_lit(",\"model\":\""@, qfield(model, r5));
            lemma_scan_q(model, r5);
            lemma_eat_lit(",\"output\":\""@, qfield(output, args));
            lemma_scan_q(output, args);
            assert(sp_parse_forward(r1) == Some(c));
        },
        JobCommandV::Mock { data, model } => {
            let r3 = ",\"model\":\""@ + qfield(model, args);
            let r1 = qfield(data, r3);
            assert(doc == "{\"command\":{\"Mock\":{\"data\":\""@ + r1);
            assert(doc[13] == 'M');
            lemma_eat_lit_mismatch(doc, "{\"command\":{\"Forward\":{\"data\":\""@, 13);
            lemma_eat_lit("{\"command\":{\"Mock\":{\"data\":\""@, r1);
            lemma_scan_q(data, r3);
            lemma_eat_lit(",\"model\":\""@, qfield(model, args));
            lemma_scan_q(model, args);
            assert(sp_parse_mock(r1) == Some(c));
        },
        JobCommandV::Prove { data, model, vk_path, proof_path, params_path, transcript, strategy } => {
            let r11 = seg_strategy(strategy, args);
            let r10 = seg_transcript(transcript, r11);
            let r9 = ",\"params_path\":\""@ + qfield(params_path, r10);
            let r7 = ",\"proof_path\":\""@ + qfield(proof_path, r9);
            let r5 = ",\"vk_path\":\""@ + qfield(vk_path, r7);
            let r3 = ",\"model\":\""@ + qfield(model, r5);
            let r1 = qfield(data, r3);
            assert(doc == "{\"command\":{\"Prove\":{\"data\":\""@ + r1);
            assert(doc[13] == 'P');
            lemma_eat_lit_mismatch(doc, "{\"command\":{\"Forward\":{\"data\":\""@, 13);
            lemma_eat_lit_mismatch(doc, "{\"command\":{\"Mock\":{\"data\":\""@, 13);
            lemma_eat_lit("{\"command\":{\"Prove\":{\"data\":\""@, r1);
            lemma_scan_q(data, r3);
            lemma_eat_lit(",\"model\":\""@, qfield(model, r5));
            lemma_scan_q(model, r5);
            lemma_eat_lit(",\"vk_path\":\""@, qfield(vk_path, r7));
            lemma_scan_q(vk_path, r7);
            lemma_eat_lit(",\"proof_path\":\""@, qfield(proof_path, r9));
            lemma_scan_q(proof_path, r9);
            lemma_roundtrip_prove_tail(c);
            assert(sp_parse_prove(r1) == Some(c));
        },
        JobCommandV::CreateEvmVerifier {
            data,
            model,
            params_path,
            vk_path,
            deployment_code_path,
            sol_code_path,
        } => {
            let r5 = genevm_tail_text(c);
            let r3 = ",\"model\":\""@ + qfield(model, ",\"params_path\":\""@ + qfield(
                params_path,
                r5,
            ));
            let r1 = qfield(data, r3);
            assert(doc == "{\"command\":{\"CreateEVMVerifier\":{\"data\":\""@ + r1);
            assert(doc[13] == 'C');
            lemma_eat_lit_mismatch(doc, "{\"command\":{\"Forward\":{\"data\":\""@, 13);
            lemma_eat_lit_mismatch(doc, "{\"command\":{\"Mock\":{\"data\":\""@, 13);
            lemma_eat_lit_mismatch(doc, "{\"command\":{\"Prove\":{\"data\":\""@, 13);
            lemma_eat_lit("{\"command\":{\"CreateEVMVerifier\":{\"data\":\""@, r1);
            lemma_scan_q(data, r3);
            lemma_eat_lit(",\"model\":\""@, qfield(model, ",\"params_path\":\""@ + qfield(
                params_path,
                r5,
            )));
            lemma_scan_q(model, ",\"params_path\":\""@ + qfield(params_path, r5));
            lemma_eat_lit(",\"params_path\":\""@, qfield(params_path, r5));
            lemma_scan_q(params_path, r5);
            lemma_roundtrip_genevm_tail(c);
            assert(sp_parse_genevm(r1) == Some(c));
        },
    }
}

// ---------------------------------------------------------------------
// Soundness: the parser accepts nothing but rendered documents.
// ---------------------------------------------------------------------
proof fn lemma_eat_alt_sound(t: Seq<char>, lit1: Seq<char>, lit2: Seq<char>, b: bool, rest: Seq<
    char,
>)
    requires
        sp_eat_alt(t, lit1, lit2) == Some((b, rest)),
    ensures
        t == (if b {
            lit1
        } else {
            lit2
        }) + rest,
{
    match sp_eat_lit(t, lit1) {
        Some(r) => {
            lemma_eat_lit_sound(t, lit1, r);
        },
        None => match sp_eat_lit(t, lit2) {
            Some(r) => {
                lemma_eat_lit_sound(t, lit2, r);
            },
            None => {
                assert(false);
            },
        },
    }
}

proof fn lemma_parse_num_sound(t: Seq<char>, v: u32, rest: Seq<char>)
    requires
        sp_parse_num_u32(t) == Some((v, rest)),
    ensures
        t == qnum(v as nat, rest),
{
    match sp_scan_num(t) {
        Some((n, r)) => {
            crate::codec::lemma_scan_num_sound(t, n, r);
        },
        None => {
            assert(false);
        },
    }
}

proof fn lemma_parse_args_sound(t: Seq<char>, a: RunParameters)
    requires
        sp_parse_args(t) == Some(a),
    ensures
        t == spec_render_args(a),
{
    match sp_eat_lit(t, "}},\"args\":{\"bits\":"@) {
        None => {
            assert(false);
        },
        Some(t1) => {
            lemma_eat_lit_sound(t, "}},\"args\":{\"bits\":"@, t1);
            match sp_parse_num_u32(t1) {
                None => {
                    assert(false);
                },
                Some((bits, t2)) => {
                    lemma_parse_num_sound(t1, bits, t2);
                    match sp_eat_alt(
                        t2,
                        ",\"check_mode\":\"SAFE\",\"logrows\":"@,
                        ",\"check_mode\":\"UNSAFE\",\"logrows\":"@,
                    ) {
                        None => {
                            assert(false);
                        },
                        Some((cm_safe, t3)) => {
                            lemma_eat_alt_sound(
                                t2,
                                ",\"check_mode\":\"SAFE\",\"logrows\":"@,
                                ",\"check_mode\":\"UNSAFE\",\"logrows\":"@,
                                cm_safe,
                                t3,
                            );
                            match sp_parse_num_u32(t3) {
                                None => {
                                    assert(false);
                                },
                                Some((logrows, t4)) => {
                                    lemma_parse_num_sound(t3, logrows, t4);
                                    match sp_eat_lit(t4, ",\"pack_base\":"@) {
                                        None => {
                                            assert(false);
                                        },
                                        Some(t5) => {
                                            lemma_eat_lit_sound(t4, ",\"pack_base\":"@, t5);
                                            match sp_parse_num_u32(t5) {
                                                None => {
                                                    assert(false);
                                                },
                                                Some((pack_base, t6)) => {
                                                    lemma_parse_num_sound(t5, pack_base, t6);
                                                    lemma_parse_args_sound_tail(
                                                        t,
                                                        a,
                                                        t1,
                                                        t2,
                                                        t3,
                                                        t4,
                                                        t5,
                                                        t6,
                                                        bits,
                                                        cm_safe,
                                                        logrows,
                                                        pack_base,
                                                    );
                                                },
                                            }
                                        },
                                    }
                                },
                            }
                        },
                    }
                },
            }
        },
    }
}

#[verifier::rlimit(50)]
proof fn lemma_parse_args_sound_tail(
    t: Seq<char>,
    a: RunParameters,
    t1: Seq<char>,
    t2: Seq<char>,
    t3: Seq<char>,
    t4: Seq<char>,
    t5: Seq<char>,
    t6: Seq<char>,
    bits: u32,
    cm_safe: bool,
    logrows: u32,
    pack_base: u32,
)
    requires
        sp_parse_args(t) == Some(a),
        t == "}},\"args\":{\"bits\":"@ + t1,
        sp_eat_lit(t, "}},\"args\":{\"bits\":"@) == Some(t1),
        t1 == qnum(bits as nat, t2),
        sp_parse_num_u32(t1) == Some((bits, t2)),
        t2 == (if cm_safe {
            ",\"check_mode\":\"SAFE\",\"logrows\":"@
        } else {
            ",\"check_mode\":\"UNSAFE\",\"logrows\":"@
        }) + t3,
        sp_eat_alt(
            t2,
            ",\"check_mode\":\"SAFE\",\"logrows\":"@,
            ",\"check_mode\":\"UNSAFE\",\"logrows\":"@,
        ) == Some((cm_safe, t3)),
        t3 == qnum(logrows as nat, t4),
        sp_parse_num_u32(t3) == Some((logrows, t4)),
        t4 == ",\"pack_base\":"@ + t5,
        sp_eat_lit(t4, ",\"pack_base\":"@) == Some(t5),
        t5 == qnum(pack_base as nat, t6),
        sp_parse_num_u32(t5) == Some((pack_base, t6)),
    ensures
        t == spec_render_args(a),
{
    match sp_eat_alt(
        t6,
        ",\"public_inputs\":true,\"public_outputs\":"@,
        ",\"public_inputs\":false,\"public_outputs\":"@,
    ) {
        None => {
            assert(false);
        },
        Some((pi, t7)) => {
            lemma_eat_alt_sound(
                t6,
                ",\"public_inputs\":true,\"public_outputs\":"@,
                ",\"public_inputs\":false,\"public_outputs\":"@,
                pi,
                t7,
            );
            match sp_eat_alt(t7, "true,\"public_params\":"@, "false,\"public_params\":"@) {
                None => {
                    assert(false);
                },
                Some((po, t8)) => {
                    lemma_eat_alt_sound(
                        t7,
                        "true,\"public_params\":"@,
                        "false,\"public_params\":"@,
                        po,
                        t8,
                    );
                    match sp_eat_alt(t8, "true,\"scale\":"@, "false,\"scale\":"@) {
                        None => {
                            assert(false);
                        },
                        Some((pp, t9)) => {
                            lemma_eat_alt_sound(
                                t8,
                                "true,\"scale\":"@,
                                "false,\"scale\":"@,
                                pp,
                                t9,
                            );
                            match sp_parse_num_u32(t9) {
                                None => {
                                    assert(false);
                                },
                                Some((scale, t10)) => {
                                    lemma_parse_num_sound(t9, scale, t10);
                                    match sp_eat_lit(t10, ",\"tolerance\":"@) {
                                        None => {
                                            assert(false);
                                        },
                                        Some(t11) => {
                                            lemma_eat_lit_sound(t10, ",\"tolerance\":"@, t11);
                                            match sp_parse_num_u32(t11) {
                                                None => {
                                                    assert(false);
                                                },
                                                Some((tolerance, t12)) => {
                                                    lemma_parse_num_sound(t11, tolerance, t12);
                                                    match sp_eat_lit(t12, "}}"@) {
                                                        None => {
                                                            assert(false);
                                                        },
                                                        Some(t13) => {
                                                            lemma_eat_lit_sound(t12, "}}"@, t13);
                                                            assert(t13.len() == 0);
                                                            assert(t13 =~= Seq::<char>::empty());
                                                            assert(t12 =~= "}}"@);
                                                            assert(a == RunParameters {
                                                                tolerance,
                                                                scale,
                                                                bits,
                                                                logrows,
                                                                public_inputs: pi,
                                                                public_outputs: po,
                                                                public_params: pp,
                                                                check_mode: if cm_safe {
                                                                    CheckMode::Safe
                                                                } else {
                                                                    CheckMode::Unsafe
                                                                },
                                                                pack_base,
                                                            });
                                                            assert(t == spec_render_args(a));
                                                        },
                                                    }
                                                },
                                            }
                                        },
                                    }
                                },
                            }
                        },
                    }
                },
            }
        },
    }
}

proof fn lemma_parse_forward_sound(t: Seq<char>, c: JobConfigV)
    requires
        sp_parse_forward(t) == Some(c),
    ensures
        ({
            &&& c.command matches JobCommandV::Forward { data, model, output }
            &&& t == qfield(
                data,
                ",\"model\":\""@ + qfield(
                    model,
                    ",\"output\":\""@ + qfield(output, spec_render_args(c.args)),
                ),
            )
        }),
{
    match sp_scan_q(t) {
        None => {
            assert(false);
        },
        Some((data, t1)) => {
            lemma_scan_q_sound(t, data, t1);
            match sp_eat_lit(t1, ",\"model\":\""@) {
                None => {
                    assert(false);
                },
                Some(t2) => {
                    lemma_eat_lit_sound(t1, ",\"model\":\""@, t2);
                    match sp_scan_q(t2) {
                        None => {
                            assert(false);
                        },
                        Some((model, t3)) => {
                            lemma_scan_q_sound(t2, model, t3);
                            match sp_eat_lit(t3, ",\"output\":\""@) {
                                None => {
                                    assert(false);
                                },
                                Some(t4) => {
                                    lemma_eat_lit_sound(t3, ",\"output\":\""@, t4);
                                    match sp_scan_q(t4) {
                                        None => {
                                            assert(false);
                                        },
                                        Some((output, t5)) => {
                                            lemma_scan_q_sound(t4, output, t5);
                                            match sp_parse_args(t5) {
                                                None => {
                                                    assert(false);
                                                },
                                                Some(args) => {
                                                    lemma_parse_args_sound(t5, args);
                                                },
                                            }
                                        },
                                    }
                                },
                            }
                        },
                    }
                },
            }
        },
    }
}

proof fn lemma_parse_mock_sound(t: Seq<char>, c: JobConfigV)
    requires
        sp_parse_mock(t) == Some(c),
    ensures
        ({
            &&& c.command matches JobCommandV::Mock { data, model }
            &&& t == qfield(data, ",\"model\":\""@ + qfield(model, spec_render_args(c.args)))
        }),
{
    match sp_scan_q(t) {
        None => {
            assert(false);
        },
        Some((data, t1)) => {
            lemma_scan_q_sound(t, data, t1);
            match sp_eat_lit(t1, ",\"model\":\""@) {
                None => {
                    assert(false);
                },
                Some(t2) => {
                    lemma_eat_lit_sound(t1, ",\"model\":\""@, t2);
                    match sp_scan_q(t2) {
                        None => {
                            assert(false);
                        },
                        Some((model, t3)) => {
                            lemma_scan_q_sound(t2, model, t3);
                            match sp_parse_args(t3) {
                                None => {
                                    assert(false);
                                },
                                Some(args) => {
                                    lemma_parse_args_sound(t3, args);
                                },
                            }
                        },
                    }
                },
            }
        },
    }
}

#[verifier::rlimit(50)]
proof fn lemma_parse_prove_sound(t: Seq<char>, c: JobConfigV)
    requires
        sp_parse_prove(t) == Some(c),
    ensures
        ({
            &&& c.command matches JobCommandV::Prove {
                data,
                model,
                vk_path,
                proof_path,
                params_path,
                transcript,
                strategy,
            }
            &&& t == qfield(
                data,
                ",\"model\":\""@ + qfield(
                    model,
                    ",\"vk_path\":\""@ + qfield(
                        vk_path,
                        ",\"proof_path\":\""@ + qfield(
                            proof_path,
                            ",\"params_path\":\""@ + qfield(
                                params_path,
                                seg_transcript(
                                    transcript,
                                    seg_strategy(strategy, spec_render_args(c.args)),
                                ),
                            ),
                        ),
                    ),
                ),
            )
        }),
{
    match sp_scan_q(t) {
        None => {
            assert(false);
        },
        Some((data, t1)) => {
            lemma_scan_q_sound(t, data, t1);
            match sp_eat_lit(t1, ",\"model\":\""@) {
                None => {
                    assert(false);
                },
                Some(t2) => {
                    lemma_eat_lit_sound(t1, ",\"model\":\""@, t2);
                    match sp_scan_q(t2) {
                        None => {
                            assert(false);
                        },
                        Some((model, t3)) => {
                            lemma_scan_q_sound(t2, model, t3);
                            match sp_eat_lit(t3, ",\"vk_path\":\""@) {
                                None => {
                                    assert(false);
                                },
                                Some(t4) => {
                                    lemma_eat_lit_sound(t3, ",\"vk_path\":\""@, t4);
                                    match sp_scan_q(t4) {
                                        None => {
                                            assert(false);
                                        },
                                        Some((vk_path, t5)) => {
                                            lemma_scan_q_sound(t4, vk_path, t5);
                                            match sp_eat_lit(t5, ",\"proof_path\":\""@) {
                                                None => {
                                                    assert(false);
                                                },
                                                Some(t6) => {
                                                    lemma_eat_lit_sound(
                                                        t5,
                                                        ",\"proof_path\":\""@,
                                                        t6,
                                                    );
                                                    match sp_scan_q(t6) {
                                                        None => {
                                                            assert(false);
                                                        },
                                                        Some((proof_path, t7)) => {
                                                            lemma_scan_q_sound(t6, proof_path, t7);
                                                            lemma_parse_prove_sound_tail(
                                                                data,
                                                                model,
                                                                vk_path,
                                                                proof_path,
                                                                t7,
                                                                c,
                                                            );
                                                        },
                                                    }
                                                },
                                            }
                                        },
                                    }
                                },
                            }
                        },
                    }
                },
            }
        },
    }
}

#[verifier::rlimit(50)]
proof fn lemma_parse_prove_sound_tail(
    data: Seq<char>,
    model: Seq<char>,
    vk_path: Seq<char>,
    proof_path: Seq<char>,
    t7: Seq<char>,
    c: JobConfigV,
)
    requires
        sp_parse_prove_tail(data, model, vk_path, proof_path, t7) == Some(c),
    ensures
        ({
            &&& c.command matches JobCommandV::Prove {
                data: d2,
                model: m2,
                vk_path: v2,
                proof_path: p2,
                params_path,
                transcript,
                strategy,
            }
            &&& d2 == data
            &&& m2 == model
            &&& v2 == vk_path
            &&& p2 == proof_path
            &&& t7 == ",\"params_path\":\""@ + qfield(
                params_path,
                seg_transcript(transcript, seg_strategy(strategy, spec_render_args(c.args))),
            )
        }),
{
    match sp_eat_lit(t7, ",\"params_path\":\""@) {
        None => {
            assert(false);
        },
        Some(t8) => {
            lemma_eat_lit_sound(t7, ",\"params_path\":\""@, t8);
            match sp_scan_q(t8) {
                None => {
                    assert(false);
                },
                Some((params_path, t9)) => {
                    lemma_scan_q_sound(t8, params_path, t9);
                    match sp_eat_alt(
                        t9,
                        ",\"transcript\":\"EVM\",\"strategy\":\""@,
                        ",\"transcript\":\"Blake\",\"strategy\":\""@,
                    ) {
                        None => {
                            assert(false);
                        },
                        Some((is_evm, t10)) => {
                            lemma_eat_alt_sound(
                                t9,
                                ",\"transcript\":\"EVM\",\"strategy\":\""@,
                                ",\"transcript\":\"Blake\",\"strategy\":\""@,
                                is_evm,
                                t10,
                            );
                            match sp_eat_alt(t10, "Single\""@, "Accum\""@) {
                                None => {
                                    assert(false);
                                },
                                Some((is_single, t11)) => {
                                    lemma_eat_alt_sound(
                                        t10,
                                        "Single\""@,
                                        "Accum\""@,
                                        is_single,
                                        t11,
                                    );
                                    match sp_parse_args(t11) {
                                        None => {
                                            assert(false);
                                        },
                                        Some(args) => {
                                            lemma_parse_args_sound(t11, args);
                                        },
                                    }
                                },
                            }
                        },
                    }
                },
            }
        },
    }
}

proof fn lemma_parse_genevm_sound(t: Seq<char>, c: JobConfigV)
    requires
        sp_parse_genevm(t) == Some(c),
    ensures
        ({
            &&& c.command matches JobCommandV::CreateEvmVerifier { data, model, params_path, .. }
            &&& t == qfield(
                data,
                ",\"model\":\""@ + qfield(
                    model,
                    ",\"params_path\":\""@ + qfield(
                        params_path,
                        genevm_tail_text(c),
                    ),
                ),
            )
        }),
{
    match sp_scan_q(t) {
        None => {
            assert(false);
        },
        Some((data, t1)) => {
            lemma_scan_q_sound(t, data, t1);
            match sp_eat_lit(t1, ",\"model\":\""@) {
                None => {
                    assert(false);
                },
                Some(t2) => {
                    lemma_eat_lit_sound(t1, ",\"model\":\""@, t2);
                    match sp_scan_q(t2) {
                        None => {
                            assert(false);
                        },
                        Some((model, t3)) => {
                            lemma_scan_q_sound(t2, model, t3);
                            match sp_eat_lit(t3, ",\"params_path\":\""@) {
                                None => {
                                    assert(false);
                                },
                                Some(t4) => {
                                    lemma_eat_lit_sound(t3, ",\"params_path\":\""@, t4);
                                    match sp_scan_q(t4) {
                                        None => {
                                            assert(false);
                                        },
                                        Some((params_path, t5)) => {
                                            lemma_scan_q_sound(t4, params_path, t5);
                                            lemma_parse_genevm_sound_tail(
                                                data,
                                                model,
                                                params_path,
                                                t5,
                                                c,
                                            );
                                        },
                                    }
                                },
                            }
                        },
                    }
                },
            }
        },
    }
}

/// The rendered text of a verifier-generation command after its
/// `params_path` field.
pub open spec fn genevm_tail_text(c: JobConfigV) -> Seq<char> {
    match c.command {
        JobCommandV::CreateEvmVerifier { vk_path, deployment_code_path, sol_code_path, .. } => ",\"vk_path\":\""@
            + qfield(
            vk_path,
            ",\"deployment_code_path\":\""@ + qfield(
                deployment_code_path,
                ",\"sol_code_path\":\""@ + qfield(sol_code_path, spec_render_args(c.args)),
            ),
        ),
        _ => Seq::empty(),
    }
}

#[verifier::rlimit(50)]
proof fn lemma_parse_genevm_sound_tail(
    data: Seq<char>,
    model: Seq<char>,
    params_path: Seq<char>,
    t5: Seq<char>,
    c: JobConfigV,
)
    requires
        sp_parse_genevm_tail(data, model, params_path, t5) == Some(c),
    ensures
        ({
            &&& c.command matches JobCommandV::CreateEvmVerifier {
                data: d2,
                model: m2,
                params_path: k2,
                ..
            }
            &&& d2 == data
            &&& m2 == model
            &&& k2 == params_path
            &&& t5 == genevm_tail_text(c)
        }),
{
    match sp_eat_lit(t5, ",\"vk_path\":\""@) {
        None => {
            assert(false);
        },
        Some(t6) => {
            lemma_eat_lit_sound(t5, ",\"vk_path\":\""@, t6);
            match sp_scan_q(t6) {
                None => {
                    assert(false);
                },
                Some((vk_path, t7)) => {
                    lemma_scan_q_sound(t6, vk_path, t7);
                    match sp_eat_lit(t7, ",\"deployment_code_path\":\""@) {
                        None => {
                            assert(false);
                        },
                        Some(t8) => {
                            lemma_eat_lit_sound(t7, ",\"deployment_code_path\":\""@, t8);
                            match sp_scan_q(t8) {
                                None => {
                                    assert(false);
                                },
                                Some((deployment_code_path, t9)) => {
                                    lemma_scan_q_sound(t8, deployment_code_path, t9);
                                    match sp_eat_lit(t9, ",\"sol_code_path\":\""@) {
                                        None => {
                                            assert(false);
                                        },
                                        Some(t10) => {
                                            lemma_eat_lit_sound(t9, ",\"sol_code_path\":\""@, t10);
                                            match sp_scan_q(t10) {
                                                None => {
                                                    assert(false);
                                                },
                                                Some((sol_code_path, t11)) => {
                                                    lemma_scan_q_sound(t10, sol_code_path, t11);
                                                    match sp_parse_args(t11) {
                                                        None => {
                                                            assert(false);
                                                        },
                                                        Some(args) => {
                                                            lemma_parse_args_sound(t11, args);
                                                        },
                                                    }
                                                },
                                            }
                                        },
                                    }
                                },
                            }
                        },
                    }
                },
            }
        },
    }
}

/// PARSE SOUNDNESS: the parser accepts nothing but rendered documents —
/// whenever it yields a configuration, the input text is exactly that
/// configuration's rendering.  With the round-trip law this makes the
/// document format unambiguous: the canonical documents and the parsed
/// ones are the same set.
pub proof fn lemma_parse_config_sound(s: Seq<char>, c: JobConfigV)
    requires
        sp_parse_config(s) == Some(c),
    ensures
        s == spec_render_config(c),
{
    match sp_eat_lit(s, "{\"command\":{\"Forward\":{\"data\":\""@) {
        Some(t) => {
            lemma_eat_lit_sound(s, "{\"command\":{\"Forward\":{\"data\":\""@, t);
            lemma_parse_forward_sound(t, c);
        },
        None => match sp_eat_lit(s, "{\"command\":{\"Mock\":{\"data\":\""@) {
            Some(t) => {
                lemma_eat_lit_sound(s, "{\"command\":{\"Mock\":{\"data\":\""@, t);
                lemma_parse_mock_sound(t, c);
            },
            None => match sp_eat_lit(s, "{\"command\":{\"Prove\":{\"data\":\""@) {
                Some(t) => {
                    lemma_eat_lit_sound(s, "{\"command\":{\"Prove\":{\"data\":\""@, t);
                    lemma_parse_prove_sound(t, c);
                },
                None => match sp_eat_lit(s, "{\"command\":{\"CreateEVMVerifier\":{\"data\":\""@) {
                    Some(t) => {
                        lemma_eat_lit_sound(
                            s,
                            "{\"command\":{\"CreateEVMVerifier\":{\"data\":\""@,
                            t,
                        );
                        lemma_parse_genevm_sound(t, c);
                    },
                    None => {
                        assert(false);
                    },
                },
            },
        },
    }
}

/// RENDER INJECTIVITY: two well-formed configurations with the same
/// document are the same configuration — a document never stands for
/// two different jobs.
pub proof fn lemma_render_injective(c1: JobConfigV, c2: JobConfigV)
    requires
        c1.wf(),
        c2.wf(),
        spec_render_config(c1) == spec_render_config(c2),
    ensures
        c1 == c2,
{
    lemma_config_roundtrip(c1);
    lemma_config_roundtrip(c2);
}

} // verus!
