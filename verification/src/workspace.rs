//! The workspace manager: per-project directory layout and artifact
//! paths.
//!
//! A project name supplied by a caller is validated before any path is
//! formed: a name holding a path separator, a double quote, or nothing
//! but dots (a current- or parent-directory reference) is rejected with
//! `InvalidProjectName`.  Path computation itself is pure; creating the
//! directory on disk is the embedding program's part, driven by the
//! pipeline's actions.

use vstd::prelude::*;
use vstd::string::*;

use crate::codec::no_quote;
use crate::config::path_ok;
use crate::ServiceError;

verus! {

/// A character that may appear in a project name: anything but a path
/// separator or a double quote.
pub open spec fn name_char_ok(c: char) -> bool {
    c != '/' && c != '\\' && c != '"'
}

/// A valid project name is non-empty, free of separators and quotes,
/// and not a dots-only directory reference.
///
/// This is slightly stricter than "no separator, no parent reference":
/// a double quote is excluded because every path built from the name is
/// embedded between quotes in the rendered configuration documents, and
/// an empty or dots-only name (`.`, `..`, `...`) would alias the
/// workspace root or a directory outside it instead of naming a
/// directory of its own.
pub open spec fn valid_project_name(s: Seq<char>) -> bool {
    &&& s.len() >= 1
    &&& forall|k: int| 0 <= k < s.len() ==> name_char_ok(#[trigger] s[k])
    &&& !(forall|k: int| 0 <= k < s.len() ==> #[trigger] s[k] == '.')
}

/// Runtime validation of a project name.
pub fn check_project_name(name: &str) -> (r: bool)
    ensures
        r == valid_project_name(name@),
{
    let n = name.unicode_len();
    if n == 0 {
        return false;
    }
    let mut all_dots = true;
    let mut i: usize = 0;
    while i < n
        invariant
            0 <= i <= n,
            n == name@.len(),
            forall|k: int| 0 <= k < i ==> name_char_ok(#[trigger] name@[k]),
            all_dots == (forall|k: int| 0 <= k < i ==> #[trigger] name@[k] == '.'),
        decreases n - i,
    {
        let c = name.get_char(i);
        if c == '/' || c == '\\' || c == '"' {
            return false;
        }
        if c != '.' {
            all_dots = false;
        }
        i += 1;
    }
    !all_dots
}

// ---------------------------------------------------------------------
// Canonical paths, as functions of the project name.
// ---------------------------------------------------------------------
pub open spec fn spec_base_dir(name: Seq<char>) -> Seq<char> {
    "./data/"@ + name
}

pub open spec fn spec_in_base(name: Seq<char>, file: Seq<char>) -> Seq<char> {
    spec_base_dir(name) + "/"@ + file
}

/// An artifact named after the project itself, such as `<name>.vk`.
pub open spec fn spec_named_artifact(name: Seq<char>, ext: Seq<char>) -> Seq<char> {
    spec_in_base(name, name + ext)
}

/// The kinds of artifact a workspace holds.
#[derive(Clone, Copy, Debug, PartialEq, Eq, Structural)]
pub enum ArtifactKind {
    InputData,
    OutputData,
    Model,
    VerificationKey,
    Proof,
    SolCode,
    DeploymentCode,
    Params,
}

/// The full path set of one project's workspace.  The parameters file is
/// the one shared global: expensive setup data reused across projects.
pub struct WorkspacePaths {
    pub base_dir: String,
    pub input_json: String,
    pub output_json: String,
    pub network_onnx: String,
    pub vk: String,
    pub proof: String,
    pub sol_code: String,
    pub deployment_code: String,
    pub params: String,
    pub cfg_forward: String,
    pub cfg_mock: String,
    pub cfg_prove: String,
    pub cfg_genevm: String,
}

impl WorkspacePaths {
    /// Every field holds its canonical path for `name`.
    pub open spec fn is_for(self, name: Seq<char>) -> bool {
        &&& self.base_dir@ == spec_base_dir(name)
        &&& self.input_json@ == spec_in_base(name, "input.json"@)
        &&& self.output_json@ == spec_in_base(name, "output.json"@)
        &&& self.network_onnx@ == spec_in_base(name, "network.onnx"@)
        &&& self.vk@ == spec_named_artifact(name, ".vk"@)
        &&& self.proof@ == spec_named_artifact(name, ".pf"@)
        &&& self.sol_code@ == spec_named_artifact(name, ".sol"@)
        &&& self.deployment_code@ == spec_named_artifact(name, ".code"@)
        &&& self.params@ == "kzg.params"@
        &&& self.cfg_forward@ == spec_in_base(name, "forward_"@ + name + ".json"@)
        &&& self.cfg_mock@ == spec_in_base(name, "mock_"@ + name + ".json"@)
        &&& self.cfg_prove@ == spec_in_base(name, "prove_"@ + name + ".json"@)
        &&& self.cfg_genevm@ == spec_in_base(name, "genevm_"@ + name + ".json"@)
    }

    /// The canonical relative path of one artifact kind.  Pure: no I/O.
    pub fn path_for(&self, kind: ArtifactKind) -> (r: &String)
        ensures
            match kind {
                ArtifactKind::InputData => r == &self.input_json,
                ArtifactKind::OutputData => r == &self.output_json,
                ArtifactKind::Model => r == &self.network_onnx,
                ArtifactKind::VerificationKey => r == &self.vk,
                ArtifactKind::Proof => r == &self.proof,
                ArtifactKind::SolCode => r == &self.sol_code,
                ArtifactKind::DeploymentCode => r == &self.deployment_code,
                ArtifactKind::Params => r == &self.params,
            },
    {
        match kind {
            ArtifactKind::InputData => &self.input_json,
            ArtifactKind::OutputData => &self.output_json,
            ArtifactKind::Model => &self.network_onnx,
            ArtifactKind::VerificationKey => &self.vk,
            ArtifactKind::Proof => &self.proof,
            ArtifactKind::SolCode => &self.sol_code,
            ArtifactKind::DeploymentCode => &self.deployment_code,
            ArtifactKind::Params => &self.params,
        }
    }
}

fn in_base(name: &str, file: &str) -> (r: String)
    ensures
        r@ == spec_in_base(name@, file@),
{
    let base = String::from_str("./data/").concat(name);
    base.concat("/").concat(file)
}

fn named_artifact(name: &str, ext: &str) -> (r: String)
    ensures
        r@ == spec_named_artifact(name@, ext@),
{
    let file = String::from_str(name).concat(ext);
    in_base(name, file.as_str())
}

fn cfg_file(name: &str, prefix: &str) -> (r: String)
    ensures
        r@ == spec_in_base(name@, prefix@ + name@ + ".json"@),
{
    let file = String::from_str(prefix).concat(name).concat(".json");
    in_base(name, file.as_str())
}

/// Validates the project name and computes the project's canonical path
/// set.  The same name always maps to the same paths, so calling this
/// any number of times is harmless; the embedding program creates the
/// base directory only if it is absent and never deletes anything.
pub fn ensure_project(name: &str) -> (r: Result<WorkspacePaths, ServiceError>)
    ensures
        valid_project_name(name@) ==> (r matches Ok(w) && w.is_for(name@)),
        !valid_project_name(name@) ==> r == Err::<WorkspacePaths, ServiceError>(
            ServiceError::InvalidProjectName,
        ),
{
    if !check_project_name(name) {
        return Err(ServiceError::InvalidProjectName);
    }
    Ok(
        WorkspacePaths {
            base_dir: String::from_str("./data/").concat(name),
            input_json: in_base(name, "input.json"),
            output_json: in_base(name, "output.json"),
            network_onnx: in_base(name, "network.onnx"),
            vk: named_artifact(name, ".vk"),
            proof: named_artifact(name, ".pf"),
            sol_code: named_artifact(name, ".sol"),
            deployment_code: named_artifact(name, ".code"),
            params: String::from_str("kzg.params"),
            cfg_forward: cfg_file(name, "forward_"),
            cfg_mock: cfg_file(name, "mock_"),
            cfg_prove: cfg_file(name, "prove_"),
            cfg_genevm: cfg_file(name, "genevm_"),
        },
    )
}

/// WORKSPACE DETERMINISM: the path set of a project is a function of
/// its name alone — any two path sets computed for the same name agree
/// in every field.  With the embedding program creating the base
/// directory only when absent and never deleting, repeating
/// `ensure_project` cannot disturb an existing workspace.
pub proof fn lemma_workspace_paths_deterministic(
    name: Seq<char>,
    w1: WorkspacePaths,
    w2: WorkspacePaths,
)
    requires
        w1.is_for(name),
        w2.is_for(name),
    ensures
        w1.base_dir@ == w2.base_dir@,
        w1.input_json@ == w2.input_json@,
        w1.output_json@ == w2.output_json@,
        w1.network_onnx@ == w2.network_onnx@,
        w1.vk@ == w2.vk@,
        w1.proof@ == w2.proof@,
        w1.sol_code@ == w2.sol_code@,
        w1.deployment_code@ == w2.deployment_code@,
        w1.params@ == w2.params@,
        w1.cfg_forward@ == w2.cfg_forward@,
        w1.cfg_mock@ == w2.cfg_mock@,
        w1.cfg_prove@ == w2.cfg_prove@,
        w1.cfg_genevm@ == w2.cfg_genevm@,
{
}

// ---------------------------------------------------------------------
// Paths of a valid project can be embedded in configuration documents.
// ---------------------------------------------------------------------
proof fn lemma_literal_path_facts()
    ensures
        no_quote("./data/"@),
        no_quote("/"@),
        no_quote("input.json"@),
        no_quote("output.json"@),
        no_quote("network.onnx"@),
        no_quote(".vk"@),
        no_quote(".pf"@),
        no_quote(".sol"@),
        no_quote(".code"@),
        no_quote("kzg.params"@),
        no_quote("forward_"@),
        no_quote("mock_"@),
        no_quote("prove_"@),
        no_quote("genevm_"@),
        no_quote(".json"@),
        "./data/"@.len() == 7,
        "kzg.params"@.len() == 10,
{
    reveal_strlit("./data/");
    reveal_strlit("/");
    reveal_strlit("input.json");
    reveal_strlit("output.json");
    reveal_strlit("network.onnx");
    reveal_strlit(".vk");
    reveal_strlit(".pf");
    reveal_strlit(".sol");
    reveal_strlit(".code");
    reveal_strlit("kzg.params");
    reveal_strlit("forward_");
    reveal_strlit("mock_");
    reveal_strlit("prove_");
    reveal_strlit("genevm_");
    reveal_strlit(".json");
    assert("./data/"@ =~= seq!['.', '/', 'd', 'a', 't', 'a', '/']);
    assert("/"@ =~= seq!['/']);
    assert("input.json"@ =~= seq!['i', 'n', 'p', 'u', 't', '.', 'j', 's', 'o', 'n']);
    assert("output.json"@ =~= seq!['o', 'u', 't', 'p', 'u', 't', '.', 'j', 's', 'o', 'n']);
    assert("network.onnx"@ =~= seq!['n', 'e', 't', 'w', 'o', 'r', 'k', '.', 'o', 'n', 'n', 'x']);
    assert(".vk"@ =~= seq!['.', 'v', 'k']);
    assert(".pf"@ =~= seq!['.', 'p', 'f']);
    assert(".sol"@ =~= seq!['.', 's', 'o', 'l']);
    assert(".code"@ =~= seq!['.', 'c', 'o', 'd', 'e']);
    assert("kzg.params"@ =~= seq!['k', 'z', 'g', '.', 'p', 'a', 'r', 'a', 'm', 's']);
    assert("forward_"@ =~= seq!['f', 'o', 'r', 'w', 'a', 'r', 'd', '_']);
    assert("mock_"@ =~= seq!['m', 'o', 'c', 'k', '_']);
    assert("prove_"@ =~= seq!['p', 'r', 'o', 'v', 'e', '_']);
    assert("genevm_"@ =~= seq!['g', 'e', 'n', 'e', 'v', 'm', '_']);
    assert(".json"@ =~= seq!['.', 'j', 's', 'o', 'n']);
}

/// Concatenations of quote-free texts stay quote free.
proof fn lemma_no_quote_concat(a: Seq<char>, b: Seq<char>)
    requires
        no_quote(a),
        no_quote(b),
    ensures
        no_quote(a + b),
{
    assert forall|k: int| 0 <= k < (a + b).len() implies (a + b)[k] != '"' by {
        if k < a.len() {
            assert((a + b)[k] == a[k]);
        } else {
            assert((a + b)[k] == b[k - a.len()]);
        }
    }
}

/// A valid project name is quote free.
proof fn lemma_valid_name_no_quote(name: Seq<char>)
    requires
        valid_project_name(name),
    ensures
        no_quote(name),
{
}

/// PATH EMBEDDABILITY: every path computed for a valid project name is
/// non-empty and quote free, so any configuration built from these
/// paths is well formed and renders.
pub proof fn lemma_workspace_paths_embeddable(name: Seq<char>)
    requires
        valid_project_name(name),
    ensures
        path_ok(spec_base_dir(name)),
        path_ok(spec_in_base(name, "input.json"@)),
        path_ok(spec_in_base(name, "output.json"@)),
        path_ok(spec_in_base(name, "network.onnx"@)),
        path_ok(spec_named_artifact(name, ".vk"@)),
        path_ok(spec_named_artifact(name, ".pf"@)),
        path_ok(spec_named_artifact(name, ".sol"@)),
        path_ok(spec_named_artifact(name, ".code"@)),
        path_ok("kzg.params"@),
        path_ok(spec_in_base(name, "forward_"@ + name + ".json"@)),
        path_ok(spec_in_base(name, "mock_"@ + name + ".json"@)),
        path_ok(spec_in_base(name, "prove_"@ + name + ".json"@)),
        path_ok(spec_in_base(name, "genevm_"@ + name + ".json"@)),
{
    lemma_literal_path_facts();
    lemma_valid_name_no_quote(name);
    lemma_no_quote_concat("./data/"@, name);
    lemma_no_quote_concat(spec_base_dir(name), "/"@);
    let dir = spec_base_dir(name) + "/"@;
    lemma_no_quote_concat(dir, "input.json"@);
    lemma_no_quote_concat(dir, "output.json"@);
    lemma_no_quote_concat(dir, "network.onnx"@);
    lemma_no_quote_concat(name, ".vk"@);
    lemma_no_quote_concat(dir, name + ".vk"@);
    lemma_no_quote_concat(name, ".pf"@);
    lemma_no_quote_concat(dir, name + ".pf"@);
    lemma_no_quote_concat(name, ".sol"@);
    lemma_no_quote_concat(dir, name + ".sol"@);
    lemma_no_quote_concat(name, ".code"@);
    lemma_no_quote_concat(dir, name + ".code"@);
    lemma_no_quote_concat("forward_"@, name);
    lemma_no_quote_concat("forward_"@ + name, ".json"@);
    lemma_no_quote_concat(dir, "forward_"@ + name + ".json"@);
    lemma_no_quote_concat("mock_"@, name);
    lemma_no_quote_concat("mock_"@ + name, ".json"@);
    lemma_no_quote_concat(dir, "mock_"@ + name + ".json"@);
    lemma_no_quote_concat("prove_"@, name);
    lemma_no_quote_concat("prove_"@ + name, ".json"@);
    lemma_no_quote_concat(dir, "prove_"@ + name + ".json"@);
    lemma_no_quote_concat("genevm_"@, name);
    lemma_no_quote_concat("genevm_"@ + name, ".json"@);
    lemma_no_quote_concat(dir, "genevm_"@ + name + ".json"@);
}

} // verus!
