//! Request, response and envelope records exchanged with the transport
//! layer, and the handle types of the two serving surfaces.

use vstd::prelude::*;

use crate::record::EchoData;

verus! {

/// Handle for the HTTP-facing server.
pub struct EzklServer {}

/// Handle for the JSON-RPC surface.
pub struct HunterZHunterRpc {}

impl HunterZHunterRpc {
    pub fn new() -> Self {
        HunterZHunterRpc {  }
    }
}

/// A JSON-RPC envelope around a kind-specific parameter record.
pub struct JsonRpcRequest<T> {
    pub jsonrpc: String,
    pub method: String,
    pub params: T,
    pub id: u64,
}

/// The tensor triple as it comes back from the engine's output artifact.
pub struct JsonRpcParams {
    pub input_data: Vec<Vec<i64>>,
    pub input_shapes: Vec<Vec<usize>>,
    pub output_data: Vec<Vec<i64>>,
}

/// A model blob as submitted by a caller, base64 encoded.
pub struct OnnxFileData {
    pub onnx_file_content: String,
}

/// A request that carries a project, a tensor record and a model blob.
pub struct CreateEvmContractData {
    pub project_name: String,
    pub echo_data: EchoData,
    pub onnx_file_data: String,
}

/// A proof artifact as the engine writes it: instance counts, instance
/// values and the raw proof bytes, read back verbatim.
pub struct ProofData {
    pub num_instance: Vec<usize>,
    pub instances: Vec<Vec<Vec<u64>>>,
    pub proof: Vec<u8>,
}

/// The parameters of the settlement call that pays a winner, assembled
/// by the embedding program when a proof run is accepted.
pub struct VerifyandAwardParams {
    pub hunt_id: String,
    pub winner: String,
    pub proof: String,
}

impl VerifyandAwardParams {
    pub fn new(hunt_id: String, winner: String, proof: String) -> (r: Self)
        ensures
            r.hunt_id@ == hunt_id@,
            r.winner@ == winner@,
            r.proof@ == proof@,
    {
        VerifyandAwardParams { hunt_id, winner, proof }
    }
}

} // verus!
