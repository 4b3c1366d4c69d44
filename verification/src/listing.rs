//! Model listing: maps the backend's model inventory to the client
//! dialect, and holds the fixed fallback listing served when the backend
//! cannot be queried.

use vstd::prelude::*;
use vstd::string::StringExecFns;
use vstd::utf8::encode_utf8;

use crate::clock::now_rfc3339;
use crate::config::MODEL_7B_SIZE;
use crate::mistral::MistralModel;
use crate::model_map::{
    client_model_name, estimate_model_size, estimated_model_size, model_to_client,
};
use crate::ollama::{OllamaListResponse, OllamaModel};

verus! {

/// The fixed two-entry listing served when the backend call fails.
pub fn fallback_models() -> (r: Vec<OllamaModel>)
    ensures
        r@.len() == 2,
        r@[0].name@ == "mistral:latest"@,
        r@[1].name@ == "mistral:7b"@,
        r@[0].size == MODEL_7B_SIZE,
        r@[1].size == MODEL_7B_SIZE,
        r@[0].digest@ == "default"@,
        r@[1].digest@ == "default"@,
{
    let mut models: Vec<OllamaModel> = Vec::new();
    models.push(
        OllamaModel {
            name: "mistral:latest".to_owned(),
            modified_at: now_rfc3339(),
            size: MODEL_7B_SIZE,
            digest: "default".to_owned(),
        },
    );
    models.push(
        OllamaModel {
            name: "mistral:7b".to_owned(),
            modified_at: now_rfc3339(),
            size: MODEL_7B_SIZE,
            digest: "default".to_owned(),
        },
    );
    models
}

/// Maps one backend model entry to the client listing shape: the name
/// through the model-name mapping, the size from the identifier's
/// substring estimate, and a digest derived from the identifier.
pub fn listing_entry(m: &MistralModel) -> (r: OllamaModel)
    ensures
        r.name@ == model_to_client(m.id@),
        r.size == estimated_model_size(encode_utf8(m.id@)),
        r.digest@ == "sha256:"@ + m.id@,
{
    let name = client_model_name(m.id.as_str());
    let size = estimate_model_size(m.id.as_str());
    let mut digest = "sha256:".to_owned();
    digest.append(m.id.as_str());
    OllamaModel { name, modified_at: now_rfc3339(), size, digest }
}

/// Maps the whole backend listing, entry by entry and in order.
pub fn build_model_listing(models: &Vec<MistralModel>) -> (r: OllamaListResponse)
    ensures
        r.models@.len() == models@.len(),
        forall|i: int|
            0 <= i < models@.len() ==> {
                &&& #[trigger] r.models@[i].name@ == model_to_client(models@[i].id@)
                &&& r.models@[i].size == estimated_model_size(encode_utf8(models@[i].id@))
                &&& r.models@[i].digest@ == "sha256:"@ + models@[i].id@
            },
{
    let mut out: Vec<OllamaModel> = Vec::new();
    let mut i: usize = 0;
    while i < models.len()
        invariant
            i <= models@.len(),
            out@.len() == i,
            forall|k: int|
                0 <= k < i ==> {
                    &&& #[trigger] out@[k].name@ == model_to_client(models@[k].id@)
                    &&& out@[k].size == estimated_model_size(encode_utf8(models@[k].id@))
                    &&& out@[k].digest@ == "sha256:"@ + models@[k].id@
                },
        decreases models@.len() - i,
    {
        let entry = listing_entry(&models[i]);
        out.push(entry);
        i += 1;
    }
    OllamaListResponse { models: out }
}

} // verus!
