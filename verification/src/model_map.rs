//! Model-name mapping between the client-facing names and the backend
//! identifiers, plus the size estimate shown in model listings. Both
//! directions of the mapping are total: unmapped names pass through
//! unchanged.

use vstd::prelude::*;
use vstd::string::StringSliceAdditionalSpecFns;

use crate::bytes::{contains_seq, slice_contains, str_eq};
use crate::config::{DEFAULT_MODEL_SIZE, MODEL_70B_SIZE, MODEL_7B_SIZE, MODEL_8X7B_SIZE};

verus! {

/// Backend identifier for a client-facing model name; unmapped names pass
/// through unchanged.
pub open spec fn model_to_backend(name: Seq<char>) -> Seq<char> {
    if name == "mistral:latest"@ || name == "mistral:7b"@ {
        "mistral-7b"@
    } else if name == "mixtral:latest"@ || name == "mixtral:8x7b"@ {
        "mixtral-8x7b"@
    } else {
        name
    }
}

/// Client-facing name for a backend identifier; unmapped identifiers pass
/// through unchanged.
pub open spec fn model_to_client(id: Seq<char>) -> Seq<char> {
    if id == "mistral-7b"@ {
        "mistral:latest"@
    } else if id == "mixtral-8x7b"@ {
        "mixtral:latest"@
    } else {
        id
    }
}

pub fn translate_model_name(ollama_name: &str) -> (r: String)
    ensures
        r@ == model_to_backend(ollama_name@),
{
    if str_eq(ollama_name, "mistral:latest") || str_eq(ollama_name, "mistral:7b") {
        "mistral-7b".to_owned()
    } else if str_eq(ollama_name, "mixtral:latest") || str_eq(ollama_name, "mixtral:8x7b") {
        "mixtral-8x7b".to_owned()
    } else {
        ollama_name.to_owned()
    }
}

pub fn client_model_name(backend_id: &str) -> (r: String)
    ensures
        r@ == model_to_client(backend_id@),
{
    if str_eq(backend_id, "mistral-7b") {
        "mistral:latest".to_owned()
    } else if str_eq(backend_id, "mixtral-8x7b") {
        "mixtral:latest".to_owned()
    } else {
        backend_id.to_owned()
    }
}

/// Mapping a client model name to the backend and back returns the original
/// name: for the canonical names and for every unmapped one. The alias
/// spellings that share a backend identifier with a canonical name, and the
/// bare backend identifiers themselves, are the only names excluded.
pub proof fn lemma_model_name_round_trip(name: Seq<char>)
    requires
        name != "mistral:7b"@,
        name != "mixtral:8x7b"@,
        name != "mistral-7b"@,
        name != "mixtral-8x7b"@,
    ensures
        model_to_client(model_to_backend(name)) == name,
{
    reveal_strlit("mistral-7b");
    reveal_strlit("mixtral-8x7b");
    if name == "mistral:latest"@ {
        assert(model_to_backend(name) == "mistral-7b"@);
    } else if name == "mixtral:latest"@ {
        assert(model_to_backend(name) == "mixtral-8x7b"@);
        assert("mixtral-8x7b"@ != "mistral-7b"@);
    } else {
        assert(model_to_backend(name) == name);
    }
}

/// Mapping a backend identifier to the client dialect and back returns the
/// original identifier, for every identifier that is not itself one of the
/// client-facing names.
pub proof fn lemma_model_id_round_trip(id: Seq<char>)
    requires
        id != "mistral:latest"@,
        id != "mistral:7b"@,
        id != "mixtral:latest"@,
        id != "mixtral:8x7b"@,
    ensures
        model_to_backend(model_to_client(id)) == id,
{
    reveal_strlit("mistral:latest");
    reveal_strlit("mixtral:latest");
    reveal_strlit("mistral:7b");
    if id == "mistral-7b"@ {
        assert(model_to_client(id) == "mistral:latest"@);
    } else if id == "mixtral-8x7b"@ {
        assert(model_to_client(id) == "mixtral:latest"@);
        assert("mixtral:latest"@ != "mistral:latest"@) by {
            assert("mixtral:latest"@[2] != "mistral:latest"@[2]);
        }
    } else {
        assert(model_to_client(id) == id);
    }
}

/// Disk-size figure for a model identifier, from substring matches against
/// a small constant table; the most specific pattern is tried first, and
/// the first match wins.
pub open spec fn estimated_model_size(id: Seq<u8>) -> i64 {
    if contains_seq(id, "8x7b".spec_bytes()) {
        MODEL_8X7B_SIZE
    } else if contains_seq(id, "7b".spec_bytes()) {
        MODEL_7B_SIZE
    } else if contains_seq(id, "70b".spec_bytes()) {
        MODEL_70B_SIZE
    } else {
        DEFAULT_MODEL_SIZE
    }
}

pub fn estimate_model_size(model_id: &str) -> (r: i64)
    ensures
        r == estimated_model_size(model_id.spec_bytes()),
{
    let id = model_id.as_bytes();
    if slice_contains(id, "8x7b".as_bytes()) {
        MODEL_8X7B_SIZE
    } else if slice_contains(id, "7b".as_bytes()) {
        MODEL_7B_SIZE
    } else if slice_contains(id, "70b".as_bytes()) {
        MODEL_70B_SIZE
    } else {
        DEFAULT_MODEL_SIZE
    }
}

} // verus!
