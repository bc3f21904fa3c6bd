//! Resolution of the model artifact coordinates.
//!
//! A model is identified by a (model identifier, revision) pair; three named
//! artifacts are fetched under that pair: the architecture configuration, the
//! tokenizer definition, and a weight file in one of two interchangeable
//! binary formats. The fetch itself is an external collaborator; this module
//! only decides, deterministically, which coordinates and names to ask for.

use vstd::prelude::*;

verus! {

/// The model identifier used when the caller supplies none.
pub open spec fn default_model_id() -> Seq<char> {
    "sentence-transformers/all-MiniLM-L6-v2"@
}

/// The revision used when the caller supplies neither identifier nor revision.
pub open spec fn default_revision() -> Seq<char> {
    "refs/pr/21"@
}

/// Resolves the (model identifier, revision) pair from optional overrides.
///
/// An explicit identifier without a revision pins the `main` revision; a
/// wholly-unspecified request resolves to a well-known default pair.
pub fn resolve_model_spec(model_id: Option<String>, revision: Option<String>) -> (r: (
    String,
    String,
))
    ensures
        match (model_id, revision) {
            (Some(m), Some(rev)) => r.0@ == m@ && r.1@ == rev@,
            (Some(m), None) => r.0@ == m@ && r.1@ == "main"@,
            (None, Some(rev)) => r.0@ == default_model_id() && r.1@ == rev@,
            (None, None) => r.0@ == default_model_id() && r.1@ == default_revision(),
        },
{
    match (model_id, revision) {
        (Some(m), Some(rev)) => (m, rev),
        (Some(m), None) => (m, "main".to_owned()),
        (None, Some(rev)) => ("sentence-transformers/all-MiniLM-L6-v2".to_owned(), rev),
        (None, None) => (
            "sentence-transformers/all-MiniLM-L6-v2".to_owned(),
            "refs/pr/21".to_owned(),
        ),
    }
}

/// The artifact name of the architecture configuration document.
pub fn config_artifact_name() -> (r: &'static str)
    ensures
        r@ == "config.json"@,
{
    "config.json"
}

/// The artifact name of the tokenizer definition document.
pub fn tokenizer_artifact_name() -> (r: &'static str)
    ensures
        r@ == "tokenizer.json"@,
{
    "tokenizer.json"
}

/// The artifact name of the weight file for the requested weight format.
pub fn weights_artifact_name(use_torch: bool) -> (r: &'static str)
    ensures
        use_torch ==> r@ == "pytorch_model.bin"@,
        !use_torch ==> r@ == "model.safetensors"@,
{
    if use_torch {
        "pytorch_model.bin"
    } else {
        "model.safetensors"
    }
}

} // verus!
