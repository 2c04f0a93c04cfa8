use vstd::prelude::*;

use fastembed::EmbeddingModel;
use fastembed::TextEmbedding;
use fastembed::TextInitOptions;

verus! {

/// The opaque third-party inference capability: a loaded text-embedding
/// model. The library never looks inside it; it only constructs it, stores
/// it in the resource slot, and hands it to the engine for inference.
#[verifier::external_type_specification]
#[verifier::external_body]
pub struct ExTextEmbedding(TextEmbedding);

/// Number of components in every embedding the fixed default model variant
/// (BGE-small-en-v1.5) produces; fastembed's model list records this
/// dimensionality for that variant.
pub const EMBEDDING_DIM: usize = 384;

/// Witness that the inference runtime's dynamic library has been loaded into
/// this process. Only `load_runtime` creates one, so holding it shows that
/// the load already succeeded.
pub struct RuntimeHandle {
    witness: (),
}

/// Relies on ort::init_from: loads the ONNX Runtime dynamic library under
/// its default name for this platform, returning an error instead of
/// panicking when it cannot be loaded or exports an unusable version. On
/// success the runtime stays loaded for the life of the process, so later
/// session creation no longer reaches ort's load-failure panic; the returned
/// environment builder is dropped, as only the load itself is wanted here.
/// The failure is flattened to its message.
#[verifier::external_body]
pub(crate) fn load_runtime() -> (r: Result<RuntimeHandle, String>) {
    match ort::init_from("libonnxruntime.so") {
        Ok(_) => Ok(RuntimeHandle { witness: () }),
        Err(e) => Err(e.to_string()),
    }
}

/// Relies on fastembed::TextEmbedding::try_new: constructs the fixed default
/// model variant (EmbeddingModel::BGESmallENV15), fetching and loading its
/// weights, which may take long and may fail for environmental reasons
/// (download error, corrupt data, resource exhaustion). Nothing is promised
/// of the outcome; the failure is flattened to its message. The witness
/// attests that the inference runtime is already loaded, which keeps session
/// creation off ort's load-failure panic path.
#[verifier::external_body]
pub(crate) fn construct_model(_runtime: &RuntimeHandle) -> (r: Result<TextEmbedding, String>) {
    let options = TextInitOptions::new(EmbeddingModel::BGESmallENV15)
        .with_show_download_progress(true);
    TextEmbedding::try_new(options).map_err(|e| e.to_string())
}

/// Relies on fastembed::TextEmbedding::embed: for a singleton batch it
/// returns one embedding per input text, of the model's fixed dimensionality
/// (384 for BGE-small-en-v1.5 in fastembed's model list). The components are
/// handed back as their bit patterns; the failure is flattened to its
/// message.
#[verifier::external_body]
pub(crate) fn embed_with(model: &mut TextEmbedding, text: &str) -> (r: Result<Vec<u32>, String>)
    ensures
        r is Ok ==> r->Ok_0@.len() == EMBEDDING_DIM,
{
    match model.embed([text], None) {
        Ok(out) => match out.into_iter().next() {
            Some(v) => Ok(v.iter().map(|c| c.to_bits()).collect()),
            None => Err(String::from("embedding backend returned no output")),
        },
        Err(e) => Err(e.to_string()),
    }
}

} // verus!
